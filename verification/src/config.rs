//! The device's configuration, as read from its configuration file.

use vstd::prelude::*;

verus! {

/// How the device authenticates to the wireless network.
#[derive(Debug, Copy, Clone, PartialEq, Eq, Structural)]
pub enum AuthMethod {
    /// An open network; the wireless driver knows it as `None`.
    NoAuth,
    WEP,
    WPA,
    WPA2Personal,
    WPAWPA2Personal,
    WPA2Enterprise,
    WPA3Personal,
    WPA2WPA3Personal,
    WAPIPersonal,
}

/// The name under which the wireless driver knows an authentication method.
pub open spec fn auth_method_name(method: AuthMethod) -> Seq<char> {
    match method {
        AuthMethod::NoAuth => "None"@,
        AuthMethod::WEP => "WEP"@,
        AuthMethod::WPA => "WPA"@,
        AuthMethod::WPA2Personal => "WPA2Personal"@,
        AuthMethod::WPA3Personal => "WPA3Personal"@,
        AuthMethod::WPAWPA2Personal => "WPAWPA2Personal"@,
        AuthMethod::WPA2Enterprise => "WPA2Enterprise"@,
        AuthMethod::WPA2WPA3Personal => "WPA2WPA3Personal"@,
        AuthMethod::WAPIPersonal => "WAPIPersonal"@,
    }
}

impl AuthMethod {
    /// The name under which the wireless driver knows the method.
    pub fn name(&self) -> (name: &'static str)
        ensures
            name@ == auth_method_name(*self),
    {
        match self {
            AuthMethod::NoAuth => "None",
            AuthMethod::WEP => "WEP",
            AuthMethod::WPA => "WPA",
            AuthMethod::WPA2Personal => "WPA2Personal",
            AuthMethod::WPA3Personal => "WPA3Personal",
            AuthMethod::WPAWPA2Personal => "WPAWPA2Personal",
            AuthMethod::WPA2Enterprise => "WPA2Enterprise",
            AuthMethod::WPA2WPA3Personal => "WPA2WPA3Personal",
            AuthMethod::WAPIPersonal => "WAPIPersonal",
        }
    }
}

/// The wireless network to join.
pub struct Wifi {
    pub ssid: String,
    pub auth_method: Option<AuthMethod>,
    pub password: Option<String>,
}

impl Wifi {
    /// The text shown in place of a password.
    pub open spec fn mask() -> Seq<char> {
        "****"@
    }

    /// The settings as they may be shown: network name and method as they
    /// are, and the mask where the password stands.
    pub fn redacted(&self) -> (shown: Wifi)
        ensures
            shown.ssid@ == self.ssid@,
            shown.auth_method == self.auth_method,
            shown.password matches Some(password) && password@ == Self::mask(),
    {
        Wifi {
            ssid: self.ssid.clone(),
            auth_method: self.auth_method,
            password: Some("****".to_owned()),
        }
    }
}

/// The control server to connect to.
#[derive(Debug, Clone, PartialEq, Eq)]
pub struct Api {
    pub endpoint: String,
}

/// How the device shows itself on USB.
#[derive(Debug, Copy, Clone, PartialEq, Eq, Structural)]
pub struct Usb {
    pub high_speed: bool,
}

impl Default for Usb {
    /// High speed unless the configuration says otherwise.
    fn default() -> (usb: Usb)
        ensures
            usb.high_speed,
    {
        Usb { high_speed: true }
    }
}

/// The whole configuration.
pub struct Config {
    pub wifi: Wifi,
    pub api: Api,
    pub usb: Option<Usb>,
}

/// Takes the outcome of reading the configuration file: the configuration
/// where reading succeeded, and none where it failed. A device without a
/// configuration stays offline.
pub fn load_config(read: Result<Config, String>) -> (config: Option<Config>)
    ensures
        config == match read {
            Ok(config) => Some(config),
            Err(_) => None::<Config>,
        },
{
    match read {
        Ok(config) => Some(config),
        Err(_) => None,
    }
}

} // verus!
