//! The USB mass-storage device that shows the storage to a host.

use vstd::prelude::*;

verus! {

/// A storage that can be shown over USB. `config_usb` hands the storage to
/// the USB stack and reports the stack's failure as a message.
/// `usb_outcome` says which outcomes a storage can report; a storage that
/// says nothing of it can report any.
pub trait Storage {
    /// Whether `outcome` is one that `config_usb` can report for this
    /// storage.
    open spec fn usb_outcome(&self, outcome: Result<(), String>) -> bool {
        true
    }

    fn config_usb(&self) -> (outcome: Result<(), String>)
        ensures
            self.usb_outcome(outcome),
    ;
}

/// How the device shows itself on USB.
#[derive(Debug, Default, Clone)]
pub struct MSCDeviceConfig {
    pub high_speed: bool,
}

/// The device: its configuration and the storage it shows.
pub struct MSCDevice<S> {
    config: MSCDeviceConfig,
    storage: S,
}

impl<S: Storage> MSCDevice<S> {
    /// The configuration that the device was made with.
    pub closed spec fn config(&self) -> MSCDeviceConfig {
        self.config
    }

    /// The storage that the device shows.
    pub closed spec fn storage(&self) -> S {
        self.storage
    }

    /// A device that shows `storage` as `config` says.
    pub fn new(config: &MSCDeviceConfig, storage: S) -> (device: Self)
        ensures
            device.config() == *config,
            device.storage() == storage,
    {
        MSCDevice { config: MSCDeviceConfig { high_speed: config.high_speed }, storage }
    }

    /// Whether the device was configured for high speed.
    pub fn high_speed(&self) -> (high_speed: bool)
        ensures
            high_speed == self.config().high_speed,
    {
        self.config.high_speed
    }

    /// Hands the storage to the USB stack and returns what the storage
    /// reports of it: an outcome of the storage's own `config_usb`. The
    /// device itself is not changed. The stack's driver is installed by the
    /// caller once this has succeeded.
    pub fn install(&mut self) -> (configured: Result<(), String>)
        ensures
            *final(self) == *old(self),
            old(self).storage().usb_outcome(configured),
    {
        self.storage.config_usb()
    }
}

/// What the USB stack reports of the storage it shows.
#[derive(Debug, Copy, Clone, PartialEq, Eq, Structural)]
pub enum MscEventType {
    /// The storage was mounted or unmounted.
    MountChanged,
    /// The storage is about to be mounted or unmounted.
    PremountChanged,
    /// An event that the device does not know.
    Unknown,
}

/// The name under which an event is logged.
pub open spec fn msc_event_name(event_type: MscEventType) -> Seq<char> {
    match event_type {
        MscEventType::MountChanged => "MOUNT_CHANGED"@,
        MscEventType::PremountChanged => "PREMOUNT_CHANGED"@,
        MscEventType::Unknown => "Unknown"@,
    }
}

/// The name under which an event is logged.
pub fn msc_event_type_to_str(event_type: MscEventType) -> (name: String)
    ensures
        name@ == msc_event_name(event_type),
{
    match event_type {
        MscEventType::MountChanged => "MOUNT_CHANGED".to_owned(),
        MscEventType::PremountChanged => "PREMOUNT_CHANGED".to_owned(),
        MscEventType::Unknown => "Unknown".to_owned(),
    }
}

} // verus!
