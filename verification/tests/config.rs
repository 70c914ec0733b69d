use securedash::benchmark::{BenchmarkReport, StorageBenchmark};
use securedash::config::{load_config, Api, AuthMethod, Config, Usb, Wifi};
use securedash::lifecycle::{Medium, PhaseError, StoragePhase};
use securedash::msc_device::{
    msc_event_type_to_str, MSCDevice, MSCDeviceConfig, MscEventType, Storage,
};

use std::cell::Cell;
use std::rc::Rc;

fn config() -> Config {
    Config {
        wifi: Wifi {
            ssid: "home".to_string(),
            auth_method: Some(AuthMethod::WPA2Personal),
            password: Some("hunter2".to_string()),
        },
        api: Api { endpoint: "wss://example.invalid/ws".to_string() },
        usb: None,
    }
}

#[test]
fn load_config_keeps_what_was_read() {
    let loaded = load_config(Ok(config())).unwrap();
    assert_eq!(loaded.wifi.ssid, "home");
    assert_eq!(loaded.wifi.auth_method, Some(AuthMethod::WPA2Personal));
    assert_eq!(loaded.wifi.password.as_deref(), Some("hunter2"));
    assert_eq!(loaded.api, Api { endpoint: "wss://example.invalid/ws".to_string() });
    assert_eq!(loaded.usb, None);
}

#[test]
fn load_config_gives_none_on_failure() {
    assert!(load_config(Err("No such device (os error 19)".to_string())).is_none());
}

#[test]
fn redacted_wifi_hides_the_password() {
    let shown = config().wifi.redacted();
    assert_eq!(shown.ssid, "home");
    assert_eq!(shown.auth_method, Some(AuthMethod::WPA2Personal));
    assert_eq!(shown.password.as_deref(), Some("****"));
    let open = Wifi { ssid: "cafe".to_string(), auth_method: None, password: None };
    assert_eq!(open.redacted().password.as_deref(), Some("****"));
}

#[test]
fn usb_defaults_to_high_speed() {
    assert_eq!(Usb::default(), Usb { high_speed: true });
}

#[test]
fn auth_method_names() {
    let names: Vec<&str> = [
        AuthMethod::NoAuth,
        AuthMethod::WEP,
        AuthMethod::WPA,
        AuthMethod::WPA2Personal,
        AuthMethod::WPAWPA2Personal,
        AuthMethod::WPA2Enterprise,
        AuthMethod::WPA3Personal,
        AuthMethod::WPA2WPA3Personal,
        AuthMethod::WAPIPersonal,
    ]
    .iter()
    .map(AuthMethod::name)
    .collect();
    assert_eq!(
        names,
        vec![
            "None",
            "WEP",
            "WPA",
            "WPA2Personal",
            "WPAWPA2Personal",
            "WPA2Enterprise",
            "WPA3Personal",
            "WPA2WPA3Personal",
            "WAPIPersonal",
        ]
    );
}

fn benchmark(file_size: usize, chunk_size: usize, loop_times: usize) -> StorageBenchmark {
    StorageBenchmark { path: "/disk/bench.bin".to_string(), file_size, chunk_size, loop_times }
}

#[test]
fn next_write_is_a_chunk_or_the_rest() {
    let bench = benchmark(10, 4, 1);
    assert_eq!(bench.next_write(10), 4);
    assert_eq!(bench.next_write(4), 4);
    assert_eq!(bench.next_write(2), 2);
    assert_eq!(bench.next_write(0), 0);
    let mut remaining = bench.file_size;
    let mut writes = Vec::new();
    while remaining > 0 {
        let length = bench.next_write(remaining);
        writes.push(length);
        remaining -= length;
    }
    assert_eq!(writes, vec![4, 4, 2]);
}

#[test]
fn benchmark_terminates_unless_chunks_are_empty() {
    assert!(benchmark(10, 4, 1).terminates());
    assert!(benchmark(0, 0, 1).terminates());
    assert!(!benchmark(10, 0, 1).terminates());
}

#[test]
fn run_collects_every_duration() {
    let calls = Rc::new(Cell::new(0u64));
    let counter = calls.clone();
    let report = benchmark(10, 4, 3).run(move || {
        counter.set(counter.get() + 1);
        Ok(counter.get() * 100)
    });
    assert_eq!(report, Ok(BenchmarkReport { durations: vec![100, 200, 300], total: 600 }));
    assert_eq!(calls.get(), 3);
}

#[test]
fn run_without_loops_measures_nothing() {
    let report = benchmark(10, 4, 0).run(|| Err("never called".to_string()));
    assert_eq!(report, Ok(BenchmarkReport { durations: vec![], total: 0 }));
}

#[test]
fn run_total_does_not_wrap() {
    let report = benchmark(1, 1, 3).run(|| Ok(u64::MAX)).unwrap();
    assert_eq!(report.total, 3 * (u64::MAX as u128));
}

#[test]
fn run_stops_at_the_first_failure() {
    let calls = Rc::new(Cell::new(0u64));
    let counter = calls.clone();
    let report = benchmark(10, 4, 5).run(move || {
        counter.set(counter.get() + 1);
        if counter.get() == 2 {
            Err("disk full".to_string())
        } else {
            Ok(1)
        }
    });
    assert_eq!(report, Err("disk full".to_string()));
    assert_eq!(calls.get(), 2);
}

struct Card {
    configured: Rc<Cell<u32>>,
    fails: bool,
}

impl Storage for Card {
    fn config_usb(&self) -> Result<(), String> {
        self.configured.set(self.configured.get() + 1);
        if self.fails {
            Err("Failed to initialize sd for msc storage".to_string())
        } else {
            Ok(())
        }
    }
}

#[test]
fn msc_device_keeps_its_configuration() {
    let configured = Rc::new(Cell::new(0));
    let storage = Card { configured: configured.clone(), fails: false };
    let mut device = MSCDevice::new(&MSCDeviceConfig { high_speed: true }, storage);
    assert!(device.high_speed());
    assert_eq!(configured.get(), 0);
    assert_eq!(device.install(), Ok(()));
    assert_eq!(configured.get(), 1);
    assert!(device.high_speed());
    assert!(!MSCDeviceConfig::default().high_speed);
}

#[test]
fn msc_device_reports_the_storage_failure() {
    let storage = Card { configured: Rc::new(Cell::new(0)), fails: true };
    let mut device = MSCDevice::new(&MSCDeviceConfig::default(), storage);
    assert!(!device.high_speed());
    assert_eq!(device.install(), Err("Failed to initialize sd for msc storage".to_string()));
}

#[test]
fn storage_steps_are_allowed_in_order() {
    assert_eq!(StoragePhase::Init.check_install(), Ok(()));
    assert_eq!(StoragePhase::Installed.check_install(), Err(PhaseError::AlreadyInstalled));
    assert_eq!(StoragePhase::Mounted.check_install(), Err(PhaseError::AlreadyMounted));
    assert_eq!(StoragePhase::Init.check_mount(), Err(PhaseError::NotInstalled));
    assert_eq!(StoragePhase::Installed.check_mount(), Ok(()));
    assert_eq!(StoragePhase::Mounted.check_mount(), Err(PhaseError::AlreadyMounted));
}

#[test]
fn refused_steps_have_messages() {
    assert_eq!(PhaseError::AlreadyInstalled.message(Medium::Card), "Driver already installed");
    assert_eq!(PhaseError::AlreadyInstalled.message(Medium::Flash), "Already installed");
    assert_eq!(PhaseError::AlreadyMounted.message(Medium::Card), "File system already mounted");
    assert_eq!(PhaseError::AlreadyMounted.message(Medium::Flash), "File system already mounted");
    assert_eq!(PhaseError::NotInstalled.message(Medium::Card), "Driver not installed yet");
    assert_eq!(PhaseError::NotInstalled.message(Medium::Flash), "Partition not initialized yet");
}

#[test]
fn msc_event_names() {
    assert_eq!(msc_event_type_to_str(MscEventType::MountChanged), "MOUNT_CHANGED");
    assert_eq!(msc_event_type_to_str(MscEventType::PremountChanged), "PREMOUNT_CHANGED");
    assert_eq!(msc_event_type_to_str(MscEventType::Unknown), "Unknown");
}

#[test]
fn write_sizes_make_the_file() {
    assert_eq!(benchmark(10, 4, 1).write_sizes(), vec![4, 4, 2]);
    assert_eq!(benchmark(8, 4, 1).write_sizes(), vec![4, 4]);
    assert_eq!(benchmark(3, 4, 1).write_sizes(), vec![3]);
    assert_eq!(benchmark(1, 1, 1).write_sizes(), vec![1]);
    assert_eq!(benchmark(0, 4, 1).write_sizes(), Vec::<usize>::new());
    assert_eq!(benchmark(0, 0, 1).write_sizes(), Vec::<usize>::new());
    let sizes = benchmark(1000, 33, 1).write_sizes();
    assert_eq!(sizes.iter().sum::<usize>(), 1000);
    assert_eq!(sizes.len(), 31);
    assert!(sizes[..30].iter().all(|size| *size == 33));
    assert_eq!(sizes[30], 10);
}
