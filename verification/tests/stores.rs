//! The four stores, driven against an outside that lives in memory.

use sst_cam::config::calibration::{
    CalibrationAccess, CalibrationCameraParameters, CalibrationConfig, CalibrationData,
    CalibrationMicrophoneParameters, CalibrationParameters, F32Bits,
};
use sst_cam::config::device::{
    BluetoothSettings, DeviceAccess, DeviceConfig, DeviceData, EthernetSettings, NetworkSettings,
    StaticIpSettings, WifiAccessPointSettings, WifiSettings, WifiStationSettings,
};
use sst_cam::config::storage::{StorageAccess, StorageConfig, StorageConfiguration, StorageData};
use sst_cam::config::stream::{
    StreamAccess, StreamConfig, StreamData, StreamRecipients, StreamRecipientsSettings,
    StreamSettings,
};
use sst_cam::domains::common::config::{
    ConfigError, ConfigFilesEnums, ConfigUtils, ProfileConfig, ProfileConfigFiles, ProfilesEnum,
};
use sst_cam::domains::common::gateway::{CommitStep, Committing, LoadStep, Loading, Reply};
use std::collections::{HashMap, HashSet};
use std::fmt::Debug;

/// A file system and a codec in memory.  A text stands for the value whose
/// `Debug` form it is.
struct Outside<T> {
    files: HashMap<String, String>,
    folders: HashSet<String>,
    records: Vec<(String, T)>,
    profiles: Vec<(String, ProfileConfig)>,
    steps: Vec<String>,
}

impl<T: Clone + Debug> Outside<T> {
    fn new() -> Self {
        let mut folders = HashSet::new();
        folders.insert("src/config".to_string());
        folders.insert("src/config/default".to_string());
        Outside {
            files: HashMap::new(),
            folders,
            records: Vec::new(),
            profiles: Vec::new(),
            steps: Vec::new(),
        }
    }

    fn with(file: ConfigFilesEnums, flags: ProfileConfigFiles, default: &T) -> Self {
        let mut outside = Self::new();
        let registry = outside.encode_profile(&ProfileConfig { user: flags });
        outside.files.insert(ConfigUtils::profile_path(), registry);
        let text = outside.encode(default);
        outside.files.insert(file.to_file(&ProfilesEnum::Default), text);
        outside
    }

    fn encode(&mut self, data: &T) -> String {
        let text = format!("{:?}", data);
        self.records.push((text.clone(), data.clone()));
        text
    }

    fn decode(&self, text: &str) -> Result<T, String> {
        match self.records.iter().find(|(known, _)| known == text) {
            Some((_, data)) => Ok(data.clone()),
            None => Err("not a record".to_string()),
        }
    }

    fn encode_profile(&mut self, profile: &ProfileConfig) -> String {
        let text = format!("{:?}", profile);
        self.profiles.push((text.clone(), *profile));
        text
    }

    fn decode_profile(&self, text: &str) -> Result<ProfileConfig, String> {
        match self.profiles.iter().find(|(known, _)| known == text) {
            Some((_, profile)) => Ok(*profile),
            None => Err("not a registry".to_string()),
        }
    }

    fn write(&mut self, path: String, text: &str) -> Result<(), String> {
        let folder = match path.rfind('/') {
            Some(at) => path[..at].to_string(),
            None => String::new(),
        };
        if self.folders.contains(&folder) {
            self.files.insert(path, text.to_string());
            Ok(())
        } else {
            Err("No such file or directory".to_string())
        }
    }

    fn registry(&self) -> ProfileConfig {
        let text = self.files.get(&ConfigUtils::profile_path()).expect("registry file");
        self.decode_profile(text).expect("registry")
    }

    fn user_record(&self, file: ConfigFilesEnums) -> Option<T> {
        let text = self.files.get(&file.to_file(&ProfilesEnum::User))?;
        self.decode(text).ok()
    }

    fn load(&mut self, mut loading: Loading<T>) -> Result<T, ConfigError> {
        loop {
            let load = match loading {
                Loading::Finished(result) => return result,
                Loading::Pending(load) => load,
            };
            let reply = match &load.step {
                LoadStep::ReadProfile | LoadStep::ReadConfig(_) => {
                    let path = load.path().expect("a path to read");
                    self.steps.push(format!("read {}", path));
                    Reply::Content(self.files.get(&path).cloned())
                }
                LoadStep::DecodeProfile(text) => Reply::Profile(self.decode_profile(text)),
                LoadStep::DecodeConfig(text) => Reply::Record(self.decode(text)),
            };
            loading = load.advance(reply);
        }
    }

    fn commit(&mut self, mut committing: Committing<T>) -> Result<(), ConfigError> {
        loop {
            let commit = match committing {
                Committing::Finished(result) => return result,
                Committing::Pending(commit) => commit,
            };
            let path = commit.path();
            let reply = match &commit.step {
                CommitStep::CreateDir(_) => {
                    let path = path.expect("a folder");
                    self.steps.push(format!("mkdir {}", path));
                    self.folders.insert(path);
                    Reply::Done(Ok(()))
                }
                CommitStep::Encode(data) => Reply::Text(Ok(self.encode(data))),
                CommitStep::Write(text) | CommitStep::WriteProfile(text) => {
                    let path = path.expect("a file");
                    self.steps.push(format!("write {}", path));
                    Reply::Done(self.write(path, text))
                }
                CommitStep::ReadProfile => {
                    let path = path.expect("a file");
                    self.steps.push(format!("read {}", path));
                    Reply::Content(self.files.get(&path).cloned())
                }
                CommitStep::DecodeProfile(text) => Reply::Profile(self.decode_profile(text)),
                CommitStep::EncodeProfile(profile) => {
                    Reply::Text(Ok(self.encode_profile(profile)))
                }
                CommitStep::Remove => {
                    let path = path.expect("a file");
                    self.steps.push(format!("remove {}", path));
                    match self.files.remove(&path) {
                        Some(_) => Reply::Done(Ok(())),
                        None => Reply::Done(Err("No such file or directory".to_string())),
                    }
                }
            };
            committing = commit.advance(reply);
        }
    }
}

fn no_flags() -> ProfileConfigFiles {
    ProfileConfigFiles { calibration: false, device: false, stream: false, storage: false }
}

fn text(s: &str) -> String {
    s.to_string()
}

fn static_ip() -> StaticIpSettings {
    StaticIpSettings {
        enabled: false,
        ip_address: text("192.168.1.10"),
        subnet_mask: text("255.255.255.0"),
        gateway: text("192.168.1.1"),
    }
}

fn default_device() -> DeviceData {
    DeviceData {
        device: DeviceConfig {
            enabled: false,
            name: text("sst-cam"),
            model: text("SST-CAM-v1"),
            version: text("1.0.0"),
            serial_number: text("0001"),
            manufacturer: text("SST"),
            timezone: text("Europe/Berlin"),
            timestamp: text("2025-01-01T00:00:00Z"),
            network: NetworkSettings {
                wifi: WifiSettings {
                    enabled: true,
                    wifi_type: text("station"),
                    station: WifiStationSettings {
                        wifi_ssid: text("home"),
                        wifi_password: text("secret"),
                        static_ip: static_ip(),
                    },
                    access_point: WifiAccessPointSettings {
                        ssid: text("sst-cam-ap"),
                        password: text("secret"),
                    },
                },
                ethernet: EthernetSettings { enabled: false, static_ip: static_ip() },
                bluetooth: BluetoothSettings {
                    enabled: false,
                    name: text("sst-cam"),
                    password: text("0000"),
                },
            },
        },
    }
}

fn place(path: &str) -> StorageConfiguration {
    StorageConfiguration { enabled: false, path: text(path), format: text("mp4") }
}

fn default_storage() -> StorageData {
    StorageData {
        storage: StorageConfig {
            enabled: false,
            recording: place("/var/sst/recordings"),
            snapshots: place("/var/sst/snapshots"),
            logs: place("/var/sst/logs"),
            thumbnails: place("/var/sst/thumbnails"),
        },
    }
}

fn recipient(url: &str) -> StreamRecipientsSettings {
    StreamRecipientsSettings {
        enabled: false,
        url: text(url),
        key: text(""),
        format: text("flv"),
        codec: text("h264"),
    }
}

fn default_stream() -> StreamData {
    StreamData {
        stream: StreamConfig {
            enabled: false,
            settings: StreamSettings { width: 640, height: 480, framerate: 25, bitrate_kbps: 2500 },
            recipients: StreamRecipients {
                youtube: recipient("rtmp://youtube"),
                facebook: recipient("rtmp://facebook"),
                twitch: recipient("rtmp://twitch"),
                instagram: recipient("rtmp://instagram"),
                tik_tok: recipient("rtmp://tiktok"),
                custom: recipient("rtmp://custom"),
            },
        },
    }
}

fn bits(value: f32) -> F32Bits {
    F32Bits { bits: value.to_bits() }
}

fn camera(exposure: u32, gain: f32) -> CalibrationCameraParameters {
    CalibrationCameraParameters {
        last_calibration_date: text("2025-01-01T00:00:00Z"),
        exposure,
        gain: bits(gain),
        white_balance: text("auto"),
        focus: text("auto"),
        intrinsic_matrix: [bits(1.0), bits(0.0), bits(0.0), bits(0.0), bits(1.0), bits(0.0), bits(
            0.0,
        ), bits(0.0), bits(1.0)],
        distortion_coefficients: [bits(0.0); 5],
    }
}

fn default_calibration() -> CalibrationData {
    CalibrationData {
        calibration: CalibrationConfig {
            enabled: false,
            last_total_calibration_date: text("2025-01-01T00:00:00Z"),
            parameters: CalibrationParameters {
                camera: vec![camera(500, 1.0), camera(600, 1.5)],
                microphone: vec![CalibrationMicrophoneParameters {
                    last_calibration_date: text("2025-01-01T00:00:00Z"),
                    sensitivity: bits(0.5),
                    noise_reduction: true,
                }],
            },
        },
    }
}

fn device_store(outside: &mut Outside<DeviceData>) -> DeviceAccess {
    let loaded = outside.load(DeviceAccess::load_device_config());
    DeviceAccess::new(loaded).expect("Failed to initialize Device configuration")
}

fn storage_store(outside: &mut Outside<StorageData>) -> StorageAccess {
    let loaded = outside.load(StorageAccess::load_storage_config());
    StorageAccess::new(loaded).expect("Failed to initialize Storage configuration")
}

fn stream_store(outside: &mut Outside<StreamData>) -> StreamAccess {
    let loaded = outside.load(StreamAccess::load_stream_config());
    StreamAccess::new(loaded).expect("Failed to initialize Stream configuration")
}

fn calibration_store(outside: &mut Outside<CalibrationData>) -> CalibrationAccess {
    let loaded = outside.load(CalibrationAccess::load_calibration_config());
    CalibrationAccess::new(loaded).expect("Failed to initialize Calibration configuration")
}

#[test]
fn test_get_device_data() {
    let mut outside = Outside::with(ConfigFilesEnums::Device, no_flags(), &default_device());
    let device = device_store(&mut outside);
    println!("=== Device Configuration Data ===");
    println!("Enabled: {}", device.enabled());
    println!("Name: {}", device.name());
    println!("Model: {}", device.model());
    println!("Version: {}", device.version());
    println!("Serial Number: {}", device.serial_number());
    println!("Manufacturer: {}", device.manufacturer());
    println!("Timezone: {}", device.timezone());

    assert!(!device.name().is_empty());
    assert!(!device.model().is_empty());
}

#[test]
fn test_update_device_data() -> Result<(), ConfigError> {
    let mut outside = Outside::with(ConfigFilesEnums::Device, no_flags(), &default_device());
    let mut device = device_store(&mut outside);
    println!("=== Updating Device Configuration ===");

    outside.commit(device.update().name("test-camera".into()))?;
    println!("Updated name to: {}", device.name());
    assert_eq!(device.name(), "test-camera");

    outside.commit(device.update().model("SST-CAM-v2".into()))?;
    println!("Updated model to: {}", device.model());
    assert_eq!(device.model(), "SST-CAM-v2");

    outside.commit(device.update().enabled(true))?;
    println!("Updated enabled to: {}", device.enabled());
    assert!(device.enabled());

    outside.commit(device.update().batch(|device| {
        device.device.name = "batch-updated-camera".to_string();
        device.device.version = "2.0.0".to_string();
        device.device.timezone = "UTC".to_string();
    }))?;

    println!(
        "Batch updated - Name: {}, Version: {}, Timezone: {}",
        device.name(),
        device.version(),
        device.timezone()
    );

    assert_eq!(device.name(), "batch-updated-camera");
    assert_eq!(device.version(), "2.0.0");
    assert_eq!(device.timezone(), "UTC");

    Ok(())
}

#[test]
fn test_get_storage_data() {
    let mut outside = Outside::with(ConfigFilesEnums::Storage, no_flags(), &default_storage());
    let storage = storage_store(&mut outside);
    println!("=== Storage Configuration Data ===");
    println!("Enabled: {}", storage.enabled());
    println!("Recording Enabled: {}", storage.recording_enabled());
    println!("Recording Path: {}", storage.recording_path());
    println!("Snapshots Enabled: {}", storage.snapshots_enabled());
    println!("Snapshots Path: {}", storage.snapshots_path());

    assert!(!storage.recording_path().is_empty());
    assert!(!storage.snapshots_path().is_empty());
}

#[test]
fn test_update_storage_data() -> Result<(), ConfigError> {
    let mut outside = Outside::with(ConfigFilesEnums::Storage, no_flags(), &default_storage());
    let mut storage = storage_store(&mut outside);
    println!("=== Updating Storage Configuration ===");

    outside.commit(storage.update().enabled(true))?;
    println!("Updated enabled to: {}", storage.enabled());
    assert!(storage.enabled());

    outside.commit(storage.update().recording_enabled(true))?;
    println!("Updated recording enabled to: {}", storage.recording_enabled());
    assert!(storage.recording_enabled());

    outside.commit(storage.update().recording_path("/tmp/recordings".into()))?;
    println!("Updated recording path to: {}", storage.recording_path());
    assert_eq!(storage.recording_path(), "/tmp/recordings");

    outside.commit(storage.update().batch(|storage| {
        storage.storage.enabled = true;
        storage.storage.recording.enabled = true;
        storage.storage.recording.path = "/home/recordings".to_string();
        storage.storage.snapshots.enabled = true;
    }))?;

    println!(
        "Batch updated - Enabled: {}, Recording Path: {}, Snapshots Enabled: {}",
        storage.enabled(),
        storage.recording_path(),
        storage.snapshots_enabled()
    );

    assert!(storage.enabled());
    assert_eq!(storage.recording_path(), "/home/recordings");
    assert!(storage.snapshots_enabled());

    Ok(())
}

#[test]
fn test_get_stream_data() {
    let mut outside = Outside::with(ConfigFilesEnums::Stream, no_flags(), &default_stream());
    let stream = stream_store(&mut outside);
    println!("=== Stream Configuration Data ===");
    println!("Enabled: {}", stream.enabled());
    println!("Width: {}", stream.width());
    println!("Height: {}", stream.height());
    println!("Framerate: {}", stream.framerate());
    println!("Bitrate: {} kbps", stream.bitrate_kbps());

    assert!(stream.width() > 0);
    assert!(stream.height() > 0);
    assert!(stream.framerate() > 0);
}

#[test]
fn test_update_stream_data() -> Result<(), ConfigError> {
    let mut outside = Outside::with(ConfigFilesEnums::Stream, no_flags(), &default_stream());
    let mut stream = stream_store(&mut outside);
    println!("=== Updating Stream Configuration ===");

    outside.commit(stream.update().framerate(30))?;
    println!("Updated framerate to: {}", stream.framerate());
    assert_eq!(stream.framerate(), 30);

    outside.commit(stream.update().width(1280))?;
    println!("Updated width to: {}", stream.width());
    assert_eq!(stream.width(), 1280);

    outside.commit(stream.update().height(720))?;
    println!("Updated height to: {}", stream.height());
    assert_eq!(stream.height(), 720);

    outside.commit(stream.update().batch(|stream| {
        stream.stream.settings.width = 1920;
        stream.stream.settings.height = 1080;
        stream.stream.settings.framerate = 60;
        stream.stream.enabled = true;
    }))?;

    println!(
        "Batch updated - Width: {}, Height: {}, Framerate: {}, Enabled: {}",
        stream.width(),
        stream.height(),
        stream.framerate(),
        stream.enabled()
    );

    assert_eq!(stream.width(), 1920);
    assert_eq!(stream.height(), 1080);
    assert_eq!(stream.framerate(), 60);
    assert!(stream.enabled());

    Ok(())
}

#[test]
fn test_get_calibration_data() {
    let mut outside =
        Outside::with(ConfigFilesEnums::Calibration, no_flags(), &default_calibration());
    let calibration = calibration_store(&mut outside);
    println!("=== Calibration Configuration Data ===");
    println!("Enabled: {}", calibration.enabled());
    println!("Last Calibration Date: {}", calibration.last_total_calibration_date());
    println!("Camera Count: {}", calibration.camera_count());

    for i in 0..calibration.camera_count() {
        if let (Some(exposure), Some(gain)) =
            (calibration.get_camera_exposure(i), calibration.get_camera_gain(i))
        {
            println!("Camera {}: exposure={}, gain={}", i, exposure, f32::from_bits(gain.bits));
        }
    }

    assert!(calibration.camera_count() >= 0);
    assert!(!calibration.last_total_calibration_date().is_empty());
}

#[test]
fn test_update_calibration_data() -> Result<(), ConfigError> {
    let mut outside =
        Outside::with(ConfigFilesEnums::Calibration, no_flags(), &default_calibration());
    let mut calibration = calibration_store(&mut outside);
    println!("=== Updating Calibration Configuration ===");

    outside.commit(calibration.update().enabled(true))?;
    println!("Updated enabled to: {}", calibration.enabled());
    assert!(calibration.enabled());

    if calibration.camera_count() > 0 {
        outside.commit(calibration.update().set_camera_exposure(0, 1000))?;
        println!("Updated camera 0 exposure to: {:?}", calibration.get_camera_exposure(0));
        assert_eq!(calibration.get_camera_exposure(0), Some(1000));

        outside.commit(calibration.update().set_camera_gain(0, bits(2.5)))?;
        let gain = calibration.get_camera_gain(0).map(|gain| f32::from_bits(gain.bits));
        println!("Updated camera 0 gain to: {:?}", gain);
        assert_eq!(gain, Some(2.5));
    }

    outside.commit(calibration.update().batch(|calibration| {
        calibration.calibration.enabled = true;
        calibration.calibration.last_total_calibration_date = "2025-10-03T12:00:00Z".to_string();
    }))?;

    println!(
        "Batch updated - Enabled: {}, Last Calibration: {}",
        calibration.enabled(),
        calibration.last_total_calibration_date()
    );

    assert!(calibration.enabled());
    assert_eq!(calibration.last_total_calibration_date(), "2025-10-03T12:00:00Z");

    Ok(())
}

#[test]
fn fresh_store_holds_the_default_record_while_the_flag_is_clear() {
    let mut device = Outside::with(ConfigFilesEnums::Device, no_flags(), &default_device());
    assert_eq!(device_store(&mut device).get_full_config(), default_device());
    assert_eq!(
        device.steps,
        vec!["read src/config/profile.toml", "read src/config/default/device.default.toml"]
    );

    let mut storage = Outside::with(ConfigFilesEnums::Storage, no_flags(), &default_storage());
    assert_eq!(storage_store(&mut storage).get_full_config(), default_storage());

    let mut stream = Outside::with(ConfigFilesEnums::Stream, no_flags(), &default_stream());
    assert_eq!(stream_store(&mut stream).get_full_config(), default_stream());

    let mut calibration =
        Outside::with(ConfigFilesEnums::Calibration, no_flags(), &default_calibration());
    assert_eq!(calibration_store(&mut calibration).get_full_config(), default_calibration());
}

#[test]
fn fresh_store_holds_the_user_record_while_the_flag_is_set() {
    let flags = ProfileConfigFiles { stream: true, ..no_flags() };
    let mut outside = Outside::with(ConfigFilesEnums::Stream, flags, &default_stream());
    let mut user = default_stream();
    user.stream.settings.width = 3840;
    let text = outside.encode(&user);
    outside.folders.insert("src/config/user".to_string());
    outside.files.insert("src/config/user/stream.user.toml".to_string(), text);

    let stream = stream_store(&mut outside);
    assert_eq!(stream.width(), 3840);
    assert_eq!(stream.get_full_config(), user);
}

#[test]
fn device_name_update_is_visible_flagged_and_saved() {
    let mut outside = Outside::with(ConfigFilesEnums::Device, no_flags(), &default_device());
    let mut device = device_store(&mut outside);
    assert_eq!(device.name(), "sst-cam");

    let result = outside.commit(device.update().name("cam-01".into()));
    assert_eq!(result, Ok(()));
    assert_eq!(device.name(), "cam-01");
    assert!(outside.registry().user.device);
    assert!(!outside.registry().user.stream);
    let saved = outside.user_record(ConfigFilesEnums::Device).expect("user device file");
    assert_eq!(saved.device.name, "cam-01");
    assert_eq!(saved, device.get_full_config());
}

#[test]
fn every_setter_is_read_back_and_sets_the_flag() {
    let mut outside = Outside::with(ConfigFilesEnums::Device, no_flags(), &default_device());
    let mut device = device_store(&mut outside);
    assert_eq!(outside.commit(device.update().version("3.1.4".into())), Ok(()));
    assert_eq!(device.version(), "3.1.4");
    assert_eq!(outside.commit(device.update().serial_number("SN-77".into())), Ok(()));
    assert_eq!(device.serial_number(), "SN-77");
    assert_eq!(outside.commit(device.update().timezone("UTC".into())), Ok(()));
    assert_eq!(device.timezone(), "UTC");
    assert_eq!(device.manufacturer(), "SST");
    assert!(outside.registry().user.device);

    let mut outside = Outside::with(ConfigFilesEnums::Stream, no_flags(), &default_stream());
    let mut stream = stream_store(&mut outside);
    assert_eq!(outside.commit(stream.update().bitrate_kbps(8000)), Ok(()));
    assert_eq!(stream.bitrate_kbps(), 8000);
    assert_eq!(outside.commit(stream.update().enabled(true)), Ok(()));
    assert!(stream.enabled());
    assert!(outside.registry().user.stream);
    assert!(!outside.registry().user.device);
}

#[test]
fn batch_changes_three_stream_fields_in_one_step() {
    let mut outside = Outside::with(ConfigFilesEnums::Stream, no_flags(), &default_stream());
    let mut stream = stream_store(&mut outside);
    let before = stream.get_full_config();
    let pending = stream.update().batch(|record| {
        record.stream.settings.width = 1920;
        record.stream.settings.height = 1080;
        record.stream.settings.framerate = 60;
    });
    let after = stream.get_full_config();
    assert_eq!(
        (before.stream.settings.width, before.stream.settings.height),
        (640, 480)
    );
    assert_eq!(before.stream.settings.framerate, 25);
    assert_eq!(
        after.stream.settings,
        StreamSettings { width: 1920, height: 1080, framerate: 60, bitrate_kbps: 2500 }
    );
    assert_eq!(outside.commit(pending), Ok(()));
    assert_eq!(outside.user_record(ConfigFilesEnums::Stream), Some(after));
}

#[test]
fn update_creates_the_user_folder_and_a_restart_reads_the_user_file() {
    let mut outside = Outside::with(ConfigFilesEnums::Storage, no_flags(), &default_storage());
    assert!(!outside.folders.contains("src/config/user"));
    let mut storage = storage_store(&mut outside);
    outside.steps.clear();

    assert_eq!(outside.commit(storage.update().recording_path("/mnt/card".into())), Ok(()));
    assert_eq!(
        outside.steps,
        vec![
            "mkdir src/config/user",
            "write src/config/user/storage.user.toml",
            "read src/config/profile.toml",
            "write src/config/profile.toml",
        ]
    );
    assert!(outside.folders.contains("src/config/user"));

    let restarted = storage_store(&mut outside);
    assert_eq!(restarted.recording_path(), "/mnt/card");
    assert_eq!(restarted.get_full_config(), storage.get_full_config());
}

#[test]
fn reset_restores_the_default_clears_the_flag_and_removes_the_user_file() {
    let mut outside = Outside::with(ConfigFilesEnums::Device, no_flags(), &default_device());
    let mut device = device_store(&mut outside);
    assert_eq!(outside.commit(device.update().name("cam-01".into())), Ok(()));
    assert_eq!(outside.commit(device.update().enabled(true)), Ok(()));
    assert!(outside.registry().user.device);
    outside.steps.clear();

    let loaded = outside.load(DeviceAccess::load_default_config());
    assert_eq!(outside.commit(device.reset_to_default(loaded)), Ok(()));
    assert_eq!(device.get_full_config(), default_device());
    assert_eq!(device.name(), "sst-cam");
    assert!(!outside.registry().user.device);
    assert_eq!(outside.user_record(ConfigFilesEnums::Device), None);
    assert_eq!(
        outside.steps,
        vec![
            "read src/config/default/device.default.toml",
            "read src/config/profile.toml",
            "write src/config/profile.toml",
            "remove src/config/user/device.user.toml",
        ]
    );
    assert_eq!(device_store(&mut outside).get_full_config(), default_device());
}

#[test]
fn reset_twice_is_reset_once() {
    let mut outside = Outside::with(ConfigFilesEnums::Stream, no_flags(), &default_stream());
    let mut stream = stream_store(&mut outside);
    assert_eq!(outside.commit(stream.update().width(1280)), Ok(()));

    let loaded = outside.load(StreamAccess::load_default_config());
    assert_eq!(outside.commit(stream.reset_to_default(loaded)), Ok(()));
    let record = stream.get_full_config();
    let files = outside.files.clone();
    let registry = outside.registry();

    // No user file is left, so its removal fails the second time: this is
    // not an error.
    let loaded = outside.load(StreamAccess::load_default_config());
    assert_eq!(outside.commit(stream.reset_to_default(loaded)), Ok(()));
    assert_eq!(stream.get_full_config(), record);
    assert_eq!(outside.files, files);
    assert_eq!(outside.registry(), registry);
    assert_eq!(record, default_stream());
}

#[test]
fn reset_that_cannot_load_leaves_the_store_alone() {
    let mut outside =
        Outside::with(ConfigFilesEnums::Calibration, no_flags(), &default_calibration());
    let mut calibration = calibration_store(&mut outside);
    assert_eq!(outside.commit(calibration.update().enabled(true)), Ok(()));
    outside.files.remove("src/config/default/calibration.default.toml");
    outside.steps.clear();

    let loaded = outside.load(CalibrationAccess::load_default_config());
    let result = outside.commit(calibration.reset_to_default(loaded));
    assert_eq!(
        result,
        Err(ConfigError::FileNotFound("src/config/default/calibration.default.toml".to_string()))
    );
    assert!(calibration.enabled());
    assert!(outside.registry().user.calibration);
    assert_eq!(outside.steps, vec!["read src/config/default/calibration.default.toml"]);
}

#[test]
fn failed_write_is_reported_and_the_change_stays_in_memory() {
    let mut outside = Outside::with(ConfigFilesEnums::Device, no_flags(), &default_device());
    let mut device = device_store(&mut outside);
    outside.files.remove("src/config/profile.toml");

    let result = outside.commit(device.update().name("cam-02".into()));
    assert_eq!(result, Err(ConfigError::FileNotFound("src/config/profile.toml".to_string())));
    assert_eq!(device.name(), "cam-02");
    assert_eq!(
        outside.user_record(ConfigFilesEnums::Device).map(|saved| saved.device.name),
        Some("cam-02".to_string())
    );
}

#[test]
fn store_is_not_built_from_a_failed_load() {
    let mut outside: Outside<DeviceData> = Outside::new();
    let loaded = outside.load(DeviceAccess::load_device_config());
    assert_eq!(
        DeviceAccess::new(loaded).err(),
        Some(ConfigError::FileNotFound("src/config/profile.toml".to_string()))
    );

    let mut outside = Outside::with(ConfigFilesEnums::Storage, no_flags(), &default_storage());
    outside
        .files
        .insert("src/config/default/storage.default.toml".to_string(), "enabled = maybe".to_string());
    let loaded = outside.load(StorageAccess::load_storage_config());
    assert_eq!(
        StorageAccess::new(loaded).err(),
        Some(ConfigError::ParseError("storage.toml: not a record".to_string()))
    );
}

#[test]
fn camera_that_is_missing_is_an_error_and_nothing_is_written() {
    let mut outside =
        Outside::with(ConfigFilesEnums::Calibration, no_flags(), &default_calibration());
    let mut calibration = calibration_store(&mut outside);
    outside.steps.clear();

    let result = outside.commit(calibration.update().set_camera_exposure(2, 1000));
    assert_eq!(result, Err(ConfigError::ParseError("Camera index 2 not found".to_string())));
    let result = outside.commit(calibration.update().set_camera_gain(140, bits(2.0)));
    assert_eq!(result, Err(ConfigError::ParseError("Camera index 140 not found".to_string())));
    assert!(outside.steps.is_empty());
    assert_eq!(calibration.get_full_config(), default_calibration());
    assert_eq!(calibration.get_camera_exposure(2), None);
    assert_eq!(calibration.get_camera_gain(2), None);
    assert_eq!(calibration.camera_count(), 2);

    assert_eq!(outside.commit(calibration.update().set_camera_exposure(1, 750)), Ok(()));
    assert_eq!(calibration.get_camera_exposure(1), Some(750));
    assert_eq!(calibration.get_camera_exposure(0), Some(500));
    assert_eq!(
        calibration.get_camera_gain(1).map(|gain| f32::from_bits(gain.bits)),
        Some(1.5)
    );
}

#[test]
fn readers_of_one_store_see_one_snapshot() {
    let mut outside = Outside::with(ConfigFilesEnums::Stream, no_flags(), &default_stream());
    let stream = stream_store(&mut outside);
    let readers: Vec<&StreamAccess> = vec![&stream; 8];
    let snapshots: Vec<StreamData> =
        readers.iter().map(|reader| reader.get_full_config()).collect();
    for snapshot in &snapshots {
        assert_eq!(*snapshot, default_stream());
        assert_eq!(snapshot.stream.settings.width, stream.width());
    }
}
