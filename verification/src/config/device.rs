//! Device identity and network settings.

use crate::domains::common::config::{ConfigError, ConfigFilesEnums};
use crate::domains::common::gateway::{Commit, Committing, Load, Loading};
use vstd::prelude::*;

verus! {

#[derive(Debug, PartialEq, Eq)]
pub struct StaticIpSettings {
    pub enabled: bool,
    pub ip_address: String,
    pub subnet_mask: String,
    pub gateway: String,
}

impl Clone for StaticIpSettings {
    fn clone(&self) -> (copy: Self)
        ensures
            copy == *self,
    {
        StaticIpSettings {
            enabled: self.enabled,
            ip_address: self.ip_address.clone(),
            subnet_mask: self.subnet_mask.clone(),
            gateway: self.gateway.clone(),
        }
    }
}

#[derive(Debug, PartialEq, Eq)]
pub struct WifiStationSettings {
    pub wifi_ssid: String,
    pub wifi_password: String,
    pub static_ip: StaticIpSettings,
}

impl Clone for WifiStationSettings {
    fn clone(&self) -> (copy: Self)
        ensures
            copy == *self,
    {
        WifiStationSettings {
            wifi_ssid: self.wifi_ssid.clone(),
            wifi_password: self.wifi_password.clone(),
            static_ip: self.static_ip.clone(),
        }
    }
}

#[derive(Debug, PartialEq, Eq)]
pub struct WifiAccessPointSettings {
    pub ssid: String,
    pub password: String,
}

impl Clone for WifiAccessPointSettings {
    fn clone(&self) -> (copy: Self)
        ensures
            copy == *self,
    {
        WifiAccessPointSettings { ssid: self.ssid.clone(), password: self.password.clone() }
    }
}

#[derive(Debug, PartialEq, Eq)]
pub struct WifiSettings {
    pub enabled: bool,
    pub wifi_type: String,
    pub station: WifiStationSettings,
    pub access_point: WifiAccessPointSettings,
}

impl Clone for WifiSettings {
    fn clone(&self) -> (copy: Self)
        ensures
            copy == *self,
    {
        WifiSettings {
            enabled: self.enabled,
            wifi_type: self.wifi_type.clone(),
            station: self.station.clone(),
            access_point: self.access_point.clone(),
        }
    }
}

/// In the persisted form the flag is named `ethernet_enabled`.
#[derive(Debug, PartialEq, Eq)]
pub struct EthernetSettings {
    pub enabled: bool,
    pub static_ip: StaticIpSettings,
}

impl Clone for EthernetSettings {
    fn clone(&self) -> (copy: Self)
        ensures
            copy == *self,
    {
        EthernetSettings { enabled: self.enabled, static_ip: self.static_ip.clone() }
    }
}

#[derive(Debug, PartialEq, Eq)]
pub struct BluetoothSettings {
    pub enabled: bool,
    pub name: String,
    pub password: String,
}

impl Clone for BluetoothSettings {
    fn clone(&self) -> (copy: Self)
        ensures
            copy == *self,
    {
        BluetoothSettings {
            enabled: self.enabled,
            name: self.name.clone(),
            password: self.password.clone(),
        }
    }
}

/// In the persisted form the Wi-Fi table is named `wiFi`.
#[derive(Debug, PartialEq, Eq)]
pub struct NetworkSettings {
    pub wifi: WifiSettings,
    pub ethernet: EthernetSettings,
    pub bluetooth: BluetoothSettings,
}

impl Clone for NetworkSettings {
    fn clone(&self) -> (copy: Self)
        ensures
            copy == *self,
    {
        NetworkSettings {
            wifi: self.wifi.clone(),
            ethernet: self.ethernet.clone(),
            bluetooth: self.bluetooth.clone(),
        }
    }
}

#[derive(Debug, PartialEq, Eq)]
pub struct DeviceConfig {
    pub enabled: bool,
    pub name: String,
    pub model: String,
    pub version: String,
    pub serial_number: String,
    pub manufacturer: String,
    pub timezone: String,
    pub timestamp: String,
    pub network: NetworkSettings,
}

impl Clone for DeviceConfig {
    fn clone(&self) -> (copy: Self)
        ensures
            copy == *self,
    {
        DeviceConfig {
            enabled: self.enabled,
            name: self.name.clone(),
            model: self.model.clone(),
            version: self.version.clone(),
            serial_number: self.serial_number.clone(),
            manufacturer: self.manufacturer.clone(),
            timezone: self.timezone.clone(),
            timestamp: self.timestamp.clone(),
            network: self.network.clone(),
        }
    }
}

/// The record of the device domain, as its file holds it.
#[derive(Debug, PartialEq, Eq)]
pub struct DeviceData {
    pub device: DeviceConfig,
}

impl Clone for DeviceData {
    fn clone(&self) -> (copy: Self)
        ensures
            copy == *self,
    {
        DeviceData { device: self.device.clone() }
    }
}

/// The store of the device domain: the one authoritative copy of its
/// record.  Shared borrows read it, an exclusive borrow updates it.
pub struct DeviceAccess {
    data: DeviceData,
}

impl View for DeviceAccess {
    type V = DeviceData;

    closed spec fn view(&self) -> DeviceData {
        self.data
    }
}

/// The write-through that follows an update of a store holding `data`.
pub open spec fn saving(data: DeviceData) -> Committing<DeviceData> {
    Committing::Pending(Commit::saving(ConfigFilesEnums::Device, data))
}

impl DeviceAccess {
    /// The transaction that reads the record a new store starts with: the
    /// user file where the registry has the device flag set, the default
    /// file otherwise.
    pub fn load_device_config() -> (loading: Loading<DeviceData>)
        ensures
            loading == Loading::<DeviceData>::Pending(Load::registry_of(ConfigFilesEnums::Device)),
    {
        Loading::Pending(Load::from_registry(ConfigFilesEnums::Device))
    }

    /// The transaction that reads the record of the default layer.
    pub fn load_default_config() -> (loading: Loading<DeviceData>)
        ensures
            loading == Loading::<DeviceData>::Pending(Load::default_of(ConfigFilesEnums::Device)),
    {
        Loading::Pending(Load::from_default(ConfigFilesEnums::Device))
    }

    /// A store that holds what `load_device_config` ended with; there is no
    /// store where loading failed.
    pub fn new(loaded: Result<DeviceData, ConfigError>) -> (store: Result<Self, ConfigError>)
        ensures
            match loaded {
                Ok(data) => store matches Ok(s) && s@ == data,
                Err(e) => store matches Err(f) && f == e,
            },
    {
        match loaded {
            Ok(data) => Ok(DeviceAccess { data }),
            Err(e) => Err(e),
        }
    }

    /// The write-through of the record as it stands.
    pub fn save_to_user_profile(&self) -> (commit: Committing<DeviceData>)
        ensures
            commit == saving(self@),
    {
        Committing::Pending(Commit::save(ConfigFilesEnums::Device, self.data.clone()))
    }

    pub fn enabled(&self) -> (value: bool)
        ensures
            value == self@.device.enabled,
    {
        self.data.device.enabled
    }

    pub fn name(&self) -> (value: String)
        ensures
            value == self@.device.name,
    {
        self.data.device.name.clone()
    }

    pub fn model(&self) -> (value: String)
        ensures
            value == self@.device.model,
    {
        self.data.device.model.clone()
    }

    pub fn version(&self) -> (value: String)
        ensures
            value == self@.device.version,
    {
        self.data.device.version.clone()
    }

    pub fn serial_number(&self) -> (value: String)
        ensures
            value == self@.device.serial_number,
    {
        self.data.device.serial_number.clone()
    }

    pub fn manufacturer(&self) -> (value: String)
        ensures
            value == self@.device.manufacturer,
    {
        self.data.device.manufacturer.clone()
    }

    pub fn timezone(&self) -> (value: String)
        ensures
            value == self@.device.timezone,
    {
        self.data.device.timezone.clone()
    }

    /// A handle that performs one update of this store.
    pub fn update(&mut self) -> (handle: DeviceUpdate<'_>)
        ensures
            handle.device@ == old(self)@,
            final(handle.device)@ == final(self)@,
    {
        DeviceUpdate { device: self }
    }

    /// Replaces the record by the one of the default layer, as
    /// `load_default_config` ended with it, and hands out the transaction
    /// that clears the device flag and removes the user file.  Where
    /// loading failed the store stays as it is and the error is the result.
    pub fn reset_to_default(&mut self, loaded: Result<DeviceData, ConfigError>) -> (commit:
        Committing<DeviceData>)
        ensures
            match loaded {
                Ok(data) => final(self)@ == data && commit == Committing::Pending(
                    Commit::<DeviceData>::resetting(ConfigFilesEnums::Device),
                ),
                Err(e) => final(self)@ == old(self)@ && commit == Committing::<
                    DeviceData,
                >::Finished(Err(e)),
            },
    {
        match loaded {
            Ok(data) => {
                self.data = data;
                Committing::Pending(Commit::reset(ConfigFilesEnums::Device))
            },
            Err(e) => Committing::Finished(Err(e)),
        }
    }

    /// A copy of the whole record.
    pub fn get_full_config(&self) -> (data: DeviceData)
        ensures
            data == self@,
    {
        self.data.clone()
    }
}

/// One update of the device store.  Every method changes the record in
/// memory first and hands out the write-through of the changed record.
pub struct DeviceUpdate<'a> {
    pub device: &'a mut DeviceAccess,
}

impl<'a> DeviceUpdate<'a> {
    pub fn enabled(self, value: bool) -> (commit: Committing<DeviceData>)
        ensures
            final(self.device)@ == (DeviceData {
                device: DeviceConfig { enabled: value, ..old(self.device)@.device },
            }),
            commit == saving(final(self.device)@),
    {
        self.device.data.device.enabled = value;
        self.device.save_to_user_profile()
    }

    pub fn name(self, value: String) -> (commit: Committing<DeviceData>)
        ensures
            final(self.device)@ == (DeviceData {
                device: DeviceConfig { name: value, ..old(self.device)@.device },
            }),
            commit == saving(final(self.device)@),
    {
        self.device.data.device.name = value;
        self.device.save_to_user_profile()
    }

    pub fn model(self, value: String) -> (commit: Committing<DeviceData>)
        ensures
            final(self.device)@ == (DeviceData {
                device: DeviceConfig { model: value, ..old(self.device)@.device },
            }),
            commit == saving(final(self.device)@),
    {
        self.device.data.device.model = value;
        self.device.save_to_user_profile()
    }

    pub fn version(self, value: String) -> (commit: Committing<DeviceData>)
        ensures
            final(self.device)@ == (DeviceData {
                device: DeviceConfig { version: value, ..old(self.device)@.device },
            }),
            commit == saving(final(self.device)@),
    {
        self.device.data.device.version = value;
        self.device.save_to_user_profile()
    }

    pub fn serial_number(self, value: String) -> (commit: Committing<DeviceData>)
        ensures
            final(self.device)@ == (DeviceData {
                device: DeviceConfig { serial_number: value, ..old(self.device)@.device },
            }),
            commit == saving(final(self.device)@),
    {
        self.device.data.device.serial_number = value;
        self.device.save_to_user_profile()
    }

    pub fn timezone(self, value: String) -> (commit: Committing<DeviceData>)
        ensures
            final(self.device)@ == (DeviceData {
                device: DeviceConfig { timezone: value, ..old(self.device)@.device },
            }),
            commit == saving(final(self.device)@),
    {
        self.device.data.device.timezone = value;
        self.device.save_to_user_profile()
    }

    /// Applies `updater` to the record in one step: no reader sees part of
    /// its changes.
    pub fn batch<F>(self, updater: F) -> (commit: Committing<DeviceData>) where
        F: FnOnce(&mut DeviceData),

        requires
            forall|record: &mut DeviceData|
                *record == old(self.device)@ ==> call_requires(updater, (record,)),
        ensures
            exists|record: &mut DeviceData|
                *record == old(self.device)@ && *final(record) == final(self.device)@
                    && #[trigger] call_ensures(updater, (record,), ()),
            commit == saving(final(self.device)@),
    {
        updater(&mut self.device.data);
        self.device.save_to_user_profile()
    }
}

} // verus!

