//! Where recordings, snapshots, logs and thumbnails are kept.

use crate::domains::common::config::{ConfigError, ConfigFilesEnums};
use crate::domains::common::gateway::{Commit, Committing, Load, Loading};
use vstd::prelude::*;

verus! {

#[derive(Debug, PartialEq, Eq)]
pub struct StorageConfiguration {
    pub enabled: bool,
    pub path: String,
    pub format: String,
}

impl Clone for StorageConfiguration {
    fn clone(&self) -> (copy: Self)
        ensures
            copy == *self,
    {
        StorageConfiguration {
            enabled: self.enabled,
            path: self.path.clone(),
            format: self.format.clone(),
        }
    }
}

#[derive(Debug, PartialEq, Eq)]
pub struct StorageConfig {
    pub enabled: bool,
    pub recording: StorageConfiguration,
    pub snapshots: StorageConfiguration,
    pub logs: StorageConfiguration,
    pub thumbnails: StorageConfiguration,
}

impl Clone for StorageConfig {
    fn clone(&self) -> (copy: Self)
        ensures
            copy == *self,
    {
        StorageConfig {
            enabled: self.enabled,
            recording: self.recording.clone(),
            snapshots: self.snapshots.clone(),
            logs: self.logs.clone(),
            thumbnails: self.thumbnails.clone(),
        }
    }
}

/// The record of the storage domain, as its file holds it.
#[derive(Debug, PartialEq, Eq)]
pub struct StorageData {
    pub storage: StorageConfig,
}

impl Clone for StorageData {
    fn clone(&self) -> (copy: Self)
        ensures
            copy == *self,
    {
        StorageData { storage: self.storage.clone() }
    }
}

/// The store of the storage domain: the one authoritative copy of its
/// record.  Shared borrows read it, an exclusive borrow updates it.
pub struct StorageAccess {
    data: StorageData,
}

impl View for StorageAccess {
    type V = StorageData;

    closed spec fn view(&self) -> StorageData {
        self.data
    }
}

/// The write-through that follows an update of a store holding `data`.
pub open spec fn saving(data: StorageData) -> Committing<StorageData> {
    Committing::Pending(Commit::saving(ConfigFilesEnums::Storage, data))
}

impl StorageAccess {
    /// The transaction that reads the record a new store starts with: the
    /// user file where the registry has the storage flag set, the default
    /// file otherwise.
    pub fn load_storage_config() -> (loading: Loading<StorageData>)
        ensures
            loading == Loading::<StorageData>::Pending(
                Load::registry_of(ConfigFilesEnums::Storage),
            ),
    {
        Loading::Pending(Load::from_registry(ConfigFilesEnums::Storage))
    }

    /// The transaction that reads the record of the default layer.
    pub fn load_default_config() -> (loading: Loading<StorageData>)
        ensures
            loading == Loading::<StorageData>::Pending(Load::default_of(ConfigFilesEnums::Storage)),
    {
        Loading::Pending(Load::from_default(ConfigFilesEnums::Storage))
    }

    /// A store that holds what `load_storage_config` ended with; there is
    /// no store where loading failed.
    pub fn new(loaded: Result<StorageData, ConfigError>) -> (store: Result<Self, ConfigError>)
        ensures
            match loaded {
                Ok(data) => store matches Ok(s) && s@ == data,
                Err(e) => store matches Err(f) && f == e,
            },
    {
        match loaded {
            Ok(data) => Ok(StorageAccess { data }),
            Err(e) => Err(e),
        }
    }

    /// The write-through of the record as it stands.
    pub fn save_to_user_profile(&self) -> (commit: Committing<StorageData>)
        ensures
            commit == saving(self@),
    {
        Committing::Pending(Commit::save(ConfigFilesEnums::Storage, self.data.clone()))
    }

    pub fn enabled(&self) -> (value: bool)
        ensures
            value == self@.storage.enabled,
    {
        self.data.storage.enabled
    }

    pub fn recording_enabled(&self) -> (value: bool)
        ensures
            value == self@.storage.recording.enabled,
    {
        self.data.storage.recording.enabled
    }

    pub fn recording_path(&self) -> (value: String)
        ensures
            value == self@.storage.recording.path,
    {
        self.data.storage.recording.path.clone()
    }

    pub fn snapshots_enabled(&self) -> (value: bool)
        ensures
            value == self@.storage.snapshots.enabled,
    {
        self.data.storage.snapshots.enabled
    }

    pub fn snapshots_path(&self) -> (value: String)
        ensures
            value == self@.storage.snapshots.path,
    {
        self.data.storage.snapshots.path.clone()
    }

    /// A handle that performs one update of this store.
    pub fn update(&mut self) -> (handle: StorageUpdate<'_>)
        ensures
            handle.storage@ == old(self)@,
            final(handle.storage)@ == final(self)@,
    {
        StorageUpdate { storage: self }
    }

    /// Replaces the record by the one of the default layer, as
    /// `load_default_config` ended with it, and hands out the transaction
    /// that clears the storage flag and removes the user file.  Where
    /// loading failed the store stays as it is and the error is the result.
    pub fn reset_to_default(&mut self, loaded: Result<StorageData, ConfigError>) -> (commit:
        Committing<StorageData>)
        ensures
            match loaded {
                Ok(data) => final(self)@ == data && commit == Committing::Pending(
                    Commit::<StorageData>::resetting(ConfigFilesEnums::Storage),
                ),
                Err(e) => final(self)@ == old(self)@ && commit == Committing::<
                    StorageData,
                >::Finished(Err(e)),
            },
    {
        match loaded {
            Ok(data) => {
                self.data = data;
                Committing::Pending(Commit::reset(ConfigFilesEnums::Storage))
            },
            Err(e) => Committing::Finished(Err(e)),
        }
    }

    /// A copy of the whole record.
    pub fn get_full_config(&self) -> (data: StorageData)
        ensures
            data == self@,
    {
        self.data.clone()
    }
}

/// One update of the storage store.  Every method changes the record in
/// memory first and hands out the write-through of the changed record.
pub struct StorageUpdate<'a> {
    pub storage: &'a mut StorageAccess,
}

impl<'a> StorageUpdate<'a> {
    pub fn enabled(self, value: bool) -> (commit: Committing<StorageData>)
        ensures
            final(self.storage)@ == (StorageData {
                storage: StorageConfig { enabled: value, ..old(self.storage)@.storage },
            }),
            commit == saving(final(self.storage)@),
    {
        self.storage.data.storage.enabled = value;
        self.storage.save_to_user_profile()
    }

    pub fn recording_enabled(self, value: bool) -> (commit: Committing<StorageData>)
        ensures
            final(self.storage)@ == (StorageData {
                storage: StorageConfig {
                    recording: StorageConfiguration {
                        enabled: value,
                        ..old(self.storage)@.storage.recording
                    },
                    ..old(self.storage)@.storage
                },
            }),
            commit == saving(final(self.storage)@),
    {
        self.storage.data.storage.recording.enabled = value;
        self.storage.save_to_user_profile()
    }

    pub fn recording_path(self, value: String) -> (commit: Committing<StorageData>)
        ensures
            final(self.storage)@ == (StorageData {
                storage: StorageConfig {
                    recording: StorageConfiguration {
                        path: value,
                        ..old(self.storage)@.storage.recording
                    },
                    ..old(self.storage)@.storage
                },
            }),
            commit == saving(final(self.storage)@),
    {
        self.storage.data.storage.recording.path = value;
        self.storage.save_to_user_profile()
    }

    /// Applies `updater` to the record in one step: no reader sees part of
    /// its changes.
    pub fn batch<F>(self, updater: F) -> (commit: Committing<StorageData>) where
        F: FnOnce(&mut StorageData),

        requires
            forall|record: &mut StorageData|
                *record == old(self.storage)@ ==> call_requires(updater, (record,)),
        ensures
            exists|record: &mut StorageData|
                *record == old(self.storage)@ && *final(record) == final(self.storage)@
                    && #[trigger] call_ensures(updater, (record,), ()),
            commit == saving(final(self.storage)@),
    {
        updater(&mut self.storage.data);
        self.storage.save_to_user_profile()
    }
}

} // verus!
