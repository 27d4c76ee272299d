//! Encoding of the output stream and the services it is sent to.

use crate::domains::common::config::{ConfigError, ConfigFilesEnums};
use crate::domains::common::gateway::{Commit, Committing, Load, Loading};
use vstd::prelude::*;

verus! {

#[derive(Clone, Copy, Debug, PartialEq, Eq)]
pub struct StreamSettings {
    pub width: u32,
    pub height: u32,
    pub framerate: u32,
    pub bitrate_kbps: u32,
}

#[derive(Debug, PartialEq, Eq)]
pub struct StreamRecipientsSettings {
    pub enabled: bool,
    pub url: String,
    pub key: String,
    pub format: String,
    pub codec: String,
}

impl Clone for StreamRecipientsSettings {
    fn clone(&self) -> (copy: Self)
        ensures
            copy == *self,
    {
        StreamRecipientsSettings {
            enabled: self.enabled,
            url: self.url.clone(),
            key: self.key.clone(),
            format: self.format.clone(),
            codec: self.codec.clone(),
        }
    }
}

#[derive(Debug, PartialEq, Eq)]
pub struct StreamRecipients {
    pub youtube: StreamRecipientsSettings,
    pub facebook: StreamRecipientsSettings,
    pub twitch: StreamRecipientsSettings,
    pub instagram: StreamRecipientsSettings,
    pub tik_tok: StreamRecipientsSettings,
    pub custom: StreamRecipientsSettings,
}

impl Clone for StreamRecipients {
    fn clone(&self) -> (copy: Self)
        ensures
            copy == *self,
    {
        StreamRecipients {
            youtube: self.youtube.clone(),
            facebook: self.facebook.clone(),
            twitch: self.twitch.clone(),
            instagram: self.instagram.clone(),
            tik_tok: self.tik_tok.clone(),
            custom: self.custom.clone(),
        }
    }
}

#[derive(Debug, PartialEq, Eq)]
pub struct StreamConfig {
    pub enabled: bool,
    pub settings: StreamSettings,
    pub recipients: StreamRecipients,
}

impl Clone for StreamConfig {
    fn clone(&self) -> (copy: Self)
        ensures
            copy == *self,
    {
        StreamConfig {
            enabled: self.enabled,
            settings: self.settings,
            recipients: self.recipients.clone(),
        }
    }
}

/// The record of the stream domain, as its file holds it.
#[derive(Debug, PartialEq, Eq)]
pub struct StreamData {
    pub stream: StreamConfig,
}

impl Clone for StreamData {
    fn clone(&self) -> (copy: Self)
        ensures
            copy == *self,
    {
        StreamData { stream: self.stream.clone() }
    }
}

/// The store of the stream domain: the one authoritative copy of its
/// record.  Shared borrows read it, an exclusive borrow updates it.
pub struct StreamAccess {
    data: StreamData,
}

impl View for StreamAccess {
    type V = StreamData;

    closed spec fn view(&self) -> StreamData {
        self.data
    }
}

/// The write-through that follows an update of a store holding `data`.
pub open spec fn saving(data: StreamData) -> Committing<StreamData> {
    Committing::Pending(Commit::saving(ConfigFilesEnums::Stream, data))
}

/// `data` with other stream settings.
pub open spec fn with_settings(data: StreamData, settings: StreamSettings) -> StreamData {
    StreamData { stream: StreamConfig { settings, ..data.stream } }
}

impl StreamAccess {
    /// The transaction that reads the record a new store starts with: the
    /// user file where the registry has the stream flag set, the default
    /// file otherwise.
    pub fn load_stream_config() -> (loading: Loading<StreamData>)
        ensures
            loading == Loading::<StreamData>::Pending(Load::registry_of(ConfigFilesEnums::Stream)),
    {
        Loading::Pending(Load::from_registry(ConfigFilesEnums::Stream))
    }

    /// The transaction that reads the record of the default layer.
    pub fn load_default_config() -> (loading: Loading<StreamData>)
        ensures
            loading == Loading::<StreamData>::Pending(Load::default_of(ConfigFilesEnums::Stream)),
    {
        Loading::Pending(Load::from_default(ConfigFilesEnums::Stream))
    }

    /// A store that holds what `load_stream_config` ended with; there is no
    /// store where loading failed.
    pub fn new(loaded: Result<StreamData, ConfigError>) -> (store: Result<Self, ConfigError>)
        ensures
            match loaded {
                Ok(data) => store matches Ok(s) && s@ == data,
                Err(e) => store matches Err(f) && f == e,
            },
    {
        match loaded {
            Ok(data) => Ok(StreamAccess { data }),
            Err(e) => Err(e),
        }
    }

    /// The write-through of the record as it stands.
    pub fn save_to_user_profile(&self) -> (commit: Committing<StreamData>)
        ensures
            commit == saving(self@),
    {
        Committing::Pending(Commit::save(ConfigFilesEnums::Stream, self.data.clone()))
    }

    pub fn enabled(&self) -> (value: bool)
        ensures
            value == self@.stream.enabled,
    {
        self.data.stream.enabled
    }

    pub fn width(&self) -> (value: u32)
        ensures
            value == self@.stream.settings.width,
    {
        self.data.stream.settings.width
    }

    pub fn height(&self) -> (value: u32)
        ensures
            value == self@.stream.settings.height,
    {
        self.data.stream.settings.height
    }

    pub fn framerate(&self) -> (value: u32)
        ensures
            value == self@.stream.settings.framerate,
    {
        self.data.stream.settings.framerate
    }

    pub fn bitrate_kbps(&self) -> (value: u32)
        ensures
            value == self@.stream.settings.bitrate_kbps,
    {
        self.data.stream.settings.bitrate_kbps
    }

    /// A handle that performs one update of this store.
    pub fn update(&mut self) -> (handle: StreamUpdate<'_>)
        ensures
            handle.stream@ == old(self)@,
            final(handle.stream)@ == final(self)@,
    {
        StreamUpdate { stream: self }
    }

    /// Replaces the record by the one of the default layer, as
    /// `load_default_config` ended with it, and hands out the transaction
    /// that clears the stream flag and removes the user file.  Where
    /// loading failed the store stays as it is and the error is the result.
    pub fn reset_to_default(&mut self, loaded: Result<StreamData, ConfigError>) -> (commit:
        Committing<StreamData>)
        ensures
            match loaded {
                Ok(data) => final(self)@ == data && commit == Committing::Pending(
                    Commit::<StreamData>::resetting(ConfigFilesEnums::Stream),
                ),
                Err(e) => final(self)@ == old(self)@ && commit == Committing::<
                    StreamData,
                >::Finished(Err(e)),
            },
    {
        match loaded {
            Ok(data) => {
                self.data = data;
                Committing::Pending(Commit::reset(ConfigFilesEnums::Stream))
            },
            Err(e) => Committing::Finished(Err(e)),
        }
    }

    /// A copy of the whole record.
    pub fn get_full_config(&self) -> (data: StreamData)
        ensures
            data == self@,
    {
        self.data.clone()
    }
}

/// One update of the stream store.  Every method changes the record in
/// memory first and hands out the write-through of the changed record.
pub struct StreamUpdate<'a> {
    pub stream: &'a mut StreamAccess,
}

impl<'a> StreamUpdate<'a> {
    pub fn enabled(self, value: bool) -> (commit: Committing<StreamData>)
        ensures
            final(self.stream)@ == (StreamData {
                stream: StreamConfig { enabled: value, ..old(self.stream)@.stream },
            }),
            commit == saving(final(self.stream)@),
    {
        self.stream.data.stream.enabled = value;
        self.stream.save_to_user_profile()
    }

    pub fn width(self, value: u32) -> (commit: Committing<StreamData>)
        ensures
            final(self.stream)@ == with_settings(
                old(self.stream)@,
                StreamSettings { width: value, ..old(self.stream)@.stream.settings },
            ),
            commit == saving(final(self.stream)@),
    {
        self.stream.data.stream.settings.width = value;
        self.stream.save_to_user_profile()
    }

    pub fn height(self, value: u32) -> (commit: Committing<StreamData>)
        ensures
            final(self.stream)@ == with_settings(
                old(self.stream)@,
                StreamSettings { height: value, ..old(self.stream)@.stream.settings },
            ),
            commit == saving(final(self.stream)@),
    {
        self.stream.data.stream.settings.height = value;
        self.stream.save_to_user_profile()
    }

    pub fn framerate(self, value: u32) -> (commit: Committing<StreamData>)
        ensures
            final(self.stream)@ == with_settings(
                old(self.stream)@,
                StreamSettings { framerate: value, ..old(self.stream)@.stream.settings },
            ),
            commit == saving(final(self.stream)@),
    {
        self.stream.data.stream.settings.framerate = value;
        self.stream.save_to_user_profile()
    }

    pub fn bitrate_kbps(self, value: u32) -> (commit: Committing<StreamData>)
        ensures
            final(self.stream)@ == with_settings(
                old(self.stream)@,
                StreamSettings { bitrate_kbps: value, ..old(self.stream)@.stream.settings },
            ),
            commit == saving(final(self.stream)@),
    {
        self.stream.data.stream.settings.bitrate_kbps = value;
        self.stream.save_to_user_profile()
    }

    /// Applies `updater` to the record in one step: no reader sees part of
    /// its changes.
    pub fn batch<F>(self, updater: F) -> (commit: Committing<StreamData>) where
        F: FnOnce(&mut StreamData),

        requires
            forall|record: &mut StreamData|
                *record == old(self.stream)@ ==> call_requires(updater, (record,)),
        ensures
            exists|record: &mut StreamData|
                *record == old(self.stream)@ && *final(record) == final(self.stream)@
                    && #[trigger] call_ensures(updater, (record,), ()),
            commit == saving(final(self.stream)@),
    {
        updater(&mut self.stream.data);
        self.stream.save_to_user_profile()
    }
}

} // verus!
