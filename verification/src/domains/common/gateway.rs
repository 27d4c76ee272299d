//! The boundary between a store and the outside: file system and codec.
//!
//! A store operation that needs outside work is handed out as a
//! transaction.  A transaction names one pending step; whoever drives it
//! performs that step and advances the transaction with a [`Reply`].  The
//! transaction decides what follows: the next step, or the result.  A reply
//! that does not answer the pending step changes nothing.

use crate::domains::common::config::{
    profile_file,
    ConfigError,
    ConfigErrorView,
    ConfigFilesEnums,
    ConfigUtils,
    ProfileConfig,
    ProfilesEnum,
};
use crate::domains::common::text::{join2, join3};
use vstd::prelude::*;

verus! {

/// What came of one piece of outside work.
pub enum Reply<T> {
    /// A file was asked for: its content, or `None` where it could not be
    /// read.
    Content(Option<String>),
    /// Text was decoded as the registry: the registry, or the cause.
    Profile(Result<ProfileConfig, String>),
    /// Text was decoded as a record: the record, or the cause.
    Record(Result<T, String>),
    /// A record or the registry was encoded: the text, or the cause.
    Text(Result<String, String>),
    /// A folder was created, a file written or removed: nothing, or the
    /// cause.
    Done(Result<(), String>),
}

/// The outside work a loading transaction waits for.
pub enum LoadStep {
    /// Read the registry file; answered by `Reply::Content`.
    ReadProfile,
    /// Decode this text as the registry; answered by `Reply::Profile`.
    DecodeProfile(String),
    /// Read the domain's file in this layer; answered by `Reply::Content`.
    ReadConfig(ProfilesEnum),
    /// Decode this text as the domain's record; answered by
    /// `Reply::Record`.
    DecodeConfig(String),
}

/// A transaction that reads one domain's record.
pub struct Load {
    pub file: ConfigFilesEnums,
    pub step: LoadStep,
}

/// Where a loading transaction stands after a reply.
pub enum Loading<T> {
    Pending(Load),
    Finished(Result<T, ConfigError>),
}

/// A `Loading` with the text of its error as a sequence of characters.
pub enum LoadingView<T> {
    Pending(Load),
    Finished(Result<T, ConfigErrorView>),
}

impl<T> View for Loading<T> {
    type V = LoadingView<T>;

    open spec fn view(&self) -> LoadingView<T> {
        match self {
            Loading::Pending(load) => LoadingView::Pending(*load),
            Loading::Finished(Ok(data)) => LoadingView::Finished(Ok(*data)),
            Loading::Finished(Err(e)) => LoadingView::Finished(Err(e@)),
        }
    }
}

/// The error for content of `file` that could not be decoded.
pub open spec fn malformed(file: ConfigFilesEnums, cause: Seq<char>) -> ConfigErrorView {
    ConfigErrorView::ParseError(file.filename() + ": "@ + cause)
}

impl Load {
    /// The transaction that reads the record of `file` from the layer that
    /// the registry names.
    pub open spec fn registry_of(file: ConfigFilesEnums) -> Load {
        Load { file, step: LoadStep::ReadProfile }
    }

    /// Reads the record from the layer that the registry names: the
    /// registry is read first.
    pub fn from_registry(file: ConfigFilesEnums) -> (load: Load)
        ensures
            load == Self::registry_of(file),
    {
        Load { file, step: LoadStep::ReadProfile }
    }

    /// The transaction that reads the record of `file` from the default
    /// layer.
    pub open spec fn default_of(file: ConfigFilesEnums) -> Load {
        Load { file, step: LoadStep::ReadConfig(ProfilesEnum::Default) }
    }

    /// Reads the record from the default layer, whatever the registry says.
    pub fn from_default(file: ConfigFilesEnums) -> (load: Load)
        ensures
            load == Self::default_of(file),
    {
        Load { file, step: LoadStep::ReadConfig(ProfilesEnum::Default) }
    }

    /// The file that the pending step reads, if it reads one.
    pub open spec fn target(self) -> Option<Seq<char>> {
        match self.step {
            LoadStep::ReadProfile => Some(profile_file()),
            LoadStep::ReadConfig(layer) => Some(self.file.file(layer)),
            _ => None,
        }
    }

    pub fn path(&self) -> (path: Option<String>)
        ensures
            match self.target() {
                Some(target) => path matches Some(p) && p@ == target,
                None => path is None,
            },
    {
        match &self.step {
            LoadStep::ReadProfile => Some(ConfigUtils::profile_path()),
            LoadStep::ReadConfig(layer) => Some(self.file.to_file(layer)),
            _ => None,
        }
    }

    /// Where the transaction stands after `reply`.
    pub open spec fn next<T>(self, reply: Reply<T>) -> LoadingView<T> {
        match (self.step, reply) {
            (LoadStep::ReadProfile, Reply::Content(Some(text))) => LoadingView::Pending(
                Load { file: self.file, step: LoadStep::DecodeProfile(text) },
            ),
            (LoadStep::ReadProfile, Reply::Content(None)) => LoadingView::Finished(
                Err(ConfigErrorView::FileNotFound(profile_file())),
            ),
            (LoadStep::DecodeProfile(_), Reply::Profile(Ok(profile))) => LoadingView::Pending(
                Load { file: self.file, step: LoadStep::ReadConfig(profile.layer(self.file)) },
            ),
            (LoadStep::DecodeProfile(_), Reply::Profile(Err(cause))) => LoadingView::Finished(
                Err(ConfigErrorView::ParseError("profile.toml: "@ + cause@)),
            ),
            (LoadStep::ReadConfig(_), Reply::Content(Some(text))) => LoadingView::Pending(
                Load { file: self.file, step: LoadStep::DecodeConfig(text) },
            ),
            (LoadStep::ReadConfig(layer), Reply::Content(None)) => LoadingView::Finished(
                Err(ConfigErrorView::FileNotFound(self.file.file(layer))),
            ),
            (LoadStep::DecodeConfig(_), Reply::Record(Ok(data))) => LoadingView::Finished(
                Ok(data),
            ),
            (LoadStep::DecodeConfig(_), Reply::Record(Err(cause))) => LoadingView::Finished(
                Err(malformed(self.file, cause@)),
            ),
            _ => LoadingView::Pending(self),
        }
    }

    /// Takes what came of the pending step and decides what follows.
    pub fn advance<T>(self, reply: Reply<T>) -> (after: Loading<T>)
        ensures
            after@ == self.next(reply),
    {
        let file = self.file;
        match (self.step, reply) {
            (LoadStep::ReadProfile, Reply::Content(content)) => {
                let path = ConfigUtils::profile_path();
                match ConfigUtils::load_config_file(path.as_str(), content) {
                    Ok(text) => Loading::Pending(Load { file, step: LoadStep::DecodeProfile(text) }),
                    Err(e) => Loading::Finished(Err(e)),
                }
            },
            (LoadStep::DecodeProfile(_), Reply::Profile(decoded)) => {
                match ConfigUtils::load_profile_config(decoded) {
                    Ok(profile) => Loading::Pending(
                        Load { file, step: LoadStep::ReadConfig(profile.source_layer(file)) },
                    ),
                    Err(e) => Loading::Finished(Err(e)),
                }
            },
            (LoadStep::ReadConfig(layer), Reply::Content(content)) => {
                let path = file.to_file(&layer);
                match ConfigUtils::load_config_file(path.as_str(), content) {
                    Ok(text) => Loading::Pending(Load { file, step: LoadStep::DecodeConfig(text) }),
                    Err(e) => Loading::Finished(Err(e)),
                }
            },
            (LoadStep::DecodeConfig(_), Reply::Record(Ok(data))) => Loading::Finished(Ok(data)),
            (LoadStep::DecodeConfig(_), Reply::Record(Err(cause))) => Loading::Finished(
                Err(ConfigError::ParseError(join3(file.to_filename(), ": ", cause.as_str()))),
            ),
            (step, _) => Loading::Pending(Load { file, step }),
        }
    }
}

/// The outside work a committing transaction waits for.
pub enum CommitStep<T> {
    /// Create the user folder if it is missing; answered by `Reply::Done`.
    /// The record is the one that is saved afterwards.
    CreateDir(T),
    /// Encode this record; answered by `Reply::Text`.
    Encode(T),
    /// Write this text to the domain's user file, replacing what is there;
    /// answered by `Reply::Done`.
    Write(String),
    /// Read the registry file; answered by `Reply::Content`.
    ReadProfile,
    /// Decode this text as the registry; answered by `Reply::Profile`.
    DecodeProfile(String),
    /// Encode this registry; answered by `Reply::Text`.
    EncodeProfile(ProfileConfig),
    /// Write this text to the registry file; answered by `Reply::Done`.
    WriteProfile(String),
    /// Remove the domain's user file; answered by `Reply::Done`, whose
    /// content is not looked at.
    Remove,
}

/// A transaction that makes one domain's layer durable: either the user
/// layer after an update (`user` is true: the record is saved, then the
/// registry flag is set), or the default layer after a reset (`user` is
/// false: the registry flag is cleared, then the user file is removed).
pub struct Commit<T> {
    pub file: ConfigFilesEnums,
    pub user: bool,
    pub step: CommitStep<T>,
}

/// Where a committing transaction stands after a reply.
pub enum Committing<T> {
    Pending(Commit<T>),
    Finished(Result<(), ConfigError>),
}

/// A `Committing` with the text of its error as a sequence of characters.
pub enum CommittingView<T> {
    Pending(Commit<T>),
    Finished(Result<(), ConfigErrorView>),
}

impl<T> View for Committing<T> {
    type V = CommittingView<T>;

    open spec fn view(&self) -> CommittingView<T> {
        match self {
            Committing::Pending(commit) => CommittingView::Pending(*commit),
            Committing::Finished(Ok(_)) => CommittingView::Finished(Ok(())),
            Committing::Finished(Err(e)) => CommittingView::Finished(Err(e@)),
        }
    }
}

impl<T> Commit<T> {
    /// The transaction that makes an update of `file` durable, `data` being
    /// the record after the update.
    pub open spec fn saving(file: ConfigFilesEnums, data: T) -> Commit<T> {
        Commit { file, user: true, step: CommitStep::CreateDir(data) }
    }

    /// The write-through of an update: saves `data` as the domain's user
    /// file and then sets the domain's flag in the registry.
    pub fn save(file: ConfigFilesEnums, data: T) -> (commit: Commit<T>)
        ensures
            commit == Self::saving(file, data),
    {
        Commit { file, user: true, step: CommitStep::CreateDir(data) }
    }

    /// The transaction that makes a reset of `file` durable.
    pub open spec fn resetting(file: ConfigFilesEnums) -> Commit<T> {
        Commit { file, user: false, step: CommitStep::ReadProfile }
    }

    /// The durable part of a reset: clears the domain's flag in the
    /// registry and then removes the domain's user file.
    pub fn reset(file: ConfigFilesEnums) -> (commit: Commit<T>)
        ensures
            commit == Self::resetting(file),
    {
        Commit { file, user: false, step: CommitStep::ReadProfile }
    }

    /// The folder or file that the pending step touches, if it touches
    /// one.
    pub open spec fn target(self) -> Option<Seq<char>> {
        match self.step {
            CommitStep::CreateDir(_) => Some(ProfilesEnum::User.foldername()),
            CommitStep::Write(_) => Some(self.file.file(ProfilesEnum::User)),
            CommitStep::ReadProfile => Some(profile_file()),
            CommitStep::WriteProfile(_) => Some(profile_file()),
            CommitStep::Remove => Some(self.file.file(ProfilesEnum::User)),
            _ => None,
        }
    }

    pub fn path(&self) -> (path: Option<String>)
        ensures
            match self.target() {
                Some(target) => path matches Some(p) && p@ == target,
                None => path is None,
            },
    {
        match &self.step {
            CommitStep::CreateDir(_) => Some(ProfilesEnum::User.to_foldername()),
            CommitStep::Write(_) => Some(self.file.to_file(&ProfilesEnum::User)),
            CommitStep::ReadProfile => Some(ConfigUtils::profile_path()),
            CommitStep::WriteProfile(_) => Some(ConfigUtils::profile_path()),
            CommitStep::Remove => Some(self.file.to_file(&ProfilesEnum::User)),
            _ => None,
        }
    }

    /// Where the transaction stands after `reply`.
    pub open spec fn next(self, reply: Reply<T>) -> CommittingView<T> {
        match (self.step, reply) {
            (CommitStep::CreateDir(data), Reply::Done(Ok(_))) => CommittingView::Pending(
                Commit { step: CommitStep::Encode(data), ..self },
            ),
            (CommitStep::CreateDir(_), Reply::Done(Err(cause))) => CommittingView::Finished(
                Err(ConfigErrorView::IoError("Failed to create user directory: "@ + cause@)),
            ),
            (CommitStep::Encode(_), Reply::Text(Ok(text))) => CommittingView::Pending(
                Commit { step: CommitStep::Write(text), ..self },
            ),
            (CommitStep::Encode(_), Reply::Text(Err(cause))) => CommittingView::Finished(
                Err(ConfigErrorView::ParseError("Failed to serialize config: "@ + cause@)),
            ),
            (CommitStep::Write(_), Reply::Done(Ok(_))) => CommittingView::Pending(
                Commit { step: CommitStep::ReadProfile, ..self },
            ),
            (CommitStep::Write(_), Reply::Done(Err(cause))) => CommittingView::Finished(
                Err(
                    ConfigErrorView::IoError(
                        "Failed to write "@ + self.file.file(ProfilesEnum::User) + ": "@ + cause@,
                    ),
                ),
            ),
            (CommitStep::ReadProfile, Reply::Content(Some(text))) => CommittingView::Pending(
                Commit { step: CommitStep::DecodeProfile(text), ..self },
            ),
            (CommitStep::ReadProfile, Reply::Content(None)) => CommittingView::Finished(
                Err(ConfigErrorView::FileNotFound(profile_file())),
            ),
            (CommitStep::DecodeProfile(_), Reply::Profile(Ok(profile))) => CommittingView::Pending(
                Commit {
                    step: CommitStep::EncodeProfile(profile.with_flag(self.file, self.user)),
                    ..self
                },
            ),
            (CommitStep::DecodeProfile(_), Reply::Profile(Err(cause))) => CommittingView::Finished(
                Err(ConfigErrorView::ParseError("profile.toml: "@ + cause@)),
            ),
            (CommitStep::EncodeProfile(_), Reply::Text(Ok(text))) => CommittingView::Pending(
                Commit { step: CommitStep::WriteProfile(text), ..self },
            ),
            (CommitStep::EncodeProfile(_), Reply::Text(Err(cause))) => CommittingView::Finished(
                Err(ConfigErrorView::ParseError("Failed to serialize profile: "@ + cause@)),
            ),
            (CommitStep::WriteProfile(_), Reply::Done(Ok(_))) => if self.user {
                CommittingView::Finished(Ok(()))
            } else {
                CommittingView::Pending(Commit { step: CommitStep::Remove, ..self })
            },
            (CommitStep::WriteProfile(_), Reply::Done(Err(cause))) => CommittingView::Finished(
                Err(ConfigErrorView::IoError("Failed to write profile.toml: "@ + cause@)),
            ),
            (CommitStep::Remove, Reply::Done(_)) => CommittingView::Finished(Ok(())),
            _ => CommittingView::Pending(self),
        }
    }

    /// Takes what came of the pending step and decides what follows.
    pub fn advance(self, reply: Reply<T>) -> (after: Committing<T>)
        ensures
            after@ == self.next(reply),
    {
        let file = self.file;
        let user = self.user;
        match (self.step, reply) {
            (CommitStep::CreateDir(data), Reply::Done(created)) => {
                match ConfigUtils::ensure_user_dir_exists(created) {
                    Ok(_) => Committing::Pending(Commit { file, user, step: CommitStep::Encode(data) }),
                    Err(e) => Committing::Finished(Err(e)),
                }
            },
            (CommitStep::Encode(_), Reply::Text(Ok(text))) => Committing::Pending(
                Commit { file, user, step: CommitStep::Write(text) },
            ),
            (CommitStep::Encode(_), Reply::Text(Err(cause))) => Committing::Finished(
                Err(ConfigError::ParseError(join2("Failed to serialize config: ", cause.as_str()))),
            ),
            (CommitStep::Write(_), Reply::Done(written)) => {
                let path = file.to_file(&ProfilesEnum::User);
                match ConfigUtils::save_config_file(path.as_str(), written) {
                    Ok(_) => Committing::Pending(Commit { file, user, step: CommitStep::ReadProfile }),
                    Err(e) => Committing::Finished(Err(e)),
                }
            },
            (CommitStep::ReadProfile, Reply::Content(content)) => {
                let path = ConfigUtils::profile_path();
                match ConfigUtils::load_config_file(path.as_str(), content) {
                    Ok(text) => Committing::Pending(
                        Commit { file, user, step: CommitStep::DecodeProfile(text) },
                    ),
                    Err(e) => Committing::Finished(Err(e)),
                }
            },
            (CommitStep::DecodeProfile(_), Reply::Profile(decoded)) => {
                match ConfigUtils::load_profile_config(decoded) {
                    Ok(profile) => {
                        proof {
                            file.lemma_key_names_domain();
                        }
                        match ConfigUtils::update_profile_flag(profile, file.config_type(), user) {
                            Ok(updated) => Committing::Pending(
                                Commit { file, user, step: CommitStep::EncodeProfile(updated) },
                            ),
                            Err(e) => Committing::Finished(Err(e)),
                        }
                    },
                    Err(e) => Committing::Finished(Err(e)),
                }
            },
            (CommitStep::EncodeProfile(_), Reply::Text(Ok(text))) => Committing::Pending(
                Commit { file, user, step: CommitStep::WriteProfile(text) },
            ),
            (CommitStep::EncodeProfile(_), Reply::Text(Err(cause))) => Committing::Finished(
                Err(
                    ConfigError::ParseError(join2("Failed to serialize profile: ", cause.as_str())),
                ),
            ),
            (CommitStep::WriteProfile(_), Reply::Done(Ok(_))) => {
                if user {
                    Committing::Finished(Ok(()))
                } else {
                    Committing::Pending(Commit { file, user, step: CommitStep::Remove })
                }
            },
            (CommitStep::WriteProfile(_), Reply::Done(Err(cause))) => Committing::Finished(
                Err(ConfigError::IoError(join2("Failed to write profile.toml: ", cause.as_str()))),
            ),
            (CommitStep::Remove, Reply::Done(_)) => Committing::Finished(Ok(())),
            (step, _) => Committing::Pending(Commit { file, user, step }),
        }
    }
}

} // verus!
