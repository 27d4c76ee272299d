//! A model of the outside for reasoning: a file system and a codec that
//! answer every step of a transaction, and what the transactions of
//! `gateway` come to when they are driven against it.
//!
//! Nothing here runs.  The functions say what a load, an update and a reset
//! leave behind, and the proofs show what follows for the next load.

use crate::domains::common::config::{
    profile_file,
    ConfigErrorView,
    ConfigFilesEnums,
    ProfileConfig,
    ProfilesEnum,
};
use crate::domains::common::gateway::{
    Commit,
    CommitStep,
    CommittingView,
    Load,
    LoadStep,
    LoadingView,
    Reply,
};
use vstd::prelude::*;

verus! {

/// The outside as a transaction meets it.
#[verifier::reject_recursive_types(T)]
#[verifier::ext_equal]
pub struct Outside<T> {
    /// The content of every file that exists, by its path.
    pub files: Map<Seq<char>, String>,
    /// Whether the folder of the user layer exists.
    pub user_folder: bool,
    /// The cause given where a file cannot be written because its folder
    /// is missing.
    pub no_folder: String,
    /// What encoding a record gives.
    pub encode: spec_fn(T) -> Result<String, String>,
    /// What decoding a text as a record gives.
    pub decode: spec_fn(String) -> Result<T, String>,
    /// What encoding the registry gives.
    pub encode_profile: spec_fn(ProfileConfig) -> Result<String, String>,
    /// What decoding a text as the registry gives.
    pub decode_profile: spec_fn(String) -> Result<ProfileConfig, String>,
}

impl LoadStep {
    /// How many steps a loading transaction has before it at most.
    pub open spec fn rank(self) -> nat {
        match self {
            LoadStep::ReadProfile => 4,
            LoadStep::DecodeProfile(_) => 3,
            LoadStep::ReadConfig(_) => 2,
            LoadStep::DecodeConfig(_) => 1,
        }
    }
}

impl<T> CommitStep<T> {
    /// How many steps a committing transaction has before it at most.
    pub open spec fn rank(self) -> nat {
        match self {
            CommitStep::CreateDir(_) => 8,
            CommitStep::Encode(_) => 7,
            CommitStep::Write(_) => 6,
            CommitStep::ReadProfile => 5,
            CommitStep::DecodeProfile(_) => 4,
            CommitStep::EncodeProfile(_) => 3,
            CommitStep::WriteProfile(_) => 2,
            CommitStep::Remove => 1,
        }
    }
}

impl<T> Outside<T> {
    /// The content of the file at `path`, if it exists.
    pub open spec fn read(self, path: Seq<char>) -> Option<String> {
        if self.files.dom().contains(path) {
            Some(self.files[path])
        } else {
            None
        }
    }

    /// The registry that the registry file holds, if it exists and can be
    /// decoded.
    pub open spec fn registry(self) -> Option<ProfileConfig> {
        match self.read(profile_file()) {
            Some(text) => match (self.decode_profile)(text) {
                Ok(profile) => Some(profile),
                Err(_) => None,
            },
            None => None,
        }
    }

    /// The record that the file of `file` in `layer` holds, if it exists and
    /// can be decoded.
    pub open spec fn record(self, file: ConfigFilesEnums, layer: ProfilesEnum) -> Option<T> {
        match self.read(file.file(layer)) {
            Some(text) => match (self.decode)(text) {
                Ok(data) => Some(data),
                Err(_) => None,
            },
            None => None,
        }
    }

    /// Whatever is encoded can be decoded again, and gives what it was.
    pub open spec fn codec_round_trips(self) -> bool {
        &&& forall|profile: ProfileConfig|
            (#[trigger] (self.encode_profile)(profile)) matches Ok(text)
                && (self.decode_profile)(text) == Ok::<ProfileConfig, String>(profile)
        &&& forall|data: T|
            (#[trigger] (self.encode)(data)) matches Ok(text) && (self.decode)(text) == Ok::<
                T,
                String,
            >(data)
    }

    /// What the outside answers to the pending step of `load`.
    pub open spec fn answer_load(self, load: Load) -> Reply<T> {
        match load.step {
            LoadStep::ReadProfile => Reply::Content(self.read(profile_file())),
            LoadStep::DecodeProfile(text) => Reply::Profile((self.decode_profile)(text)),
            LoadStep::ReadConfig(layer) => Reply::Content(self.read(load.file.file(layer))),
            LoadStep::DecodeConfig(text) => Reply::Record((self.decode)(text)),
        }
    }

    /// What `load` ends with when it is driven against this outside.
    pub open spec fn load(self, load: Load) -> Result<T, ConfigErrorView>
        decreases load.step.rank(),
    {
        match load.next(self.answer_load(load)) {
            LoadingView::Finished(result) => result,
            LoadingView::Pending(then) => if then.step.rank() < load.step.rank() {
                self.load(then)
            } else {
                Err(ConfigErrorView::IoError(Seq::empty()))
            },
        }
    }

    /// What the outside answers to the pending step of `commit`, and what
    /// the step leaves of the outside.
    pub open spec fn answer_commit(self, commit: Commit<T>) -> (Reply<T>, Outside<T>) {
        let user_file = commit.file.file(ProfilesEnum::User);
        match commit.step {
            CommitStep::CreateDir(_) => (Reply::Done(Ok(())), Outside { user_folder: true, ..self }),
            CommitStep::Encode(data) => (Reply::Text((self.encode)(data)), self),
            CommitStep::Write(text) => if self.user_folder {
                (Reply::Done(Ok(())), Outside { files: self.files.insert(user_file, text), ..self })
            } else {
                (Reply::Done(Err(self.no_folder)), self)
            },
            CommitStep::ReadProfile => (Reply::Content(self.read(profile_file())), self),
            CommitStep::DecodeProfile(text) => (Reply::Profile((self.decode_profile)(text)), self),
            CommitStep::EncodeProfile(profile) => (
                Reply::Text((self.encode_profile)(profile)),
                self,
            ),
            CommitStep::WriteProfile(text) => (
                Reply::Done(Ok(())),
                Outside { files: self.files.insert(profile_file(), text), ..self },
            ),
            CommitStep::Remove => (
                Reply::Done(Ok(())),
                Outside { files: self.files.remove(user_file), ..self },
            ),
        }
    }

    /// What `commit` ends with when it is driven against this outside, and
    /// the outside it leaves.
    pub open spec fn commit(self, commit: Commit<T>) -> (Result<(), ConfigErrorView>, Outside<T>)
        decreases commit.step.rank(),
    {
        let (reply, after) = self.answer_commit(commit);
        match commit.next(reply) {
            CommittingView::Finished(result) => (result, after),
            CommittingView::Pending(then) => if then.step.rank() < commit.step.rank() {
                after.commit(then)
            } else {
                (Err(ConfigErrorView::IoError(Seq::empty())), after)
            },
        }
    }
}

/// The registry file, the default file and the user file of a domain are
/// three different files.
pub proof fn lemma_files_differ(file: ConfigFilesEnums)
    ensures
        file.file(ProfilesEnum::User) != profile_file(),
        file.file(ProfilesEnum::Default) != profile_file(),
        file.file(ProfilesEnum::User) != file.file(ProfilesEnum::Default),
{
    reveal_strlit("src/config/profile.toml");
    reveal_strlit("src/config/");
    reveal_strlit("default");
    reveal_strlit("user");
    assert(profile_file()[11] == 'p');
    assert(file.file(ProfilesEnum::User)[11] == 'u');
    assert(file.file(ProfilesEnum::Default)[11] == 'd');
}

/// A load that consults the registry ends with the record of the layer
/// that the registry names for the domain: with the default file's record
/// where the flag is not set, with the user file's record where it is.
pub proof fn lemma_load_follows_registry<T>(
    outside: Outside<T>,
    file: ConfigFilesEnums,
    profile: ProfileConfig,
    data: T,
)
    requires
        outside.registry() == Some(profile),
        outside.record(file, profile.layer(file)) == Some(data),
    ensures
        outside.load(Load::registry_of(file)) == Ok::<T, ConfigErrorView>(data),
{
    reveal_with_fuel(Outside::load, 5);
}

/// A load from the default layer ends with the default file's record,
/// whatever the registry and the user file hold.
pub proof fn lemma_load_default<T>(outside: Outside<T>, file: ConfigFilesEnums, data: T)
    requires
        outside.record(file, ProfilesEnum::Default) == Some(data),
    ensures
        outside.load(Load::default_of(file)) == Ok::<T, ConfigErrorView>(data),
{
    reveal_with_fuel(Outside::load, 3);
}

/// The write-through of an update succeeds also where the user folder does
/// not exist yet.  It leaves the record in the user file, the domain's flag
/// set and the other flags as they were, and the default file untouched; a
/// load that consults the registry afterwards ends with the saved record.
pub proof fn lemma_update_is_durable<T>(
    outside: Outside<T>,
    file: ConfigFilesEnums,
    profile: ProfileConfig,
    data: T,
)
    requires
        outside.codec_round_trips(),
        outside.registry() == Some(profile),
    ensures
        ({
            let (result, after) = outside.commit(Commit::saving(file, data));
            &&& result == Ok::<(), ConfigErrorView>(())
            &&& after.user_folder
            &&& after.registry() == Some(profile.with_flag(file, true))
            &&& after.registry().unwrap().user.flag(file)
            &&& after.record(file, ProfilesEnum::User) == Some(data)
            &&& after.read(file.file(ProfilesEnum::Default)) == outside.read(
                file.file(ProfilesEnum::Default),
            )
            &&& after.load(Load::registry_of(file)) == Ok::<T, ConfigErrorView>(
                data,
            )
        }),
{
    lemma_files_differ(file);
    reveal_with_fuel(Outside::commit, 9);
    let (result, after) = outside.commit(Commit::saving(file, data));
    lemma_load_follows_registry(after, file, profile.with_flag(file, true), data);
}

/// The durable part of a reset succeeds whatever the user file holds and
/// whether it exists.  It leaves the domain's flag cleared and the other
/// flags as they were, no user file, and the default file untouched; a load
/// that consults the registry afterwards ends with the default record.
pub proof fn lemma_reset_is_durable<T>(
    outside: Outside<T>,
    file: ConfigFilesEnums,
    profile: ProfileConfig,
    data: T,
)
    requires
        outside.codec_round_trips(),
        outside.registry() == Some(profile),
        outside.record(file, ProfilesEnum::Default) == Some(data),
    ensures
        ({
            let (result, after) = outside.commit(Commit::<T>::resetting(file));
            &&& result == Ok::<(), ConfigErrorView>(())
            &&& after.registry() == Some(profile.with_flag(file, false))
            &&& !after.registry().unwrap().user.flag(file)
            &&& after.read(file.file(ProfilesEnum::User)) is None
            &&& after.record(file, ProfilesEnum::Default) == Some(data)
            &&& after.load(Load::registry_of(file)) == Ok::<T, ConfigErrorView>(
                data,
            )
        }),
{
    lemma_files_differ(file);
    reveal_with_fuel(Outside::commit, 6);
    let (result, after) = outside.commit(Commit::<T>::resetting(file));
    lemma_load_follows_registry(after, file, profile.with_flag(file, false), data);
}

/// A second reset right after a first one reads the same default record
/// and leaves the outside exactly as the first one left it.
pub proof fn lemma_reset_is_idempotent<T>(
    outside: Outside<T>,
    file: ConfigFilesEnums,
    profile: ProfileConfig,
    data: T,
)
    requires
        outside.codec_round_trips(),
        outside.registry() == Some(profile),
        outside.record(file, ProfilesEnum::Default) == Some(data),
    ensures
        ({
            let once = outside.commit(Commit::<T>::resetting(file)).1;
            &&& outside.load(Load::default_of(file)) == Ok::<T, ConfigErrorView>(data)
            &&& once.load(Load::default_of(file)) == Ok::<T, ConfigErrorView>(data)
            &&& once.commit(Commit::<T>::resetting(file)) == (Ok::<(), ConfigErrorView>(()), once)
        }),
{
    lemma_files_differ(file);
    lemma_reset_is_durable(outside, file, profile, data);
    lemma_load_default(outside, file, data);
    let once = outside.commit(Commit::<T>::resetting(file)).1;
    lemma_load_default(once, file, data);
    reveal_with_fuel(Outside::commit, 6);
    let twice = once.commit(Commit::<T>::resetting(file)).1;
    assert(twice.files =~= once.files);
    assert(twice =~= once);
}

} // verus!
