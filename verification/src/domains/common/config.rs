//! Layers, files, the registry of user overrides, and the error taxonomy.
//!
//! All paths are fixed and relative to the directory the process runs in.

use crate::domains::common::text::{join2, join3, same_text};
use vstd::prelude::*;
use vstd::string::StringExecFns;

verus! {

/// Which version of a domain's file is meant: the one shipped with the
/// system or the one written by the user.
#[derive(Clone, Copy, Debug, PartialEq, Eq, Structural)]
pub enum ProfilesEnum {
    Default,
    User,
}

impl ProfilesEnum {
    /// The name of this layer's folder inside the configuration folder.
    pub open spec fn name(self) -> Seq<char> {
        match self {
            ProfilesEnum::Default => "default"@,
            ProfilesEnum::User => "user"@,
        }
    }

    pub fn to_name(&self) -> (name: &'static str)
        ensures
            name@ == self.name(),
    {
        match self {
            ProfilesEnum::Default => "default",
            ProfilesEnum::User => "user",
        }
    }

    /// The folder that holds the files of this layer.
    pub open spec fn foldername(self) -> Seq<char> {
        "src/config/"@ + self.name()
    }

    pub fn to_foldername(&self) -> (folder: String)
        ensures
            folder@ == self.foldername(),
    {
        join2("src/config/", self.to_name())
    }
}

/// The configuration domains, each with a file of its own in every layer.
#[derive(Clone, Copy, Debug, PartialEq, Eq, Structural)]
pub enum ConfigFilesEnums {
    Calibration,
    Device,
    Storage,
    Stream,
}

impl ConfigFilesEnums {
    /// The name under which this domain's file is known, whatever its
    /// layer; it names the file in the error for content that cannot be
    /// decoded.
    pub open spec fn filename(self) -> Seq<char> {
        match self {
            ConfigFilesEnums::Calibration => "calibration.toml"@,
            ConfigFilesEnums::Device => "device.toml"@,
            ConfigFilesEnums::Storage => "storage.toml"@,
            ConfigFilesEnums::Stream => "stream.toml"@,
        }
    }

    pub fn to_filename(&self) -> (name: &'static str)
        ensures
            name@ == self.filename(),
    {
        match self {
            ConfigFilesEnums::Calibration => "calibration.toml",
            ConfigFilesEnums::Device => "device.toml",
            ConfigFilesEnums::Storage => "storage.toml",
            ConfigFilesEnums::Stream => "stream.toml",
        }
    }

    /// The path of this domain's file in the given layer: in the layer's
    /// folder, named by the domain's key and the layer, as in
    /// `src/config/user/device.user.toml`.
    pub open spec fn file(self, profile: ProfilesEnum) -> Seq<char> {
        profile.foldername() + "/"@ + self.key() + "."@ + profile.name() + ".toml"@
    }

    pub fn to_file(&self, profile: &ProfilesEnum) -> (path: String)
        ensures
            path@ == self.file(*profile),
    {
        let mut path = profile.to_foldername();
        path.append("/");
        path.append(self.config_type());
        path.append(".");
        path.append(profile.to_name());
        path.append(".toml");
        path
    }

    /// The key under which the registry keeps this domain's flag.
    pub open spec fn key(self) -> Seq<char> {
        match self {
            ConfigFilesEnums::Calibration => "calibration"@,
            ConfigFilesEnums::Device => "device"@,
            ConfigFilesEnums::Storage => "storage"@,
            ConfigFilesEnums::Stream => "stream"@,
        }
    }

    pub fn config_type(&self) -> (name: &'static str)
        ensures
            name@ == self.key(),
    {
        match self {
            ConfigFilesEnums::Calibration => "calibration",
            ConfigFilesEnums::Device => "device",
            ConfigFilesEnums::Storage => "storage",
            ConfigFilesEnums::Stream => "stream",
        }
    }

    /// The domain that a registry key names, if it names one.
    pub open spec fn of_key(name: Seq<char>) -> Option<ConfigFilesEnums> {
        if name == "stream"@ {
            Some(ConfigFilesEnums::Stream)
        } else if name == "device"@ {
            Some(ConfigFilesEnums::Device)
        } else if name == "storage"@ {
            Some(ConfigFilesEnums::Storage)
        } else if name == "calibration"@ {
            Some(ConfigFilesEnums::Calibration)
        } else {
            None
        }
    }

    pub fn from_config_type(name: &str) -> (file: Option<ConfigFilesEnums>)
        ensures
            file == Self::of_key(name@),
    {
        if same_text(name, "stream") {
            Some(ConfigFilesEnums::Stream)
        } else if same_text(name, "device") {
            Some(ConfigFilesEnums::Device)
        } else if same_text(name, "storage") {
            Some(ConfigFilesEnums::Storage)
        } else if same_text(name, "calibration") {
            Some(ConfigFilesEnums::Calibration)
        } else {
            None
        }
    }

    /// Every domain is found again by its own key.
    pub proof fn lemma_key_names_domain(self)
        ensures
            Self::of_key(self.key()) == Some(self),
    {
        reveal_strlit("stream");
        reveal_strlit("device");
        reveal_strlit("storage");
        reveal_strlit("calibration");
        assert("stream"@[1] == 't');
        assert("device"@[1] == 'e');
        assert("storage"@[2] == 'o');
        assert("stream"@[2] == 'r');
    }
}

/// One flag per domain: whether a user file exists and is to be preferred
/// over the default.
#[derive(Clone, Copy, Debug, PartialEq, Eq, Structural)]
pub struct ProfileConfigFiles {
    pub calibration: bool,
    pub device: bool,
    pub stream: bool,
    pub storage: bool,
}

impl ProfileConfigFiles {
    /// The flag of one domain.
    pub open spec fn flag(self, file: ConfigFilesEnums) -> bool {
        match file {
            ConfigFilesEnums::Calibration => self.calibration,
            ConfigFilesEnums::Device => self.device,
            ConfigFilesEnums::Storage => self.storage,
            ConfigFilesEnums::Stream => self.stream,
        }
    }

    /// These flags with the one of `file` replaced.
    pub open spec fn with_flag(self, file: ConfigFilesEnums, enabled: bool) -> Self {
        match file {
            ConfigFilesEnums::Calibration => ProfileConfigFiles { calibration: enabled, ..self },
            ConfigFilesEnums::Device => ProfileConfigFiles { device: enabled, ..self },
            ConfigFilesEnums::Storage => ProfileConfigFiles { storage: enabled, ..self },
            ConfigFilesEnums::Stream => ProfileConfigFiles { stream: enabled, ..self },
        }
    }
}

/// The registry as it is persisted: the flags sit in its `user` table.
#[derive(Clone, Copy, Debug, PartialEq, Eq, Structural)]
pub struct ProfileConfig {
    pub user: ProfileConfigFiles,
}

impl ProfileConfig {
    /// The layer that is authoritative for `file`.
    pub open spec fn layer(self, file: ConfigFilesEnums) -> ProfilesEnum {
        if self.user.flag(file) {
            ProfilesEnum::User
        } else {
            ProfilesEnum::Default
        }
    }

    /// Whether the registry prefers the user file of `file`.
    pub fn prefers_user(&self, file: ConfigFilesEnums) -> (user: bool)
        ensures
            user == self.user.flag(file),
    {
        match file {
            ConfigFilesEnums::Calibration => self.user.calibration,
            ConfigFilesEnums::Device => self.user.device,
            ConfigFilesEnums::Storage => self.user.storage,
            ConfigFilesEnums::Stream => self.user.stream,
        }
    }

    /// The layer a store of `file` is read from.
    pub fn source_layer(&self, file: ConfigFilesEnums) -> (layer: ProfilesEnum)
        ensures
            layer == self.layer(file),
    {
        if self.prefers_user(file) {
            ProfilesEnum::User
        } else {
            ProfilesEnum::Default
        }
    }

    /// This registry with the flag of `file` replaced.
    pub open spec fn with_flag(self, file: ConfigFilesEnums, enabled: bool) -> Self {
        ProfileConfig { user: self.user.with_flag(file, enabled) }
    }

    pub fn set_flag(self, file: ConfigFilesEnums, enabled: bool) -> (updated: Self)
        ensures
            updated == self.with_flag(file, enabled),
    {
        let mut flags = self.user;
        match file {
            ConfigFilesEnums::Calibration => {
                flags.calibration = enabled;
            },
            ConfigFilesEnums::Device => {
                flags.device = enabled;
            },
            ConfigFilesEnums::Storage => {
                flags.storage = enabled;
            },
            ConfigFilesEnums::Stream => {
                flags.stream = enabled;
            },
        }
        ProfileConfig { user: flags }
    }
}

/// Why a configuration operation failed.
#[derive(Debug, PartialEq, Eq)]
pub enum ConfigError {
    /// A source file is absent or unreadable; holds its path.
    FileNotFound(String),
    /// Content could not be decoded or encoded; holds the file and the cause.
    ParseError(String),
    /// The file system refused a write or a directory; holds the cause.
    IoError(String),
}

/// A `ConfigError` with its text as a sequence of characters.
pub enum ConfigErrorView {
    FileNotFound(Seq<char>),
    ParseError(Seq<char>),
    IoError(Seq<char>),
}

impl View for ConfigError {
    type V = ConfigErrorView;

    open spec fn view(&self) -> ConfigErrorView {
        match self {
            ConfigError::FileNotFound(path) => ConfigErrorView::FileNotFound(path@),
            ConfigError::ParseError(cause) => ConfigErrorView::ParseError(cause@),
            ConfigError::IoError(cause) => ConfigErrorView::IoError(cause@),
        }
    }
}

impl ConfigErrorView {
    /// The sentence shown for this error.
    pub open spec fn message(self) -> Seq<char> {
        match self {
            ConfigErrorView::FileNotFound(path) => "Configuration file not found: "@ + path,
            ConfigErrorView::ParseError(cause) => "Failed to parse configuration: "@ + cause,
            ConfigErrorView::IoError(cause) => "IO error: "@ + cause,
        }
    }
}

impl ConfigError {
    /// The sentence shown for this error.
    pub fn to_string(&self) -> (text: String)
        ensures
            text@ == self@.message(),
    {
        match self {
            ConfigError::FileNotFound(path) => join2(
                "Configuration file not found: ",
                path.as_str(),
            ),
            ConfigError::ParseError(cause) => join2(
                "Failed to parse configuration: ",
                cause.as_str(),
            ),
            ConfigError::IoError(cause) => join2("IO error: ", cause.as_str()),
        }
    }
}

impl Clone for ConfigError {
    fn clone(&self) -> (copy: Self)
        ensures
            copy == *self,
    {
        match self {
            ConfigError::FileNotFound(path) => ConfigError::FileNotFound(path.clone()),
            ConfigError::ParseError(cause) => ConfigError::ParseError(cause.clone()),
            ConfigError::IoError(cause) => ConfigError::IoError(cause.clone()),
        }
    }
}

/// The path of the registry file.
pub open spec fn profile_file() -> Seq<char> {
    "src/config/profile.toml"@
}

/// What the outside work of the configuration subsystem amounted to.
///
/// Each function takes the plain outcome of one piece of outside work (a
/// read, a decoding, a write) and says what it means for the caller: the
/// value to go on with, or the error to report.
pub struct ConfigUtils;

impl ConfigUtils {
    /// The path of the registry file.
    pub fn profile_path() -> (path: String)
        ensures
            path@ == profile_file(),
    {
        String::from_str("src/config/profile.toml")
    }

    /// What decoding the registry file amounted to: the registry, or a
    /// `ParseError` that names the file and the cause.
    pub fn load_profile_config(decoded: Result<ProfileConfig, String>) -> (loaded: Result<
        ProfileConfig,
        ConfigError,
    >)
        ensures
            match decoded {
                Ok(profile) => loaded == Ok::<ProfileConfig, ConfigError>(profile),
                Err(cause) => loaded matches Err(e) && e@ == ConfigErrorView::ParseError(
                    "profile.toml: "@ + cause@,
                ),
            },
    {
        match decoded {
            Ok(profile) => Ok(profile),
            Err(cause) => Err(ConfigError::ParseError(join2("profile.toml: ", cause.as_str()))),
        }
    }

    /// The registry with the flag named `config_type` set to `enabled`, or a
    /// `ParseError` where `config_type` names no domain.
    pub fn update_profile_flag(profile: ProfileConfig, config_type: &str, enabled: bool) -> (updated:
        Result<ProfileConfig, ConfigError>)
        ensures
            match ConfigFilesEnums::of_key(config_type@) {
                Some(file) => updated == Ok::<ProfileConfig, ConfigError>(
                    profile.with_flag(file, enabled),
                ),
                None => updated matches Err(e) && e@ == ConfigErrorView::ParseError(
                    "Invalid config type"@,
                ),
            },
    {
        match ConfigFilesEnums::from_config_type(config_type) {
            Some(file) => Ok(profile.set_flag(file, enabled)),
            None => Err(ConfigError::ParseError(String::from_str("Invalid config type"))),
        }
    }

    /// What creating the user folder amounted to: an `IoError` where it
    /// could not be created.
    pub fn ensure_user_dir_exists(created: Result<(), String>) -> (ensured: Result<(), ConfigError>)
        ensures
            match created {
                Ok(_) => ensured is Ok,
                Err(cause) => ensured matches Err(e) && e@ == ConfigErrorView::IoError(
                    "Failed to create user directory: "@ + cause@,
                ),
            },
    {
        match created {
            Ok(_) => Ok(()),
            Err(cause) => Err(
                ConfigError::IoError(join2("Failed to create user directory: ", cause.as_str())),
            ),
        }
    }

    /// What reading the file at `path` amounted to: its content, or
    /// `FileNotFound` with the path where it could not be read.
    pub fn load_config_file(path: &str, content: Option<String>) -> (loaded: Result<
        String,
        ConfigError,
    >)
        ensures
            match content {
                Some(text) => loaded == Ok::<String, ConfigError>(text),
                None => loaded matches Err(e) && e@ == ConfigErrorView::FileNotFound(path@),
            },
    {
        match content {
            Some(text) => Ok(text),
            None => Err(ConfigError::FileNotFound(String::from_str(path))),
        }
    }

    /// What writing the file at `path` amounted to: an `IoError` that names
    /// the path and the cause where it could not be written.
    pub fn save_config_file(path: &str, written: Result<(), String>) -> (saved: Result<
        (),
        ConfigError,
    >)
        ensures
            match written {
                Ok(_) => saved is Ok,
                Err(cause) => saved matches Err(e) && e@ == ConfigErrorView::IoError(
                    "Failed to write "@ + path@ + ": "@ + cause@,
                ),
            },
    {
        match written {
            Ok(_) => Ok(()),
            Err(cause) => {
                let mut text = join3("Failed to write ", path, ": ");
                text.append(cause.as_str());
                Err(ConfigError::IoError(text))
            },
        }
    }
}

} // verus!
