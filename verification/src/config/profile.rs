//! The side-by-side layout of the configuration files: every domain keeps
//! its default and its user file in a folder of its own, and the registry is
//! a flat table of flags.

pub use crate::domains::common::config::{
    ConfigFilesEnums,
    ProfileConfig,
    ProfileConfigFiles,
    ProfilesEnum,
};
use crate::domains::common::text::join2;
use vstd::prelude::*;
use vstd::string::StringExecFns;

verus! {

/// The path of the file of `file` whose name ends in `ending`.
pub open spec fn beside(file: ConfigFilesEnums, ending: Seq<char>) -> Seq<char> {
    "src/config/"@ + file.key() + "/"@ + file.key() + ending
}

fn path_beside(file: &ConfigFilesEnums, ending: &str) -> (path: String)
    ensures
        path@ == beside(*file, ending@),
{
    let key = file.config_type();
    let mut path = String::from_str("src/config/");
    path.append(key);
    path.append("/");
    path.append(key);
    path.append(ending);
    path
}

impl ConfigFilesEnums {
    /// The default file of the domain in its own folder.
    pub fn default_path(&self) -> (path: String)
        ensures
            path@ == beside(*self, ".default.toml"@),
    {
        path_beside(self, ".default.toml")
    }

    /// The user file of the domain in its own folder.
    pub fn user_path(&self) -> (path: String)
        ensures
            path@ == beside(*self, ".user.toml"@),
    {
        path_beside(self, ".user.toml")
    }
}

impl ProfileConfigFiles {
    /// The path of the flat registry file.
    pub fn path() -> (path: String)
        ensures
            path@ == "src/config/profile/profile.toml"@,
    {
        String::from_str("src/config/profile/profile.toml")
    }

    /// What reading and decoding the flat registry file amounted to.
    /// `read` is `Err` with the cause where the file could not be read;
    /// otherwise it holds what decoding its content gave.  The result is
    /// the flags, or a sentence that says which of the two failed and why.
    pub fn load(read: Result<Result<ProfileConfigFiles, String>, String>) -> (loaded: Result<
        ProfileConfigFiles,
        String,
    >)
        ensures
            match read {
                Ok(Ok(flags)) => loaded == Ok::<ProfileConfigFiles, String>(flags),
                Ok(Err(cause)) => loaded matches Err(text) && text@
                    == "Failed to parse profile config: "@ + cause@,
                Err(cause) => loaded matches Err(text) && text@
                    == "Failed to read profile config: "@ + cause@,
            },
    {
        match read {
            Ok(Ok(flags)) => Ok(flags),
            Ok(Err(cause)) => Err(join2("Failed to parse profile config: ", cause.as_str())),
            Err(cause) => Err(join2("Failed to read profile config: ", cause.as_str())),
        }
    }
}

} // verus!
