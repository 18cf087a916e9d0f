//! The user's stored configuration and where it lives.
use crate::compat::Credentials;
use crate::error::{Error, ErrorKind};
use directories::ProjectDirs;
use std::path::PathBuf;
use vstd::prelude::*;

verus! {

pub const QUALIFIER: &'static str = "org";
pub const ORGANISATION: &'static str = "shush";
pub const APPLICATION: &'static str = "shush";

/// The standard library's owned path, carried through unopened.
#[verifier::external_type_specification]
#[verifier::external_body]
pub struct ExPathBuf(PathBuf);

/// The path that `PathBuf::join` makes of a directory and a file name.
pub uninterp spec fn joined_path(dir: PathBuf, file_name: Seq<char>) -> PathBuf;

/// Calls `PathBuf::join`. Claims that the result is the join of the directory
/// and the name, which depends on them alone; what that path is, is not stated.
#[verifier::external_body]
fn join_path(dir: &PathBuf, file_name: &str) -> (r: PathBuf)
    ensures
        r == joined_path(*dir, file_name@),
{
    dir.join(file_name)
}

/// The stored configuration: the credentials of the last login, if any.
#[derive(Debug, Clone)]
pub struct Config {
    pub credentials: Option<Credentials>,
}

impl Default for Config {
    fn default() -> (r: Config)
        ensures
            r.credentials.is_none(),
    {
        Config { credentials: None }
    }
}

impl Config {
    /// The configuration directory of the application named by the three
    /// names on this system: `ProjectDirs::from` of the `directories` crate,
    /// then its configuration directory. Nothing is claimed of it: it depends
    /// on the operating system and the environment.
    #[verifier::external_body]
    pub fn dir_path(qualifier: &str, organisation: &str, application: &str) -> (r: Option<PathBuf>) {
        let project_dirs = ProjectDirs::from(qualifier, organisation, application);
        project_dirs.map(|d| d.config_dir().to_owned())
    }

    /// The configuration file inside the given directory, or an error where
    /// no directory was found.
    pub fn path_in(dir: Option<PathBuf>) -> (r: Result<PathBuf, Error>)
        ensures
            r.is_ok() == dir.is_some(),
            r matches Ok(p) ==> p == joined_path(dir.unwrap(), "config.toml"@),
            r matches Err(e) ==> e.kind == ErrorKind::Unexpected && e.situation.is_none()
                && e.details@ == "Could not find shush config directory for this OS!"@,
    {
        match dir {
            None => Err(Error::new(ErrorKind::Unexpected, "Could not find shush config directory for this OS!")),
            Some(p) => Ok(join_path(&p, "config.toml")),
        }
    }

    /// The path of the configuration file on this system: `config.toml` in the
    /// configuration directory of "org", "shush", "shush", or an error where
    /// none is found.
    pub fn path() -> (r: Result<PathBuf, Error>)
        ensures
            r matches Ok(p) ==> exists|dir: PathBuf| p == #[trigger] joined_path(dir, "config.toml"@),
            r matches Err(e) ==> e.kind == ErrorKind::Unexpected && e.situation.is_none()
                && e.details@ == "Could not find shush config directory for this OS!"@,
    {
        Self::path_in(Self::dir_path(QUALIFIER, ORGANISATION, APPLICATION))
    }

    /// Keeps the credentials that the next login will use.
    pub fn set_stored_credentials(&mut self, credentials: Credentials)
        ensures
            final(self).credentials == Some(credentials),
    {
        self.credentials = Some(credentials);
    }
}

} // verus!
