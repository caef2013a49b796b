//! Where the program keeps its files, derived from the directories that
//! the operating system assigns to a user.

use crate::path_utils::{join_path, joined};
use vstd::prelude::*;

verus! {

/// The operating systems whose conventions are known.
#[derive(Clone, Copy, PartialEq, Eq, Structural, Debug)]
pub enum Platform {
    Linux,
    MacOs,
    Windows,
}

/// The directories that the operating system assigns to the user, as far
/// as it assigns them.
#[derive(Debug)]
pub struct AppDirResolver {
    pub platform: Platform,
    /// The directory for configuration files.
    pub config_dir: Option<String>,
    /// The directory for cached data.
    pub cache_dir: Option<String>,
    /// The directory for runtime files such as sockets.
    pub runtime_dir: Option<String>,
}

/// Which of the program's places could not be derived.
#[derive(Clone, Copy, PartialEq, Eq, Structural, Debug)]
pub enum DirError {
    ConfigFile,
    CacheDir,
    SocketDir,
    LogDir,
}

/// The message for a place that could not be derived.
pub open spec fn dir_error_text(e: DirError) -> Seq<char> {
    match e {
        DirError::ConfigFile => "Failed to get default config file"@,
        DirError::CacheDir => "Failed to get default cache dir"@,
        DirError::SocketDir => "Failed to get default socket dir"@,
        DirError::LogDir => "Failed to get default log dir"@,
    }
}

impl DirError {
    /// The message of the error.
    pub fn message(&self) -> (r: String)
        ensures
            r@ == dir_error_text(*self),
    {
        match self {
            DirError::ConfigFile => "Failed to get default config file".to_owned(),
            DirError::CacheDir => "Failed to get default cache dir".to_owned(),
            DirError::SocketDir => "Failed to get default socket dir".to_owned(),
            DirError::LogDir => "Failed to get default log dir".to_owned(),
        }
    }
}

/// `name` under an optional directory.
pub open spec fn under(dir: Option<String>, name: Seq<char>) -> Option<Seq<char>> {
    match dir {
        Some(d) => Some(joined(d@, name)),
        None => None,
    }
}

/// The path of `name` under `dir`, where there is a `dir`.
fn place(dir: &Option<String>, name: &str) -> (r: Option<String>)
    ensures
        crate::config::model::opt_view(r) == under(*dir, name@),
{
    match dir {
        Some(d) => Some(join_path(d.as_str(), name)),
        None => None,
    }
}

impl AppDirResolver {
    /// The default configuration file: `foro.json` in the configuration
    /// directory.
    pub open spec fn config_file_of(self) -> Option<Seq<char>> {
        under(self.config_dir, "foro.json"@)
    }

    /// The default cache directory: `foro` in the cache directory.
    pub open spec fn cache_dir_of(self) -> Option<Seq<char>> {
        under(self.cache_dir, "foro"@)
    }

    /// The default socket directory. On Linux it is `foro` in the runtime
    /// directory, or `foro-socket-tmp/foro` in the configuration directory
    /// where there is no runtime directory; elsewhere it is
    /// `foro-socket-tmp` in the configuration directory.
    pub open spec fn socket_dir_of(self) -> Option<Seq<char>> {
        match self.platform {
            Platform::Linux => match self.runtime_dir {
                Some(d) => Some(joined(d@, "foro"@)),
                None => under(self.config_dir, "foro-socket-tmp/foro"@),
            },
            _ => under(self.config_dir, "foro-socket-tmp"@),
        }
    }

    /// The default log directory: `log` in the socket directory.
    pub open spec fn log_dir_of(self) -> Option<Seq<char>> {
        match self.socket_dir_of() {
            Some(d) => Some(joined(d, "log"@)),
            None => None,
        }
    }

    /// The default configuration file.
    pub fn config_file(&self) -> (r: Option<String>)
        ensures
            crate::config::model::opt_view(r) == self.config_file_of(),
    {
        place(&self.config_dir, "foro.json")
    }

    /// The default cache directory.
    pub fn cache_dir(&self) -> (r: Option<String>)
        ensures
            crate::config::model::opt_view(r) == self.cache_dir_of(),
    {
        place(&self.cache_dir, "foro")
    }

    /// The default socket directory.
    pub fn socket_dir(&self) -> (r: Option<String>)
        ensures
            crate::config::model::opt_view(r) == self.socket_dir_of(),
    {
        match self.platform {
            Platform::Linux => match &self.runtime_dir {
                Some(d) => Some(join_path(d.as_str(), "foro")),
                None => place(&self.config_dir, "foro-socket-tmp/foro"),
            },
            _ => place(&self.config_dir, "foro-socket-tmp"),
        }
    }

    /// The default log directory.
    pub fn log_dir(&self) -> (r: Option<String>)
        ensures
            crate::config::model::opt_view(r) == self.log_dir_of(),
    {
        match self.socket_dir() {
            Some(d) => Some(join_path(d.as_str(), "log")),
            None => None,
        }
    }

    /// The default configuration file, or the error of its absence.
    pub fn config_file_res(&self) -> (r: Result<String, DirError>)
        ensures
            match r {
                Ok(p) => self.config_file_of() == Some(p@),
                Err(e) => self.config_file_of() is None && e == DirError::ConfigFile,
            },
    {
        match self.config_file() {
            Some(p) => Ok(p),
            None => Err(DirError::ConfigFile),
        }
    }

    /// The default cache directory, or the error of its absence.
    pub fn cache_dir_res(&self) -> (r: Result<String, DirError>)
        ensures
            match r {
                Ok(p) => self.cache_dir_of() == Some(p@),
                Err(e) => self.cache_dir_of() is None && e == DirError::CacheDir,
            },
    {
        match self.cache_dir() {
            Some(p) => Ok(p),
            None => Err(DirError::CacheDir),
        }
    }

    /// The default socket directory, or the error of its absence.
    pub fn socket_dir_res(&self) -> (r: Result<String, DirError>)
        ensures
            match r {
                Ok(p) => self.socket_dir_of() == Some(p@),
                Err(e) => self.socket_dir_of() is None && e == DirError::SocketDir,
            },
    {
        match self.socket_dir() {
            Some(p) => Ok(p),
            None => Err(DirError::SocketDir),
        }
    }

    /// The default log directory, or the error of its absence.
    pub fn log_dir_res(&self) -> (r: Result<String, DirError>)
        ensures
            match r {
                Ok(p) => self.log_dir_of() == Some(p@),
                Err(e) => self.log_dir_of() is None && e == DirError::LogDir,
            },
    {
        match self.log_dir() {
            Some(p) => Ok(p),
            None => Err(DirError::LogDir),
        }
    }
}

} // verus!
