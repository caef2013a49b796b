//! Which configuration file and which directories are in use: what was
//! given on the command line comes first, then what the configuration
//! names, then the platform's default.

use crate::app_dir::AppDirResolver;
use crate::config::model::{opt_view, Config};
use vstd::prelude::*;

verus! {

/// Why the places in use could not be settled.
#[derive(Clone, Copy, PartialEq, Eq, Structural, Debug)]
pub enum LoadError {
    /// No configuration file was given and none could be derived, where
    /// the cache directory was asked for.
    NoConfigDirectory,
    /// No configuration file was given and none could be derived.
    NoConfigFile,
    /// No cache directory was given, configured or derived.
    NoCacheDir,
    /// No socket directory was given, configured or derived.
    NoSocketDir,
}

/// The message of an error.
pub open spec fn load_error_text(e: LoadError) -> Seq<char> {
    match e {
        LoadError::NoConfigDirectory => "Could not get config directory"@,
        LoadError::NoConfigFile => "Failed to get config directory"@,
        LoadError::NoCacheDir => "Failed to get cache directory"@,
        LoadError::NoSocketDir => "Failed to get socket directory"@,
    }
}

impl LoadError {
    /// The message of the error.
    pub fn message(&self) -> (r: String)
        ensures
            r@ == load_error_text(*self),
    {
        match self {
            LoadError::NoConfigDirectory => "Could not get config directory".to_owned(),
            LoadError::NoConfigFile => "Failed to get config directory".to_owned(),
            LoadError::NoCacheDir => "Failed to get cache directory".to_owned(),
            LoadError::NoSocketDir => "Failed to get socket directory".to_owned(),
        }
    }
}

/// The text of the configuration that a fresh installation starts with.
pub open spec fn default_config_text() -> Seq<char> {
    "{\n    \"rules\": [\n        {\n            \"on\": [\".ts\", \".tsx\", \".json\"],\n            \"cmd\": \"https://github.com/nahco314/foro-biome/releases/latest/download/foro-biome.dllpack\"\n        },\n        {\n            \"on\": \".rs\",\n            \"write_cmd\": \"rustfmt +nightly --unstable-features --skip-children {{ target }}\"\n        },\n        {\n            \"on\": \".py\",\n            \"cmd\": \"https://github.com/nahco314/foro-ruff/releases/latest/download/foro-ruff.dllpack\"\n        }\n    ]\n}\n"@
}

/// The configuration that a fresh installation starts with.
pub fn default_config() -> (r: &'static str)
    ensures
        r@ == default_config_text(),
{
    "{\n    \"rules\": [\n        {\n            \"on\": [\".ts\", \".tsx\", \".json\"],\n            \"cmd\": \"https://github.com/nahco314/foro-biome/releases/latest/download/foro-biome.dllpack\"\n        },\n        {\n            \"on\": \".rs\",\n            \"write_cmd\": \"rustfmt +nightly --unstable-features --skip-children {{ target }}\"\n        },\n        {\n            \"on\": \".py\",\n            \"cmd\": \"https://github.com/nahco314/foro-ruff/releases/latest/download/foro-ruff.dllpack\"\n        }\n    ]\n}\n"
}

/// What is done about the default configuration file.
#[derive(Debug)]
pub enum DefaultConfigStep {
    /// The file exists: use it as it is.
    Use { path: String },
    /// The file does not exist: create its directory, write the default
    /// configuration into it, then use it.
    Create { path: String },
}

/// What is done about the default configuration file, given whether it
/// exists. There is nothing to do where the platform names no place for
/// it. An existing file is never overwritten.
pub fn get_or_create_default_config_with(resolver: &AppDirResolver, exists: bool) -> (r: Option<
    DefaultConfigStep,
>)
    ensures
        match r {
            None => resolver.config_file_of() is None,
            Some(DefaultConfigStep::Use { path }) => exists && resolver.config_file_of() == Some(path@),
            Some(DefaultConfigStep::Create { path }) => !exists && resolver.config_file_of() == Some(
                path@,
            ),
        },
{
    match resolver.config_file() {
        None => None,
        Some(path) => {
            if exists {
                Some(DefaultConfigStep::Use { path })
            } else {
                Some(DefaultConfigStep::Create { path })
            }
        },
    }
}

/// The first of three optional choices that is made.
pub open spec fn first_of(
    given: Option<Seq<char>>,
    configured: Option<Seq<char>>,
    default: Option<Seq<char>>,
) -> Option<Seq<char>> {
    match given {
        Some(g) => Some(g),
        None => match configured {
            Some(c) => Some(c),
            None => default,
        },
    }
}

/// The configuration file in use: the one given, else the default one.
/// `for_cache` says for which of the two directories the configuration is
/// wanted; the error of a missing file differs by it.
pub fn config_file_in_use(given: &Option<String>, default: Option<String>, for_cache: bool) -> (r:
    Result<String, LoadError>)
    ensures
        match r {
            Ok(path) => first_of(opt_view(*given), None, opt_view(default)) == Some(path@),
            Err(e) => given is None && default is None && e == (if for_cache {
                LoadError::NoConfigDirectory
            } else {
                LoadError::NoConfigFile
            }),
        },
{
    match given {
        Some(path) => Ok(path.clone()),
        None => match default {
            Some(path) => Ok(path),
            None => if for_cache {
                Err(LoadError::NoConfigDirectory)
            } else {
                Err(LoadError::NoConfigFile)
            },
        },
    }
}

/// The first of the three directories that there is.
fn pick(given: &Option<String>, configured: &Option<String>, default: Option<String>) -> (r: Option<
    String,
>)
    ensures
        opt_view(r) == first_of(opt_view(*given), opt_view(*configured), opt_view(default)),
{
    match given {
        Some(dir) => Some(dir.clone()),
        None => match configured {
            Some(dir) => Some(dir.clone()),
            None => default,
        },
    }
}

/// The cache directory in use: the one given, else the one that the
/// configuration names, else the platform's.
pub fn load_config_and_cache_with(
    resolver: &AppDirResolver,
    config: &Config,
    given_cache_dir: &Option<String>,
) -> (r: Result<String, LoadError>)
    ensures
        match r {
            Ok(dir) => first_of(opt_view(*given_cache_dir), config@.cache_dir, resolver.cache_dir_of())
                == Some(dir@),
            Err(e) => first_of(opt_view(*given_cache_dir), config@.cache_dir, resolver.cache_dir_of())
                is None && e == LoadError::NoCacheDir,
        },
{
    match pick(given_cache_dir, &config.cache_dir, resolver.cache_dir()) {
        Some(dir) => Ok(dir),
        None => Err(LoadError::NoCacheDir),
    }
}

/// The socket directory in use: the one given, else the one that the
/// configuration names, else the platform's.
pub fn load_config_and_socket_with(
    resolver: &AppDirResolver,
    config: &Config,
    given_socket_dir: &Option<String>,
) -> (r: Result<String, LoadError>)
    ensures
        match r {
            Ok(dir) => first_of(
                opt_view(*given_socket_dir),
                config@.socket_dir,
                resolver.socket_dir_of(),
            ) == Some(dir@),
            Err(e) => first_of(opt_view(*given_socket_dir), config@.socket_dir, resolver.socket_dir_of())
                is None && e == LoadError::NoSocketDir,
        },
{
    match pick(given_socket_dir, &config.socket_dir, resolver.socket_dir()) {
        Some(dir) => Ok(dir),
        None => Err(LoadError::NoSocketDir),
    }
}

/// The cache directory and the socket directory in use, in this order. A
/// missing cache directory is reported before a missing socket directory.
pub fn load_paths_with(
    resolver: &AppDirResolver,
    config: &Config,
    given_cache_dir: &Option<String>,
    given_socket_dir: &Option<String>,
) -> (r: Result<(String, String), LoadError>)
    ensures
        match r {
            Ok((cache, socket)) => first_of(
                opt_view(*given_cache_dir),
                config@.cache_dir,
                resolver.cache_dir_of(),
            ) == Some(cache@) && first_of(
                opt_view(*given_socket_dir),
                config@.socket_dir,
                resolver.socket_dir_of(),
            ) == Some(socket@),
            Err(e) => if first_of(opt_view(*given_cache_dir), config@.cache_dir, resolver.cache_dir_of())
                is None {
                e == LoadError::NoCacheDir
            } else {
                e == LoadError::NoSocketDir && first_of(
                    opt_view(*given_socket_dir),
                    config@.socket_dir,
                    resolver.socket_dir_of(),
                ) is None
            },
        },
{
    let cache = match load_config_and_cache_with(resolver, config, given_cache_dir) {
        Ok(dir) => dir,
        Err(e) => {
            return Err(e);
        },
    };
    match load_config_and_socket_with(resolver, config, given_socket_dir) {
        Ok(socket) => Ok((cache, socket)),
        Err(e) => Err(e),
    }
}

} // verus!
