//! The `cache` subcommands.

use crate::path_utils::file_name_is;
use vstd::prelude::*;

verus! {

/// The arguments of `cache clean`.
#[derive(Debug)]
pub struct CacheCleanArgs {
    /// Remove the directory without asking.
    pub yes: bool,
}

/// The arguments of `cache remove`.
#[derive(Debug)]
pub struct CacheRemoveArgs {
    /// The URL of the plugin whose cache entries go.
    pub url: String,
}

/// The arguments of `cache dir`.
#[derive(Debug)]
pub struct CacheDirArgs {}

/// The subcommands of `cache`.
#[derive(Debug)]
pub enum CacheSubCommands {
    Clean(CacheCleanArgs),
    Remove(CacheRemoveArgs),
    Dir(CacheDirArgs),
}

/// The arguments of `cache`.
#[derive(Debug)]
pub struct CacheArgs {
    pub subcommand: CacheSubCommands,
}

/// What `cache` does.
#[derive(Debug)]
pub enum CacheAction {
    /// Remove the cache directory.
    Clean(CacheCleanArgs),
    /// Remove what is cached of one plugin.
    Remove(CacheRemoveArgs),
    /// Print the cache directory.
    Dir,
}

/// What `cache` does for its arguments.
pub open spec fn cache_action(args: CacheArgs) -> CacheAction {
    match args.subcommand {
        CacheSubCommands::Clean(a) => CacheAction::Clean(a),
        CacheSubCommands::Remove(a) => CacheAction::Remove(a),
        CacheSubCommands::Dir(_) => CacheAction::Dir,
    }
}

/// What `cache` does for `args`.
pub fn cache_execute_with_args(args: CacheArgs) -> (r: CacheAction)
    ensures
        r == cache_action(args),
{
    match args.subcommand {
        CacheSubCommands::Clean(a) => CacheAction::Clean(a),
        CacheSubCommands::Remove(a) => CacheAction::Remove(a),
        CacheSubCommands::Dir(_) => CacheAction::Dir,
    }
}

/// What `cache clean` does about the cache directory.
#[derive(Clone, Copy, PartialEq, Eq, Structural, Debug)]
pub enum CleanStep {
    /// There is no directory: nothing to do.
    Nothing,
    /// The directory does not look like this program's: ask first.
    Confirm,
    /// Remove the directory.
    Remove,
}

/// What `cache clean` does: nothing where the directory does not exist;
/// otherwise it removes the directory, after asking unless the directory
/// is named `foro` or the user said yes beforehand.
pub fn cache_clean_execute_with_args(args: &CacheCleanArgs, cache_dir: &str, exists: bool) -> (r:
    CleanStep)
    ensures
        r == (if !exists {
            CleanStep::Nothing
        } else if crate::config::model::file_name_of(cache_dir@) != "foro"@ && !args.yes {
            CleanStep::Confirm
        } else {
            CleanStep::Remove
        }),
{
    if !exists {
        CleanStep::Nothing
    } else if !file_name_is(cache_dir, "foro") && !args.yes {
        CleanStep::Confirm
    } else {
        CleanStep::Remove
    }
}

/// What `cache clean` does once the user has answered: it removes the
/// directory only on a yes.
pub fn cache_clean_confirmed(answer: bool) -> (r: CleanStep)
    ensures
        r == (if answer {
            CleanStep::Remove
        } else {
            CleanStep::Nothing
        }),
{
    if answer {
        CleanStep::Remove
    } else {
        CleanStep::Nothing
    }
}

} // verus!
