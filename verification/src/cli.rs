//! What the command line asks for.
//!
//! The arguments arrive parsed. Each function here turns the arguments of
//! one subcommand, and what the caller found out about the machine, into
//! the action that the program then performs.

pub mod bulk_format;
pub mod cache;
pub mod config;
pub mod daemon;
pub mod format;
pub mod internal;

use crate::cli::bulk_format::BulkFormatArgs;
use crate::cli::cache::{cache_execute_with_args, CacheAction, CacheArgs};
use crate::cli::config::{config_execute_with_args, ConfigAction, ConfigArgs};
use crate::cli::daemon::{daemon_execute_with_args, DaemonAction, DaemonArgs};
use crate::cli::format::FormatArgs;
use crate::cli::internal::{internal_execute_with_args, InternalAction, InternalArgs};
use vstd::prelude::*;

verus! {

/// The subcommands of the program.
#[derive(Debug)]
pub enum SubCommands {
    Cache(CacheArgs),
    Config(ConfigArgs),
    Daemon(DaemonArgs),
    Format(FormatArgs),
    BulkFormat(BulkFormatArgs),
    Internal(InternalArgs),
}

/// What the program does for a subcommand.
#[derive(Debug)]
pub enum Action {
    Cache(CacheAction),
    Config(ConfigAction),
    Daemon(DaemonAction),
    /// Format what the arguments name, through the daemon.
    Format(FormatArgs),
    /// Format what lies under the paths, through the daemon.
    BulkFormat(BulkFormatArgs),
    Internal(InternalAction),
}

/// What the program does for `subcommand`: each subcommand's arguments go
/// to its own handler.
pub fn execute(subcommand: SubCommands) -> (r: Action)
    ensures
        match subcommand {
            SubCommands::Cache(args) => r matches Action::Cache(action) && action
                == crate::cli::cache::cache_action(args),
            SubCommands::Config(args) => r matches Action::Config(action) && action
                == crate::cli::config::config_action(args),
            SubCommands::Daemon(args) => r matches Action::Daemon(action) && action
                == crate::cli::daemon::daemon_action(args),
            SubCommands::Format(args) => r matches Action::Format(a) && a == args,
            SubCommands::BulkFormat(args) => r matches Action::BulkFormat(a) && a == args,
            SubCommands::Internal(args) => r matches Action::Internal(action) && action
                == InternalAction::Info,
        },
{
    match subcommand {
        SubCommands::Cache(args) => Action::Cache(cache_execute_with_args(args)),
        SubCommands::Config(args) => Action::Config(config_execute_with_args(args)),
        SubCommands::Daemon(args) => Action::Daemon(daemon_execute_with_args(args)),
        SubCommands::Format(args) => Action::Format(args),
        SubCommands::BulkFormat(args) => Action::BulkFormat(args),
        SubCommands::Internal(args) => Action::Internal(internal_execute_with_args(args)),
    }
}

} // verus!
