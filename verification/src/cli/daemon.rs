//! The `daemon` subcommands.

use crate::daemon::interface::DaemonCommands;
use crate::daemon::server::Launch;
use vstd::prelude::*;

verus! {

/// The arguments of `daemon start`.
#[derive(Debug)]
pub struct DaemonStartArgs {
    /// Run the daemon in the calling process.
    pub attach: bool,
}

/// The arguments of `daemon restart`.
#[derive(Debug)]
pub struct DaemonRestartArgs {
    /// Run the new daemon in the calling process.
    pub attach: bool,
}

/// The subcommands of `daemon`.
#[derive(Debug)]
pub enum DaemonSubcommands {
    /// A request that goes to the daemon as it is.
    ServerCommands(DaemonCommands),
    Start(DaemonStartArgs),
    Restart(DaemonRestartArgs),
}

/// The arguments of `daemon`.
#[derive(Debug)]
pub struct DaemonArgs {
    pub subcommand: DaemonSubcommands,
}

/// What `daemon` does.
#[derive(Debug)]
pub enum DaemonAction {
    /// Start a daemon unless one is running.
    Start(DaemonStartArgs),
    /// Stop the running daemon, then start one.
    Restart(DaemonRestartArgs),
    /// Send the request to the running daemon.
    Send(DaemonCommands),
}

/// What `daemon` does for its arguments.
pub open spec fn daemon_action(args: DaemonArgs) -> DaemonAction {
    match args.subcommand {
        DaemonSubcommands::Start(a) => DaemonAction::Start(a),
        DaemonSubcommands::Restart(a) => DaemonAction::Restart(a),
        DaemonSubcommands::ServerCommands(command) => DaemonAction::Send(command),
    }
}

/// What `daemon` does for `args`.
pub fn daemon_execute_with_args(args: DaemonArgs) -> (r: DaemonAction)
    ensures
        r == daemon_action(args),
{
    match args.subcommand {
        DaemonSubcommands::Start(a) => DaemonAction::Start(a),
        DaemonSubcommands::Restart(a) => DaemonAction::Restart(a),
        DaemonSubcommands::ServerCommands(command) => DaemonAction::Send(command),
    }
}

/// How `daemon start` starts a daemon: not at all where one is running
/// already, else attached or in the background as the arguments say.
pub fn daemon_start_execute_with_args(args: &DaemonStartArgs, running: bool) -> (r: Option<Launch>)
    ensures
        r == (if running {
            None
        } else if args.attach {
            Some(Launch::Attached)
        } else {
            Some(Launch::Background)
        }),
{
    if running {
        None
    } else if args.attach {
        Some(Launch::Attached)
    } else {
        Some(Launch::Background)
    }
}

/// What `daemon restart` does: it sends `Stop`, with the check that a
/// daemon is alive, and then starts a daemon as the arguments say.
pub fn daemon_restart_execute_with_args(args: &DaemonRestartArgs) -> (r: (DaemonCommands, bool, Launch))
    ensures
        r.0 is Stop,
        r.1,
        r.2 == (if args.attach {
            Launch::Attached
        } else {
            Launch::Background
        }),
{
    let launch = if args.attach {
        Launch::Attached
    } else {
        Launch::Background
    };
    (DaemonCommands::Stop, true, launch)
}

} // verus!
