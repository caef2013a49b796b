//! The `bulk-format` subcommand.

use crate::daemon::interface::{DaemonBulkFormatArgs, DaemonCommands};
use vstd::prelude::*;

verus! {

/// The arguments of `bulk-format`.
#[derive(Debug)]
pub struct BulkFormatArgs {
    /// Paths to format.
    pub paths: Vec<String>,
    /// Number of threads to use; zero stands for the number of CPUs.
    pub threads: usize,
}

/// The number of threads to use: what was asked for, or the number of
/// CPUs where zero was asked for.
pub open spec fn threads_of(requested: usize, cpus: usize) -> usize {
    if requested == 0 {
        cpus
    } else {
        requested
    }
}

/// The number of threads to use.
pub fn thread_count(requested: usize, cpus: usize) -> (r: usize)
    ensures
        r == threads_of(requested, cpus),
{
    if requested == 0 {
        cpus
    } else {
        requested
    }
}

/// The request that `bulk-format` sends, and that the daemon is checked
/// to be alive before it is sent.
pub fn bulk_format_execute_with_args(args: BulkFormatArgs, cpus: usize) -> (r: (DaemonCommands, bool))
    ensures
        r.0 matches DaemonCommands::BulkFormat(a) && a.paths == args.paths && a.threads == threads_of(
            args.threads,
            cpus,
        ),
        r.1,
{
    let threads = thread_count(args.threads, cpus);
    (DaemonCommands::BulkFormat(DaemonBulkFormatArgs { paths: args.paths, threads }), true)
}

} // verus!
