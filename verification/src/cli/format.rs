//! The `format` subcommand.

use crate::cli::bulk_format::{thread_count, threads_of};
use crate::daemon::interface::{
    DaemonBulkFormatArgs,
    DaemonCommands,
    DaemonFormatArgs,
};
use vstd::prelude::*;

verus! {

/// The arguments of `format`.
#[derive(Debug)]
pub struct FormatArgs {
    /// Paths to format.
    pub paths: Vec<String>,
    /// Number of threads to use; zero stands for the number of CPUs.
    pub threads: usize,
}

/// The request that `format` sends, and whether the daemon is checked to
/// be alive before. One path that is a file asks for that file to be
/// formatted, without the check; anything else is a bulk format over the
/// paths, with the check, on as many threads as were asked for or as the
/// machine has CPUs.
pub fn format_execute_with_args(args: FormatArgs, single_file: bool, cpus: usize) -> (r: (
    DaemonCommands,
    bool,
))
    ensures
        args.paths.len() == 1 && single_file ==> (r.0 matches DaemonCommands::Format(a) && a.path
            == args.paths[0] && !r.1),
        !(args.paths.len() == 1 && single_file) ==> (r.0 matches DaemonCommands::BulkFormat(a)
            && a.paths == args.paths && a.threads == threads_of(args.threads, cpus) && r.1),
{
    if args.paths.len() == 1 && single_file {
        let mut paths = args.paths;
        let path = paths.remove(0);
        (DaemonCommands::Format(DaemonFormatArgs { path }), false)
    } else {
        let threads = thread_count(args.threads, cpus);
        (DaemonCommands::BulkFormat(DaemonBulkFormatArgs { paths: args.paths, threads }), true)
    }
}

} // verus!
