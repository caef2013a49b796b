//! The `internal` subcommands, used by editor integrations.

use vstd::prelude::*;

verus! {

/// The arguments of `internal info`.
#[derive(Debug)]
pub struct InternalInfoArgs {}

/// The subcommands of `internal`.
#[derive(Debug)]
pub enum InternalSubCommands {
    Info(InternalInfoArgs),
}

/// The arguments of `internal`.
#[derive(Debug)]
pub struct InternalArgs {
    pub subcommand: InternalSubCommands,
}

/// What `internal` does.
#[derive(Clone, Copy, PartialEq, Eq, Structural, Debug)]
pub enum InternalAction {
    /// Read the paths given on the standard input and print the paths in
    /// use.
    Info,
}

/// What `internal` does for `args`.
pub fn internal_execute_with_args(args: InternalArgs) -> (r: InternalAction)
    ensures
        r == InternalAction::Info,
{
    match args.subcommand {
        InternalSubCommands::Info(_) => InternalAction::Info,
    }
}

} // verus!
