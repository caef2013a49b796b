//! A start-up lock that is a directory: whoever creates it holds the lock.
//!
//! A client that finds the directory there waits. It remembers when the
//! directory was last modified as it first saw it, and once more than a
//! second has passed since then it takes the lock for left behind, removes
//! the directory and tries again.

use crate::path_utils::{join_path, joined};
use vstd::prelude::*;

verus! {

/// A held start-up lock: the directory to remove when it is freed.
#[derive(Debug)]
pub struct StartupLock {
    path: Option<String>,
}

/// What an attempt to create the lock directory ran into.
#[derive(Clone, Copy, PartialEq, Eq, Structural, Debug)]
pub enum CreateOutcome {
    /// The directory was created.
    Created,
    /// The directory exists; when it was last modified and what time it is
    /// now, in milliseconds since the epoch.
    Exists { modified_ms: u64, now_ms: u64 },
    /// The attempt failed in another way.
    Failed,
}

/// What a client that wants the lock does next.
#[derive(Clone, Copy, PartialEq, Eq, Structural, Debug)]
pub enum AcquireStep {
    /// The lock is held.
    Acquired,
    /// Sleep for so many microseconds and try again.
    Wait(u64),
    /// Remove the directory and try again at once.
    Break,
    /// Give up with the error of the attempt.
    Fail,
}

/// The pause between two attempts, in microseconds.
pub const RETRY_PAUSE_US: u64 = 10;

/// A lock is left behind once it was seen unchanged for more than this
/// many milliseconds.
pub const STALE_AFTER_MS: u64 = 1000;

/// What the client does after an attempt, and what it remembers: the time
/// of modification that it saw first, if it has seen the directory.
pub open spec fn acquire_step(first_seen: Option<u64>, outcome: CreateOutcome) -> (Option<u64>, AcquireStep) {
    match outcome {
        CreateOutcome::Created => (first_seen, AcquireStep::Acquired),
        CreateOutcome::Failed => (first_seen, AcquireStep::Fail),
        CreateOutcome::Exists { modified_ms, now_ms } => match first_seen {
            None => (Some(modified_ms), AcquireStep::Wait(RETRY_PAUSE_US)),
            Some(seen) => if now_ms - seen > STALE_AFTER_MS {
                (first_seen, AcquireStep::Break)
            } else {
                (first_seen, AcquireStep::Wait(RETRY_PAUSE_US))
            },
        },
    }
}

impl StartupLock {
    /// The directory that a held lock removes when it is freed.
    pub closed spec fn held_path(self) -> Option<Seq<char>> {
        match self.path {
            Some(p) => Some(p@),
            None => None,
        }
    }

    /// The lock directory of the socket directory `socket_dir`.
    pub fn lock_path(socket_dir: &str) -> (r: String)
        ensures
            r@ == joined(socket_dir@, "daemon-start.lock"@),
    {
        join_path(socket_dir, "daemon-start.lock")
    }

    /// What a client does after an attempt to create the lock directory.
    pub fn acquire(first_seen: Option<u64>, outcome: CreateOutcome) -> (r: (Option<u64>, AcquireStep))
        ensures
            r == acquire_step(first_seen, outcome),
    {
        match outcome {
            CreateOutcome::Created => (first_seen, AcquireStep::Acquired),
            CreateOutcome::Failed => (first_seen, AcquireStep::Fail),
            CreateOutcome::Exists { modified_ms, now_ms } => match first_seen {
                None => (Some(modified_ms), AcquireStep::Wait(RETRY_PAUSE_US)),
                Some(seen) => {
                    if now_ms > seen && now_ms - seen > STALE_AFTER_MS {
                        (first_seen, AcquireStep::Break)
                    } else {
                        (first_seen, AcquireStep::Wait(RETRY_PAUSE_US))
                    }
                },
            },
        }
    }

    /// The lock held on the directory `path`.
    pub fn held(path: String) -> (r: StartupLock)
        ensures
            r.held_path() == Some(path@),
    {
        StartupLock { path: Some(path) }
    }

    /// Frees the lock: the directory to remove, which is handed out once.
    pub fn free(self) -> (r: Option<String>)
        ensures
            crate::config::model::opt_view(r) == self.held_path(),
    {
        self.path
    }
}

} // verus!
