//! Start-up and restart arbitration between clients that want a daemon.
//!
//! The protocol is a state machine. The machine asks for one effect at a
//! time ([`StartupAction`]); the caller performs it and reports what happened
//! ([`StartupEvent`]). The machine never sees a path, a socket or a clock:
//! it only decides what comes next.

use vstd::prelude::*;

verus! {

/// What a liveness probe found, relative to the client's own build.
#[derive(Clone, Copy, PartialEq, Eq, Structural, Debug)]
pub enum Probe {
    /// No live daemon owns the info file.
    NotRunning,
    /// A live daemon with the client's build id.
    RunningSame,
    /// A live daemon with another build id.
    RunningOther,
}

/// Which lock on the start-up lock file the client holds.
#[derive(Clone, Copy, PartialEq, Eq, Structural, Debug)]
pub enum LockHeld {
    Nothing,
    Shared,
    Exclusive,
}

/// What happens once the lock has been released.
#[derive(Clone, Copy, PartialEq, Eq, Structural, Debug)]
pub enum AfterRelease {
    /// Probe the daemon once more and return what the probe finds.
    Probe,
    /// Give up with the error of the effect that failed.
    Fail,
    /// Judge the stamp that was read under the shared lock.
    Judge(Option<u64>),
}

/// With which of the two results the protocol ends.
#[derive(Clone, Copy, PartialEq, Eq, Structural, Debug)]
pub enum Verdict {
    /// The status that the first probe found.
    Initial,
    /// The status that the last probe found.
    Latest,
}

/// The effect the machine is waiting for.
#[derive(Clone, Copy, PartialEq, Eq, Structural, Debug)]
pub enum Phase {
    /// First liveness probe.
    Probing,
    /// Ping after the probe found nothing.
    ColdPing,
    /// First attempt at the exclusive lock.
    ColdLock,
    /// Ping under the exclusive lock, after the lock file was stamped.
    LockedPing,
    /// The lock file is being stamped; `restart` tells a restart from a cold start.
    Stamping { restart: bool },
    /// Stop request sent to the daemon of another build.
    Stopping,
    /// A fresh daemon is being spawned.
    Starting,
    /// The lock is being released; `shared` tells which of the two it is.
    Releasing { shared: bool, then: AfterRelease },
    /// Attempt at the shared lock.
    SharedLock,
    /// Ping under the shared lock.
    SharedPing,
    /// The holder's stamp is being read.
    SharedRead,
    /// The clock is being read to judge the stamp, in milliseconds.
    Clock { stamp_ms: u64 },
    /// Ping before a stale lock is broken.
    StalePing,
    /// Attempt at the exclusive lock after the stamp was found stale.
    ForceLock,
    /// Short wait for the lock's holder.
    WaitShort,
    /// Ping after the short wait.
    WaitPing,
    /// Long wait for the lock's holder.
    WaitLong,
    /// Ping after the lock file could not be read.
    BlindPing,
    /// Pause before the exclusive lock is tried once more.
    BlindPause,
    /// Second attempt at the exclusive lock.
    RetryLock,
    /// Attempt at the exclusive lock for a restart.
    RestartLock,
    /// Last liveness probe.
    FinalProbe,
    /// The protocol has ended.
    Finished,
}

/// What the caller reports back.
#[derive(Clone, Copy, PartialEq, Eq, Structural, Debug)]
pub enum StartupEvent {
    /// Result of a liveness probe.
    Status(Probe),
    /// Result of a ping: whether a daemon answered.
    Pong(bool),
    /// Result of a lock attempt: whether the lock was acquired.
    Lock(bool),
    /// The stamp read from the lock file, in milliseconds since the epoch, if it could be read.
    Stamp(Option<u64>),
    /// The current time in milliseconds since the epoch.
    Time(u64),
    /// The effect was performed.
    Done,
    /// The effect failed.
    Failed,
}

/// What the machine asks for.
#[derive(Clone, Copy, PartialEq, Eq, Structural, Debug)]
pub enum StartupAction {
    /// Probe the daemon through its info file.
    CheckAlive,
    /// Send a ping over the socket.
    Ping,
    /// Try to take the exclusive lock.
    LockExclusive,
    /// Try to take the shared lock.
    LockShared,
    /// Read the stamp from the lock file.
    ReadStamp,
    /// Write the client's stamp into the lock file.
    WriteStamp,
    /// Release the lock.
    Unlock,
    /// Read the clock.
    ReadClock,
    /// Sleep for so many milliseconds.
    Sleep(u64),
    /// Tell the running daemon to stop.
    SendStop,
    /// Spawn a fresh daemon in the background.
    StartDaemon,
    /// End with a status.
    Return(Verdict),
    /// End with an error: that of the effect that failed, or, where none
    /// failed, that the daemon is of another build and was not replaced.
    Fail,
}

/// A lock is stale once it is older than this many milliseconds.
pub const STALE_AFTER_MS: u64 = 1000;

/// The wait before the first ping for the lock's holder, in milliseconds.
pub const SHORT_WAIT_MS: u64 = 100;

/// The wait after that ping failed, in milliseconds.
pub const LONG_WAIT_MS: u64 = 900;

/// The pause before the second attempt at the exclusive lock, in milliseconds.
pub const RETRY_PAUSE_MS: u64 = 50;

/// Whether a stamp written at `stamp_ms` is stale at `now_ms`: strictly more
/// than a second old. A stamp from the future is not stale.
pub open spec fn is_stale(now_ms: u64, stamp_ms: u64) -> bool {
    now_ms - stamp_ms > STALE_AFTER_MS
}

/// The lock that the client holds while the machine is in `phase`.
pub open spec fn lock_held(phase: Phase) -> LockHeld {
    match phase {
        Phase::LockedPing | Phase::Stamping { .. } | Phase::Stopping | Phase::Starting => LockHeld::Exclusive,
        Phase::SharedPing | Phase::SharedRead => LockHeld::Shared,
        Phase::Releasing { shared, .. } => if shared {
            LockHeld::Shared
        } else {
            LockHeld::Exclusive
        },
        _ => LockHeld::Nothing,
    }
}

/// Whether `action` ends the protocol.
pub open spec fn is_final(action: StartupAction) -> bool {
    action is Return || action is Fail
}

/// Where a failed effect leads: the lock, if one is held, is released first.
pub open spec fn after_failure(phase: Phase) -> (Phase, StartupAction) {
    if lock_held(phase) == LockHeld::Nothing || phase is Releasing {
        (Phase::Finished, StartupAction::Fail)
    } else {
        (
            Phase::Releasing {
                shared: lock_held(phase) == LockHeld::Shared,
                then: AfterRelease::Fail,
            },
            StartupAction::Unlock,
        )
    }
}

/// Where the machine goes once the lock is released.
pub open spec fn after_release(then: AfterRelease) -> (Phase, StartupAction) {
    match then {
        AfterRelease::Probe => (Phase::FinalProbe, StartupAction::CheckAlive),
        AfterRelease::Fail => (Phase::Finished, StartupAction::Fail),
        AfterRelease::Judge(Some(stamp_ms)) => (Phase::Clock { stamp_ms }, StartupAction::ReadClock),
        AfterRelease::Judge(None) => (Phase::FinalProbe, StartupAction::CheckAlive),
    }
}

/// The protocol's transition table: from the phase the machine is in and the
/// event the caller reports to the next phase and the effect to perform.
///
/// An event that does not answer the pending effect counts as a failure.
/// A client that may not keep a daemon of another build and finds the lock
/// for the restart taken waits for the holder as a cold start does. Its
/// last probe, like every last probe of a client that may not keep such a
/// daemon, ends the protocol with an error where it still finds one.
pub open spec fn transition(ignore_mismatch: bool, phase: Phase, event: StartupEvent) -> (
    Phase,
    StartupAction,
) {
    let probe_again = (Phase::FinalProbe, StartupAction::CheckAlive);
    let release_and_probe = (
        Phase::Releasing { shared: lock_held(phase) == LockHeld::Shared, then: AfterRelease::Probe },
        StartupAction::Unlock,
    );
    let stamp_then_ping = (Phase::Stamping { restart: false }, StartupAction::WriteStamp);
    match (phase, event) {
        (Phase::Probing, StartupEvent::Status(Probe::NotRunning)) => (Phase::ColdPing, StartupAction::Ping),
        (Phase::Probing, StartupEvent::Status(Probe::RunningSame)) => (
            Phase::Finished,
            StartupAction::Return(Verdict::Initial),
        ),
        (Phase::Probing, StartupEvent::Status(Probe::RunningOther)) => if ignore_mismatch {
            (Phase::Finished, StartupAction::Return(Verdict::Initial))
        } else {
            (Phase::RestartLock, StartupAction::LockExclusive)
        },
        (Phase::ColdPing, StartupEvent::Pong(true)) => probe_again,
        (Phase::ColdPing, StartupEvent::Pong(false)) => (Phase::ColdLock, StartupAction::LockExclusive),
        (Phase::ColdLock, StartupEvent::Lock(true)) => stamp_then_ping,
        (Phase::ColdLock, StartupEvent::Lock(false)) => (Phase::SharedLock, StartupAction::LockShared),
        (Phase::LockedPing, StartupEvent::Pong(true)) => release_and_probe,
        (Phase::LockedPing, StartupEvent::Pong(false)) => (Phase::Starting, StartupAction::StartDaemon),
        (Phase::Stamping { restart: false }, StartupEvent::Done) => (Phase::LockedPing, StartupAction::Ping),
        (Phase::Stamping { restart: true }, StartupEvent::Done) => (Phase::Stopping, StartupAction::SendStop),
        (Phase::Stopping, StartupEvent::Done) => (Phase::Starting, StartupAction::StartDaemon),
        (Phase::Starting, StartupEvent::Done) => release_and_probe,
        (Phase::Releasing { then, .. }, _) => after_release(then),
        (Phase::SharedLock, StartupEvent::Lock(true)) => (Phase::SharedPing, StartupAction::Ping),
        (Phase::SharedLock, StartupEvent::Lock(false)) => (Phase::BlindPing, StartupAction::Ping),
        (Phase::SharedPing, StartupEvent::Pong(true)) => release_and_probe,
        (Phase::SharedPing, StartupEvent::Pong(false)) => (Phase::SharedRead, StartupAction::ReadStamp),
        (Phase::SharedRead, StartupEvent::Stamp(stamp)) => (
            Phase::Releasing { shared: true, then: AfterRelease::Judge(stamp) },
            StartupAction::Unlock,
        ),
        (Phase::Clock { stamp_ms }, StartupEvent::Time(now_ms)) => if is_stale(now_ms, stamp_ms) {
            (Phase::StalePing, StartupAction::Ping)
        } else {
            (Phase::WaitShort, StartupAction::Sleep(SHORT_WAIT_MS))
        },
        (Phase::StalePing, StartupEvent::Pong(true)) => probe_again,
        (Phase::StalePing, StartupEvent::Pong(false)) => (Phase::ForceLock, StartupAction::LockExclusive),
        (Phase::ForceLock, StartupEvent::Lock(true)) => stamp_then_ping,
        (Phase::ForceLock, StartupEvent::Lock(false)) => probe_again,
        (Phase::WaitShort, StartupEvent::Done) => (Phase::WaitPing, StartupAction::Ping),
        (Phase::WaitPing, StartupEvent::Pong(true)) => probe_again,
        (Phase::WaitPing, StartupEvent::Pong(false)) => (Phase::WaitLong, StartupAction::Sleep(LONG_WAIT_MS)),
        (Phase::WaitLong, StartupEvent::Done) => probe_again,
        (Phase::BlindPing, StartupEvent::Pong(true)) => probe_again,
        (Phase::BlindPing, StartupEvent::Pong(false)) => (
            Phase::BlindPause,
            StartupAction::Sleep(RETRY_PAUSE_MS),
        ),
        (Phase::BlindPause, StartupEvent::Done) => (Phase::RetryLock, StartupAction::LockExclusive),
        (Phase::RetryLock, StartupEvent::Lock(true)) => stamp_then_ping,
        (Phase::RetryLock, StartupEvent::Lock(false)) => probe_again,
        (Phase::RestartLock, StartupEvent::Lock(true)) => (
            Phase::Stamping { restart: true },
            StartupAction::WriteStamp,
        ),
        (Phase::RestartLock, StartupEvent::Lock(false)) => (
            Phase::WaitShort,
            StartupAction::Sleep(SHORT_WAIT_MS),
        ),
        (Phase::FinalProbe, StartupEvent::Status(found)) => if found == Probe::RunningOther
            && !ignore_mismatch {
            (Phase::Finished, StartupAction::Fail)
        } else {
            (Phase::Finished, StartupAction::Return(Verdict::Latest))
        },
        _ => after_failure(phase),
    }
}

/// The phase in which the protocol starts, and its first effect.
pub fn startup_begin() -> (r: (Phase, StartupAction))
    ensures
        r == (Phase::Probing, StartupAction::CheckAlive),
{
    (Phase::Probing, StartupAction::CheckAlive)
}

/// Whether a stamp written at `stamp_ms` is stale at `now_ms`.
pub fn stamp_is_stale(now_ms: u64, stamp_ms: u64) -> (r: bool)
    ensures
        r == is_stale(now_ms, stamp_ms),
{
    now_ms > stamp_ms && now_ms - stamp_ms > STALE_AFTER_MS
}

/// What the client holds while the machine is in `phase`.
pub fn held_lock(phase: Phase) -> (r: LockHeld)
    ensures
        r == lock_held(phase),
{
    match phase {
        Phase::LockedPing => LockHeld::Exclusive,
        Phase::Stamping { restart: _ } => LockHeld::Exclusive,
        Phase::Stopping => LockHeld::Exclusive,
        Phase::Starting => LockHeld::Exclusive,
        Phase::SharedPing => LockHeld::Shared,
        Phase::SharedRead => LockHeld::Shared,
        Phase::Releasing { shared, then: _ } => if shared {
            LockHeld::Shared
        } else {
            LockHeld::Exclusive
        },
        _ => LockHeld::Nothing,
    }
}

fn fail_from(phase: Phase) -> (r: (Phase, StartupAction))
    ensures
        r == after_failure(phase),
{
    match held_lock(phase) {
        LockHeld::Nothing => (Phase::Finished, StartupAction::Fail),
        held => match phase {
            Phase::Releasing { shared: _, then: _ } => (Phase::Finished, StartupAction::Fail),
            _ => (
                Phase::Releasing { shared: held == LockHeld::Shared, then: AfterRelease::Fail },
                StartupAction::Unlock,
            ),
        },
    }
}

fn released(then: AfterRelease) -> (r: (Phase, StartupAction))
    ensures
        r == after_release(then),
{
    match then {
        AfterRelease::Probe => (Phase::FinalProbe, StartupAction::CheckAlive),
        AfterRelease::Fail => (Phase::Finished, StartupAction::Fail),
        AfterRelease::Judge(stamp) => match stamp {
            Some(stamp_ms) => (Phase::Clock { stamp_ms }, StartupAction::ReadClock),
            None => (Phase::FinalProbe, StartupAction::CheckAlive),
        },
    }
}

/// One step of the protocol: the next phase and the effect to perform, as
/// [`transition`] gives them.
///
/// `ignore_mismatch` is the client's choice to keep a daemon of another
/// build running.
pub fn startup_step(ignore_mismatch: bool, phase: Phase, event: StartupEvent) -> (r: (
    Phase,
    StartupAction,
))
    ensures
        r == transition(ignore_mismatch, phase, event),
{
    let probe_again = (Phase::FinalProbe, StartupAction::CheckAlive);
    let release_and_probe = (
        Phase::Releasing { shared: held_lock(phase) == LockHeld::Shared, then: AfterRelease::Probe },
        StartupAction::Unlock,
    );
    let stamp_then_ping = (Phase::Stamping { restart: false }, StartupAction::WriteStamp);
    match phase {
        Phase::Probing => match event {
            StartupEvent::Status(found) => match found {
                Probe::NotRunning => (Phase::ColdPing, StartupAction::Ping),
                Probe::RunningSame => (Phase::Finished, StartupAction::Return(Verdict::Initial)),
                Probe::RunningOther => if ignore_mismatch {
                    (Phase::Finished, StartupAction::Return(Verdict::Initial))
                } else {
                    (Phase::RestartLock, StartupAction::LockExclusive)
                },
            },
            _ => fail_from(phase),
        },
        Phase::ColdPing => match event {
            StartupEvent::Pong(alive) => if alive {
                probe_again
            } else {
                (Phase::ColdLock, StartupAction::LockExclusive)
            },
            _ => fail_from(phase),
        },
        Phase::ColdLock => match event {
            StartupEvent::Lock(acquired) => if acquired {
                stamp_then_ping
            } else {
                (Phase::SharedLock, StartupAction::LockShared)
            },
            _ => fail_from(phase),
        },
        Phase::LockedPing => match event {
            StartupEvent::Pong(alive) => if alive {
                release_and_probe
            } else {
                (Phase::Starting, StartupAction::StartDaemon)
            },
            _ => fail_from(phase),
        },
        Phase::Stamping { restart } => match event {
            StartupEvent::Done => if restart {
                (Phase::Stopping, StartupAction::SendStop)
            } else {
                (Phase::LockedPing, StartupAction::Ping)
            },
            _ => fail_from(phase),
        },
        Phase::Stopping => match event {
            StartupEvent::Done => (Phase::Starting, StartupAction::StartDaemon),
            _ => fail_from(phase),
        },
        Phase::Starting => match event {
            StartupEvent::Done => release_and_probe,
            _ => fail_from(phase),
        },
        Phase::Releasing { shared: _, then } => released(then),
        Phase::SharedLock => match event {
            StartupEvent::Lock(acquired) => if acquired {
                (Phase::SharedPing, StartupAction::Ping)
            } else {
                (Phase::BlindPing, StartupAction::Ping)
            },
            _ => fail_from(phase),
        },
        Phase::SharedPing => match event {
            StartupEvent::Pong(alive) => if alive {
                release_and_probe
            } else {
                (Phase::SharedRead, StartupAction::ReadStamp)
            },
            _ => fail_from(phase),
        },
        Phase::SharedRead => match event {
            StartupEvent::Stamp(stamp) => (
                Phase::Releasing { shared: true, then: AfterRelease::Judge(stamp) },
                StartupAction::Unlock,
            ),
            _ => fail_from(phase),
        },
        Phase::Clock { stamp_ms } => match event {
            StartupEvent::Time(now_ms) => if stamp_is_stale(now_ms, stamp_ms) {
                (Phase::StalePing, StartupAction::Ping)
            } else {
                (Phase::WaitShort, StartupAction::Sleep(SHORT_WAIT_MS))
            },
            _ => fail_from(phase),
        },
        Phase::StalePing => match event {
            StartupEvent::Pong(alive) => if alive {
                probe_again
            } else {
                (Phase::ForceLock, StartupAction::LockExclusive)
            },
            _ => fail_from(phase),
        },
        Phase::ForceLock | Phase::RetryLock => match event {
            StartupEvent::Lock(acquired) => if acquired {
                stamp_then_ping
            } else {
                probe_again
            },
            _ => fail_from(phase),
        },
        Phase::WaitShort => match event {
            StartupEvent::Done => (Phase::WaitPing, StartupAction::Ping),
            _ => fail_from(phase),
        },
        Phase::WaitPing => match event {
            StartupEvent::Pong(alive) => if alive {
                probe_again
            } else {
                (Phase::WaitLong, StartupAction::Sleep(LONG_WAIT_MS))
            },
            _ => fail_from(phase),
        },
        Phase::WaitLong => match event {
            StartupEvent::Done => probe_again,
            _ => fail_from(phase),
        },
        Phase::BlindPing => match event {
            StartupEvent::Pong(alive) => if alive {
                probe_again
            } else {
                (Phase::BlindPause, StartupAction::Sleep(RETRY_PAUSE_MS))
            },
            _ => fail_from(phase),
        },
        Phase::BlindPause => match event {
            StartupEvent::Done => (Phase::RetryLock, StartupAction::LockExclusive),
            _ => fail_from(phase),
        },
        Phase::RestartLock => match event {
            StartupEvent::Lock(acquired) => if acquired {
                (Phase::Stamping { restart: true }, StartupAction::WriteStamp)
            } else {
                (Phase::WaitShort, StartupAction::Sleep(SHORT_WAIT_MS))
            },
            _ => fail_from(phase),
        },
        Phase::FinalProbe => match event {
            StartupEvent::Status(found) => match found {
                Probe::RunningOther => if ignore_mismatch {
                    (Phase::Finished, StartupAction::Return(Verdict::Latest))
                } else {
                    (Phase::Finished, StartupAction::Fail)
                },
                _ => (Phase::Finished, StartupAction::Return(Verdict::Latest)),
            },
            _ => fail_from(phase),
        },
        Phase::Finished => fail_from(phase),
    }
}

/// The phase reached and the effects asked for, in order, when the caller
/// reports `events` one after the other from the start of the protocol.
pub open spec fn run(ignore_mismatch: bool, events: Seq<StartupEvent>) -> (Phase, Seq<StartupAction>)
    decreases events.len(),
{
    if events.len() == 0 {
        (Phase::Probing, seq![StartupAction::CheckAlive])
    } else {
        let before = run(ignore_mismatch, events.drop_last());
        let step = transition(ignore_mismatch, before.0, events.last());
        (step.0, before.1.push(step.1))
    }
}

/// The machine's account of the lock agrees with what the caller did: a
/// lock is held after a step exactly if it was held before and not released,
/// or if the step reported that a requested lock was granted. The machine
/// asks for a lock only while it holds none, spawns a daemon or stops one
/// only under the exclusive lock, and never ends while a lock is held.
pub proof fn lemma_lock_discipline(ignore_mismatch: bool, phase: Phase, event: StartupEvent)
    ensures
        ({
            let (next, action) = transition(ignore_mismatch, phase, event);
            &&& (action is LockExclusive || action is LockShared) ==> lock_held(phase)
                == LockHeld::Nothing && lock_held(next) == LockHeld::Nothing
            &&& lock_held(phase) == LockHeld::Nothing && lock_held(next) != LockHeld::Nothing
                ==> event == StartupEvent::Lock(true)
            &&& lock_held(phase) != LockHeld::Nothing && !(phase is Releasing) ==> lock_held(next)
                == lock_held(phase)
            &&& phase is Releasing ==> lock_held(next) == LockHeld::Nothing
            &&& action is Unlock ==> next is Releasing && !(phase is Releasing)
            &&& (action is StartDaemon || action is SendStop) ==> lock_held(phase)
                == LockHeld::Exclusive
            &&& (action is StartDaemon || action is SendStop || action is WriteStamp) ==> lock_held(next)
                == LockHeld::Exclusive
            &&& is_final(action) ==> next == Phase::Finished && (lock_held(phase) == LockHeld::Nothing
                || phase is Releasing)
        }),
{
}

/// A daemon is spawned only by the client that holds the exclusive lock, and
/// only right after the daemon of another build was told to stop or a ping
/// made under that lock went unanswered.
pub proof fn lemma_spawn_is_guarded(
    ignore_mismatch: bool,
    before: Phase,
    first: StartupEvent,
    second: StartupEvent,
)
    requires
        transition(ignore_mismatch, transition(ignore_mismatch, before, first).0, second).1
            == StartupAction::StartDaemon,
    ensures
        lock_held(transition(ignore_mismatch, before, first).0) == LockHeld::Exclusive,
        (transition(ignore_mismatch, before, first).1 == StartupAction::SendStop && second
            == StartupEvent::Done) || (transition(ignore_mismatch, before, first).1
            == StartupAction::Ping && second == StartupEvent::Pong(false)),
{
}

/// No step leads back to the first probe, and the lock for a restart is
/// asked for only right after the first probe found a daemon of another
/// build that may not be kept.
proof fn lemma_early_phases(ignore_mismatch: bool, events: Seq<StartupEvent>)
    ensures
        run(ignore_mismatch, events).0 == Phase::Probing ==> events.len() == 0,
        run(ignore_mismatch, events).0 == Phase::RestartLock ==> !ignore_mismatch && events
            =~= seq![StartupEvent::Status(Probe::RunningOther)],
    decreases events.len(),
{
    if events.len() > 0 {
        lemma_early_phases(ignore_mismatch, events.drop_last());
        if run(ignore_mismatch, events).0 == Phase::RestartLock {
            assert(events.drop_last().len() == 0);
            assert(events =~= seq![events.last()]);
        }
    }
}

/// The status of the first probe is the protocol's result only if that
/// daemon has the client's build, or the client chose to keep a daemon of
/// another build. In every other case the result is what a probe made
/// after the last effect found.
pub proof fn lemma_initial_status_returned(ignore_mismatch: bool, events: Seq<StartupEvent>)
    requires
        events.len() > 0,
        run(ignore_mismatch, events).1.last() == StartupAction::Return(Verdict::Initial),
    ensures
        events =~= seq![StartupEvent::Status(Probe::RunningSame)] || (ignore_mismatch && events
            =~= seq![StartupEvent::Status(Probe::RunningOther)]),
{
    let before = events.drop_last();
    lemma_early_phases(ignore_mismatch, before);
    assert(run(ignore_mismatch, before).0 == Phase::Probing);
    assert(events =~= seq![events.last()]);
}

/// The status that a run ends with, where it ends with one: what the
/// first probe found or what the last probe found, as the verdict says.
pub open spec fn returned_status(ignore_mismatch: bool, events: Seq<StartupEvent>) -> Option<Probe> {
    if events.len() == 0 {
        None
    } else {
        match run(ignore_mismatch, events).1.last() {
            StartupAction::Return(Verdict::Initial) => match events[0] {
                StartupEvent::Status(found) => Some(found),
                _ => None,
            },
            StartupAction::Return(Verdict::Latest) => match events.last() {
                StartupEvent::Status(found) => Some(found),
                _ => None,
            },
            _ => None,
        }
    }
}

/// A client that may not keep a daemon of another build never gets one:
/// whenever its protocol ends with a status, the status is that of a
/// daemon of the client's own build, or that no daemon runs. A client that
/// may keep one gets whatever its probe found.
pub proof fn lemma_returned_build_is_own(ignore_mismatch: bool, events: Seq<StartupEvent>)
    requires
        events.len() > 0,
        run(ignore_mismatch, events).1.last() is Return,
    ensures
        returned_status(ignore_mismatch, events) is Some,
        !ignore_mismatch ==> returned_status(ignore_mismatch, events) != Some(Probe::RunningOther),
{
    let before = events.drop_last();
    lemma_early_phases(ignore_mismatch, before);
    let phase = run(ignore_mismatch, before).0;
    if run(ignore_mismatch, events).1.last() == StartupAction::Return(Verdict::Initial) {
        assert(phase == Phase::Probing);
        assert(events =~= seq![events.last()]);
    } else {
        assert(phase == Phase::FinalProbe);
    }
}

/// Once the protocol has ended, whatever is reported is answered by `Fail`.
proof fn lemma_finished_stays(ignore_mismatch: bool, events: Seq<StartupEvent>, n: int)
    requires
        0 <= n < events.len(),
        run(ignore_mismatch, events.take(n)).0 == Phase::Finished,
    ensures
        run(ignore_mismatch, events).0 == Phase::Finished,
        run(ignore_mismatch, events).1.last() == StartupAction::Fail,
    decreases events.len() - n,
{
    if n + 1 < events.len() {
        assert(events.drop_last().take(n) =~= events.take(n));
        lemma_finished_stays(ignore_mismatch, events.drop_last(), n);
    } else {
        assert(events.drop_last() =~= events.take(n));
    }
}

/// The run over the first `k + 1` events extends the run over the first `k`
/// by one step.
proof fn lemma_run_unfold(ignore_mismatch: bool, events: Seq<StartupEvent>, k: int)
    requires
        0 <= k < events.len(),
    ensures
        run(ignore_mismatch, events.take(k + 1)) == ({
            let before = run(ignore_mismatch, events.take(k));
            let step = transition(ignore_mismatch, before.0, events[k]);
            (step.0, before.1.push(step.1))
        }),
{
    assert(events.take(k + 1).drop_last() =~= events.take(k));
}

/// When the first probe finds a daemon of another build, the client may not
/// keep it and gets the lock, then the protocol can only end with a status
/// in one way: the stamp is written, the old daemon is told to stop, a fresh
/// one is spawned, the lock is released, and the status returned is the one
/// that a probe made after all this found.
pub proof fn lemma_restart_replaces_daemon(events: Seq<StartupEvent>)
    requires
        events.len() >= 2,
        events[0] == StartupEvent::Status(Probe::RunningOther),
        events[1] == StartupEvent::Lock(true),
        run(false, events).1.last() is Return,
    ensures
        run(false, events).1 =~= seq![
            StartupAction::CheckAlive,
            StartupAction::LockExclusive,
            StartupAction::WriteStamp,
            StartupAction::SendStop,
            StartupAction::StartDaemon,
            StartupAction::Unlock,
            StartupAction::CheckAlive,
            StartupAction::Return(Verdict::Latest),
        ],
{
    let n = events.len() as int;
    assert(events.take(0) =~= Seq::<StartupEvent>::empty());
    assert(events.take(n) =~= events);
    lemma_run_unfold(false, events, 0);
    lemma_run_unfold(false, events, 1);
    if n > 2 {
        lemma_run_unfold(false, events, 2);
    }
    if n > 3 {
        lemma_run_unfold(false, events, 3);
    }
    if n > 4 {
        lemma_run_unfold(false, events, 4);
    }
    if n > 5 {
        lemma_run_unfold(false, events, 5);
    }
    if n > 6 {
        lemma_run_unfold(false, events, 6);
    }
    if n > 7 {
        assert(run(false, events.take(7)).0 == Phase::Finished);
        lemma_finished_stays(false, events, 7);
    }
}

/// How many effects a phase can still be followed by, at most.
pub open spec fn steps_left(phase: Phase) -> nat {
    match phase {
        Phase::Finished => 0,
        Phase::FinalProbe => 1,
        Phase::Releasing { then: AfterRelease::Fail, .. } => 1,
        Phase::Releasing { then: AfterRelease::Probe, .. } => 2,
        Phase::Starting => 3,
        Phase::Stopping => 4,
        Phase::LockedPing => 4,
        Phase::Stamping { .. } => 5,
        Phase::WaitLong => 2,
        Phase::WaitPing => 3,
        Phase::WaitShort => 4,
        Phase::RetryLock => 7,
        Phase::BlindPause => 8,
        Phase::BlindPing => 9,
        Phase::ForceLock => 7,
        Phase::StalePing => 8,
        Phase::Clock { .. } => 9,
        Phase::Releasing { then: AfterRelease::Judge(_), .. } => 10,
        Phase::SharedRead => 11,
        Phase::SharedPing => 12,
        Phase::SharedLock => 13,
        Phase::ColdLock => 14,
        Phase::ColdPing => 15,
        Phase::RestartLock => 6,
        Phase::Probing => 16,
    }
}

/// Every step brings the end nearer: the protocol has no way back.
pub proof fn lemma_step_makes_progress(ignore_mismatch: bool, phase: Phase, event: StartupEvent)
    requires
        phase != Phase::Finished,
    ensures
        steps_left(transition(ignore_mismatch, phase, event).0) < steps_left(phase),
{
}

/// The protocol ends: whatever the caller reports, after sixteen reports
/// at the latest the machine has asked for its last effect.
pub proof fn lemma_protocol_ends(ignore_mismatch: bool, events: Seq<StartupEvent>)
    ensures
        steps_left(run(ignore_mismatch, events).0) + events.len() <= 16 || run(ignore_mismatch, events).0
            == Phase::Finished,
        events.len() >= 16 ==> run(ignore_mismatch, events).0 == Phase::Finished,
    decreases events.len(),
{
    if events.len() > 0 {
        lemma_protocol_ends(ignore_mismatch, events.drop_last());
        let before = run(ignore_mismatch, events.drop_last()).0;
        if before != Phase::Finished {
            lemma_step_makes_progress(ignore_mismatch, before, events.last());
        }
    }
}

} // verus!
