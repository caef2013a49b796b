//! Two clients that want a daemon at the same time.
//!
//! Each client follows the start-up protocol on its own. What keeps them
//! from spawning two daemons is what they share: a lock that only one of
//! them can hold exclusively, and a socket that answers a ping exactly if
//! a daemon runs. This file states that as a model and proves that, from a
//! cold state, the two together spawn at most one daemon, and, as long as
//! no effect fails, exactly one by the time both are through.

use crate::daemon::startup::{
    lock_held,
    transition,
    AfterRelease,
    LockHeld,
    Phase,
    Probe,
    StartupAction,
    StartupEvent,
    LONG_WAIT_MS,
    RETRY_PAUSE_MS,
    SHORT_WAIT_MS,
};
use vstd::prelude::*;

verus! {

/// The effect that a client in `phase` waits for; none once it is through.
pub open spec fn pending(phase: Phase) -> Option<StartupAction> {
    match phase {
        Phase::Probing | Phase::FinalProbe => Some(StartupAction::CheckAlive),
        Phase::ColdPing | Phase::LockedPing | Phase::SharedPing | Phase::StalePing | Phase::WaitPing
        | Phase::BlindPing => Some(StartupAction::Ping),
        Phase::ColdLock | Phase::ForceLock | Phase::RetryLock | Phase::RestartLock => Some(
            StartupAction::LockExclusive,
        ),
        Phase::SharedLock => Some(StartupAction::LockShared),
        Phase::SharedRead => Some(StartupAction::ReadStamp),
        Phase::Stamping { .. } => Some(StartupAction::WriteStamp),
        Phase::Stopping => Some(StartupAction::SendStop),
        Phase::Starting => Some(StartupAction::StartDaemon),
        Phase::Releasing { .. } => Some(StartupAction::Unlock),
        Phase::Clock { .. } => Some(StartupAction::ReadClock),
        Phase::WaitShort => Some(StartupAction::Sleep(SHORT_WAIT_MS)),
        Phase::WaitLong => Some(StartupAction::Sleep(LONG_WAIT_MS)),
        Phase::BlindPause => Some(StartupAction::Sleep(RETRY_PAUSE_MS)),
        Phase::Finished => None,
    }
}

/// The effect that the machine asks for is the one that its next phase
/// waits for.
pub proof fn lemma_pending_is_asked(ignore_mismatch: bool, phase: Phase, event: StartupEvent)
    ensures
        ({
            let (next, action) = transition(ignore_mismatch, phase, event);
            next != Phase::Finished ==> pending(next) == Some(action)
        }),
{
}

/// Two clients and what they share.
pub struct Pair {
    pub first: Phase,
    pub second: Phase,
    /// Whether a daemon runs.
    pub daemon_up: bool,
    /// How many daemons were spawned so far.
    pub spawned: nat,
}

/// The cold state: no daemon, and both clients about to probe.
pub open spec fn cold() -> Pair {
    Pair { first: Phase::Probing, second: Phase::Probing, daemon_up: false, spawned: 0 }
}

/// Whether the world may report `event` to a client in `phase` while the
/// other client is in `other`: a ping is answered exactly if a daemon
/// runs; the exclusive lock is granted only while the other client holds
/// no lock, the shared lock only while the other does not hold the
/// exclusive one; and a probe never finds a daemon of another build.
pub open spec fn may_report(daemon_up: bool, other: Phase, phase: Phase, event: StartupEvent) -> bool {
    match pending(phase) {
        Some(StartupAction::Ping) => event matches StartupEvent::Pong(answered) ==> answered
            == daemon_up,
        Some(StartupAction::LockExclusive) => event == StartupEvent::Lock(true) ==> lock_held(other)
            == LockHeld::Nothing,
        Some(StartupAction::LockShared) => event == StartupEvent::Lock(true) ==> lock_held(other)
            != LockHeld::Exclusive,
        Some(StartupAction::CheckAlive) => event != StartupEvent::Status(Probe::RunningOther),
        _ => true,
    }
}

/// Whether the effect that a client in `phase` waits for, reported as
/// `event`, spawned a daemon.
pub open spec fn spawns(phase: Phase, event: StartupEvent) -> bool {
    pending(phase) == Some(StartupAction::StartDaemon) && event == StartupEvent::Done
}

/// Whether the effect that a client in `phase` waits for, reported as
/// `event`, stopped the daemon.
pub open spec fn stops(phase: Phase, event: StartupEvent) -> bool {
    pending(phase) == Some(StartupAction::SendStop) && event == StartupEvent::Done
}

/// One move: a client's pending effect is performed and reported to it.
pub struct Move {
    /// Whether the first client moves; else the second.
    pub by_first: bool,
    pub event: StartupEvent,
}

/// Whether the world may make the move `m` in the state `s`.
pub open spec fn may_move(s: Pair, m: Move) -> bool {
    if m.by_first {
        may_report(s.daemon_up, s.second, s.first, m.event)
    } else {
        may_report(s.daemon_up, s.first, s.second, m.event)
    }
}

/// The state after the move `m`.
pub open spec fn after_move(ignore_mismatch: bool, s: Pair, m: Move) -> Pair {
    let mover = if m.by_first {
        s.first
    } else {
        s.second
    };
    let next = transition(ignore_mismatch, mover, m.event).0;
    Pair {
        first: if m.by_first {
            next
        } else {
            s.first
        },
        second: if m.by_first {
            s.second
        } else {
            next
        },
        daemon_up: (s.daemon_up && !stops(mover, m.event)) || spawns(mover, m.event),
        spawned: if spawns(mover, m.event) {
            s.spawned + 1
        } else {
            s.spawned
        },
    }
}

/// The state after the moves `moves`, made from the cold state.
pub open spec fn after_moves(ignore_mismatch: bool, moves: Seq<Move>) -> Pair
    decreases moves.len(),
{
    if moves.len() == 0 {
        cold()
    } else {
        after_move(ignore_mismatch, after_moves(ignore_mismatch, moves.drop_last()), moves.last())
    }
}

/// Whether the world may make each of the moves `moves` in its turn.
pub open spec fn all_may_move(ignore_mismatch: bool, moves: Seq<Move>) -> bool
    decreases moves.len(),
{
    moves.len() == 0 || (all_may_move(ignore_mismatch, moves.drop_last()) && may_move(
        after_moves(ignore_mismatch, moves.drop_last()),
        moves.last(),
    ))
}

/// Whether a client is about to spawn a daemon.
pub open spec fn about_to_spawn(phase: Phase) -> bool {
    phase == Phase::Starting
}

/// Whether a client is on the way to a restart.
pub open spec fn restarting(phase: Phase) -> bool {
    phase == Phase::RestartLock || phase == (Phase::Stamping { restart: true }) || phase
        == Phase::Stopping
}

/// What holds of two clients in every state that they can reach from the
/// cold state: they never both hold the lock unless both hold it shared;
/// neither is on the way to a restart; whoever is about to spawn does so
/// while no daemon runs; and a daemon runs exactly if one was spawned.
pub open spec fn consistent(s: Pair) -> bool {
    &&& !(lock_held(s.first) == LockHeld::Exclusive && lock_held(s.second) != LockHeld::Nothing)
    &&& !(lock_held(s.second) == LockHeld::Exclusive && lock_held(s.first) != LockHeld::Nothing)
    &&& !restarting(s.first)
    &&& !restarting(s.second)
    &&& about_to_spawn(s.first) ==> !s.daemon_up
    &&& about_to_spawn(s.second) ==> !s.daemon_up
    &&& s.spawned <= 1
    &&& s.daemon_up == (s.spawned == 1)
}

/// A move that the world may make keeps two clients consistent.
pub proof fn lemma_move_keeps_consistent(ignore_mismatch: bool, s: Pair, m: Move)
    requires
        consistent(s),
        may_move(s, m),
    ensures
        consistent(after_move(ignore_mismatch, s, m)),
{
}

/// From a cold state two clients spawn at most one daemon, whatever the
/// order of their steps and whatever is reported to them, as long as the
/// lock is granted to one holder at a time and a ping is answered exactly
/// if a daemon runs. After any number of moves a daemon runs exactly if
/// one was spawned.
pub proof fn lemma_at_most_one_daemon(ignore_mismatch: bool, moves: Seq<Move>)
    requires
        all_may_move(ignore_mismatch, moves),
    ensures
        consistent(after_moves(ignore_mismatch, moves)),
        after_moves(ignore_mismatch, moves).spawned <= 1,
        after_moves(ignore_mismatch, moves).daemon_up == (after_moves(ignore_mismatch, moves).spawned
            == 1),
    decreases moves.len(),
{
    if moves.len() > 0 {
        lemma_at_most_one_daemon(ignore_mismatch, moves.drop_last());
        lemma_move_keeps_consistent(
            ignore_mismatch,
            after_moves(ignore_mismatch, moves.drop_last()),
            moves.last(),
        );
    }
}

/// A spawn is the first and only one: it happens while no daemon runs and
/// while the other client holds no lock, and it leaves a daemon running.
pub proof fn lemma_spawn_is_alone(ignore_mismatch: bool, s: Pair, m: Move)
    requires
        consistent(s),
        may_move(s, m),
        spawns(
            if m.by_first {
                s.first
            } else {
                s.second
            },
            m.event,
        ),
    ensures
        !s.daemon_up,
        s.spawned == 0,
        after_move(ignore_mismatch, s, m).daemon_up,
        after_move(ignore_mismatch, s, m).spawned == 1,
        lock_held(
            if m.by_first {
                s.second
            } else {
                s.first
            },
        ) == LockHeld::Nothing,
{
}

/// Whether `event` reports that the effect which a client in `phase`
/// waits for was performed. A client that releases the lock because an
/// effect failed has nothing left that could be answered.
pub open spec fn answers(phase: Phase, event: StartupEvent) -> bool {
    match pending(phase) {
        Some(StartupAction::CheckAlive) => event is Status,
        Some(StartupAction::Ping) => event is Pong,
        Some(StartupAction::LockExclusive) | Some(StartupAction::LockShared) => event is Lock,
        Some(StartupAction::ReadStamp) => event is Stamp,
        Some(StartupAction::ReadClock) => event is Time,
        Some(StartupAction::Unlock) => !(phase matches Phase::Releasing {
            then: AfterRelease::Fail,
            ..
        }),
        Some(_) => event is Done,
        None => false,
    }
}

/// A client fails only where an effect failed or where its last probe
/// found a daemon of another build that it may not keep: otherwise, as
/// long as each effect is performed and reported as such, the protocol
/// goes on or ends with a status.
pub proof fn lemma_fails_only_on_failure(ignore_mismatch: bool, phase: Phase, event: StartupEvent)
    requires
        answers(phase, event),
        ignore_mismatch || !(phase == Phase::FinalProbe && event == StartupEvent::Status(
            Probe::RunningOther,
        )),
    ensures
        !(transition(ignore_mismatch, phase, event).1 is Fail),
        transition(ignore_mismatch, phase, event).0 == Phase::Finished ==> transition(
            ignore_mismatch,
            phase,
            event,
        ).1 is Return,
{
}

/// Whether the world reports `event` truthfully to a client in `phase`
/// while the other client is in `other`: a probe finds a daemon only if
/// one runs, and the lock is refused only while the other client holds a
/// lock that stands in the way.
pub open spec fn truthful(daemon_up: bool, other: Phase, phase: Phase, event: StartupEvent) -> bool {
    match pending(phase) {
        Some(StartupAction::CheckAlive) => event == StartupEvent::Status(Probe::RunningSame)
            ==> daemon_up,
        Some(StartupAction::LockExclusive) => event == StartupEvent::Lock(false) ==> lock_held(other)
            != LockHeld::Nothing,
        Some(StartupAction::LockShared) => event == StartupEvent::Lock(false) ==> lock_held(other)
            == LockHeld::Exclusive,
        _ => true,
    }
}

/// The phase of the client that makes the move `m` in the state `s`.
pub open spec fn mover(s: Pair, m: Move) -> Phase {
    if m.by_first {
        s.first
    } else {
        s.second
    }
}

/// The phase of the client that does not make the move `m`.
pub open spec fn bystander(s: Pair, m: Move) -> Phase {
    if m.by_first {
        s.second
    } else {
        s.first
    }
}

/// Whether the move `m` goes well in the state `s`: the world may make it,
/// the effect was performed, and the report is truthful.
pub open spec fn calm_move(s: Pair, m: Move) -> bool {
    &&& may_move(s, m)
    &&& answers(mover(s, m), m.event)
    &&& truthful(s.daemon_up, bystander(s, m), mover(s, m), m.event)
}

/// Whether each of the moves `moves`, made from the cold state, goes well.
pub open spec fn calm_run(ignore_mismatch: bool, moves: Seq<Move>) -> bool
    decreases moves.len(),
{
    moves.len() == 0 || (calm_run(ignore_mismatch, moves.drop_last()) && calm_move(
        after_moves(ignore_mismatch, moves.drop_last()),
        moves.last(),
    ))
}

/// Whether one of the moves `moves`, made from the cold state, ended a
/// client's protocol with a failure.
pub open spec fn failed(ignore_mismatch: bool, moves: Seq<Move>) -> bool
    decreases moves.len(),
{
    moves.len() > 0 && (failed(ignore_mismatch, moves.drop_last()) || transition(
        ignore_mismatch,
        mover(after_moves(ignore_mismatch, moves.drop_last()), moves.last()),
        moves.last().event,
    ).1 is Fail)
}

/// Whether a client holds the exclusive lock on its way to spawning a
/// daemon.
pub open spec fn spawner(phase: Phase) -> bool {
    phase == (Phase::Stamping { restart: false }) || phase == Phase::LockedPing || phase
        == Phase::Starting
}

/// Whether a client has not tried the lock yet, or is trying it for the
/// first time.
pub open spec fn early(phase: Phase) -> bool {
    phase == Phase::Probing || phase == Phase::ColdPing || phase == Phase::ColdLock
}

/// What holds of two clients while no daemon was spawned and every move
/// went well: one of them is on its way to spawning one, or neither has
/// got past its first attempt at the lock.
pub open spec fn on_course(s: Pair) -> bool {
    s.spawned == 0 ==> spawner(s.first) || spawner(s.second) || (early(s.first) && early(s.second))
}

/// A move that goes well keeps two clients on course.
pub proof fn lemma_calm_move_keeps_course(ignore_mismatch: bool, s: Pair, m: Move)
    requires
        consistent(s),
        on_course(s),
        calm_move(s, m),
    ensures
        on_course(after_move(ignore_mismatch, s, m)),
        !(transition(ignore_mismatch, mover(s, m), m.event).1 is Fail),
{
}

/// Two clients that start from a cold state at the same time, with no
/// effect failing, both come through: neither ends with a failure, and
/// once both are through, exactly one daemon was spawned and runs. This
/// holds whatever the order of their steps, as long as the lock is granted
/// to one holder at a time and refused only while it is held, a ping is
/// answered exactly if a daemon runs, and a probe finds a daemon only if
/// one runs.
pub proof fn lemma_cold_start_spawns_once(ignore_mismatch: bool, moves: Seq<Move>)
    requires
        calm_run(ignore_mismatch, moves),
    ensures
        all_may_move(ignore_mismatch, moves),
        on_course(after_moves(ignore_mismatch, moves)),
        !failed(ignore_mismatch, moves),
        after_moves(ignore_mismatch, moves).first == Phase::Finished && after_moves(
            ignore_mismatch,
            moves,
        ).second == Phase::Finished ==> after_moves(ignore_mismatch, moves).spawned == 1
            && after_moves(ignore_mismatch, moves).daemon_up,
    decreases moves.len(),
{
    if moves.len() > 0 {
        let before = after_moves(ignore_mismatch, moves.drop_last());
        lemma_cold_start_spawns_once(ignore_mismatch, moves.drop_last());
        lemma_at_most_one_daemon(ignore_mismatch, moves.drop_last());
        lemma_calm_move_keeps_course(ignore_mismatch, before, moves.last());
    }
    lemma_at_most_one_daemon(ignore_mismatch, moves);
}

} // verus!
