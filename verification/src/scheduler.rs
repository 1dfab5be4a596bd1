//! The polling loops and the one session that they share.
//!
//! Each loop runs on its own, for ever: it waits for the session, runs one
//! cycle with the session to itself, gives the session back, and sleeps for
//! its period. A cycle that fails is noted in the log and changes nothing
//! else: the loop gives the session back and sleeps as after any cycle.
//! The caller does the waiting, the cycle and the sleeping; the loop says
//! what comes next.

use vstd::prelude::*;

verus! {

/// The loops that poll the platform.
#[derive(Clone, Copy, Debug, PartialEq, Eq, Structural)]
pub enum PollingLoop {
    /// Announces the team's new solves.
    SolveSync,
    /// Adds newly listed challenges and machines to the store.
    CatalogSync,
    /// Writes the team's standing into the channel's topic.
    RankStatus,
}

/// The period of the solve synchronisation, in seconds: a minute.
pub const SOLVE_SYNC_PERIOD_SECS: u64 = 60;

/// The period of the catalog synchronisation, in seconds: a day.
pub const CATALOG_SYNC_PERIOD_SECS: u64 = 86400;

/// The period of the rank status, in seconds: a day.
pub const RANK_STATUS_PERIOD_SECS: u64 = 86400;

/// Where a polling loop stands.
#[derive(Clone, Copy, Debug, PartialEq, Eq, Structural)]
pub enum LoopState {
    /// It waits for the session.
    Waiting,
    /// It has the session and runs a cycle.
    Running,
    /// It has given the session back and sleeps.
    Sleeping,
}

/// What the caller reports to a polling loop.
#[derive(Clone, Copy, Debug, PartialEq, Eq, Structural)]
pub enum LoopEvent {
    SessionAcquired,
    CycleSucceeded,
    CycleFailed,
    Woke,
}

/// What a polling loop asks of the caller.
#[derive(Clone, Copy, Debug, PartialEq, Eq, Structural)]
pub enum LoopAction {
    /// Wait until the session is free, and take it.
    AcquireSession,
    /// Run one cycle of this loop.
    RunCycle(PollingLoop),
    /// Give the session back, note the failure in the log if there was
    /// one, and only then sleep for so many seconds.
    ReleaseThenSleep { secs: u64, failed: bool },
    /// Sleep for so many seconds.
    Sleep { secs: u64 },
}

impl PollingLoop {
    /// The time that the loop sleeps between two cycles, in seconds.
    pub open spec fn period(self) -> u64 {
        match self {
            PollingLoop::SolveSync => SOLVE_SYNC_PERIOD_SECS,
            PollingLoop::CatalogSync => CATALOG_SYNC_PERIOD_SECS,
            PollingLoop::RankStatus => RANK_STATUS_PERIOD_SECS,
        }
    }

    /// The time that the loop sleeps between two cycles, in seconds.
    pub fn period_secs(self) -> (secs: u64)
        ensures
            secs == self.period(),
    {
        match self {
            PollingLoop::SolveSync => SOLVE_SYNC_PERIOD_SECS,
            PollingLoop::CatalogSync => CATALOG_SYNC_PERIOD_SECS,
            PollingLoop::RankStatus => RANK_STATUS_PERIOD_SECS,
        }
    }

    /// The loop at its start: it waits for the session.
    pub fn start(self) -> (begun: (LoopState, LoopAction))
        ensures
            begun == (LoopState::Waiting, LoopAction::AcquireSession),
    {
        (LoopState::Waiting, LoopAction::AcquireSession)
    }

    /// The loop after the caller's report.
    pub open spec fn after(self, state: LoopState, event: LoopEvent) -> LoopState {
        match (state, event) {
            (LoopState::Waiting, LoopEvent::SessionAcquired) => LoopState::Running,
            (LoopState::Running, LoopEvent::CycleSucceeded) => LoopState::Sleeping,
            (LoopState::Running, LoopEvent::CycleFailed) => LoopState::Sleeping,
            (LoopState::Sleeping, LoopEvent::Woke) => LoopState::Waiting,
            _ => state,
        }
    }

    /// What the loop asks of the caller after the caller's report. A report
    /// that the loop was not waiting for changes nothing, and the loop asks
    /// again for what it is waiting for.
    pub open spec fn asks(self, state: LoopState, event: LoopEvent) -> LoopAction {
        match (state, event) {
            (LoopState::Waiting, LoopEvent::SessionAcquired) => LoopAction::RunCycle(self),
            (LoopState::Running, LoopEvent::CycleSucceeded) => LoopAction::ReleaseThenSleep {
                secs: self.period(),
                failed: false,
            },
            (LoopState::Running, LoopEvent::CycleFailed) => LoopAction::ReleaseThenSleep {
                secs: self.period(),
                failed: true,
            },
            (LoopState::Sleeping, LoopEvent::Woke) => LoopAction::AcquireSession,
            (LoopState::Waiting, _) => LoopAction::AcquireSession,
            (LoopState::Running, _) => LoopAction::RunCycle(self),
            (LoopState::Sleeping, _) => LoopAction::Sleep { secs: self.period() },
        }
    }

    /// Takes the caller's report and says where the loop stands then, and
    /// what the caller is to do.
    pub fn step(self, state: LoopState, event: LoopEvent) -> (next: (LoopState, LoopAction))
        ensures
            next.0 == self.after(state, event),
            next.1 == self.asks(state, event),
    {
        let secs = self.period_secs();
        match state {
            LoopState::Waiting => match event {
                LoopEvent::SessionAcquired => (LoopState::Running, LoopAction::RunCycle(self)),
                _ => (LoopState::Waiting, LoopAction::AcquireSession),
            },
            LoopState::Running => match event {
                LoopEvent::CycleSucceeded => (
                    LoopState::Sleeping,
                    LoopAction::ReleaseThenSleep { secs, failed: false },
                ),
                LoopEvent::CycleFailed => (
                    LoopState::Sleeping,
                    LoopAction::ReleaseThenSleep { secs, failed: true },
                ),
                _ => (LoopState::Running, LoopAction::RunCycle(self)),
            },
            LoopState::Sleeping => match event {
                LoopEvent::Woke => (LoopState::Waiting, LoopAction::AcquireSession),
                _ => (LoopState::Sleeping, LoopAction::Sleep { secs }),
            },
        }
    }
}

impl LoopState {
    /// Whether a loop in this state has the session to itself.
    pub open spec fn holds_session(self) -> bool {
        self == LoopState::Running
    }
}

impl LoopAction {
    /// Whether the action has the caller sleep.
    pub open spec fn sleeps(self) -> bool {
        self is ReleaseThenSleep || self is Sleep
    }
}

/// A cycle's end, good or bad, is followed by the loop's full sleep, and
/// the session is given back before it: a failure neither stops the loop
/// nor shortens the sleep.
pub proof fn lemma_cycle_end_sleeps(which: PollingLoop, event: LoopEvent)
    requires
        event == LoopEvent::CycleSucceeded || event == LoopEvent::CycleFailed,
    ensures
        which.after(LoopState::Running, event) == LoopState::Sleeping,
        which.asks(LoopState::Running, event) == (LoopAction::ReleaseThenSleep {
            secs: which.period(),
            failed: event == LoopEvent::CycleFailed,
        }),
{
}

/// No loop sleeps with the session in its hands: whenever the caller is
/// asked to sleep, the loop does not hold the session afterwards.
pub proof fn lemma_never_sleeps_on_session(which: PollingLoop, state: LoopState, event: LoopEvent)
    ensures
        which.asks(state, event).sleeps() ==> !which.after(state, event).holds_session(),
        which.after(state, event).holds_session() ==> which.asks(state, event)
            == LoopAction::RunCycle(which),
{
}

/// The session goes only to a loop that waited for it and was told that it
/// has it.
pub proof fn lemma_session_is_acquired(which: PollingLoop, state: LoopState, event: LoopEvent)
    requires
        !state.holds_session(),
        which.after(state, event).holds_session(),
    ensures
        state == LoopState::Waiting,
        event == LoopEvent::SessionAcquired,
{
}

} // verus!
