//! The life of the store connection: connect, apply the schema once, then
//! serve. A failure on the way is final; nothing is retried here.

use vstd::prelude::*;

verus! {

/// Why startup ended before serving.
#[derive(Debug, Clone, Copy, PartialEq, Eq, Structural)]
pub enum StartupError {
    /// The store could not be reached.
    Connection,
    /// The schema script failed.
    Migration,
}

/// Where startup stands.
#[derive(Debug, Clone, Copy, PartialEq, Eq, Structural)]
pub enum StartupState {
    Disconnected,
    Connected,
    Ready,
    Failed(StartupError),
}

/// What the caller reports back.
#[derive(Debug, Clone, Copy, PartialEq, Eq, Structural)]
pub enum StartupEvent {
    ConnectSucceeded,
    ConnectFailed,
    MigrateSucceeded,
    MigrateFailed,
}

/// What the caller has to do next.
#[derive(Debug, Clone, Copy, PartialEq, Eq, Structural)]
pub enum StartupAction {
    Connect,
    Migrate,
    Serve,
    Exit(StartupError),
}

/// The state after an event. An event that the state does not wait for
/// changes nothing; a failure and readiness are final.
pub open spec fn startup_next(state: StartupState, event: StartupEvent) -> StartupState {
    match (state, event) {
        (StartupState::Disconnected, StartupEvent::ConnectSucceeded) => StartupState::Connected,
        (StartupState::Disconnected, StartupEvent::ConnectFailed) => StartupState::Failed(
            StartupError::Connection,
        ),
        (StartupState::Connected, StartupEvent::MigrateSucceeded) => StartupState::Ready,
        (StartupState::Connected, StartupEvent::MigrateFailed) => StartupState::Failed(
            StartupError::Migration,
        ),
        _ => state,
    }
}

/// What a state calls for.
pub open spec fn startup_action(state: StartupState) -> StartupAction {
    match state {
        StartupState::Disconnected => StartupAction::Connect,
        StartupState::Connected => StartupAction::Migrate,
        StartupState::Ready => StartupAction::Serve,
        StartupState::Failed(e) => StartupAction::Exit(e),
    }
}

impl StartupState {
    /// What to do in this state.
    pub fn action(self) -> (r: StartupAction)
        ensures
            r == startup_action(self),
    {
        match self {
            StartupState::Disconnected => StartupAction::Connect,
            StartupState::Connected => StartupAction::Migrate,
            StartupState::Ready => StartupAction::Serve,
            StartupState::Failed(e) => StartupAction::Exit(e),
        }
    }

    /// Takes one event.
    pub fn on(self, event: StartupEvent) -> (r: StartupState)
        ensures
            r == startup_next(self, event),
    {
        match (self, event) {
            (StartupState::Disconnected, StartupEvent::ConnectSucceeded) => StartupState::Connected,
            (StartupState::Disconnected, StartupEvent::ConnectFailed) => StartupState::Failed(
                StartupError::Connection,
            ),
            (StartupState::Connected, StartupEvent::MigrateSucceeded) => StartupState::Ready,
            (StartupState::Connected, StartupEvent::MigrateFailed) => StartupState::Failed(
                StartupError::Migration,
            ),
            _ => self,
        }
    }
}

/// The state after a sequence of events, from `state` on.
pub open spec fn startup_after(state: StartupState, events: Seq<StartupEvent>) -> StartupState
    decreases events.len(),
{
    if events.len() == 0 {
        state
    } else {
        startup_next(startup_after(state, events.drop_last()), events.last())
    }
}

/// How often the schema script has succeeded in a sequence of events that
/// starts in `state`: the successes reported while startup waited for one.
pub open spec fn migrations_applied(state: StartupState, events: Seq<StartupEvent>) -> nat
    decreases events.len(),
{
    if events.len() == 0 {
        0
    } else {
        let before = startup_after(state, events.drop_last());
        let earlier = migrations_applied(state, events.drop_last());
        if before == StartupState::Connected && events.last() == StartupEvent::MigrateSucceeded {
            earlier + 1
        } else {
            earlier
        }
    }
}

/// Whatever is reported and in whatever order, startup that began
/// disconnected is ready to serve exactly when the schema was applied, and
/// it was then applied exactly once; until then it was not applied at all.
pub proof fn lemma_ready_means_migrated_once(events: Seq<StartupEvent>)
    ensures
        startup_after(StartupState::Disconnected, events) == StartupState::Ready
            <==> migrations_applied(StartupState::Disconnected, events) == 1,
        migrations_applied(StartupState::Disconnected, events) <= 1,
    decreases events.len(),
{
    if events.len() > 0 {
        lemma_ready_means_migrated_once(events.drop_last());
    }
}

/// A failed startup stays failed: no later event brings it back.
pub proof fn lemma_failure_is_final(error: StartupError, events: Seq<StartupEvent>)
    ensures
        startup_after(StartupState::Failed(error), events) == StartupState::Failed(error),
    decreases events.len(),
{
    if events.len() > 0 {
        lemma_failure_is_final(error, events.drop_last());
    }
}

/// The pool as sampled at one moment.
#[derive(Debug, Clone, Copy, PartialEq, Eq, Structural)]
pub struct PoolStats {
    pub size: u32,
    pub in_use: u32,
    pub waiting: u32,
}

/// The connections in use when `idle` of `size` are idle. The two numbers
/// are read one after the other, so `idle` may exceed `size`; no more than
/// `size` connections are then taken as idle.
pub open spec fn connections_in_use(size: u32, idle: u32) -> u32 {
    if idle >= size {
        0
    } else {
        (size - idle) as u32
    }
}

impl PoolStats {
    /// No more connections are in use than the pool holds.
    pub open spec fn wf(&self) -> bool {
        self.in_use <= self.size
    }

    /// The sample for a pool of `size` connections of which `idle` are idle,
    /// with `waiting` callers queued.
    pub fn sample(size: u32, idle: u32, waiting: u32) -> (r: PoolStats)
        ensures
            r.wf(),
            r == (PoolStats { size, in_use: connections_in_use(size, idle), waiting }),
    {
        let in_use: u32 = if idle >= size {
            0
        } else {
            size - idle
        };
        PoolStats { size, in_use, waiting }
    }

    /// The connections that are idle.
    pub fn idle(&self) -> (r: u32)
        requires
            self.wf(),
        ensures
            r == self.size - self.in_use,
    {
        self.size - self.in_use
    }
}

} // verus!
