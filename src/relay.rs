//! The one-outstanding-worker discipline that turns a blocking source (a
//! queue receive, an event-socket read) into a pollable signal. The worker
//! itself runs elsewhere; this is the decision taken on each poll.
use vstd::prelude::*;

verus! {

/// The slot that holds at most one worker.
#[derive(Clone, Copy, Debug, PartialEq, Eq, Structural)]
pub enum RelayState {
    /// No worker runs.
    Idle,
    /// One worker runs.
    Outstanding,
    /// The source is gone: nothing more will come.
    Exhausted,
}

/// What the poller saw of the worker. `Done(None)` is a worker that found its
/// source closed.
pub enum WorkerStatus<T> {
    Running,
    Done(Option<T>),
}

/// What the poller is to do.
pub enum RelayAction<T> {
    /// Start one worker; report pending.
    Spawn,
    /// Report pending; the running worker will wake the scheduler.
    Wait,
    /// Hand the value on; the worker is gone.
    Deliver(T),
    /// Report that no more values will come.
    Exhausted,
}

/// The state after one poll, and the action taken.
pub open spec fn relay_step<T>(s: RelayState, seen: WorkerStatus<T>) -> (RelayState, RelayAction<T>) {
    match s {
        RelayState::Idle => (RelayState::Outstanding, RelayAction::Spawn),
        RelayState::Exhausted => (RelayState::Exhausted, RelayAction::Exhausted),
        RelayState::Outstanding => match seen {
            WorkerStatus::Running => (RelayState::Outstanding, RelayAction::Wait),
            WorkerStatus::Done(Some(v)) => (RelayState::Idle, RelayAction::Deliver(v)),
            WorkerStatus::Done(None) => (RelayState::Exhausted, RelayAction::Exhausted),
        },
    }
}

/// Number of workers that a state holds.
pub open spec fn live_workers(s: RelayState) -> nat {
    if s == RelayState::Outstanding {
        1
    } else {
        0
    }
}

/// Whether an action ends a worker (it delivered, or found the source closed).
pub open spec fn harvests<T>(s: RelayState, seen: WorkerStatus<T>) -> bool {
    s == RelayState::Outstanding && seen is Done
}

/// The state after a run of polls, with the number of workers started and
/// the number of workers harvested.
pub open spec fn relay_run<T>(s: RelayState, seen: Seq<WorkerStatus<T>>) -> (RelayState, nat, nat)
    decreases seen.len(),
{
    if seen.len() == 0 {
        (s, 0, 0)
    } else {
        let (next, action) = relay_step(s, seen[0]);
        let (last, spawned, harvested) = relay_run(next, seen.drop_first());
        (
            last,
            spawned + if action is Spawn { 1nat } else { 0nat },
            harvested + if harvests(s, seen[0]) { 1nat } else { 0nat },
        )
    }
}

/// The adapter's side of the one-outstanding-worker discipline.
pub struct Relay {
    pub state: RelayState,
}

impl Relay {
    /// A relay with no worker.
    pub fn new() -> (r: Relay)
        ensures
            r.state == RelayState::Idle,
    {
        Relay { state: RelayState::Idle }
    }

    /// Whether a worker runs, so that its status is worth reading.
    pub fn is_outstanding(&self) -> (r: bool)
        ensures
            r == (self.state == RelayState::Outstanding),
    {
        match self.state {
            RelayState::Outstanding => true,
            _ => false,
        }
    }

    /// One poll: takes what was seen of the worker and says what to do.
    /// A worker is started only when none runs.
    pub fn poll<T>(&mut self, seen: WorkerStatus<T>) -> (action: RelayAction<T>)
        ensures
            (final(self).state, action) == relay_step(old(self).state, seen),
            action is Spawn ==> old(self).state == RelayState::Idle,
    {
        match self.state {
            RelayState::Idle => {
                self.state = RelayState::Outstanding;
                RelayAction::Spawn
            },
            RelayState::Exhausted => RelayAction::Exhausted,
            RelayState::Outstanding => match seen {
                WorkerStatus::Running => RelayAction::Wait,
                WorkerStatus::Done(Some(v)) => {
                    self.state = RelayState::Idle;
                    RelayAction::Deliver(v)
                },
                WorkerStatus::Done(None) => {
                    self.state = RelayState::Exhausted;
                    RelayAction::Exhausted
                },
            },
        }
    }
}

/// Over any run of polls, however many come back to back with nothing seen,
/// the workers started are the workers harvested plus those still live, and
/// at most one is live: a relay never holds two outstanding workers.
pub proof fn lemma_at_most_one_worker<T>(s: RelayState, seen: Seq<WorkerStatus<T>>)
    ensures
        relay_run(s, seen).1 + live_workers(s) == relay_run(s, seen).2 + live_workers(
            relay_run(s, seen).0,
        ),
        live_workers(relay_run(s, seen).0) <= 1,
    decreases seen.len(),
{
    if seen.len() > 0 {
        let next = relay_step(s, seen[0]).0;
        lemma_at_most_one_worker(next, seen.drop_first());
    }
}

/// Once the source is gone, no poll starts a worker or delivers a value.
pub proof fn lemma_exhausted_stays_silent<T>(seen: Seq<WorkerStatus<T>>)
    ensures
        relay_run(RelayState::Exhausted, seen) == (RelayState::Exhausted, 0nat, 0nat),
    decreases seen.len(),
{
    if seen.len() > 0 {
        lemma_exhausted_stays_silent(seen.drop_first());
    }
}

} // verus!
