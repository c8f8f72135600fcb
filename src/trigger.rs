//! The trigger-or-once adapter: a signal on every tick of a fixed interval, or
//! exactly one signal on the first poll.
use vstd::prelude::*;

verus! {

/// The adapter's state. The mode, set at construction, never changes: with an
/// interval every tick of the timer signals; without one the first poll
/// signals and every later one does not.
#[derive(Clone, Copy, Debug, PartialEq, Eq, Structural)]
pub struct TriggerOrOnce {
    pub interval_secs: Option<u64>,
    pub fired: bool,
}

/// One poll: the next state and whether it signals. `timer_ready` says
/// whether the interval's timer has ticked; it matters only in interval mode.
pub open spec fn step(s: TriggerOrOnce, timer_ready: bool) -> (TriggerOrOnce, bool) {
    match s.interval_secs {
        Some(_) => (s, timer_ready),
        None => (TriggerOrOnce { fired: true, ..s }, !s.fired),
    }
}

/// The state after a run of polls, and how many of them signalled.
pub open spec fn run(s: TriggerOrOnce, polls: Seq<bool>) -> (TriggerOrOnce, nat)
    decreases polls.len(),
{
    if polls.len() == 0 {
        (s, 0)
    } else {
        let (next, signal) = step(s, polls[0]);
        let (last, count) = run(next, polls.drop_first());
        (last, count + if signal { 1nat } else { 0nat })
    }
}

impl TriggerOrOnce {
    /// A fresh adapter: interval mode when `interval_secs` is given, else
    /// single-shot mode.
    pub fn new(interval_secs: Option<u64>) -> (r: TriggerOrOnce)
        ensures
            r.interval_secs == interval_secs,
            !r.fired,
    {
        TriggerOrOnce { interval_secs, fired: false }
    }

    /// Whether the adapter runs on an interval.
    pub fn is_interval(&self) -> (r: bool)
        ensures
            r == self.interval_secs.is_some(),
    {
        self.interval_secs.is_some()
    }

    /// Polls the adapter: returns whether it signals now.
    pub fn poll(&mut self, timer_ready: bool) -> (signal: bool)
        ensures
            (*final(self), signal) == step(*old(self), timer_ready),
    {
        match self.interval_secs {
            Some(_) => timer_ready,
            None => {
                if self.fired {
                    false
                } else {
                    self.fired = true;
                    true
                }
            },
        }
    }
}

/// In single-shot mode a fresh adapter signals exactly once over any
/// non-empty run of polls, whatever the timer says, and an adapter that has
/// fired never signals again.
pub proof fn lemma_single_shot_signals_once(s: TriggerOrOnce, polls: Seq<bool>)
    requires
        s.interval_secs.is_none(),
    ensures
        run(s, polls).1 == if polls.len() == 0 {
            0nat
        } else if s.fired {
            0nat
        } else {
            1nat
        },
        polls.len() > 0 ==> run(s, polls).0.fired,
        run(s, polls).0.interval_secs.is_none(),
    decreases polls.len(),
{
    if polls.len() > 0 {
        let next = step(s, polls[0]).0;
        lemma_single_shot_signals_once(next, polls.drop_first());
    }
}

/// How many polls of a run saw the timer tick.
pub open spec fn ticks(polls: Seq<bool>) -> nat
    decreases polls.len(),
{
    if polls.len() == 0 {
        0
    } else {
        ticks(polls.drop_first()) + if polls[0] { 1nat } else { 0nat }
    }
}

/// In interval mode a run of polls signals exactly as often as the timer
/// ticked, and the state never changes.
pub proof fn lemma_interval_follows_timer(s: TriggerOrOnce, polls: Seq<bool>)
    requires
        s.interval_secs.is_some(),
    ensures
        run(s, polls).0 == s,
        run(s, polls).1 == ticks(polls),
    decreases polls.len(),
{
    if polls.len() > 0 {
        lemma_interval_follows_timer(s, polls.drop_first());
    }
}

} // verus!
