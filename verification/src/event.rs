//! The event stream the dashboard consumes, and the timer policy of the
//! background task that produces it.
//!
//! One background task owns a repeating timer and the raw terminal input; it
//! forwards exactly one event per firing into a FIFO queue that the
//! foreground loop drains.  The timer bookkeeping — when the next tick is
//! owed, and what a live period change does to it — is modelled here so that
//! its spacing behaviour is pinned down; the waiting itself happens outside
//! the library.

use vstd::prelude::*;

verus! {

/// The keyboard surface the core reacts to, decoded from the raw terminal
/// event by the surrounding program.  Anything else arrives as `Other` and
/// is ignored everywhere.
#[derive(Clone, Copy, Debug, PartialEq, Eq, Structural)]
pub enum Key {
    Tab,
    Up,
    Down,
    Enter,
    Esc,
    Left,
    Right,
    Char(char),
    Other,
}

/// One entry of the merged event stream: a timer tick or one key.
#[derive(Clone, Copy, Debug, PartialEq, Eq, Structural)]
pub enum Event {
    Tick,
    Input(Key),
}

/// What woke the producer task: its timer fired, a key arrived, or the
/// configured period changed under it.
#[derive(Clone, Copy, Debug, PartialEq, Eq, Structural)]
pub enum ProducerWake {
    TimerFired,
    InputReceived(Key),
    IntervalChanged(u64),
}

/// The producer's timer bookkeeping: the current period and the instant the
/// next tick is owed, in milliseconds of a monotone clock.  A fresh timer
/// owes its first tick immediately.
#[derive(Clone, Copy, Debug, PartialEq, Eq, Structural)]
pub struct TickScheduler {
    pub period_ms: u64,
    pub next_fire_ms: u64,
}

/// The scheduler as it stands after a live period change at `now_ms`: the
/// old timer is discarded and a fresh one starts from the moment of change,
/// owing its first tick immediately.
pub open spec fn spec_reconfigure(now_ms: u64, period_ms: u64) -> TickScheduler {
    TickScheduler { period_ms, next_fire_ms: now_ms }
}

impl TickScheduler {
    /// The instant the tick `n` steps ahead is owed.
    pub open spec fn nth_fire_ms(self, n: nat) -> int {
        self.next_fire_ms + n * self.period_ms
    }

    /// A fresh timer started at `now_ms`: the first tick is owed at once,
    /// later ones at `period_ms` spacing.
    pub fn new(now_ms: u64, period_ms: u64) -> (r: Self)
        ensures
            r == spec_reconfigure(now_ms, period_ms),
    {
        TickScheduler { period_ms, next_fire_ms: now_ms }
    }

    /// Acknowledges the tick that was owed; the next one is owed a full
    /// period later.
    pub fn fire(&mut self)
        requires
            old(self).next_fire_ms + old(self).period_ms <= u64::MAX,
        ensures
            final(self).period_ms == old(self).period_ms,
            final(self).next_fire_ms == old(self).next_fire_ms + old(self).period_ms,
    {
        self.next_fire_ms = self.next_fire_ms + self.period_ms;
    }

    /// Applies a live period change at `now_ms`; see `spec_reconfigure`.
    pub fn reconfigure(&mut self, now_ms: u64, period_ms: u64)
        ensures
            *final(self) == spec_reconfigure(now_ms, period_ms),
    {
        self.period_ms = period_ms;
        self.next_fire_ms = now_ms;
    }
}

/// One producer step: exactly one event is forwarded per timer firing and
/// per key, in the order the wakes were observed, and a period change
/// forwards nothing but restarts the timer.
pub fn producer_step(scheduler: &mut TickScheduler, wake: ProducerWake, now_ms: u64) -> (emit:
    Option<Event>)
    requires
        wake == ProducerWake::TimerFired ==> old(scheduler).next_fire_ms + old(
            scheduler,
        ).period_ms <= u64::MAX,
    ensures
        match wake {
            ProducerWake::TimerFired => {
                &&& emit == Some(Event::Tick)
                &&& final(scheduler).period_ms == old(scheduler).period_ms
                &&& final(scheduler).next_fire_ms == old(scheduler).next_fire_ms + old(
                    scheduler,
                ).period_ms
            },
            ProducerWake::InputReceived(key) => {
                &&& emit == Some(Event::Input(key))
                &&& *final(scheduler) == *old(scheduler)
            },
            ProducerWake::IntervalChanged(period_ms) => {
                &&& emit is None
                &&& *final(scheduler) == spec_reconfigure(now_ms, period_ms)
            },
        },
{
    match wake {
        ProducerWake::TimerFired => {
            scheduler.fire();
            Some(Event::Tick)
        },
        ProducerWake::InputReceived(key) => Some(Event::Input(key)),
        ProducerWake::IntervalChanged(period_ms) => {
            scheduler.reconfigure(now_ms, period_ms);
            None
        },
    }
}

/// Changing the period while the timer runs re-bases the schedule cleanly:
/// after a change to `period_ms` at `now_ms`, the tick `n` steps ahead is
/// owed exactly at `now_ms + n * period_ms`, so consecutive ticks are spaced
/// at the new period with no extra or missing tick beyond the immediate
/// re-based one.
pub proof fn lemma_reconfigure_tick_spacing(now_ms: u64, period_ms: u64, n: nat)
    ensures
        spec_reconfigure(now_ms, period_ms).nth_fire_ms(n) == now_ms + n * period_ms,
        spec_reconfigure(now_ms, period_ms).nth_fire_ms(n + 1) - spec_reconfigure(
            now_ms,
            period_ms,
        ).nth_fire_ms(n) == period_ms,
{
    assert((n + 1) * period_ms == n * period_ms + period_ms) by (nonlinear_arith);
}

} // verus!
