//! Millisecond timers against a monotonic clock: a repeating timer for the
//! refresh cadence and a one-shot timer for the splash duration. "Just
//! elapsed" is a one-tick edge event, not a level.

use vstd::prelude::*;

verus! {

/// Whether a timer restarts after finishing.
#[derive(Clone, Copy, Debug, PartialEq, Eq, Structural)]
pub enum TimerMode {
    /// Finishes once and stays finished.
    Once,
    /// Finishes each time a full interval has accumulated.
    Repeating,
}

/// A timer advanced by the elapsed wall time of each scheduling tick.
#[derive(Clone, Copy, Debug, PartialEq, Eq, Structural)]
pub struct Timer {
    /// Whether the timer is one-shot or repeating.
    pub mode: TimerMode,
    /// The configured duration (one-shot) or interval (repeating).
    pub duration_ms: u64,
    /// Time accumulated toward the next finish.
    pub elapsed_ms: u64,
    /// For a one-shot timer: whether it has ever finished.
    pub fired: bool,
}

impl Timer {
    /// Well-formedness. A repeating timer has a positive interval and keeps
    /// its accumulation below it; a one-shot timer saturates at its
    /// duration and is marked fired exactly by reaching it.
    pub open spec fn wf(&self) -> bool {
        &&& (self.mode == TimerMode::Repeating ==> self.duration_ms >= 1 && self.elapsed_ms
            < self.duration_ms)
        &&& (self.mode == TimerMode::Once ==> self.elapsed_ms <= self.duration_ms && (self.fired
            ==> self.elapsed_ms == self.duration_ms))
    }

    /// Whether advancing by `delta` makes the timer just finish.
    pub open spec fn fires(&self, delta: u64) -> bool {
        match self.mode {
            TimerMode::Once => !self.fired && self.elapsed_ms + delta >= self.duration_ms,
            TimerMode::Repeating => self.elapsed_ms + delta >= self.duration_ms,
        }
    }

    /// The timer state after advancing by `delta`.
    pub open spec fn tick_spec(&self, delta: u64) -> Timer {
        match self.mode {
            TimerMode::Once => Timer {
                elapsed_ms: if self.elapsed_ms + delta >= self.duration_ms {
                    self.duration_ms
                } else {
                    (self.elapsed_ms + delta) as u64
                },
                fired: self.fired || self.elapsed_ms + delta >= self.duration_ms,
                ..*self
            },
            TimerMode::Repeating => Timer {
                elapsed_ms: ((self.elapsed_ms + delta) % (self.duration_ms as int)) as u64,
                ..*self
            },
        }
    }

    /// A one-shot timer of the given duration; zero is allowed and then the
    /// first tick finishes it.
    pub fn once(duration_ms: u64) -> (r: Timer)
        ensures
            r.wf(),
            r == (Timer {
                mode: TimerMode::Once,
                duration_ms,
                elapsed_ms: 0u64,
                fired: false,
            }),
    {
        Timer { mode: TimerMode::Once, duration_ms, elapsed_ms: 0, fired: false }
    }

    /// A repeating timer with the given positive interval.
    pub fn repeating(interval_ms: u64) -> (r: Timer)
        requires
            interval_ms >= 1,
        ensures
            r.wf(),
            r == (Timer {
                mode: TimerMode::Repeating,
                duration_ms: interval_ms,
                elapsed_ms: 0u64,
                fired: false,
            }),
    {
        Timer { mode: TimerMode::Repeating, duration_ms: interval_ms, elapsed_ms: 0, fired: false }
    }

    /// Advance the timer by the elapsed wall time of this tick; report
    /// whether it just finished.
    pub fn tick(&mut self, delta_ms: u64) -> (fired_now: bool)
        requires
            old(self).wf(),
        ensures
            final(self).wf(),
            fired_now == old(self).fires(delta_ms),
            *final(self) == old(self).tick_spec(delta_ms),
    {
        match self.mode {
            TimerMode::Once => {
                let remaining = self.duration_ms - self.elapsed_ms;
                let fires_now = !self.fired && delta_ms >= remaining;
                if delta_ms >= remaining {
                    self.elapsed_ms = self.duration_ms;
                    self.fired = true;
                } else {
                    self.elapsed_ms = self.elapsed_ms + delta_ms;
                }
                fires_now
            },
            TimerMode::Repeating => {
                let total: u128 = self.elapsed_ms as u128 + delta_ms as u128;
                let fires_now = total >= self.duration_ms as u128;
                let rem: u128 = total % (self.duration_ms as u128);
                proof {
                    assert(rem < self.duration_ms as u128);
                }
                self.elapsed_ms = rem as u64;
                fires_now
            },
        }
    }
}

/// The timer state after a whole sequence of ticks.
pub open spec fn run_timer(t: Timer, deltas: Seq<u64>) -> Timer
    decreases deltas.len(),
{
    if deltas.len() == 0 {
        t
    } else {
        run_timer(t.tick_spec(deltas[0]), deltas.drop_first())
    }
}

/// How many ticks of the sequence make the timer just finish.
pub open spec fn fire_count(t: Timer, deltas: Seq<u64>) -> nat
    decreases deltas.len(),
{
    if deltas.len() == 0 {
        0
    } else {
        (if t.fires(deltas[0]) {
            1nat
        } else {
            0nat
        }) + fire_count(t.tick_spec(deltas[0]), deltas.drop_first())
    }
}

/// The total wall time of a sequence of ticks.
pub open spec fn sum_deltas(deltas: Seq<u64>) -> int
    decreases deltas.len(),
{
    if deltas.len() == 0 {
        0
    } else {
        deltas[0] + sum_deltas(deltas.drop_first())
    }
}

/// The total of a sequence of tick durations is never negative.
pub proof fn lemma_sum_nonneg(deltas: Seq<u64>)
    ensures
        sum_deltas(deltas) >= 0,
    decreases deltas.len(),
{
    if deltas.len() > 0 {
        lemma_sum_nonneg(deltas.drop_first());
    }
}

/// A one-shot timer that has already finished never fires again.
pub proof fn lemma_once_fired_stays_quiet(t: Timer, deltas: Seq<u64>)
    requires
        t.mode == TimerMode::Once,
        t.fired,
    ensures
        fire_count(t, deltas) == 0,
        run_timer(t, deltas).fired,
    decreases deltas.len(),
{
    if deltas.len() > 0 {
        lemma_once_fired_stays_quiet(t.tick_spec(deltas[0]), deltas.drop_first());
    }
}

/// Law: over any sequence of ticks, a one-shot timer finishes at most once.
pub proof fn lemma_once_fires_at_most_once(t: Timer, deltas: Seq<u64>)
    requires
        t.mode == TimerMode::Once,
    ensures
        fire_count(t, deltas) <= 1,
    decreases deltas.len(),
{
    if deltas.len() > 0 {
        let t2 = t.tick_spec(deltas[0]);
        if t.fires(deltas[0]) {
            lemma_once_fired_stays_quiet(t2, deltas.drop_first());
        } else {
            lemma_once_fires_at_most_once(t2, deltas.drop_first());
        }
    }
}

/// Law: a repeating timer driven by ticks that each span at least one full
/// interval finishes on every one of them — one finish per elapsed
/// interval, no tick lost.
pub proof fn lemma_repeating_fires_every_full_interval(t: Timer, deltas: Seq<u64>)
    requires
        t.wf(),
        t.mode == TimerMode::Repeating,
        forall|i: int| 0 <= i < deltas.len() ==> #[trigger] deltas[i] >= t.duration_ms,
    ensures
        fire_count(t, deltas) == deltas.len(),
    decreases deltas.len(),
{
    if deltas.len() > 0 {
        let t2 = t.tick_spec(deltas[0]);
        assert(t.fires(deltas[0]));
        assert(t2.wf());
        lemma_repeating_fires_every_full_interval(t2, deltas.drop_first());
    }
}

/// Law: a one-shot timer that has not finished yet finishes during a
/// sequence of ticks exactly when at least one tick happens and the
/// accumulated wall time reaches the configured duration — and then
/// exactly once.
pub proof fn lemma_once_fires_iff_accumulated(t: Timer, deltas: Seq<u64>)
    requires
        t.wf(),
        t.mode == TimerMode::Once,
        !t.fired,
    ensures
        fire_count(t, deltas) == if deltas.len() > 0 && t.elapsed_ms + sum_deltas(deltas)
            >= t.duration_ms {
            1int
        } else {
            0int
        },
    decreases deltas.len(),
{
    if deltas.len() > 0 {
        let d0 = deltas[0];
        let rest = deltas.drop_first();
        let t2 = t.tick_spec(d0);
        assert(sum_deltas(deltas) == d0 + sum_deltas(rest));
        if t.fires(d0) {
            lemma_once_fired_stays_quiet(t2, rest);
            lemma_sum_nonneg(rest);
            assert(fire_count(t, deltas) == 1);
        } else {
            assert(t2.elapsed_ms == t.elapsed_ms + d0);
            lemma_once_fires_iff_accumulated(t2, rest);
            if rest.len() == 0 {
                assert(fire_count(t, deltas) == 0);
            }
        }
    }
}

} // verus!
