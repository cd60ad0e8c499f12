//! The refresh scheduler: owns the snapshot store, the time-series store,
//! the two timers and the screen state machine, and applies one cooperative
//! tick at a time. A tick advances the timers; when the splash timer just
//! elapsed the screen leaves the splash state, and when the refresh timer
//! just elapsed the caller samples the machine and hands the outcome back.
//!
//! The tracked series and what feeds them (a documented choice; the metric
//! names are fixed at construction):
//! - `cpu_total`: the mean per-core usage, in hundredths of a percent;
//! - `mem_used`: the used share of main memory, in hundredths of a percent;
//! - `net_total`: the sum of received and transmitted bytes over all
//!   interfaces, saturating.

use vstd::prelude::*;
use crate::screen::{next_screen, NavTarget, ScreenEvent, ScreenMachine, ScreenState};
use crate::series::push_evict;
use crate::snapshot::{
    mean_usage, mem_used_fraction, net_total, aggregate_cpu_usage, mem_used_centi,
    total_network_bytes, Availability, Snapshot,
};
use crate::store::SeriesStore;
use crate::timer::{sum_deltas, Timer, TimerMode};

verus! {

/// The name of the aggregate CPU usage series.
pub open spec fn cpu_series_name() -> Seq<char> {
    "cpu_total"@
}

/// The name of the used-memory fraction series.
pub open spec fn mem_series_name() -> Seq<char> {
    "mem_used"@
}

/// The name of the total network traffic series.
pub open spec fn net_series_name() -> Seq<char> {
    "net_total"@
}

/// The name of the aggregate CPU usage series.
pub fn cpu_series() -> (r: String)
    ensures
        r@ == cpu_series_name(),
{
    "cpu_total".to_owned()
}

/// The name of the used-memory fraction series.
pub fn mem_series() -> (r: String)
    ensures
        r@ == mem_series_name(),
{
    "mem_used".to_owned()
}

/// The name of the total network traffic series.
pub fn net_series() -> (r: String)
    ensures
        r@ == net_series_name(),
{
    "net_total".to_owned()
}

/// What one tick does to the splash timer and the screen, exactly as the
/// contract of `Dashboard::tick_timers` states it: the timer advances, and
/// the screen takes the splash-elapsed trigger when the timer just fired.
pub open spec fn splash_step(t: Timer, s: ScreenState, delta: u64) -> (Timer, ScreenState) {
    (
        t.tick_spec(delta),
        if t.fires(delta) {
            next_screen(s, ScreenEvent::SplashElapsed)
        } else {
            s
        },
    )
}

/// The splash timer and the screen after a whole sequence of ticks.
pub open spec fn splash_run(t: Timer, s: ScreenState, deltas: Seq<u64>) -> (Timer, ScreenState)
    decreases deltas.len(),
{
    if deltas.len() == 0 {
        (t, s)
    } else {
        let stepped = splash_step(t, s, deltas[0]);
        splash_run(stepped.0, stepped.1, deltas.drop_first())
    }
}

/// The run invariant behind the splash law: a one-shot splash timer that
/// has not fired goes with the splash screen, one that has with the
/// details screen, and ticks keep it so.
proof fn lemma_splash_run_invariant(t: Timer, s: ScreenState, deltas: Seq<u64>)
    requires
        t.wf(),
        t.mode == TimerMode::Once,
        t.fired ==> s == ScreenState::Details,
        !t.fired ==> s == ScreenState::Splash,
    ensures
        splash_run(t, s, deltas).1 == if !t.fired && deltas.len() > 0 && t.elapsed_ms
            + sum_deltas(deltas) >= t.duration_ms {
            ScreenState::Details
        } else {
            s
        },
    decreases deltas.len(),
{
    if deltas.len() > 0 {
        let d0 = deltas[0];
        let rest = deltas.drop_first();
        let stepped = splash_step(t, s, d0);
        assert(sum_deltas(deltas) == d0 + sum_deltas(rest));
        if !t.fired && t.fires(d0) {
            crate::timer::lemma_sum_nonneg(rest);
        }
        lemma_splash_run_invariant(stepped.0, stepped.1, rest);
    }
}

/// Law: per process lifetime, the Splash to Details transition happens
/// exactly once, exactly when at least one tick has happened and the
/// accumulated wall time has reached the configured splash duration; ticks
/// after that never re-trigger it and nothing returns to Splash.
pub proof fn lemma_splash_transition_exactly_once(duration_ms: u64, deltas: Seq<u64>)
    ensures
        ({
            let start = Timer {
                mode: TimerMode::Once,
                duration_ms,
                elapsed_ms: 0u64,
                fired: false,
            };
            splash_run(start, ScreenState::Splash, deltas).1 == if deltas.len() > 0 && sum_deltas(
                deltas,
            ) >= duration_ms {
                ScreenState::Details
            } else {
                ScreenState::Splash
            }
        }),
{
    let start = Timer { mode: TimerMode::Once, duration_ms, elapsed_ms: 0u64, fired: false };
    lemma_splash_run_invariant(start, ScreenState::Splash, deltas);
}

/// The three tracked series carry three different names.
proof fn lemma_names_distinct()
    ensures
        cpu_series_name() != mem_series_name(),
        cpu_series_name() != net_series_name(),
        mem_series_name() != net_series_name(),
{
    reveal_strlit("cpu_total");
    reveal_strlit("mem_used");
    reveal_strlit("net_total");
    assert(cpu_series_name().len() == 9);
    assert(mem_series_name().len() == 8);
    assert(net_series_name().len() == 9);
    assert(cpu_series_name()[0] == 'c');
    assert(net_series_name()[0] == 'n');
}

/// The dashboard core: the single current snapshot (plus whether it is
/// stale), the bounded history of each tracked metric, the two timers and
/// the screen state machine. One writer — the tick — and any number of
/// read-only views.
pub struct Dashboard {
    screen: ScreenMachine,
    splash_timer: Timer,
    refresh_timer: Timer,
    snapshot: Snapshot,
    availability: Availability,
    stale: bool,
    store: SeriesStore,
}

impl Dashboard {
    /// The active screen.
    pub closed spec fn spec_screen(&self) -> ScreenState {
        self.screen.screen()
    }

    /// The one-shot splash timer.
    pub closed spec fn spec_splash_timer(&self) -> Timer {
        self.splash_timer
    }

    /// The repeating refresh timer.
    pub closed spec fn spec_refresh_timer(&self) -> Timer {
        self.refresh_timer
    }

    /// The most recent complete snapshot.
    pub closed spec fn spec_snapshot(&self) -> Snapshot {
        self.snapshot
    }

    /// Which categories the most recent sample populated.
    pub closed spec fn spec_availability(&self) -> Availability {
        self.availability
    }

    /// Whether the snapshot is stale: set before the first refresh and
    /// after a wholly failed sample, cleared by every successful one.
    pub closed spec fn spec_stale(&self) -> bool {
        self.stale
    }

    /// The time-series store holding the tracked metric histories.
    pub closed spec fn spec_store(&self) -> SeriesStore {
        self.store
    }

    /// Well-formedness: the timers have their configured modes, and the
    /// store holds exactly the three tracked series.
    pub open spec fn wf(&self) -> bool {
        &&& self.spec_splash_timer().wf()
        &&& self.spec_splash_timer().mode == TimerMode::Once
        &&& self.spec_refresh_timer().wf()
        &&& self.spec_refresh_timer().mode == TimerMode::Repeating
        &&& self.spec_store().wf()
        &&& self.spec_store().rows().len() == 3
        &&& self.spec_store().has_series(cpu_series_name())
        &&& self.spec_store().has_series(mem_series_name())
        &&& self.spec_store().has_series(net_series_name())
    }

    /// A dashboard before its first tick: splash screen showing, both
    /// timers at zero, an empty stale snapshot, and the three tracked
    /// series created empty with their configured capacities.
    pub fn new(
        refresh_interval_ms: u64,
        splash_duration_ms: u64,
        cpu_capacity: usize,
        mem_capacity: usize,
        net_capacity: usize,
    ) -> (r: Dashboard)
        requires
            refresh_interval_ms >= 1,
            cpu_capacity >= 1,
            mem_capacity >= 1,
            net_capacity >= 1,
        ensures
            r.wf(),
            r.spec_screen() == ScreenState::Splash,
            r.spec_splash_timer() == (Timer {
                mode: TimerMode::Once,
                duration_ms: splash_duration_ms,
                elapsed_ms: 0u64,
                fired: false,
            }),
            r.spec_refresh_timer() == (Timer {
                mode: TimerMode::Repeating,
                duration_ms: refresh_interval_ms,
                elapsed_ms: 0u64,
                fired: false,
            }),
            r.spec_stale(),
            r.spec_store().cap_of(cpu_series_name()) == cpu_capacity as nat,
            r.spec_store().cap_of(mem_series_name()) == mem_capacity as nat,
            r.spec_store().cap_of(net_series_name()) == net_capacity as nat,
            r.spec_store().view_of(cpu_series_name()) == Seq::<u64>::empty(),
            r.spec_store().view_of(mem_series_name()) == Seq::<u64>::empty(),
            r.spec_store().view_of(net_series_name()) == Seq::<u64>::empty(),
            r.spec_snapshot().cpus@.len() == 0,
            r.spec_snapshot().gpus@.len() == 0,
            r.spec_snapshot().networks@.len() == 0,
    {
        proof {
            lemma_names_distinct();
        }
        let mut store = SeriesStore::new();
        store.ensure_series(cpu_series(), cpu_capacity);
        proof {
            assert(store.rows()[0].spec_name() == cpu_series_name());
            assert forall|i: int| 0 <= i < store.rows().len() implies (
            #[trigger] store.rows()[i]).spec_name() != mem_series_name() by {}
            assert(!store.has_series(mem_series_name()));
        }
        store.ensure_series(mem_series(), mem_capacity);
        proof {
            assert(store.rows()[0].spec_name() == cpu_series_name());
            assert(store.rows()[1].spec_name() == mem_series_name());
            assert forall|i: int| 0 <= i < store.rows().len() implies (
            #[trigger] store.rows()[i]).spec_name() != net_series_name() by {}
            assert(!store.has_series(net_series_name()));
        }
        store.ensure_series(net_series(), net_capacity);
        proof {
            assert(store.rows()[0].spec_name() == cpu_series_name());
            assert(store.rows()[1].spec_name() == mem_series_name());
            assert(store.rows()[2].spec_name() == net_series_name());
            store.lemma_index_of(cpu_series_name(), 0);
            store.lemma_index_of(mem_series_name(), 1);
            store.lemma_index_of(net_series_name(), 2);
        }
        Dashboard {
            screen: ScreenMachine::new(),
            splash_timer: Timer::once(splash_duration_ms),
            refresh_timer: Timer::repeating(refresh_interval_ms),
            snapshot: Snapshot::empty(),
            availability: Availability {
                cpu: false,
                gpu: false,
                memory: false,
                disk: false,
                network: false,
                system: false,
                sensors: false,
                processes: false,
            },
            stale: true,
            store,
        }
    }

    /// One scheduling tick: advance both timers by the elapsed wall time.
    /// If the splash timer just elapsed (once per lifetime), the screen
    /// leaves the splash state. Returns whether the refresh timer just
    /// elapsed, in which case the caller samples the machine and hands the
    /// outcome to `apply_sample` — within the same logical tick, so no
    /// sample is lost however slow the adapter is.
    pub fn tick_timers(&mut self, delta_ms: u64) -> (refresh_due: bool)
        requires
            old(self).wf(),
        ensures
            final(self).wf(),
            refresh_due == old(self).spec_refresh_timer().fires(delta_ms),
            final(self).spec_splash_timer() == old(self).spec_splash_timer().tick_spec(delta_ms),
            final(self).spec_refresh_timer() == old(self).spec_refresh_timer().tick_spec(delta_ms),
            final(self).spec_screen() == if old(self).spec_splash_timer().fires(delta_ms) {
                next_screen(old(self).spec_screen(), ScreenEvent::SplashElapsed)
            } else {
                old(self).spec_screen()
            },
            (final(self).spec_splash_timer(), final(self).spec_screen()) == splash_step(
                old(self).spec_splash_timer(),
                old(self).spec_screen(),
                delta_ms,
            ),
            final(self).spec_store() == old(self).spec_store(),
            final(self).spec_snapshot() == old(self).spec_snapshot(),
            final(self).spec_availability() == old(self).spec_availability(),
            final(self).spec_stale() == old(self).spec_stale(),
    {
        let splash_fired = self.splash_timer.tick(delta_ms);
        if splash_fired {
            self.screen.splash_elapsed();
        }
        self.refresh_timer.tick(delta_ms)
    }

    /// Apply the outcome of one adapter sample. `None` stands for a wholly
    /// unreachable adapter: the prior snapshot is retained unchanged and
    /// only marked stale. A successful sample replaces the snapshot
    /// atomically and appends exactly one value to each tracked series:
    /// the mean CPU usage, the used-memory fraction, and the total network
    /// traffic of the new snapshot.
    pub fn apply_sample(&mut self, outcome: Option<(Snapshot, Availability)>)
        requires
            old(self).wf(),
        ensures
            final(self).wf(),
            final(self).spec_screen() == old(self).spec_screen(),
            final(self).spec_splash_timer() == old(self).spec_splash_timer(),
            final(self).spec_refresh_timer() == old(self).spec_refresh_timer(),
            final(self).spec_store().rows().len() == old(self).spec_store().rows().len(),
            final(self).spec_store().cap_of(cpu_series_name()) == old(self).spec_store().cap_of(
                cpu_series_name(),
            ),
            final(self).spec_store().cap_of(mem_series_name()) == old(self).spec_store().cap_of(
                mem_series_name(),
            ),
            final(self).spec_store().cap_of(net_series_name()) == old(self).spec_store().cap_of(
                net_series_name(),
            ),
            match outcome {
                None => {
                    &&& final(self).spec_snapshot() == old(self).spec_snapshot()
                    &&& final(self).spec_availability() == old(self).spec_availability()
                    &&& final(self).spec_stale()
                    &&& final(self).spec_store() == old(self).spec_store()
                },
                Some(p) => {
                    &&& final(self).spec_snapshot() == p.0
                    &&& final(self).spec_availability() == p.1
                    &&& !final(self).spec_stale()
                    &&& final(self).spec_store().view_of(cpu_series_name()) == push_evict(
                        old(self).spec_store().view_of(cpu_series_name()),
                        old(self).spec_store().cap_of(cpu_series_name()),
                        mean_usage(p.0.cpus@) as u64,
                    )
                    &&& final(self).spec_store().view_of(mem_series_name()) == push_evict(
                        old(self).spec_store().view_of(mem_series_name()),
                        old(self).spec_store().cap_of(mem_series_name()),
                        mem_used_fraction(p.0.memory) as u64,
                    )
                    &&& final(self).spec_store().view_of(net_series_name()) == push_evict(
                        old(self).spec_store().view_of(net_series_name()),
                        old(self).spec_store().cap_of(net_series_name()),
                        net_total(p.0.networks@),
                    )
                },
            },
    {
        match outcome {
            None => {
                self.stale = true;
            },
            Some(pair) => {
                let (snap, avail) = pair;
                let cpu_val = aggregate_cpu_usage(&snap.cpus);
                let mem_val = mem_used_centi(&snap.memory);
                let net_val = total_network_bytes(&snap.networks);
                self.snapshot = snap;
                self.availability = avail;
                self.stale = false;
                let ghost s0 = self.store;
                let cpu_name = cpu_series();
                let mem_name = mem_series();
                let net_name = net_series();
                proof {
                    lemma_names_distinct();
                }
                let r1 = self.store.record(&cpu_name, cpu_val);
                match r1 {
                    Ok(_) => {},
                    Err(_) => {
                        proof {
                            assert(false);
                        }
                    },
                }
                proof {
                    let ghost s1 = self.store;
                    assert(s1.rows()[s0.index_of(mem_series_name())].spec_name()
                        == mem_series_name());
                    s1.lemma_index_of(mem_series_name(), s0.index_of(mem_series_name()));
                    assert(s1.rows()[s0.index_of(net_series_name())].spec_name()
                        == net_series_name());
                    s1.lemma_index_of(net_series_name(), s0.index_of(net_series_name()));
                    assert(s1.rows()[s0.index_of(cpu_series_name())].spec_name()
                        == cpu_series_name());
                    s1.lemma_index_of(cpu_series_name(), s0.index_of(cpu_series_name()));
                }
                let ghost s1 = self.store;
                let r2 = self.store.record(&mem_name, mem_val);
                match r2 {
                    Ok(_) => {},
                    Err(_) => {
                        proof {
                            assert(false);
                        }
                    },
                }
                proof {
                    let ghost s2 = self.store;
                    assert(s2.rows()[s1.index_of(cpu_series_name())].spec_name()
                        == cpu_series_name());
                    s2.lemma_index_of(cpu_series_name(), s1.index_of(cpu_series_name()));
                    assert(s2.rows()[s1.index_of(mem_series_name())].spec_name()
                        == mem_series_name());
                    s2.lemma_index_of(mem_series_name(), s1.index_of(mem_series_name()));
                    assert(s2.rows()[s1.index_of(net_series_name())].spec_name()
                        == net_series_name());
                    s2.lemma_index_of(net_series_name(), s1.index_of(net_series_name()));
                }
                let ghost s2 = self.store;
                let r3 = self.store.record(&net_name, net_val);
                match r3 {
                    Ok(_) => {},
                    Err(_) => {
                        proof {
                            assert(false);
                        }
                    },
                }
                proof {
                    let s3 = self.store;
                    assert(s3.rows()[s2.index_of(cpu_series_name())].spec_name()
                        == cpu_series_name());
                    s3.lemma_index_of(cpu_series_name(), s2.index_of(cpu_series_name()));
                    assert(s3.rows()[s2.index_of(mem_series_name())].spec_name()
                        == mem_series_name());
                    s3.lemma_index_of(mem_series_name(), s2.index_of(mem_series_name()));
                    // Distinct names keep the three indices apart, so each
                    // recording left the other two series untouched.
                    lemma_names_distinct();
                }
            },
        }
    }

    /// Apply a navigation trigger to the screen state machine; nothing else
    /// moves. Ignored while the splash screen shows.
    pub fn navigate(&mut self, target: NavTarget)
        requires
            old(self).wf(),
        ensures
            final(self).wf(),
            final(self).spec_screen() == next_screen(
                old(self).spec_screen(),
                ScreenEvent::NavigateTo(target),
            ),
            final(self).spec_splash_timer() == old(self).spec_splash_timer(),
            final(self).spec_refresh_timer() == old(self).spec_refresh_timer(),
            final(self).spec_store() == old(self).spec_store(),
            final(self).spec_snapshot() == old(self).spec_snapshot(),
            final(self).spec_availability() == old(self).spec_availability(),
            final(self).spec_stale() == old(self).spec_stale(),
    {
        self.screen.navigate_to(target);
    }

    /// The active screen, for the presenter.
    pub fn current_screen(&self) -> (r: ScreenState)
        ensures
            r == self.spec_screen(),
    {
        self.screen.current()
    }

    /// The most recent complete snapshot, read-only, for the presenter.
    pub fn current_snapshot(&self) -> (r: &Snapshot)
        ensures
            *r == self.spec_snapshot(),
    {
        &self.snapshot
    }

    /// Which categories the most recent sample populated.
    pub fn availability(&self) -> (r: Availability)
        ensures
            r == self.spec_availability(),
    {
        self.availability
    }

    /// Whether the snapshot is stale (no successful refresh yet, or the
    /// last sample failed wholesale).
    pub fn is_stale(&self) -> (r: bool)
        ensures
            r == self.spec_stale(),
    {
        self.stale
    }

    /// A fresh copy of a tracked series' samples, oldest first, for the
    /// presenter; `None` for an unknown name. Every series keeps its name,
    /// capacity and samples.
    pub fn series_view(&mut self, name: &String) -> (r: Option<Vec<u64>>)
        requires
            old(self).wf(),
        ensures
            final(self).wf(),
            final(self).spec_screen() == old(self).spec_screen(),
            final(self).spec_splash_timer() == old(self).spec_splash_timer(),
            final(self).spec_refresh_timer() == old(self).spec_refresh_timer(),
            final(self).spec_snapshot() == old(self).spec_snapshot(),
            final(self).spec_availability() == old(self).spec_availability(),
            final(self).spec_stale() == old(self).spec_stale(),
            final(self).spec_store().rows().len() == old(self).spec_store().rows().len(),
            forall|i: int|
                0 <= i < old(self).spec_store().rows().len()
                    ==> (#[trigger] final(self).spec_store().rows()[i]).spec_name()
                    == old(self).spec_store().rows()[i].spec_name()
                    && final(self).spec_store().rows()[i].spec_capacity()
                    == old(self).spec_store().rows()[i].spec_capacity()
                    && final(self).spec_store().rows()[i].samples()
                    == old(self).spec_store().rows()[i].samples(),
            match r {
                Some(v) => old(self).spec_store().has_series(name@)
                    && v@ == old(self).spec_store().view_of(name@),
                None => !old(self).spec_store().has_series(name@),
            },
    {
        let r = self.store.read(name);
        proof {
            let s0 = old(self).spec_store();
            let s1 = self.store;
            assert(s1.rows()[s0.index_of(cpu_series_name())].spec_name() == cpu_series_name());
            s1.lemma_index_of(cpu_series_name(), s0.index_of(cpu_series_name()));
            assert(s1.rows()[s0.index_of(mem_series_name())].spec_name() == mem_series_name());
            s1.lemma_index_of(mem_series_name(), s0.index_of(mem_series_name()));
            assert(s1.rows()[s0.index_of(net_series_name())].spec_name() == net_series_name());
            s1.lemma_index_of(net_series_name(), s0.index_of(net_series_name()));
        }
        r
    }
}

} // verus!
