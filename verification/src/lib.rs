//! Core of a live hardware-telemetry dashboard: a bounded time-series store
//! for charted metrics, a snapshot model of the machine's state, millisecond
//! timers, the navigable screen state machine, and the refresh scheduler that
//! ties them together. Sampling the machine and drawing the screens are left
//! to the surrounding application; this crate holds the logic with invariants.

pub mod fifo;
pub mod kind;
pub mod sched;
pub mod screen;
pub mod series;
pub mod snapshot;
pub mod store;
pub mod timer;
