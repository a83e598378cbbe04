//! A micro-benchmark harness: a self-calibrating timing loop that warms a
//! workload up, runs it for a fixed duration budget, and derives throughput
//! and latency figures from the counted iterations.
//!
//! - [`workload`] defines the interface a measurable workload implements:
//!   a `setup` operation producing per-pass state and an `iterate`
//!   operation that mutates it once and says whether to continue.
//! - [`clock`] and [`cycles`] are the harness's time and cycle-counter
//!   sources: a monotonic wall-clock stopwatch, a deterministic simulated
//!   clock, and an optional hardware cycle capability.
//! - [`harness`] holds the core: [`harness::calibrate`] sizes the
//!   measurement loop's inner batch from a short warmup window, and
//!   [`harness::measure`] runs the timed pass and counts exactly the
//!   iterations that executed.
//! - [`report`] and [`decimal`] derive the reported figures and render
//!   them, specified down to the character.

pub mod clock;
pub mod cycles;
pub mod decimal;
pub mod harness;
pub mod report;
pub mod workload;
