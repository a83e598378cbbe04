//! Behavioural tests of the calibration and measurement passes, run on
//! simulated and real clocks.

use napkin_math::clock::{MonotonicClock, SimClock};
use napkin_math::cycles::{CycleCounter, NoCycleCounter, SimCycleCounter};
use napkin_math::harness::{calibrate, measure, BATCH_MAX, ITER_CAP};
use napkin_math::workload::{NoopWorkload, StopAfter, Workload};

/// A test workload implemented outside the library, as an embedding
/// program would write one: counts its calls and never stops.
struct CountingWorkload;

impl Workload for CountingWorkload {
    type State = u64;

    fn setup(&self) -> u64 {
        0
    }

    fn iterate(&self, s: &mut u64) -> bool {
        *s = s.wrapping_add(1);
        true
    }
}

/// A cycle source implemented outside the library, stepping by a fixed
/// amount per reading.
struct SteppingCycles {
    next: u64,
    step: u64,
}

impl CycleCounter for SteppingCycles {
    fn read(&mut self) -> Option<u64> {
        let v = self.next;
        self.next = self.next.wrapping_add(self.step);
        Some(v)
    }
}

#[test]
fn cycle_delta_spans_the_pass() {
    // The counter is read once at the start and once at the end of the
    // pass, so the reported delta is exactly one step.
    let w = NoopWorkload;
    let mut clock = SimClock::new(1000);
    let mut counter = SteppingCycles { next: 12_345, step: 250 };
    let r = measure(&w, &mut clock, &mut counter, 10, 10_000);
    assert_eq!(r.cycles, 250);
}

#[test]
fn cycle_delta_from_library_sim_counter() {
    let w = NoopWorkload;
    let mut clock = SimClock::new(1000);
    let mut counter = SimCycleCounter::new(5_000, 321);
    let r = measure(&w, &mut clock, &mut counter, 10, 10_000);
    assert_eq!(r.cycles, 321);
}

#[test]
fn duration_reaches_budget_on_sim_clock() {
    let w = NoopWorkload;
    let mut clock = SimClock::new(700);
    let mut counter = NoCycleCounter;
    let r = measure(&w, &mut clock, &mut counter, 10, 10_000);
    assert!(r.duration_ns >= 10_000);
    assert!(r.duration_ns <= 10_000 + 700);
}

#[test]
fn duration_reaches_budget_on_real_clock() {
    let w = NoopWorkload;
    let mut clock = MonotonicClock::new();
    let mut counter = NoCycleCounter;
    let r = measure(&w, &mut clock, &mut counter, 1000, 30_000_000);
    assert!(r.duration_ns >= 30_000_000);
    assert!(r.iterations > 0);
    assert_eq!(r.cycles, 0);
}

#[test]
fn iteration_count_exact_on_sim_clock() {
    // One reading per batch of 1000 iterations at 1000 ns each: the clock
    // advances 1_000_000 ns per check over a 1_000_000_000 ns budget.
    let w = NoopWorkload;
    let mut clock = SimClock::new(1_000_000);
    let mut counter = NoCycleCounter;
    let r = measure(&w, &mut clock, &mut counter, 1000, 1_000_000_000);
    assert_eq!(r.iterations, 1_000_000);
    assert_eq!(r.duration_ns, 1_000_000_000);
    // Within one batch of the idealized elapsed_ms * iterations_per_ms
    // (here the count matches the idealized figure exactly).
    let idealized: u64 = 1000 * 1000;
    assert!(idealized - r.iterations <= 1000);
}

#[test]
fn early_stop_truncates_with_small_batch() {
    let w = StopAfter { limit: 7 };
    let mut clock = SimClock::new(1000);
    let mut counter = NoCycleCounter;
    let r = measure(&w, &mut clock, &mut counter, 3, 1_000_000);
    assert_eq!(r.iterations, 7);
}

#[test]
fn early_stop_truncates_with_large_batch() {
    let w = StopAfter { limit: 7 };
    let mut clock = SimClock::new(1000);
    let mut counter = NoCycleCounter;
    let r = measure(&w, &mut clock, &mut counter, 100, 1_000_000);
    assert_eq!(r.iterations, 7);
}

#[test]
fn early_stop_truncates_with_exact_batch() {
    let w = StopAfter { limit: 7 };
    let mut clock = SimClock::new(1000);
    let mut counter = NoCycleCounter;
    let r = measure(&w, &mut clock, &mut counter, 7, 1_000_000);
    assert_eq!(r.iterations, 7);
}

#[test]
fn early_stop_on_real_clock() {
    let w = StopAfter { limit: 5 };
    let mut clock = MonotonicClock::new();
    let mut counter = NoCycleCounter;
    let r = measure(&w, &mut clock, &mut counter, 2, 5_000_000_000);
    assert_eq!(r.iterations, 5);
}

#[test]
fn stop_on_first_call_counts_one_iteration() {
    let w = StopAfter { limit: 0 };
    let mut clock = SimClock::new(1000);
    let mut counter = NoCycleCounter;
    let r = measure(&w, &mut clock, &mut counter, 50, 1_000_000);
    // The call that signalled the stop did execute, so it is counted.
    assert_eq!(r.iterations, 1);
}

#[test]
fn zero_budget_yields_zero_iterations() {
    let w = NoopWorkload;
    let mut clock = SimClock::new(1000);
    let mut counter = NoCycleCounter;
    let r = measure(&w, &mut clock, &mut counter, 10, 0);
    assert_eq!(r.iterations, 0);
}

#[test]
fn batch_clamps_to_at_least_one() {
    // A calibration estimate of 0 must still measure.
    let w = NoopWorkload;
    let mut clock = SimClock::new(400);
    let mut counter = NoCycleCounter;
    let r = measure(&w, &mut clock, &mut counter, 0, 2_000);
    assert_eq!(r.iterations, 5);
    assert_eq!(r.duration_ns, 2_000);
}

#[test]
fn calibrate_estimate_of_zero_still_measures() {
    // A zero calibration window runs no batch and yields an estimate of
    // 0, which measure must tolerate.
    let w = NoopWorkload;
    let mut warm_clock = SimClock::new(200);
    let est = calibrate(&w, &mut warm_clock, 0);
    assert_eq!(est, 0);
    let mut clock = SimClock::new(400);
    let mut counter = NoCycleCounter;
    let r = measure(&w, &mut clock, &mut counter, est, 2_000);
    assert_eq!(r.iterations, 5);
}

#[test]
fn calibrate_doubles_batches() {
    // The window admits four batches, so 1, 2, 4 and 8 run: 15 in all.
    let w = NoopWorkload;
    let mut clock = SimClock::new(25_000_000);
    let est = calibrate(&w, &mut clock, 100_000_000);
    assert_eq!(est, 15);
}

#[test]
fn calibrate_truncates_on_stop() {
    let w = StopAfter { limit: 5 };
    let mut clock = SimClock::new(1000);
    let est = calibrate(&w, &mut clock, 1_000_000_000);
    assert_eq!(est, 5);
}

#[test]
fn calibrate_on_real_clock_feeds_measure() {
    let w = CountingWorkload;
    let mut warm_clock = MonotonicClock::new();
    let est = calibrate(&w, &mut warm_clock, 1_000_000);
    assert!(est >= 1);
    assert!(est < ITER_CAP);
    let mut clock = MonotonicClock::new();
    let mut counter = NoCycleCounter;
    let r = measure(&w, &mut clock, &mut counter, est.min(BATCH_MAX), 2_000_000);
    assert!(r.iterations >= 1);
    assert!(r.duration_ns >= 2_000_000);
}
