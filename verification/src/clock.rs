//! Time sources for the harness.
//!
//! The measurement loop only ever asks one question of a clock: how many
//! nanoseconds have passed since the clock was started. Putting that
//! question behind a trait keeps the loop itself fully verified: the real
//! stopwatch promises only monotonicity, while the simulated clock advances
//! by an exact, known amount per reading, which pins the loop's behaviour
//! down completely in its contracts.

use vstd::prelude::*;

verus! {

/// A monotonic source of elapsed nanoseconds.
pub trait Clock {
    /// The last reading handed out (0 before the first reading).
    spec fn last(&self) -> u64;

    /// An upper bound on how far one reading may run ahead of the previous
    /// one. A real clock offers no bound and answers `u64::MAX`.
    spec fn max_step(&self) -> u64;

    /// Whether every reading advances by exactly `max_step`
    /// (up to saturation at `u64::MAX`).
    spec fn exact(&self) -> bool;

    /// Nanoseconds elapsed since the clock was started.
    fn elapsed_ns(&mut self) -> (r: u64)
        ensures
            final(self).last() == r,
            final(self).max_step() == old(self).max_step(),
            final(self).exact() == old(self).exact(),
            old(self).last() <= r,
            r as int <= old(self).last() + old(self).max_step(),
            old(self).exact() ==> r as int == (if old(self).last() + old(self).max_step()
                <= u64::MAX { old(self).last() + old(self).max_step() } else { u64::MAX as int }),
    ;
}

/// A deterministic clock that advances by a fixed number of nanoseconds per
/// reading. One reading per batch makes `step` the modelled wall-clock cost
/// of one batch of iterations.
pub struct SimClock {
    pub now: u64,
    pub step: u64,
}

impl SimClock {
    /// A simulated clock at zero elapsed time.
    pub fn new(step: u64) -> (c: SimClock)
        ensures
            c.last() == 0,
            c.max_step() == step,
            c.exact(),
    {
        SimClock { now: 0, step }
    }
}

impl Clock for SimClock {
    open spec fn last(&self) -> u64 {
        self.now
    }

    open spec fn max_step(&self) -> u64 {
        self.step
    }

    open spec fn exact(&self) -> bool {
        true
    }

    fn elapsed_ns(&mut self) -> (r: u64) {
        self.now = self.now.saturating_add(self.step);
        self.now
    }
}

/// Declares `std::time::Instant` so that a stopwatch can hold one; the
/// value itself stays opaque, and only the trusted methods below say
/// anything about it.
#[verifier::external_type_specification]
#[verifier::external_body]
pub struct ExInstant(std::time::Instant);

/// The real stopwatch: a wall-clock time source for actual benchmark runs.
///
/// `last_read` is a ghost record of the most recent reading; the contracts
/// on the trusted methods below tie it to what `std::time::Instant` returns.
pub struct MonotonicClock {
    start: std::time::Instant,
    last_read: Ghost<u64>,
}

impl MonotonicClock {
    /// A stopwatch started now.
    ///
    /// Relies on `std::time::Instant::now`: a freshly taken instant has no
    /// elapsed time yet, so the clock starts from a zero reading.
    #[verifier::external_body]
    pub fn new() -> (c: MonotonicClock)
        ensures
            c.last() == 0,
            c.max_step() == u64::MAX,
            !c.exact(),
    {
        MonotonicClock { start: std::time::Instant::now(), last_read: Ghost(0) }
    }

    /// Relies on `std::time::Instant::elapsed`, which is documented to be
    /// monotonically nondecreasing across calls on one instant; readings
    /// beyond `u64::MAX` nanoseconds (centuries) saturate.
    #[verifier::external_body]
    fn read_elapsed(&mut self) -> (r: u64)
        ensures
            final(self).last_read@ == r,
            old(self).last_read@ <= r,
    {
        let ns = self.start.elapsed().as_nanos();
        u64::try_from(ns).unwrap_or(u64::MAX)
    }
}

impl Clock for MonotonicClock {
    closed spec fn last(&self) -> u64 {
        self.last_read@
    }

    open spec fn max_step(&self) -> u64 {
        u64::MAX
    }

    open spec fn exact(&self) -> bool {
        false
    }

    fn elapsed_ns(&mut self) -> (r: u64) {
        self.read_elapsed()
    }
}

} // verus!
