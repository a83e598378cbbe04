//! Optional hardware cycle counting.
//!
//! Cycle counters are an auxiliary diagnostic: a host either exposes one
//! (for instance through an architecture-specific timestamp register, which
//! an embedding program can supply) or it does not, in which case the
//! harness reports a cycle delta of zero rather than failing the run.

use vstd::prelude::*;

verus! {

/// A source of cycle-counter readings, or `None` where the host offers none.
///
/// `taken` records the readings a source has handed out, most recent last;
/// it gives callers a handle on the individual readings, so that the
/// harness can promise exactly which two of them its reported delta spans.
pub trait CycleCounter {
    /// Whether this source can produce readings at all. The default says
    /// nothing useful; every counter the library verifies against
    /// overrides it.
    open spec fn supported(&self) -> bool {
        false
    }

    /// The readings handed out so far, most recent last. The default says
    /// nothing useful; every counter the library verifies against
    /// overrides it.
    open spec fn taken(&self) -> Seq<u64> {
        Seq::empty()
    }

    /// One reading; `None` exactly on unsupported hosts.
    fn read(&mut self) -> (r: Option<u64>)
        ensures
            final(self).supported() == old(self).supported(),
            r is Some <==> old(self).supported(),
            r matches Some(v) ==> final(self).taken() == old(self).taken().push(v),
            r is None ==> final(self).taken() == old(self).taken(),
    ;
}

/// The fallback for hosts without an accessible cycle counter.
pub struct NoCycleCounter;

impl CycleCounter for NoCycleCounter {
    open spec fn supported(&self) -> bool {
        false
    }

    open spec fn taken(&self) -> Seq<u64> {
        Seq::empty()
    }

    fn read(&mut self) -> (r: Option<u64>) {
        None
    }
}

/// A deterministic counter that advances by a fixed number of cycles per
/// reading; a stand-in for hardware on hosts under test.
pub struct SimCycleCounter {
    pub next: u64,
    pub step: u64,
    readings: Ghost<Seq<u64>>,
}

impl SimCycleCounter {
    /// A simulated counter whose first reading will be `start`.
    pub fn new(start: u64, step: u64) -> (c: SimCycleCounter)
        ensures
            c.supported(),
            c.taken() == Seq::<u64>::empty(),
    {
        SimCycleCounter { next: start, step, readings: Ghost(Seq::empty()) }
    }
}

impl CycleCounter for SimCycleCounter {
    open spec fn supported(&self) -> bool {
        true
    }

    closed spec fn taken(&self) -> Seq<u64> {
        self.readings@
    }

    fn read(&mut self) -> (r: Option<u64>) {
        let v = self.next;
        self.next = self.next.saturating_add(self.step);
        self.readings = Ghost(self.readings@.push(v));
        Some(v)
    }
}

} // verus!
