//! The interface between the harness and the code it measures.
//!
//! A workload is a pairing of a `setup` operation that produces fresh
//! per-pass state and an `iterate` operation that mutates that state once and
//! says whether the workload can continue. Early termination lets a workload
//! stop once it has exhausted its input (for instance, once every page of a
//! file has been visited) instead of looping forever over warm data.

use vstd::prelude::*;

verus! {

/// One unit of measurable work.
///
/// The two spec functions give the harness a mathematical handle on a
/// workload: `count` says how many `iterate` calls a state value has
/// absorbed since `setup`, and `stops_at` says which call (1-based) signals
/// exhaustion. The harness promises in `iterate`'s precondition that it
/// never keeps calling a workload that has already signalled a stop.
pub trait Workload {
    type State;

    /// How many iterations the given state has absorbed since `setup`.
    /// The default says nothing useful; every workload the library
    /// verifies against overrides it.
    open spec fn count(&self, s: Self::State) -> nat {
        0
    }

    /// Whether the n-th call (1-based) of `iterate` signals "stop".
    /// The default says nothing useful; every workload the library
    /// verifies against overrides it.
    open spec fn stops_at(&self, n: nat) -> bool {
        false
    }

    /// Produce fresh state for one pass. May allocate buffers, open files,
    /// or generate randomized data; the harness never reuses state across
    /// the warmup and measurement passes.
    fn setup(&self) -> (s: Self::State)
        ensures
            self.count(s) == 0,
    ;

    /// Run the workload once. Returns whether the harness may keep going.
    fn iterate(&self, s: &mut Self::State) -> (cont: bool)
        requires
            forall|m: nat| 1 <= m <= self.count(*old(s)) ==> !self.stops_at(m),
        ensures
            self.count(*final(s)) == self.count(*old(s)) + 1,
            cont == !self.stops_at(self.count(*old(s)) + 1),
    ;
}

/// No call up to the n-th (inclusive) signals a stop.
pub open spec fn no_stop_through<W: Workload>(w: W, n: nat) -> bool {
    forall|m: nat| 1 <= m <= n ==> !w.stops_at(m)
}

/// A synthetic workload whose iteration does nothing and never stops;
/// useful for exercising the harness itself.
pub struct NoopWorkload;

/// State of [`NoopWorkload`]: nothing at run time, only a ghost call count.
pub struct NoopState {
    pub calls: Ghost<nat>,
}

impl Workload for NoopWorkload {
    type State = NoopState;

    open spec fn count(&self, s: NoopState) -> nat {
        s.calls@
    }

    open spec fn stops_at(&self, n: nat) -> bool {
        false
    }

    fn setup(&self) -> (s: NoopState) {
        NoopState { calls: Ghost(0) }
    }

    fn iterate(&self, s: &mut NoopState) -> (cont: bool) {
        s.calls = Ghost(s.calls@ + 1);
        true
    }
}

/// A synthetic workload that signals "stop" on exactly its `limit`-th call;
/// with `limit == 0` the very first call already signals a stop.
pub struct StopAfter {
    pub limit: u64,
}

/// State of [`StopAfter`]: the number of calls made so far.
pub struct StopAfterState {
    pub calls: u64,
}

impl Workload for StopAfter {
    type State = StopAfterState;

    open spec fn count(&self, s: StopAfterState) -> nat {
        s.calls as nat
    }

    open spec fn stops_at(&self, n: nat) -> bool {
        n >= self.limit
    }

    fn setup(&self) -> (s: StopAfterState) {
        StopAfterState { calls: 0 }
    }

    fn iterate(&self, s: &mut StopAfterState) -> (cont: bool) {
        proof {
            if s.calls >= 1 {
                assert(!self.stops_at(s.calls as nat));
            }
        }
        s.calls = s.calls + 1;
        s.calls < self.limit
    }
}

} // verus!
