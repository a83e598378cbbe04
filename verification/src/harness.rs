//! The measurement core: a calibration pass that sizes the inner batch, and
//! a timed measurement pass that counts iterations against a duration
//! budget.
//!
//! Both passes run the workload in batches between elapsed-time checks, so
//! that the cost of reading the clock does not dominate very cheap
//! workloads. A batch is truncated the moment the workload signals a stop:
//! only iterations that actually executed are ever counted. Each pass takes
//! a baseline clock reading once the workload's `setup` has returned and
//! measures elapsed time relative to it, so setup cost (which may be large:
//! allocating buffers, writing multi-gigabyte files) is never counted
//! against the window or the budget, nor folded into the reported
//! duration.

use vstd::prelude::*;

use crate::clock::Clock;
use crate::cycles::CycleCounter;
use crate::workload::{no_stop_through, Workload};

verus! {

use vstd::arithmetic::power2::{pow2, lemma_pow2_unfold, lemma_pow2_strictly_increases,
    lemma2_to64};

/// Hard ceiling on counted iterations; a guard for the counters, far beyond
/// anything a timed run can reach.
pub const ITER_CAP: u64 = 0x4000_0000_0000_0000;

/// Hard ceiling on the number of iterations run between elapsed-time
/// checks.
pub const BATCH_MAX: u64 = 0x8000_0000;

/// Length of the calibration (warmup) window.
pub const DEFAULT_CALIBRATION_WINDOW_NS: u64 = 100_000_000;

/// Duration budget of the measurement pass.
pub const DEFAULT_MEASUREMENT_BUDGET_NS: u64 = 5_000_000_000;

/// What one measurement pass produced. Immutable once produced.
pub struct BenchmarkResult {
    /// Completed iterations; a batch that stopped early contributes only
    /// the iterations that actually ran.
    pub iterations: u64,
    /// Elapsed wall-clock nanoseconds of the measurement pass, measured
    /// from the baseline reading taken after `setup` returned.
    pub duration_ns: u64,
    /// Hardware cycle-counter delta over the pass, 0 where unavailable.
    pub cycles: u64,
}

/// The batch size actually used by the measurement loop: at least 1, at
/// most [`BATCH_MAX`].
pub open spec fn clamped_batch(batch: u64) -> u64 {
    if batch == 0 {
        1
    } else if batch > BATCH_MAX {
        BATCH_MAX
    } else {
        batch
    }
}

/// Full batches a loop on an exact clock of step `step` runs before the
/// relative elapsed time first reaches `budget_ns`: the baseline reading
/// sees zero elapsed, and every later reading closes one batch.
pub open spec fn exact_rounds(budget_ns: u64, step: u64) -> int
    recommends
        0 < step,
{
    if budget_ns == 0 {
        0
    } else {
        (budget_ns - 1) as int / step as int + 1
    }
}

/// A never-read exact clock whose step arithmetic cannot saturate within
/// the given budget: under these conditions the measurement loop's
/// behaviour is an exact function of the clock parameters.
pub open spec fn exact_regime<C: Clock>(c: C, budget_ns: u64) -> bool {
    &&& c.last() == 0
    &&& c.exact()
    &&& 0 < c.max_step()
    &&& budget_ns + 2 * c.max_step() <= u64::MAX
}

/// Iterations a calibration pass accumulates over `rounds` doubling
/// batches (1, 2, 4, ...): `2^rounds - 1`.
pub open spec fn calibration_total(rounds: int) -> int {
    pow2(rounds as nat) - 1
}

/// The calibration (warmup) pass.
///
/// Invokes `setup`, takes a baseline clock reading, then runs `w` in
/// doubling batches (1, 2, 4, ...) until the elapsed time since the
/// baseline reaches `window_ns` or the workload signals a stop, and
/// returns the cumulative iteration count observed, which the caller feeds
/// to [`measure`] as its batch size. A batch in which the workload stops
/// is truncated to the iterations that actually ran; nothing is ever
/// padded. Setup cost does not eat into the window.
///
/// The estimate may legitimately be 0 (a zero window, or a workload that
/// stops at once); [`measure`] clamps its batch size to at least 1.
#[verifier::loop_isolation(false)]
pub fn calibrate<W: Workload, C: Clock>(w: &W, clock: &mut C, window_ns: u64) -> (estimate:
    u64)
    ensures
        forall|m: nat| 1 <= m < estimate ==> !w.stops_at(m),
        w.stops_at(estimate as nat) || estimate >= ITER_CAP || final(clock).last() as int
            >= old(clock).last() + window_ns,
        final(clock).max_step() == old(clock).max_step(),
        final(clock).last() as int <= old(clock).last() + window_ns + 2 * old(
            clock,
        ).max_step(),
        (exact_regime(*old(clock), window_ns) && exact_rounds(window_ns, old(clock).max_step())
            <= 31 && no_stop_through(
            *w,
            calibration_total(exact_rounds(window_ns, old(clock).max_step())) as nat,
        )) ==> estimate as int == calibration_total(
            exact_rounds(window_ns, old(clock).max_step()),
        ),
{
    let ghost l0: u64 = old(clock).last();
    let ghost s: u64 = old(clock).max_step();
    let ghost is_exact: bool = old(clock).exact();
    let ghost regime: bool = exact_regime(*old(clock), window_ns);
    let ghost k_rounds: int = exact_rounds(window_ns, s);
    let ghost regime31: bool = regime && k_rounds <= 31;

    proof {
        lemma2_to64();
    }
    let mut batch: u64 = 1;
    let mut state = w.setup();
    let baseline = clock.elapsed_ns();
    let mut iterations: u64 = 0;
    let mut stopped = false;
    let mut elapsed: u64 = 0;
    let ghost mut rounds: int = 0;

    while elapsed < window_ns && !stopped && iterations < ITER_CAP
        invariant
            1 <= batch <= BATCH_MAX,
            clock.max_step() == s,
            clock.exact() == is_exact,
            l0 <= baseline,
            baseline as int <= l0 + s,
            baseline <= clock.last(),
            elapsed as int == clock.last() - baseline,
            elapsed as int <= window_ns + s,
            w.count(state) == iterations,
            iterations as int <= ITER_CAP - 1 + BATCH_MAX,
            !stopped ==> no_stop_through(*w, iterations as nat),
            stopped ==> 1 <= iterations && w.stops_at(iterations as nat) && no_stop_through(
                *w,
                (iterations - 1) as nat,
            ),
            0 <= rounds,
            regime ==> baseline == s && clock.last() == (rounds + 1) * s && elapsed == rounds
                * s,
            regime ==> (rounds == 0 || (rounds - 1) * s < window_ns),
            regime31 ==> rounds <= k_rounds && batch == pow2(rounds as nat)
                && iterations as int <= pow2(rounds as nat) - 1,
            (regime31 && !stopped) ==> iterations as int == pow2(rounds as nat) - 1,
        decreases ITER_CAP + BATCH_MAX - iterations,
    {
        let mut i: u64 = 0;
        let mut cont = true;
        while cont && i < batch
            invariant
                i <= batch,
                w.count(state) == iterations + i,
                cont ==> no_stop_through(*w, (iterations + i) as nat),
                !cont ==> 1 <= i && w.stops_at((iterations + i) as nat) && no_stop_through(
                    *w,
                    (iterations + i - 1) as nat,
                ),
            decreases batch - i,
        {
            cont = w.iterate(&mut state);
            i = i + 1;
        }
        stopped = !cont;
        proof {
            if regime {
                assert((rounds + 1) * s == rounds * s + s) by (nonlinear_arith);
                assert((rounds + 2) * s == (rounds + 1) * s + s) by (nonlinear_arith);
                if regime31 {
                    assert(window_ns > 0);
                    assert(rounds <= (window_ns - 1) as int / s as int) by (nonlinear_arith)
                        requires
                            0 < s,
                            0 <= rounds,
                            rounds * s < window_ns,
                            1 <= window_ns,
                    ;
                    assert(pow2((rounds + 1) as nat) == 2 * pow2(rounds as nat)) by {
                        lemma_pow2_unfold((rounds + 1) as nat);
                    }
                    assert(batch <= BATCH_MAX / 2) by {
                        if (rounds as nat) < 30 {
                            lemma_pow2_strictly_increases(rounds as nat, 30);
                        }
                        lemma2_to64();
                    }
                }
            }
        }
        iterations = iterations + i;
        batch = if batch > BATCH_MAX / 2 {
            BATCH_MAX
        } else {
            batch * 2
        };
        let raw = clock.elapsed_ns();
        elapsed = raw - baseline;
        proof {
            rounds = rounds + 1;
        }
    }
    proof {
        lemma_calibrate_exit(
            *w,
            window_ns,
            s,
            regime31,
            k_rounds,
            rounds,
            iterations,
            elapsed,
            stopped,
        );
    }
    iterations
}

/// The arithmetic at the calibration loop's exit: on an exact clock that
/// admits at most 31 full batches, the doubling schedule forces the
/// cumulative count to `2^rounds - 1` unless the workload stopped within
/// that prefix.
proof fn lemma_calibrate_exit<W: Workload>(
    w: W,
    window_ns: u64,
    s: u64,
    regime31: bool,
    k_rounds: int,
    rounds: int,
    iterations: u64,
    elapsed: u64,
    stopped: bool,
)
    requires
        0 <= rounds,
        !stopped ==> no_stop_through(w, iterations as nat),
        stopped ==> 1 <= iterations && w.stops_at(iterations as nat) && no_stop_through(
            w,
            (iterations - 1) as nat,
        ),
        regime31 ==> 0 < s && k_rounds == exact_rounds(window_ns, s) && k_rounds <= 31,
        regime31 ==> elapsed == rounds * s,
        regime31 ==> (rounds == 0 || (rounds - 1) * s < window_ns),
        regime31 ==> rounds <= k_rounds && iterations as int <= pow2(rounds as nat) - 1,
        (regime31 && !stopped) ==> iterations as int == pow2(rounds as nat) - 1,
        elapsed >= window_ns || stopped || iterations >= ITER_CAP,
    ensures
        (regime31 && no_stop_through(w, calibration_total(k_rounds) as nat))
            ==> iterations as int == calibration_total(k_rounds),
{
    if regime31 && no_stop_through(w, calibration_total(k_rounds) as nat) {
        assert(0 <= k_rounds);
        assert(pow2(rounds as nat) <= pow2(k_rounds as nat)) by {
            if rounds < k_rounds {
                lemma_pow2_strictly_increases(rounds as nat, k_rounds as nat);
            }
        }
        assert(pow2(k_rounds as nat) <= 0x8000_0000) by {
            if (k_rounds as nat) < 31 {
                lemma_pow2_strictly_increases(k_rounds as nat, 31);
            }
            lemma2_to64();
        }
        if stopped {
            assert(1 <= iterations as int <= calibration_total(k_rounds));
            assert(!w.stops_at(iterations as nat));
            assert(false);
        }
        if iterations >= ITER_CAP {
            assert(false);
        }
        assert(elapsed >= window_ns);
        if window_ns == 0 {
            assert(k_rounds == 0);
            assert(rounds == 0);
        } else {
            assert(rounds >= 1) by {
                if rounds == 0 {
                    assert(elapsed == 0);
                }
            }
            assert((window_ns - 1) as int / s as int <= rounds - 1) by (nonlinear_arith)
                requires
                    0 < s,
                    1 <= rounds,
                    rounds * s >= window_ns,
                    1 <= window_ns,
            ;
            assert(rounds >= k_rounds);
        }
        assert(rounds == k_rounds);
    }
}

/// The measurement pass.
///
/// Invokes `setup`, reads the cycle counter, takes a baseline clock
/// reading, then runs `w` in batches of (clamped) `batch` iterations until
/// the elapsed time since the baseline reaches `budget_ns` or the workload
/// signals a stop, whichever comes first, and reports the iterations that
/// actually ran, the elapsed time, and the cycle-counter delta (0 where
/// unsupported). The baseline is taken once `setup` has returned, so setup
/// cost is not counted against the budget or the reported duration.
///
/// The contract carries the harness's laws:
/// - truncation: no counted prefix ever runs past a stop signal, and a
///   stop observed mid-batch truncates that batch exactly;
/// - the pass only ends at a stop signal, the iteration ceiling, or after
///   the duration budget has elapsed, so the reported duration reaches at
///   least the budget otherwise;
/// - the reported duration is time the clock itself showed passing during
///   the pass, and overshoots the budget by at most one inter-check step
///   (one batch's wall-clock cost — an informative bound for clocks with a
///   finite `max_step`);
/// - on an exact clock the iteration count and duration are pinned down
///   exactly, both for free-running workloads and for workloads that stop;
/// - the cycle figure is the delta between the one reading taken before
///   the pass and the one taken after it (0 on a wrapped pair), and 0
///   where no counter is available.
#[verifier::loop_isolation(false)]
pub fn measure<W: Workload, C: Clock, Y: CycleCounter>(
    w: &W,
    clock: &mut C,
    counter: &mut Y,
    batch: u64,
    budget_ns: u64,
) -> (r: BenchmarkResult)
    ensures
        forall|m: nat| 1 <= m < r.iterations ==> !w.stops_at(m),
        w.stops_at(r.iterations as nat) || r.iterations >= ITER_CAP || r.duration_ns
            >= budget_ns,
        r.duration_ns as int <= final(clock).last() - old(clock).last(),
        final(clock).last() as int - old(clock).last() - old(clock).max_step()
            <= r.duration_ns as int,
        r.duration_ns as int <= budget_ns + old(clock).max_step(),
        !old(counter).supported() ==> r.cycles == 0,
        old(counter).supported() ==> ({
            let t = final(counter).taken();
            &&& t.len() == old(counter).taken().len() + 2
            &&& t.subrange(0, t.len() - 2) == old(counter).taken()
            &&& r.cycles == cycle_delta(t[t.len() - 2], t[t.len() - 1])
        }),
        (exact_regime(*old(clock), budget_ns) && no_stop_through(
            *w,
            (clamped_batch(batch) * exact_rounds(budget_ns, old(clock).max_step())) as nat,
        ) && clamped_batch(batch) * exact_rounds(budget_ns, old(clock).max_step())
            < ITER_CAP) ==> {
            &&& r.iterations == clamped_batch(batch) * exact_rounds(
                budget_ns,
                old(clock).max_step(),
            )
            &&& r.duration_ns == exact_rounds(budget_ns, old(clock).max_step()) * old(
                clock,
            ).max_step()
        },
        forall|n: nat|
            (exact_regime(*old(clock), budget_ns) && 1 <= n <= ITER_CAP
                && #[trigger] w.stops_at(n) && no_stop_through(*w, (n - 1) as nat) && ((n
                - 1) as int / clamped_batch(batch) as int) * old(clock).max_step()
                < budget_ns) ==> r.iterations == n,
{
    let b: u64 = if batch == 0 {
        1
    } else if batch > BATCH_MAX {
        BATCH_MAX
    } else {
        batch
    };
    let ghost l0: u64 = old(clock).last();
    let ghost s: u64 = old(clock).max_step();
    let ghost is_exact: bool = old(clock).exact();
    let ghost regime: bool = exact_regime(*old(clock), budget_ns);
    let ghost k_rounds: int = exact_rounds(budget_ns, s);

    let mut state = w.setup();
    let cycles_start = counter.read();
    let baseline = clock.elapsed_ns();
    let mut iterations: u64 = 0;
    let mut stopped = false;
    let mut elapsed: u64 = 0;
    let ghost mut rounds: int = 0;

    while elapsed < budget_ns && !stopped && iterations < ITER_CAP
        invariant
            b == clamped_batch(batch),
            1 <= b <= BATCH_MAX,
            clock.max_step() == s,
            clock.exact() == is_exact,
            l0 <= baseline,
            baseline as int <= l0 + s,
            baseline <= clock.last(),
            elapsed as int == clock.last() - baseline,
            elapsed as int <= budget_ns + s,
            w.count(state) == iterations,
            iterations as int <= ITER_CAP - 1 + b,
            !stopped ==> no_stop_through(*w, iterations as nat),
            stopped ==> 1 <= iterations && w.stops_at(iterations as nat) && no_stop_through(
                *w,
                (iterations - 1) as nat,
            ),
            0 <= rounds,
            regime ==> baseline == s && clock.last() == (rounds + 1) * s && elapsed == rounds
                * s,
            regime ==> (rounds == 0 || (rounds - 1) * s < budget_ns),
            regime ==> iterations as int <= rounds * b,
            (regime && !stopped) ==> iterations as int == rounds * b,
        decreases ITER_CAP + BATCH_MAX - iterations,
    {
        let mut i: u64 = 0;
        let mut cont = true;
        while cont && i < b
            invariant
                i <= b,
                w.count(state) == iterations + i,
                cont ==> no_stop_through(*w, (iterations + i) as nat),
                !cont ==> 1 <= i && w.stops_at((iterations + i) as nat) && no_stop_through(
                    *w,
                    (iterations + i - 1) as nat,
                ),
            decreases b - i,
        {
            cont = w.iterate(&mut state);
            i = i + 1;
        }
        stopped = !cont;
        proof {
            if regime {
                assert((rounds + 1) * b == rounds * b + b) by (nonlinear_arith);
                assert((rounds + 1) * s == rounds * s + s) by (nonlinear_arith);
                assert((rounds + 2) * s == (rounds + 1) * s + s) by (nonlinear_arith);
            }
        }
        iterations = iterations + i;
        let raw = clock.elapsed_ns();
        elapsed = raw - baseline;
        proof {
            rounds = rounds + 1;
        }
    }
    let duration_ns = elapsed;
    let cycles_end = counter.read();
    let cycles: u64 = match (cycles_start, cycles_end) {
        (Some(a), Some(z)) => if z >= a {
            z - a
        } else {
            0
        },
        _ => 0,
    };
    proof {
        if old(counter).supported() {
            let first = cycles_start.unwrap();
            let second = cycles_end.unwrap();
            let t0 = old(counter).taken();
            assert(counter.taken() =~= t0.push(first).push(second));
            assert(counter.taken().subrange(0, t0.len() as int) =~= t0);
            assert(counter.taken()[t0.len() as int] == first);
            assert(counter.taken()[t0.len() as int + 1] == second);
        }
        lemma_measure_exit(
            *w,
            b,
            budget_ns,
            s,
            regime,
            k_rounds,
            rounds,
            iterations,
            elapsed,
            stopped,
        );
    }
    BenchmarkResult { iterations, duration_ns, cycles }
}

/// The delta the harness reports between a first and second counter
/// reading: a wrapped (decreasing) pair degrades to 0 rather than failing.
pub open spec fn cycle_delta(first: u64, second: u64) -> u64 {
    if second >= first {
        (second - first) as u64
    } else {
        0
    }
}

/// Iteration-counting exactness: when a measurement runs on an exact clock
/// whose step is the wall-clock cost of one whole batch (so one iteration
/// costs `s / b`), the counted iterations equal the idealized figure
/// `duration / cost-per-iteration` exactly — comfortably within the
/// one-batch margin the harness allows. The hypotheses are what
/// [`measure`]'s contract yields for a free-running workload in the exact
/// regime.
pub proof fn lemma_iteration_margin(b: u64, k: int, s: u64, iterations: u64, duration_ns: u64)
    requires
        1 <= b,
        0 < s,
        0 <= k,
        iterations as int == b * k,
        duration_ns as int == k * s,
    ensures
        iterations as int == duration_ns as int * b / s as int,
{
    assert(duration_ns as int * b == s as int * (k * b)) by (nonlinear_arith)
        requires
            duration_ns as int == k * s,
    ;
    vstd::arithmetic::div_mod::lemma_div_multiples_vanish(k * b, s as int);
    assert(b * k == k * b) by (nonlinear_arith);
}

/// The arithmetic at the measurement loop's exit: with an exact clock the
/// number of completed rounds, and hence the iteration count and the final
/// elapsed time, are forced by the clock parameters alone.
proof fn lemma_measure_exit<W: Workload>(
    w: W,
    b: u64,
    budget_ns: u64,
    s: u64,
    regime: bool,
    k_rounds: int,
    rounds: int,
    iterations: u64,
    elapsed: u64,
    stopped: bool,
)
    requires
        1 <= b <= BATCH_MAX,
        0 <= rounds,
        !stopped ==> no_stop_through(w, iterations as nat),
        stopped ==> 1 <= iterations && w.stops_at(iterations as nat) && no_stop_through(
            w,
            (iterations - 1) as nat,
        ),
        regime ==> 0 < s && k_rounds == exact_rounds(budget_ns, s),
        regime ==> elapsed == rounds * s,
        regime ==> (rounds == 0 || (rounds - 1) * s < budget_ns),
        regime ==> iterations as int <= rounds * b,
        (regime && !stopped) ==> iterations as int == rounds * b,
        elapsed >= budget_ns || stopped || iterations >= ITER_CAP,
    ensures
        (regime && no_stop_through(w, (b * k_rounds) as nat) && b * k_rounds < ITER_CAP)
            ==> iterations == b * k_rounds && elapsed == k_rounds * s,
        forall|n: nat|
            (regime && 1 <= n <= ITER_CAP && #[trigger] w.stops_at(n) && no_stop_through(
                w,
                (n - 1) as nat,
            ) && ((n - 1) as int / b as int) * s < budget_ns) ==> iterations == n,
{
    if regime {
        assert(0 <= k_rounds);
        assert(rounds <= k_rounds) by {
            if rounds > 0 {
                assert((rounds - 1) * s < budget_ns);
                if budget_ns == 0 {
                    assert(false) by (nonlinear_arith)
                        requires
                            0 < s,
                            1 <= rounds,
                            (rounds - 1) * s < 0,
                    ;
                }
                assert(rounds - 1 <= (budget_ns - 1) as int / s as int) by (nonlinear_arith)
                    requires
                        0 < s,
                        1 <= rounds,
                        (rounds - 1) * s < budget_ns,
                        1 <= budget_ns,
                ;
            }
        }
        assert(rounds * b <= k_rounds * b) by (nonlinear_arith)
            requires
                rounds <= k_rounds,
                0 < b,
        ;
        assert(k_rounds * b == b * k_rounds) by (nonlinear_arith);
        // First conclusion: the free-running case.
        if no_stop_through(w, (b * k_rounds) as nat) && b * k_rounds < ITER_CAP {
            if stopped {
                assert(1 <= iterations <= rounds * b <= b * k_rounds) by (nonlinear_arith)
                    requires
                        iterations as int <= rounds * b,
                        rounds * b <= k_rounds * b,
                        k_rounds * b == b * k_rounds,
                        1 <= iterations,
                ;
                assert(!w.stops_at(iterations as nat));
                assert(false);
            }
            assert(iterations as int == rounds * b);
            if iterations >= ITER_CAP {
                assert(false);
            }
            // Time exit: pin rounds to k_rounds.
            assert(elapsed >= budget_ns);
            if budget_ns == 0 {
                assert(k_rounds == 0);
                assert(rounds == 0) by {
                    if rounds > 0 {
                        assert((rounds - 1) * s < 0);
                        assert(false) by (nonlinear_arith)
                            requires
                                0 < s,
                                0 < rounds,
                                (rounds - 1) * s < 0,
                        ;
                    }
                }
            } else {
                assert(rounds >= 1) by {
                    if rounds == 0 {
                        assert(elapsed == 0);
                    }
                }
                assert((budget_ns - 1) as int / s as int <= rounds - 1) by (nonlinear_arith)
                    requires
                        0 < s,
                        1 <= rounds,
                        rounds * s >= budget_ns,
                        1 <= budget_ns,
                ;
                assert(rounds >= k_rounds);
            }
            assert(rounds == k_rounds);
            assert(iterations as int == b * k_rounds) by (nonlinear_arith)
                requires
                    iterations as int == rounds * b,
                    rounds == k_rounds,
            ;
            assert(elapsed == k_rounds * s);
        }
        // Second conclusion: the early-stop case.
        assert forall|n: nat|
            (regime && 1 <= n <= ITER_CAP && #[trigger] w.stops_at(n) && no_stop_through(
                w,
                (n - 1) as nat,
            ) && ((n - 1) as int / b as int) * s < budget_ns) implies iterations == n by {
            if stopped {
                if iterations < n {
                    assert(1 <= iterations <= n - 1);
                    assert(!w.stops_at(iterations as nat));
                    assert(false);
                }
                if n < iterations {
                    assert(1 <= n <= iterations - 1);
                    assert(!w.stops_at(n));
                    assert(false);
                }
            } else {
                // Without a stop signal the counted prefix is stop-free, so
                // it lies strictly below n.
                assert(iterations < n) by {
                    if iterations >= n {
                        assert(!w.stops_at(n));
                        assert(false);
                    }
                }
                if iterations >= ITER_CAP {
                    assert(false);
                }
                assert(elapsed >= budget_ns);
                assert(rounds <= (n - 1) as int / b as int) by (nonlinear_arith)
                    requires
                        0 < b,
                        0 <= rounds,
                        rounds * b <= (n - 1) as int,
                ;
                assert(rounds * s <= ((n - 1) as int / b as int) * s) by (nonlinear_arith)
                    requires
                        rounds <= (n - 1) as int / b as int,
                        0 <= s,
                ;
                assert(false);
            }
        }
    }
}

} // verus!
