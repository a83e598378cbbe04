//! The reporter: derives throughput, latency and extrapolation figures
//! from a [`BenchmarkResult`] and renders them as one block of labeled
//! lines, specified down to the character.
//!
//! Unit choice for durations follows a fixed human-readability policy:
//! nanoseconds below 1000 ns, microseconds up to 5 ms, milliseconds up to
//! 3000 ms, seconds up to 120 s, minutes up to 3600 s, hours beyond.

use vstd::prelude::*;

use crate::decimal::{dec_spec, dec_u128, div_round_half_up, fixed2_spec, fixed2_u128,
    grouped_spec, grouped_u128};
use crate::harness::BenchmarkResult;

verus! {

/// Nanoseconds in one millisecond.
pub const NANOS_PER_MILLI: u64 = 1_000_000;

/// Bytes in one mebibyte.
pub const MIB_BYTES: u64 = 0x10_0000;

/// Bytes in one gibibyte.
pub const GIB_BYTES: u64 = 0x4000_0000;

/// Bytes in one tebibyte.
pub const TIB_BYTES: u64 = 0x100_0000_0000;

/// The unit a duration is displayed in.
#[derive(Clone, Copy, Debug, PartialEq, Eq, Structural)]
pub enum TimeUnit {
    Nanoseconds,
    Microseconds,
    Milliseconds,
    Seconds,
    Minutes,
    Hours,
}

/// The display unit for a duration of `ns` nanoseconds: nanoseconds below
/// 1000 ns, microseconds up to 5 ms, milliseconds up to 3000 ms, seconds
/// up to 120 s, minutes up to 3600 s, hours beyond.
pub open spec fn spec_time_unit(ns: int) -> TimeUnit {
    if ns < 1000 {
        TimeUnit::Nanoseconds
    } else if ns < 5_000_000 {
        TimeUnit::Microseconds
    } else if ns < 3_000_000_000 {
        TimeUnit::Milliseconds
    } else if ns <= 120_000_000_000 {
        TimeUnit::Seconds
    } else if ns <= 3_600_000_000_000 {
        TimeUnit::Minutes
    } else {
        TimeUnit::Hours
    }
}

/// Pick the display unit for a duration.
pub fn time_unit_for(ns: u128) -> (u: TimeUnit)
    ensures
        u == spec_time_unit(ns as int),
{
    if ns < 1000 {
        TimeUnit::Nanoseconds
    } else if ns < 5_000_000 {
        TimeUnit::Microseconds
    } else if ns < 3_000_000_000 {
        TimeUnit::Milliseconds
    } else if ns <= 120_000_000_000 {
        TimeUnit::Seconds
    } else if ns <= 3_600_000_000_000 {
        TimeUnit::Minutes
    } else {
        TimeUnit::Hours
    }
}

/// A duration rendered in its display unit: integral nanoseconds,
/// microseconds or milliseconds; seconds, minutes and hours with two
/// decimals, rounded to the nearest hundredth.
pub open spec fn spec_duration_text(ns: int) -> Seq<char> {
    match spec_time_unit(ns) {
        TimeUnit::Nanoseconds => dec_spec(ns) + " ns"@,
        TimeUnit::Microseconds => dec_spec(ns / 1000) + " μs"@,
        TimeUnit::Milliseconds => dec_spec(ns / 1_000_000) + " ms"@,
        TimeUnit::Seconds => fixed2_spec((ns + 5_000_000) / 10_000_000) + " s"@,
        TimeUnit::Minutes => fixed2_spec((ns + 300_000_000) / 600_000_000) + " min"@,
        TimeUnit::Hours => fixed2_spec((ns + 18_000_000_000) / 36_000_000_000) + " hours"@,
    }
}

/// Render a duration of `ns` nanoseconds in its display unit.
pub fn get_appropriate_time_unit(ns: u128) -> (s: String)
    ensures
        s@ == spec_duration_text(ns as int),
{
    match time_unit_for(ns) {
        TimeUnit::Nanoseconds => {
            let mut s = dec_u128(ns);
            s.append(" ns");
            s
        },
        TimeUnit::Microseconds => {
            let mut s = dec_u128(ns / 1000);
            s.append(" μs");
            s
        },
        TimeUnit::Milliseconds => {
            let mut s = dec_u128(ns / 1_000_000);
            s.append(" ms");
            s
        },
        TimeUnit::Seconds => {
            let mut s = fixed2_u128(div_round_half_up(ns, 10_000_000));
            s.append(" s");
            s
        },
        TimeUnit::Minutes => {
            let mut s = fixed2_u128(div_round_half_up(ns, 600_000_000));
            s.append(" min");
            s
        },
        TimeUnit::Hours => {
            let mut s = fixed2_u128(div_round_half_up(ns, 36_000_000_000));
            s.append(" hours");
            s
        },
    }
}

/// What `byte_unit` displays for a byte count at zero decimals
/// ("64 B", "977 KiB"); a function of the byte count alone.
pub uninterp spec fn byte_label_of(bytes: u128) -> Seq<char>;

/// What `byte_unit` displays for a byte count at three decimals
/// ("976.562 KiB"); a function of the byte count alone.
pub uninterp spec fn byte_amount_of(bytes: u128) -> Seq<char>;

/// Relies on `byte_unit::Byte::get_appropriate_unit(true)` and
/// `AdjustedByte::format(0)`: a deterministic binary-unit rendering of the
/// byte count, with no fractional digits.
#[verifier::external_body]
pub fn format_byte_label(bytes: u128) -> (s: String)
    ensures
        s@ == byte_label_of(bytes),
{
    byte_unit::Byte::from_bytes(bytes).get_appropriate_unit(true).format(0)
}

/// Relies on `byte_unit::Byte::get_appropriate_unit(true)` and
/// `AdjustedByte::format(3)`: a deterministic binary-unit rendering of the
/// byte count, with three fractional digits.
#[verifier::external_body]
pub fn format_byte_amount(bytes: u128) -> (s: String)
    ensures
        s@ == byte_amount_of(bytes),
{
    byte_unit::Byte::from_bytes(bytes).get_appropriate_unit(true).format(3)
}

/// Why a report could not be produced.
#[derive(Clone, Copy, Debug, PartialEq, Eq, Structural)]
pub enum ReportError {
    /// The pass completed no iterations, so no per-iteration figure
    /// exists; a configuration error, not a crash.
    NoIterations,
    /// The pass lasted under a millisecond, so no per-millisecond rate
    /// exists.
    NoDuration,
}

/// The `[name]` or `[name <64 B>]` prefix of every report line.
pub open spec fn spec_tag(name: Seq<char>, bytes_per_iteration: u64) -> Seq<char> {
    if bytes_per_iteration > 0 {
        "["@ + name + " <"@ + byte_label_of(bytes_per_iteration as u128) + ">] "@
    } else {
        "["@ + name + "] "@
    }
}

/// The two lines reporting the iteration count and the per-second rate.
pub open spec fn spec_count_lines(tag: Seq<char>, iterations: u64, duration_ns: u64) -> Seq<
    char,
>
    recommends
        duration_ns >= NANOS_PER_MILLI,
{
    let dms = duration_ns as int / NANOS_PER_MILLI as int;
    tag + "Iterations in "@ + dec_spec(dms) + " milliseconds, no overhead: "@ + grouped_spec(
        iterations as int,
    ) + "\n"@ + tag + "Iterations / second: "@ + grouped_spec(iterations as int * 1000 / dms)
        + "\n"@
}

/// The three byte-derived lines: bytes per iteration, total bytes,
/// throughput.
pub open spec fn spec_byte_lines(
    tag: Seq<char>,
    iterations: u64,
    duration_ns: u64,
    bytes_per_iteration: u64,
) -> Seq<char>
    recommends
        duration_ns >= NANOS_PER_MILLI,
        bytes_per_iteration > 0,
{
    let dms = duration_ns as int / NANOS_PER_MILLI as int;
    let total = bytes_per_iteration as int * iterations as int;
    let bps = total * 1000 / dms;
    tag + "Bytes handled per iteration: "@ + dec_spec(bytes_per_iteration as int) + " bytes\n"@
        + tag + "Total bytes processed: "@ + byte_amount_of(total as u128) + "\n"@ + tag
        + "Throughput: "@ + byte_amount_of(bps as u128) + "/s\n"@
}

/// The two per-iteration lines: average latency and average cycles.
pub open spec fn spec_latency_lines(
    tag: Seq<char>,
    iterations: u64,
    duration_ns: u64,
    cycles: u64,
) -> Seq<char>
    recommends
        iterations > 0,
{
    tag + "Avg single iteration: "@ + spec_duration_text(
        duration_ns as int / iterations as int,
    ) + "\n"@ + tag + "Avg single iteration cycles: "@ + fixed2_spec(
        (cycles as int * 100 + iterations as int / 2) / iterations as int,
    ) + "\n"@
}

/// The three extrapolated lines: time to process 1 MiB, 1 GiB, 1 TiB.
pub open spec fn spec_extrapolation_lines(
    tag: Seq<char>,
    iterations: u64,
    duration_ns: u64,
    bytes_per_iteration: u64,
) -> Seq<char>
    recommends
        iterations > 0,
        bytes_per_iteration > 0,
{
    let denom = bytes_per_iteration as int * iterations as int;
    tag + "Time to process 1 MiB: "@ + spec_duration_text(
        duration_ns as int * MIB_BYTES as int / denom,
    ) + "\n"@ + tag + "Time to process 1 GiB: "@ + spec_duration_text(
        duration_ns as int * GIB_BYTES as int / denom,
    ) + "\n"@ + tag + "Time to process 1 TiB: "@ + spec_duration_text(
        duration_ns as int * TIB_BYTES as int / denom,
    ) + "\n"@
}

/// The whole report: counts, byte figures where they exist, per-iteration
/// figures, extrapolations where byte figures exist. A workload with no
/// meaningful byte size (`bytes_per_iteration == 0`) gets no byte-derived
/// line at all.
pub open spec fn spec_report_text(
    name: Seq<char>,
    iterations: u64,
    duration_ns: u64,
    cycles: u64,
    bytes_per_iteration: u64,
) -> Seq<char>
    recommends
        iterations > 0,
        duration_ns >= NANOS_PER_MILLI,
{
    let tag = spec_tag(name, bytes_per_iteration);
    if bytes_per_iteration > 0 {
        spec_count_lines(tag, iterations, duration_ns) + spec_byte_lines(
            tag,
            iterations,
            duration_ns,
            bytes_per_iteration,
        ) + spec_latency_lines(tag, iterations, duration_ns, cycles) + spec_extrapolation_lines(
            tag,
            iterations,
            duration_ns,
            bytes_per_iteration,
        )
    } else {
        spec_count_lines(tag, iterations, duration_ns) + spec_latency_lines(
            tag,
            iterations,
            duration_ns,
            cycles,
        )
    }
}

/// Build the `[name]` or `[name <64 B>]` line prefix.
fn render_tag(name: &str, bytes_per_iteration: u64) -> (s: String)
    ensures
        s@ == spec_tag(name@, bytes_per_iteration),
{
    let mut s = "[".to_owned();
    s.append(name);
    if bytes_per_iteration > 0 {
        s.append(" <");
        let label = format_byte_label(bytes_per_iteration as u128);
        s.append(label.as_str());
        s.append(">] ");
    } else {
        s.append("] ");
    }
    s
}

/// Render the iteration-count and iterations-per-second lines.
fn render_count_lines(tag: &str, iterations: u64, duration_ns: u64) -> (s: String)
    requires
        duration_ns >= NANOS_PER_MILLI,
    ensures
        s@ == spec_count_lines(tag@, iterations, duration_ns),
{
    let dms: u64 = duration_ns / NANOS_PER_MILLI;
    let mut s = tag.to_owned();
    s.append("Iterations in ");
    let dms_text = dec_u128(dms as u128);
    s.append(dms_text.as_str());
    s.append(" milliseconds, no overhead: ");
    let count_text = grouped_u128(iterations as u128);
    s.append(count_text.as_str());
    s.append("\n");
    s.append(tag);
    s.append("Iterations / second: ");
    let ips: u128 = iterations as u128 * 1000 / (dms as u128);
    let ips_text = grouped_u128(ips);
    s.append(ips_text.as_str());
    s.append("\n");
    s
}

/// Render the three byte-derived lines.
fn render_byte_lines(tag: &str, iterations: u64, duration_ns: u64, bytes_per_iteration: u64) -> (s:
    String)
    requires
        duration_ns >= NANOS_PER_MILLI,
        bytes_per_iteration > 0,
        bytes_per_iteration as int * iterations as int <= u128::MAX as int / 1000,
    ensures
        s@ == spec_byte_lines(tag@, iterations, duration_ns, bytes_per_iteration),
{
    let dms: u64 = duration_ns / NANOS_PER_MILLI;
    let total: u128 = bytes_per_iteration as u128 * iterations as u128;
    let bps: u128 = total * 1000 / (dms as u128);
    let mut s = tag.to_owned();
    s.append("Bytes handled per iteration: ");
    let bpi_text = dec_u128(bytes_per_iteration as u128);
    s.append(bpi_text.as_str());
    s.append(" bytes\n");
    s.append(tag);
    s.append("Total bytes processed: ");
    let total_text = format_byte_amount(total);
    s.append(total_text.as_str());
    s.append("\n");
    s.append(tag);
    s.append("Throughput: ");
    let bps_text = format_byte_amount(bps);
    s.append(bps_text.as_str());
    s.append("/s\n");
    s
}

/// Render the average-latency and average-cycles lines.
fn render_latency_lines(tag: &str, iterations: u64, duration_ns: u64, cycles: u64) -> (s: String)
    requires
        iterations > 0,
    ensures
        s@ == spec_latency_lines(tag@, iterations, duration_ns, cycles),
{
    let latency: u64 = duration_ns / iterations;
    let mut s = tag.to_owned();
    s.append("Avg single iteration: ");
    let latency_text = get_appropriate_time_unit(latency as u128);
    s.append(latency_text.as_str());
    s.append("\n");
    s.append(tag);
    s.append("Avg single iteration cycles: ");
    let cyc100: u128 = div_round_half_up(cycles as u128 * 100, iterations as u128);
    let cycles_text = fixed2_u128(cyc100);
    s.append(cycles_text.as_str());
    s.append("\n");
    s
}

/// Render the three extrapolated time-to-process lines.
fn render_extrapolation_lines(
    tag: &str,
    iterations: u64,
    duration_ns: u64,
    bytes_per_iteration: u64,
) -> (s: String)
    requires
        iterations > 0,
        bytes_per_iteration > 0,
        bytes_per_iteration as int * iterations as int <= u128::MAX as int / 1000,
    ensures
        s@ == spec_extrapolation_lines(tag@, iterations, duration_ns, bytes_per_iteration),
{
    proof {
        assert(bytes_per_iteration as int * iterations as int >= 1) by (nonlinear_arith)
            requires
                bytes_per_iteration >= 1,
                iterations >= 1,
        ;
    }
    let denom: u128 = bytes_per_iteration as u128 * iterations as u128;
    proof {
        assert(duration_ns as int * MIB_BYTES as int <= u64::MAX as int * 0x100_0000_0000)
            by (nonlinear_arith)
            requires
                duration_ns <= u64::MAX,
        ;
        assert(duration_ns as int * GIB_BYTES as int <= u64::MAX as int * 0x100_0000_0000)
            by (nonlinear_arith)
            requires
                duration_ns <= u64::MAX,
        ;
        assert(duration_ns as int * TIB_BYTES as int <= u64::MAX as int * 0x100_0000_0000)
            by (nonlinear_arith)
            requires
                duration_ns <= u64::MAX,
        ;
    }
    let mut s = tag.to_owned();
    s.append("Time to process 1 MiB: ");
    let mib_text = get_appropriate_time_unit(duration_ns as u128 * MIB_BYTES as u128 / denom);
    s.append(mib_text.as_str());
    s.append("\n");
    s.append(tag);
    s.append("Time to process 1 GiB: ");
    let gib_text = get_appropriate_time_unit(duration_ns as u128 * GIB_BYTES as u128 / denom);
    s.append(gib_text.as_str());
    s.append("\n");
    s.append(tag);
    s.append("Time to process 1 TiB: ");
    let tib_text = get_appropriate_time_unit(duration_ns as u128 * TIB_BYTES as u128 / denom);
    s.append(tib_text.as_str());
    s.append("\n");
    s
}

impl BenchmarkResult {
    /// Render the full report block for this result, labelled `name`,
    /// for a workload that handles `bytes_per_iteration` bytes per
    /// iteration (0 where the workload has no meaningful byte size, in
    /// which case every byte-derived line is omitted).
    ///
    /// A pass with no completed iterations, or one shorter than a
    /// millisecond, has no meaningful per-iteration or per-millisecond
    /// figures and is reported as an explicit error instead.
    pub fn render_results(&self, name: &str, bytes_per_iteration: u64) -> (r: Result<
        String,
        ReportError,
    >)
        requires
            bytes_per_iteration as int * self.iterations as int <= u128::MAX as int / 1000,
        ensures
            self.iterations == 0 <==> r == Err::<String, ReportError>(ReportError::NoIterations),
            (self.iterations > 0 && self.duration_ns < NANOS_PER_MILLI) <==> r == Err::<
                String,
                ReportError,
            >(ReportError::NoDuration),
            (self.iterations > 0 && self.duration_ns >= NANOS_PER_MILLI) ==> (r matches Ok(text)
                && text@ == spec_report_text(
                name@,
                self.iterations,
                self.duration_ns,
                self.cycles,
                bytes_per_iteration,
            )),
            bytes_per_iteration == 0 ==> (r matches Ok(text) ==> text@ == spec_count_lines(
                spec_tag(name@, 0),
                self.iterations,
                self.duration_ns,
            ) + spec_latency_lines(
                spec_tag(name@, 0),
                self.iterations,
                self.duration_ns,
                self.cycles,
            )),
    {
        if self.iterations == 0 {
            return Err(ReportError::NoIterations);
        }
        if self.duration_ns < NANOS_PER_MILLI {
            return Err(ReportError::NoDuration);
        }
        let tag = render_tag(name, bytes_per_iteration);
        let mut s = render_count_lines(tag.as_str(), self.iterations, self.duration_ns);
        if bytes_per_iteration > 0 {
            let byte_lines = render_byte_lines(
                tag.as_str(),
                self.iterations,
                self.duration_ns,
                bytes_per_iteration,
            );
            s.append(byte_lines.as_str());
        }
        let latency_lines = render_latency_lines(
            tag.as_str(),
            self.iterations,
            self.duration_ns,
            self.cycles,
        );
        s.append(latency_lines.as_str());
        if bytes_per_iteration > 0 {
            let extrapolation_lines = render_extrapolation_lines(
                tag.as_str(),
                self.iterations,
                self.duration_ns,
                bytes_per_iteration,
            );
            s.append(extrapolation_lines.as_str());
        }
        Ok(s)
    }
}

} // verus!
