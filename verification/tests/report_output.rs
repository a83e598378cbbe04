//! Tests of the reporter: derived figures, unit auto-scaling, grouping,
//! byte lines, and the degenerate-input errors.

use byte_unit::Byte;
use napkin_math::clock::SimClock;
use napkin_math::cycles::NoCycleCounter;
use napkin_math::decimal::{dec_u128, fixed2_u128, grouped_u128};
use napkin_math::harness::{measure, BenchmarkResult};
use napkin_math::report::{get_appropriate_time_unit, time_unit_for, ReportError, TimeUnit};
use napkin_math::workload::NoopWorkload;
use num_format::{Locale, ToFormattedString};

fn byte_amount(bytes: u128) -> String {
    Byte::from_bytes(bytes).get_appropriate_unit(true).format(3)
}

#[test]
fn decimal_rendering() {
    assert_eq!(dec_u128(0).as_str(), "0");
    assert_eq!(dec_u128(7).as_str(), "7");
    assert_eq!(dec_u128(120).as_str(), "120");
    assert_eq!(dec_u128(98765432109876543210).as_str(), "98765432109876543210");
}

#[test]
fn fixed_point_rendering() {
    assert_eq!(fixed2_u128(0).as_str(), "0.00");
    assert_eq!(fixed2_u128(5).as_str(), "0.05");
    assert_eq!(fixed2_u128(1205).as_str(), "12.05");
    assert_eq!(fixed2_u128(100).as_str(), "1.00");
}

#[test]
fn grouped_rendering_matches_en_locale() {
    assert_eq!(grouped_u128(0).as_str(), "0");
    assert_eq!(grouped_u128(999).as_str(), "999");
    assert_eq!(grouped_u128(1000).as_str(), "1,000");
    assert_eq!(grouped_u128(1234567).as_str(), "1,234,567");
    assert_eq!(grouped_u128(1000000007).as_str(), "1,000,000,007");
    // The same text the locale crate itself produces.
    assert_eq!(grouped_u128(987654321).as_str(), 987654321u64.to_formatted_string(&Locale::en));
    assert_eq!(
        grouped_u128(u128::MAX).as_str(),
        "340,282,366,920,938,463,463,374,607,431,768,211,455"
    );
}

#[test]
fn unit_boundaries() {
    assert_eq!(time_unit_for(999), TimeUnit::Nanoseconds);
    assert_eq!(time_unit_for(1001), TimeUnit::Microseconds);
    assert_eq!(time_unit_for(4_999_000_000), TimeUnit::Seconds);
    assert_eq!(time_unit_for(3_001_000_000), TimeUnit::Seconds);
    assert_eq!(time_unit_for(120_000_000_000), TimeUnit::Seconds);
    assert_eq!(time_unit_for(3_601_000_000_000), TimeUnit::Hours);
}

#[test]
fn unit_rendering() {
    assert_eq!(get_appropriate_time_unit(0).as_str(), "0 ns");
    assert_eq!(get_appropriate_time_unit(999).as_str(), "999 ns");
    assert_eq!(get_appropriate_time_unit(1001).as_str(), "1 μs");
    assert_eq!(get_appropriate_time_unit(2_500_000).as_str(), "2500 μs");
    assert_eq!(get_appropriate_time_unit(7_000_000).as_str(), "7 ms");
    assert_eq!(get_appropriate_time_unit(4_999_000_000).as_str(), "5.00 s");
    assert_eq!(get_appropriate_time_unit(3_001_000_000).as_str(), "3.00 s");
    assert_eq!(get_appropriate_time_unit(120_000_000_000).as_str(), "120.00 s");
    assert_eq!(get_appropriate_time_unit(3_600_000_000_000).as_str(), "60.00 min");
    assert_eq!(get_appropriate_time_unit(3_601_000_000_000).as_str(), "1.00 hours");
}

#[test]
fn zero_byte_report_omits_byte_lines() {
    let r = BenchmarkResult { iterations: 2_000, duration_ns: 10_000_000, cycles: 0 };
    let text = r.render_results("Syscall", 0).unwrap();
    assert!(!text.contains("Bytes handled"));
    assert!(!text.contains("Total bytes"));
    assert!(!text.contains("Throughput"));
    assert!(!text.contains("Time to process"));
    assert!(text.contains("[Syscall] Iterations in 10 milliseconds, no overhead: 2,000\n"));
    assert!(text.contains("[Syscall] Iterations / second: 200,000\n"));
    assert!(text.contains("[Syscall] Avg single iteration: 5 μs\n"));
    assert!(text.contains("[Syscall] Avg single iteration cycles: 0.00\n"));
}

#[test]
fn byte_report_has_all_lines() {
    let r = BenchmarkResult { iterations: 1_000_000, duration_ns: 1_000_000_000, cycles: 2_500_000 };
    let text = r.render_results("Copy", 64).unwrap();
    let label = Byte::from_bytes(64).get_appropriate_unit(true).format(0);
    let tag = format!("[Copy <{}>] ", label);
    assert!(text.contains(&format!("{}Iterations in 1000 milliseconds, no overhead: 1,000,000\n", tag)));
    assert!(text.contains(&format!("{}Iterations / second: 1,000,000\n", tag)));
    assert!(text.contains(&format!("{}Bytes handled per iteration: 64 bytes\n", tag)));
    assert!(text.contains(&format!("{}Total bytes processed: {}\n", tag, byte_amount(64_000_000))));
    assert!(text.contains(&format!("{}Throughput: {}/s\n", tag, byte_amount(64_000_000))));
    assert!(text.contains(&format!("{}Avg single iteration: 1 μs\n", tag)));
    assert!(text.contains(&format!("{}Avg single iteration cycles: 2.50\n", tag)));
    // 1000 ns per 64 bytes: 16.384 ms per MiB, 16.777 s per GiB.
    assert!(text.contains(&format!("{}Time to process 1 MiB: 16 ms\n", tag)));
    assert!(text.contains(&format!("{}Time to process 1 GiB: 16.78 s\n", tag)));
    assert!(text.contains(&format!("{}Time to process 1 TiB: 4.77 hours\n", tag)));
}

#[test]
fn report_rejects_zero_iterations() {
    let r = BenchmarkResult { iterations: 0, duration_ns: 5_000_000_000, cycles: 0 };
    assert_eq!(r.render_results("Empty", 64), Err(ReportError::NoIterations));
}

#[test]
fn report_rejects_submillisecond_duration() {
    let r = BenchmarkResult { iterations: 10, duration_ns: 999_999, cycles: 0 };
    assert_eq!(r.render_results("Blink", 0), Err(ReportError::NoDuration));
}

#[test]
fn fixed_cost_scenario() {
    // 64 bytes per iteration, 1000 ns per iteration simulated by a clock
    // that advances one batch's cost per check, 1000 ms budget.
    let w = NoopWorkload;
    let mut clock = SimClock::new(1_000_000);
    let mut counter = NoCycleCounter;
    let r = measure(&w, &mut clock, &mut counter, 1000, 1_000_000_000);
    assert!(r.iterations >= 999_000 && r.iterations <= 1_000_000);
    let text = r.render_results("Scenario", 64).unwrap();
    // Throughput of 64 MB/s: 64,000,000 bytes over one second.
    assert!(text.contains(&format!("Throughput: {}/s", byte_amount(64_000_000))));
    // Average latency of exactly 1000 ns lands in the microsecond bucket.
    assert!(text.contains("Avg single iteration: 1 μs"));
    assert!(text.contains("Iterations in 1000 milliseconds, no overhead: 1,000,000"));
}
