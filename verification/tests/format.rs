use sysfetch::fields::{
    format_battery, format_data, format_kernel, format_memory, format_uptime, BatteryFacts,
    MemoryFacts,
};
use sysfetch::style::Style;

fn st() -> Style {
    Style {
        primary: "<P>".to_string(),
        secondary: "<S>".to_string(),
        bold: "<B>".to_string(),
        reset: "<R>".to_string(),
    }
}

#[test]
fn format_contains_label_and_value() {
    let line = format_data("labelx", "value y", &st());
    assert!(line.contains("labelx"));
    assert!(line.contains("value y"));
}

#[test]
fn format_exact_template() {
    let line = format_data("os", "X", &st());
    assert_eq!(line, "<P>\u{25aa}<B> os     <R> <S>X");
}

#[test]
fn format_long_label_not_truncated() {
    let line = format_data("a_rather_long_label", "v", &st());
    assert!(line.contains("a_rather_long_label"));
}

#[test]
fn uptime_drops_seconds() {
    let line = format_uptime(3725, &st());
    assert_eq!(line, "<P>\u{25aa}<B> uptime <R> <S>1h 2m");
}

#[test]
fn uptime_zero() {
    let line = format_uptime(0, &st());
    assert!(line.ends_with("0h 0m"));
}

#[test]
fn uptime_exact_hours() {
    let line = format_uptime(7200, &st());
    assert!(line.ends_with("2h 0m"));
}

#[test]
fn memory_used_is_total_minus_free() {
    let line = format_memory(MemoryFacts { total: 1000, free: 400 }, &st());
    assert!(line.contains("600 B"));
    assert!(line.ends_with("600 B / 1.0 KB"));
}

#[test]
fn memory_saturates_at_zero() {
    let line = format_memory(MemoryFacts { total: 400, free: 1000 }, &st());
    assert!(line.contains("0 B / 400 B"));
}

#[test]
fn battery_minutes_are_seconds_remainder() {
    let line = format_battery(BatteryFacts { percent: 56, remaining_seconds: 3725 }, &st());
    assert_eq!(line, "<P>\u{25aa}<B> battery<R> <S>56%, 1h 5m remaining");
}

#[test]
fn kernel_flag_selects_two_distinct_lines() {
    let style = st();
    let verbose = format_kernel("Linux", "6.1.0", "x86_64", true, &style);
    let plain = format_kernel("Linux", "6.1.0", "x86_64", false, &style);
    assert_ne!(verbose, plain);
    assert!(verbose.contains("Linux/x86_64"));
    assert!(plain.contains("6.1.0"));
    assert!(!plain.contains("Linux/x86_64"));
}

#[test]
fn formatters_idempotent() {
    let style = st();
    assert_eq!(format_uptime(3725, &style), format_uptime(3725, &style));
    assert_eq!(
        format_memory(MemoryFacts { total: 1000, free: 400 }, &style),
        format_memory(MemoryFacts { total: 1000, free: 400 }, &style),
    );
}
