//! Tests for decimal rendering, the registry planner and the log
//! prefix formatter.

use ezix::logger::{format_log_prefix, format_timestamp, level_color, level_label, millis_of_nanos, Level};
use ezix::text::{i64_dec_string, three_digit_string, two_digit_string, u64_dec_string};
use ezix::tools::registry::{
    set_dword_policy, set_string_list_policy, set_string_policy, RegistryOp,
};

#[test]
fn unsigned_decimal_rendering() {
    assert_eq!(u64_dec_string(0), "0");
    assert_eq!(u64_dec_string(7), "7");
    assert_eq!(u64_dec_string(10), "10");
    assert_eq!(u64_dec_string(12345), "12345");
    assert_eq!(u64_dec_string(u64::MAX), "18446744073709551615");
}

#[test]
fn signed_decimal_rendering() {
    assert_eq!(i64_dec_string(0), "0");
    assert_eq!(i64_dec_string(42), "42");
    assert_eq!(i64_dec_string(-1), "-1");
    assert_eq!(i64_dec_string(i64::MAX), "9223372036854775807");
    assert_eq!(i64_dec_string(i64::MIN), "-9223372036854775808");
}

#[test]
fn zero_padded_rendering() {
    assert_eq!(two_digit_string(0), "00");
    assert_eq!(two_digit_string(9), "09");
    assert_eq!(two_digit_string(42), "42");
    assert_eq!(three_digit_string(0), "000");
    assert_eq!(three_digit_string(7), "007");
    assert_eq!(three_digit_string(70), "070");
    assert_eq!(three_digit_string(700), "700");
}

#[test]
fn clock_text_is_zero_padded() {
    assert_eq!(format_timestamp(9, 5, 3, 7), "09:05:03:007");
    assert_eq!(format_timestamp(23, 59, 59, 999), "23:59:59:999");
}

#[test]
fn nanoseconds_reduce_to_milliseconds() {
    assert_eq!(millis_of_nanos(7_654_321), 7);
    assert_eq!(millis_of_nanos(999_999_999), 999);
}

#[test]
fn level_colors_and_labels() {
    assert_eq!(level_color(Level::Error), "\x1b[31m");
    assert_eq!(level_color(Level::Warn), "\x1b[33m");
    assert_eq!(level_color(Level::Info), "\x1b[32m");
    assert_eq!(level_color(Level::Debug), "\x1b[38;5;215m");
    assert_eq!(level_color(Level::Trace), "\x1b[36m");
    assert_eq!(level_label(Level::Info), "INFO");
}

#[test]
fn log_prefix_combines_clock_and_level_tag() {
    let prefix = format_log_prefix(Level::Info, 12, 34, 56, 789);
    assert_eq!(prefix, "\x1b[90m12:34:56:789\x1b[0m \x1b[32m[INFO]\x1b[0m ");
}

#[test]
fn dword_policy_plans_one_set() {
    let ops = set_dword_policy("SOFTWARE\\Policies\\Mozilla", "DisableAppUpdate", 1);
    assert_eq!(
        ops,
        vec![RegistryOp::SetDword {
            path: "SOFTWARE\\Policies\\Mozilla".to_string(),
            name: "DisableAppUpdate".to_string(),
            value: 1,
        }]
    );
}

#[test]
fn string_policy_plans_one_set() {
    let ops = set_string_policy("SOFTWARE\\Policies\\Mozilla", "Homepage", "https://example.org");
    assert_eq!(
        ops,
        vec![RegistryOp::SetString {
            path: "SOFTWARE\\Policies\\Mozilla".to_string(),
            name: "Homepage".to_string(),
            value: "https://example.org".to_string(),
        }]
    );
}

#[test]
fn string_list_policy_clears_then_writes_numbered_values() {
    let values = vec!["first".to_string(), "second".to_string(), "third".to_string()];
    let ops = set_string_list_policy("SOFTWARE\\Policies\\Mozilla", "ExtensionInstallAllowlist", &values);
    let path = "SOFTWARE\\Policies\\Mozilla\\ExtensionInstallAllowlist".to_string();
    assert_eq!(
        ops,
        vec![
            RegistryOp::ClearSubkey { path: path.clone() },
            RegistryOp::SetString { path: path.clone(), name: "1".to_string(), value: "first".to_string() },
            RegistryOp::SetString { path: path.clone(), name: "2".to_string(), value: "second".to_string() },
            RegistryOp::SetString { path, name: "3".to_string(), value: "third".to_string() },
        ]
    );
}

#[test]
fn string_list_policy_with_no_values_only_clears() {
    let ops = set_string_list_policy("base", "sub", &vec![]);
    assert_eq!(ops, vec![RegistryOp::ClearSubkey { path: "base\\sub".to_string() }]);
}
