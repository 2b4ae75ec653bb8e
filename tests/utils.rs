use std::time::Duration;

use omega_optimizer::data::split_row;
use omega_optimizer::{format_duration, format_seconds, prettify_list};

#[test]
fn test_format_duration() {
    let duration = Duration::from_secs_f64(13.12736);
    assert_eq!(format_duration(duration), "13.127 s");

    let duration = Duration::from_secs_f64(0.0723847184);
    assert_eq!(format_duration(duration), "72.385 ms");
}

#[test]
fn test_prettify_list() {
    let list = ["apple", "orange", "banana"];
    assert_eq!(prettify_list(&list), "'apple', 'orange' and 'banana'");

    let list = [1, 15, 30];
    assert_eq!(prettify_list(&list), "'1', '15' and '30'");
}

#[test]
fn prettify_short_lists() {
    let empty: [&str; 0] = [];
    assert_eq!(prettify_list(&empty), "");
    assert_eq!(prettify_list(&["only"]), "'only'");
    assert_eq!(prettify_list(&["a", "b"]), "'a' and 'b'");
    assert_eq!(prettify_list(&[-7i64, 0, 120]), "'-7', '0' and '120'");
    assert_eq!(prettify_list(&[String::from("x y"), String::from("z")]), "'x y' and 'z'");
}

#[test]
fn format_seconds_rounds_and_carries() {
    assert_eq!(format_seconds(0, 0), "0.000 ms");
    assert_eq!(format_seconds(0, 1_499), "0.001 ms");
    assert_eq!(format_seconds(0, 1_500), "0.002 ms");
    assert_eq!(format_seconds(0, 999_999_600), "1000.000 ms");
    assert_eq!(format_seconds(1, 0), "1.000 s");
    assert_eq!(format_seconds(1, 999_600_000), "2.000 s");
    assert_eq!(format_seconds(3600, 5_000_000), "3600.005 s");
    assert_eq!(format_seconds(u64::MAX, 999_999_999), "18446744073709551616.000 s");
}

#[test]
fn format_duration_of_whole_seconds() {
    assert_eq!(format_duration(Duration::from_secs(7)), "7.000 s");
    assert_eq!(format_duration(Duration::from_nanos(250)), "0.000 ms");
    assert_eq!(format_duration(Duration::from_micros(1_234_567)), "1.235 s");
}

#[test]
fn split_row_needs_exactly_one_space() {
    assert_eq!(split_row("1.5 2.25"), Some(("1.5", "2.25")));
    assert_eq!(split_row(" 2"), Some(("", "2")));
    assert_eq!(split_row("x "), Some(("x", "")));
    assert_eq!(split_row("λ μ"), Some(("λ", "μ")));
    assert_eq!(split_row("1 2 3"), None);
    assert_eq!(split_row("1  2"), None);
    assert_eq!(split_row("12"), None);
    assert_eq!(split_row(""), None);
    assert_eq!(split_row("1\t2"), None);
}
