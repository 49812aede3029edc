use subquery_deploy::text::{percent_string, status_line, u64_to_string};

#[test]
fn renders_small_and_large_counters() {
    assert_eq!(u64_to_string(0), "0");
    assert_eq!(u64_to_string(7), "7");
    assert_eq!(u64_to_string(10), "10");
    assert_eq!(u64_to_string(1234567890), "1234567890");
    assert_eq!(u64_to_string(u64::MAX), "18446744073709551615");
}

#[test]
fn percent_of_fifty_over_two_hundred_is_exactly_25_00() {
    assert_eq!(percent_string(50, 200), "25.00");
}

#[test]
fn percent_keeps_two_decimal_places() {
    assert_eq!(percent_string(2, 3), "66.67");
    assert_eq!(percent_string(1, 3), "33.33");
    assert_eq!(percent_string(0, 5), "0.00");
    assert_eq!(percent_string(5, 5), "100.00");
    assert_eq!(percent_string(7, 4), "175.00");
}

#[test]
fn percent_with_zero_target_is_not_finite() {
    assert_eq!(percent_string(0, 0), "NaN");
    assert_eq!(percent_string(5, 0), "inf");
}

#[test]
fn status_line_without_rolling_suffix() {
    let line = status_line(100, 200, 50, false, 1);
    assert_eq!(
        line,
        "total_entities: 100 target_block: 200 processing_block: 50 percent: 25.00% "
    );
}

#[test]
fn status_line_with_rolling_suffix() {
    let line = status_line(100, 200, 50, true, 3);
    assert_eq!(
        line,
        "total_entities: 100 target_block: 200 processing_block: 50 percent: 25.00% [3] "
    );
}
