use invoice::datetime::{format_datetime, DateTime};
use invoice::text::u64_to_string;

#[test]
fn decimal_rendering_is_exact() {
    assert_eq!(u64_to_string(0), "0");
    assert_eq!(u64_to_string(7), "7");
    assert_eq!(u64_to_string(5000), "5000");
    assert_eq!(u64_to_string(18446744073709551615), "18446744073709551615");
}

#[test]
fn timestamps_render_zero_padded() {
    let dt = DateTime { year: 2024, month: 5, day: 7, hour: 9, minute: 5, second: 3 };
    assert_eq!(format_datetime(&dt), "2024-05-07 09:05:03");
    let dt = DateTime { year: 987, month: 12, day: 31, hour: 23, minute: 59, second: 58 };
    assert_eq!(format_datetime(&dt), "0987-12-31 23:59:58");
    let dt = DateTime { year: -44, month: 3, day: 15, hour: 12, minute: 0, second: 0 };
    assert_eq!(format_datetime(&dt), "-0044-03-15 12:00:00");
    let dt = DateTime { year: 12345, month: 1, day: 1, hour: 0, minute: 0, second: 0 };
    assert_eq!(format_datetime(&dt), "12345-01-01 00:00:00");
}

#[test]
fn invoice_terms_are_fixed() {
    assert!(invoice::invoice::invoice_terms().contains("terms and conditions"));
}
