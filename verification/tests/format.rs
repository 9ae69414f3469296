use hostmeter::numfmt::format_centi;
use hostmeter::numfmt::format_clock;
use hostmeter::numfmt::pad_left;
use hostmeter::numfmt::u64_dec;
use hostmeter::numfmt::u64_pad2;
use hostmeter::numfmt::u64_pad_min2;

#[test]
fn decimal_representation() {
    assert_eq!(u64_dec(0), "0");
    assert_eq!(u64_dec(7), "7");
    assert_eq!(u64_dec(10), "10");
    assert_eq!(u64_dec(1234567), "1234567");
    assert_eq!(u64_dec(u64::MAX), "18446744073709551615");
}

#[test]
fn two_digit_padding() {
    assert_eq!(u64_pad2(0), "00");
    assert_eq!(u64_pad2(9), "09");
    assert_eq!(u64_pad2(42), "42");
    assert_eq!(u64_pad_min2(5), "05");
    assert_eq!(u64_pad_min2(55), "55");
    assert_eq!(u64_pad_min2(555), "555");
}

#[test]
fn centi_values_have_two_decimal_places() {
    assert_eq!(format_centi(0), "0.00");
    assert_eq!(format_centi(9), "0.09");
    assert_eq!(format_centi(234), "2.34");
    assert_eq!(format_centi(10050), "100.50");
}

#[test]
fn uptime_formatting() {
    assert_eq!(format_clock(3661), "01:01:01");
}

#[test]
fn uptime_hours_are_not_clamped() {
    assert_eq!(format_clock(0), "00:00:00");
    assert_eq!(format_clock(59), "00:00:59");
    assert_eq!(format_clock(86400), "24:00:00");
    assert_eq!(format_clock(360000 + 59 * 60 + 59), "100:59:59");
}

#[test]
fn left_padding_right_aligns() {
    assert_eq!(pad_left("2.34 GB", 8), " 2.34 GB");
    assert_eq!(pad_left("4", 8), "       4");
    assert_eq!(pad_left("", 3), "   ");
    assert_eq!(pad_left("123.45", 6), "123.45");
    assert_eq!(pad_left("too wide already", 8), "too wide already");
}
