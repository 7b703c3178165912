use stack_etl::coercion::{
    bytes_equal, coerce_flag, coerce_i16, coerce_i32, coerce_text, coerce_timestamp,
    TIMESTAMP_FORMAT,
};
use stack_etl::errors::XmlError;
use stack_etl::number::{parse_i16, parse_i32, IntegerFault};
use stack_etl::timestamp::Timestamp;

#[test]
fn text_is_the_utf8_reading_of_the_bytes() {
    assert_eq!(coerce_text(b"Teacher").unwrap(), "Teacher");
    assert_eq!(coerce_text(b"").unwrap(), "");
    assert_eq!(coerce_text("caf\u{e9} \u{1f600}".as_bytes()).unwrap(), "caf\u{e9} \u{1f600}");
    assert_eq!(coerce_text(b"a &amp; b").unwrap(), "a &amp; b");
}

#[test]
fn text_that_is_not_utf8_is_an_encoding_failure() {
    assert!(matches!(coerce_text(&[0x66, 0xff, 0x6f]), Err(XmlError::Utf8Conversion(_))));
    assert!(matches!(coerce_text(&[0xc3]), Err(XmlError::Utf8Conversion(_))));
    assert!(matches!(coerce_text(&[0xed, 0xa0, 0x80]), Err(XmlError::Utf8Conversion(_))));
}

#[test]
fn flag_is_set_by_one_alone() {
    assert_eq!(coerce_flag(b"1").unwrap(), true);
    assert_eq!(coerce_flag(b"0").unwrap(), false);
    assert_eq!(coerce_flag(b"False").unwrap(), false);
    assert_eq!(coerce_flag(b"True").unwrap(), false);
    assert_eq!(coerce_flag(b"true").unwrap(), false);
    assert_eq!(coerce_flag(b"").unwrap(), false);
    assert_eq!(coerce_flag(b"11").unwrap(), false);
    assert_eq!(coerce_flag(b" 1").unwrap(), false);
    assert_eq!(coerce_flag(b"01").unwrap(), false);
}

#[test]
fn flag_that_is_not_utf8_is_an_encoding_failure() {
    assert!(matches!(coerce_flag(&[0x31, 0x80]), Err(XmlError::Utf8Conversion(_))));
}

#[test]
fn integers_of_32_bits() {
    assert_eq!(coerce_i32(b"0").unwrap(), 0);
    assert_eq!(coerce_i32(b"1").unwrap(), 1);
    assert_eq!(coerce_i32(b"-1").unwrap(), -1);
    assert_eq!(coerce_i32(b"+17").unwrap(), 17);
    assert_eq!(coerce_i32(b"000123").unwrap(), 123);
    assert_eq!(coerce_i32(b"-0").unwrap(), 0);
    assert_eq!(coerce_i32(b"2147483647").unwrap(), i32::MAX);
    assert_eq!(coerce_i32(b"-2147483648").unwrap(), i32::MIN);
    assert_eq!(coerce_i32(b"00000000000000000000002147483647").unwrap(), i32::MAX);
}

#[test]
fn integers_of_16_bits() {
    assert_eq!(coerce_i16(b"3").unwrap(), 3);
    assert_eq!(coerce_i16(b"32767").unwrap(), i16::MAX);
    assert_eq!(coerce_i16(b"-32768").unwrap(), i16::MIN);
    assert!(matches!(
        coerce_i16(b"32768"),
        Err(XmlError::IntegerParse(IntegerFault::PosOverflow))
    ));
    assert!(matches!(
        coerce_i16(b"-32769"),
        Err(XmlError::IntegerParse(IntegerFault::NegOverflow))
    ));
}

#[test]
fn integer_faults_each_on_its_input() {
    assert!(matches!(coerce_i32(b""), Err(XmlError::IntegerParse(IntegerFault::Empty))));
    assert!(matches!(coerce_i32(b"abc"), Err(XmlError::IntegerParse(IntegerFault::InvalidDigit))));
    assert!(matches!(coerce_i32(b"-"), Err(XmlError::IntegerParse(IntegerFault::InvalidDigit))));
    assert!(matches!(coerce_i32(b"+"), Err(XmlError::IntegerParse(IntegerFault::InvalidDigit))));
    assert!(matches!(coerce_i32(b"12 "), Err(XmlError::IntegerParse(IntegerFault::InvalidDigit))));
    assert!(matches!(coerce_i32(b" 12"), Err(XmlError::IntegerParse(IntegerFault::InvalidDigit))));
    assert!(matches!(coerce_i32(b"1_000"), Err(XmlError::IntegerParse(IntegerFault::InvalidDigit))));
    assert!(matches!(coerce_i32(b"--1"), Err(XmlError::IntegerParse(IntegerFault::InvalidDigit))));
    assert!(matches!(coerce_i32(b"1.5"), Err(XmlError::IntegerParse(IntegerFault::InvalidDigit))));
    assert!(matches!(coerce_i32(b"0x10"), Err(XmlError::IntegerParse(IntegerFault::InvalidDigit))));
    assert!(matches!(
        coerce_i32(b"2147483648"),
        Err(XmlError::IntegerParse(IntegerFault::PosOverflow))
    ));
    assert!(matches!(
        coerce_i32(b"-2147483649"),
        Err(XmlError::IntegerParse(IntegerFault::NegOverflow))
    ));
    assert!(matches!(
        coerce_i32(b"99999999999999999999999999999999999999"),
        Err(XmlError::IntegerParse(IntegerFault::PosOverflow))
    ));
    assert!(matches!(
        coerce_i32(b"-99999999999999999999999999999999999999"),
        Err(XmlError::IntegerParse(IntegerFault::NegOverflow))
    ));
    assert!(matches!(
        coerce_i32(b"99999999999999999999x"),
        Err(XmlError::IntegerParse(IntegerFault::InvalidDigit))
    ));
}

#[test]
fn integer_that_is_not_utf8_is_an_encoding_failure() {
    assert!(matches!(coerce_i32(&[0x31, 0xff]), Err(XmlError::Utf8Conversion(_))));
    assert!(matches!(coerce_i16(&[0xff]), Err(XmlError::Utf8Conversion(_))));
}

#[test]
fn integer_digits_outside_ascii_are_no_digits() {
    assert!(matches!(
        coerce_i32("\u{661}\u{662}".as_bytes()),
        Err(XmlError::IntegerParse(IntegerFault::InvalidDigit))
    ));
    assert!(matches!(
        coerce_i32("\u{2212}5".as_bytes()),
        Err(XmlError::IntegerParse(IntegerFault::InvalidDigit))
    ));
}

#[test]
fn integers_agree_with_the_standard_parser() {
    let samples = [
        "", "0", "7", "-7", "+7", "-", "+", "+-1", "-+1", "007", "-007", "12a", "a12", " 12",
        "12 ", "1 2", "2147483647", "2147483648", "-2147483648", "-2147483649", "32767", "32768",
        "-32768", "-32769", "4294967296", "4294967297", "-4294967296", "-4294967297",
        "99999999999", "-99999999999", "18446744073709551616", "1e5", "0.0", "١٢", "１２", "\n5",
        "5\n", "+0", "-0", "00", "429496729", "4294967295", "42949672950",
    ];
    for text in samples {
        assert_eq!(parse_i32(text.as_bytes()).ok(), text.parse::<i32>().ok(), "{:?}", text);
        assert_eq!(parse_i16(text.as_bytes()).ok(), text.parse::<i16>().ok(), "{:?}", text);
    }
}

#[test]
fn integers_agree_with_the_standard_parser_near_every_bound() {
    let mut n: i64 = -70_000;
    while n <= 70_000 {
        let text = format!("{}", n);
        assert_eq!(parse_i16(text.as_bytes()).ok(), text.parse::<i16>().ok(), "{}", text);
        assert_eq!(parse_i32(text.as_bytes()).ok(), Some(n as i32), "{}", text);
        n += 7;
    }
    let mut n: i64 = i32::MAX as i64 - 50;
    while n <= i32::MAX as i64 + 50 {
        let text = format!("{}", n);
        assert_eq!(parse_i32(text.as_bytes()).ok(), text.parse::<i32>().ok(), "{}", text);
        let text = format!("{}", -n);
        assert_eq!(parse_i32(text.as_bytes()).ok(), text.parse::<i32>().ok(), "{}", text);
        n += 1;
    }
}

#[test]
fn timestamp_with_a_fraction() {
    let t = coerce_timestamp(b"2011-06-21T20:16:48.593").unwrap();
    assert_eq!(
        t,
        Timestamp {
            year: 2011,
            month: 6,
            day: 21,
            hour: 20,
            minute: 16,
            second: 48,
            nanosecond: 593_000_000,
        }
    );
}

#[test]
fn timestamp_without_a_fraction() {
    let t = coerce_timestamp(b"2011-06-21T20:16:48").unwrap();
    assert_eq!(
        t,
        Timestamp {
            year: 2011,
            month: 6,
            day: 21,
            hour: 20,
            minute: 16,
            second: 48,
            nanosecond: 0,
        }
    );
}

#[test]
fn timestamp_fraction_of_any_precision() {
    assert_eq!(coerce_timestamp(b"2020-01-02T03:04:05.1").unwrap().nanosecond, 100_000_000);
    assert_eq!(coerce_timestamp(b"2020-01-02T03:04:05.123456").unwrap().nanosecond, 123_456_000);
    assert_eq!(
        coerce_timestamp(b"2020-01-02T03:04:05.123456789").unwrap().nanosecond,
        123_456_789
    );
    assert_eq!(coerce_timestamp(b"2020-02-29T23:59:59.999").unwrap().day, 29);
}

#[test]
fn timestamp_that_does_not_follow_the_pattern() {
    assert!(matches!(coerce_timestamp(b"not-a-date"), Err(XmlError::DateParse(_))));
    assert!(matches!(coerce_timestamp(b""), Err(XmlError::DateParse(_))));
    assert!(matches!(coerce_timestamp(b"2011-06-21"), Err(XmlError::DateParse(_))));
    assert!(matches!(coerce_timestamp(b"2011-06-21 20:16:48"), Err(XmlError::DateParse(_))));
    assert!(matches!(coerce_timestamp(b"2011-13-21T20:16:48"), Err(XmlError::DateParse(_))));
    assert!(matches!(coerce_timestamp(b"2011-02-30T20:16:48"), Err(XmlError::DateParse(_))));
    assert!(matches!(coerce_timestamp(b"2011-06-21T24:00:00"), Err(XmlError::DateParse(_))));
    assert!(matches!(coerce_timestamp(b"2011-06-21T20:16:48Z"), Err(XmlError::DateParse(_))));
}

#[test]
fn timestamp_that_is_not_utf8_is_an_encoding_failure() {
    assert!(matches!(coerce_timestamp(&[0x32, 0x30, 0xfe]), Err(XmlError::Utf8Conversion(_))));
}

#[test]
fn timestamp_agrees_with_chrono() {
    let text = "1999-12-31T23:59:58.25";
    let theirs = chrono::NaiveDateTime::parse_from_str(text, TIMESTAMP_FORMAT).unwrap();
    let ours = coerce_timestamp(text.as_bytes()).unwrap();
    let back = chrono::NaiveDate::from_ymd_opt(ours.year, ours.month, ours.day)
        .unwrap()
        .and_hms_nano_opt(ours.hour, ours.minute, ours.second, ours.nanosecond)
        .unwrap();
    assert_eq!(theirs, back);
}

#[test]
fn timestamp_of_a_leap_second() {
    let t = coerce_timestamp(b"2015-06-30T23:59:60.5").unwrap();
    assert_eq!((t.hour, t.minute, t.second), (23, 59, 59));
    assert_eq!(t.nanosecond, 1_500_000_000);
}

#[test]
fn timestamp_default_is_the_default_of_chrono() {
    let theirs = chrono::NaiveDateTime::default();
    let ours = Timestamp::default();
    let back = chrono::NaiveDate::from_ymd_opt(ours.year, ours.month, ours.day)
        .unwrap()
        .and_hms_nano_opt(ours.hour, ours.minute, ours.second, ours.nanosecond)
        .unwrap();
    assert_eq!(theirs, back);
    assert_eq!((ours.year, ours.month, ours.day), (1970, 1, 1));
}

#[test]
fn bytes_are_equal_when_they_are_the_same() {
    assert!(bytes_equal(b"row", b"row"));
    assert!(bytes_equal(b"", b""));
    assert!(!bytes_equal(b"row", b"Row"));
    assert!(!bytes_equal(b"row", b"rows"));
    assert!(!bytes_equal(b"row", b"ro"));
}
