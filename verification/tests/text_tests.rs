use aochelper::text::{append_decimal, parse_u16};

fn written(n: u16) -> String {
    let mut out = String::new();
    append_decimal(&mut out, n);
    out
}

#[test]
fn decimal_of_small_and_large_numbers() {
    assert_eq!(written(0), "0");
    assert_eq!(written(7), "7");
    assert_eq!(written(10), "10");
    assert_eq!(written(2015), "2015");
    assert_eq!(written(65535), "65535");
}

#[test]
fn decimal_is_appended_to_what_is_there() {
    let mut out = String::from("year ");
    append_decimal(&mut out, 2022);
    assert_eq!(out, "year 2022");
}

#[test]
fn parse_reads_plain_numerals() {
    assert_eq!(parse_u16("2024"), Some(2024));
    assert_eq!(parse_u16("0"), Some(0));
    assert_eq!(parse_u16("65535"), Some(65535));
}

#[test]
fn parse_takes_a_plus_sign_and_leading_zeros() {
    assert_eq!(parse_u16("+7"), Some(7));
    assert_eq!(parse_u16("0002024"), Some(2024));
    assert_eq!(parse_u16("+00000000000000000000065535"), Some(65535));
}

#[test]
fn parse_refuses_what_is_no_u16() {
    assert_eq!(parse_u16(""), None);
    assert_eq!(parse_u16("+"), None);
    assert_eq!(parse_u16("-1"), None);
    assert_eq!(parse_u16("++1"), None);
    assert_eq!(parse_u16("12a"), None);
    assert_eq!(parse_u16(" 12"), None);
    assert_eq!(parse_u16("1 "), None);
    assert_eq!(parse_u16("65536"), None);
    assert_eq!(parse_u16("99999999999999999999"), None);
    assert_eq!(parse_u16("６"), None);
}

#[test]
fn parse_agrees_with_the_standard_library() {
    let samples = vec![
        "", "+", "-", "0", "+0", "-0", "1", "42", "0042", "65535", "65536", "655350", "+65535",
        "1e3", "0x10", "12 ", "twelve", "２０２４", "4294967296",
    ];
    for s in samples {
        assert_eq!(parse_u16(s), s.parse::<u16>().ok(), "{:?}", s);
    }
}

#[test]
fn parse_reads_back_every_written_number() {
    let mut n: u16 = 0;
    loop {
        assert_eq!(parse_u16(&written(n)), Some(n));
        assert_eq!(written(n), n.to_string());
        if n == u16::MAX {
            break;
        }
        n += 1;
    }
}
