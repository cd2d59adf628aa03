use replay_monitor::decimal::{decimal_string, parse_u64, signed_string, ParseFailure};

#[test]
fn decimal_string_of_small_and_large_numbers() {
    assert_eq!(decimal_string(0), "0");
    assert_eq!(decimal_string(7), "7");
    assert_eq!(decimal_string(10), "10");
    assert_eq!(decimal_string(12345), "12345");
    assert_eq!(decimal_string(65535), "65535");
    assert_eq!(decimal_string(u64::MAX), "18446744073709551615");
}

#[test]
fn decimal_string_agrees_with_display() {
    let mut n: u64 = 1;
    for _ in 0..64 {
        assert_eq!(decimal_string(n), format!("{}", n));
        assert_eq!(decimal_string(n - 1), format!("{}", n - 1));
        n = n.wrapping_mul(2);
    }
}

#[test]
fn signed_string_of_both_signs() {
    assert_eq!(signed_string(0), "0");
    assert_eq!(signed_string(200), "200");
    assert_eq!(signed_string(-1), "-1");
    assert_eq!(signed_string(i32::MAX), "2147483647");
    assert_eq!(signed_string(i32::MIN), "-2147483648");
}

#[test]
fn parse_u64_reads_plain_numbers() {
    assert_eq!(parse_u64("0"), Ok(0));
    assert_eq!(parse_u64("5"), Ok(5));
    assert_eq!(parse_u64("+5"), Ok(5));
    assert_eq!(parse_u64("007"), Ok(7));
    assert_eq!(parse_u64("18446744073709551615"), Ok(u64::MAX));
    assert_eq!(parse_u64("00018446744073709551615"), Ok(u64::MAX));
}

#[test]
fn parse_u64_names_each_failure() {
    assert_eq!(parse_u64(""), Err(ParseFailure::Empty));
    assert_eq!(parse_u64("+"), Err(ParseFailure::InvalidDigit));
    assert_eq!(parse_u64("-"), Err(ParseFailure::InvalidDigit));
    assert_eq!(parse_u64("-5"), Err(ParseFailure::InvalidDigit));
    assert_eq!(parse_u64("++5"), Err(ParseFailure::InvalidDigit));
    assert_eq!(parse_u64("5 "), Err(ParseFailure::InvalidDigit));
    assert_eq!(parse_u64(" 5"), Err(ParseFailure::InvalidDigit));
    assert_eq!(parse_u64("1_000"), Err(ParseFailure::InvalidDigit));
    assert_eq!(parse_u64("٣"), Err(ParseFailure::InvalidDigit));
    assert_eq!(parse_u64("18446744073709551616"), Err(ParseFailure::TooLarge));
    assert_eq!(parse_u64("99999999999999999999999"), Err(ParseFailure::TooLarge));
}

#[test]
fn parse_u64_reports_what_comes_first() {
    assert_eq!(parse_u64("18446744073709551615x"), Err(ParseFailure::InvalidDigit));
    assert_eq!(parse_u64("184467440737095516150x"), Err(ParseFailure::TooLarge));
    assert_eq!(parse_u64("x18446744073709551616"), Err(ParseFailure::InvalidDigit));
}

#[test]
fn parse_u64_agrees_with_the_standard_parser() {
    let samples = [
        "", "+", "-", "0", "+0", "-0", "12", "+12", "1x", "x1", "1.5", "18446744073709551615",
        "18446744073709551616", "18446744073709551615x", "184467440737095516150x",
        "000000000000000000000000001", "9999999999999999999", "99999999999999999999",
    ];
    for s in samples {
        let ours = parse_u64(s);
        let theirs = s.parse::<u64>();
        match (ours, theirs) {
            (Ok(a), Ok(b)) => assert_eq!(a, b),
            (Err(e), Err(t)) => {
                let text = match e {
                    ParseFailure::Empty => "cannot parse integer from empty string",
                    ParseFailure::InvalidDigit => "invalid digit found in string",
                    ParseFailure::TooLarge => "number too large to fit in target type",
                };
                assert_eq!(format!("{}", t), text);
            }
            _ => panic!("parsers disagree on {:?}", s),
        }
    }
}
