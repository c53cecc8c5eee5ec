use std::num::IntErrorKind;
use timezone_db::parse::{has_prefix, parse_u16, parse_u32, parse_u64, parse_unsigned, ParseFailure};

fn failure_of(kind: &IntErrorKind) -> ParseFailure {
    match kind {
        IntErrorKind::Empty => ParseFailure::Empty,
        IntErrorKind::InvalidDigit => ParseFailure::InvalidDigit,
        IntErrorKind::PosOverflow => ParseFailure::PosOverflow,
        other => panic!("no unsigned number fails with {:?}", other),
    }
}

fn samples() -> Vec<&'static str> {
    vec![
        "", "+", "-", "0", "7", "007", "+5", "+0", "-5", "-0", "10", "3000", "65535", "65536",
        "4294967295", "4294967296", "18446744073709551615", "18446744073709551616",
        "000000000000000000000000000001", "99999999999999999999999x", "1x", "x1", " 1", "1 ",
        "1_000", "++1", "+-1", "1+", "0x10", "１２", "٣", "1.0", "1e3", "655360000x", "65535x",
        "99999x", "+65535", "+65536", "\u{0}", "12\n",
    ]
}

#[test]
fn parse_u16_agrees_with_std() {
    for text in samples() {
        let expected = text.parse::<u16>().map_err(|e| failure_of(e.kind()));
        assert_eq!(parse_u16(text), expected, "{:?}", text);
    }
}

#[test]
fn parse_u32_agrees_with_std() {
    for text in samples() {
        let expected = text.parse::<u32>().map_err(|e| failure_of(e.kind()));
        assert_eq!(parse_u32(text), expected, "{:?}", text);
    }
}

#[test]
fn parse_u64_agrees_with_std() {
    for text in samples() {
        let expected = text.parse::<u64>().map_err(|e| failure_of(e.kind()));
        assert_eq!(parse_u64(text), expected, "{:?}", text);
    }
}

#[test]
fn parse_reads_plain_numbers() {
    assert_eq!(parse_u32("5"), Ok(5));
    assert_eq!(parse_u64("10"), Ok(10));
    assert_eq!(parse_u16("3000"), Ok(3000));
    assert_eq!(parse_u32("+42"), Ok(42));
    assert_eq!(parse_u32("4294967295"), Ok(4294967295));
    assert_eq!(parse_u64("18446744073709551615"), Ok(u64::MAX));
}

#[test]
fn parse_names_each_failure() {
    assert_eq!(parse_u32(""), Err(ParseFailure::Empty));
    assert_eq!(parse_u32("+"), Err(ParseFailure::InvalidDigit));
    assert_eq!(parse_u32("12a"), Err(ParseFailure::InvalidDigit));
    assert_eq!(parse_u32("-1"), Err(ParseFailure::InvalidDigit));
    assert_eq!(parse_u32("4294967296"), Err(ParseFailure::PosOverflow));
    assert_eq!(parse_u16("65536"), Err(ParseFailure::PosOverflow));
}

#[test]
fn overflow_before_a_bad_character_is_overflow() {
    assert_eq!(parse_u16("65536x"), Err(ParseFailure::PosOverflow));
    assert_eq!(parse_u16("6553x6"), Err(ParseFailure::InvalidDigit));
}

#[test]
fn parse_unsigned_respects_the_bound() {
    assert_eq!(parse_unsigned("100", 100), Ok(100));
    assert_eq!(parse_unsigned("101", 100), Err(ParseFailure::PosOverflow));
    assert_eq!(parse_unsigned("0", 0), Ok(0));
    assert_eq!(parse_unsigned("1", 0), Err(ParseFailure::PosOverflow));
}

#[test]
fn has_prefix_agrees_with_std() {
    let texts = ["", "h", "http", "https://x", "htt", "xhttp", "redis://a", "rediss://a", "é", "éa"];
    let prefixes = ["", "http", "redis://", "rediss://", "é", "h"];
    for text in texts {
        for prefix in prefixes {
            assert_eq!(has_prefix(text, prefix), text.starts_with(prefix), "{:?} {:?}", text, prefix);
        }
    }
}
