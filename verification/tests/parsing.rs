use web3_proxy::decimal::{parse_i64, parse_u64, IntErrorKind};
use web3_proxy::hex::to_hex_prefixed;
use web3_proxy::text::{contains, starts_with, str_equals};

fn std_kind(e: &std::num::ParseIntError) -> IntErrorKind {
    match e.kind() {
        std::num::IntErrorKind::Empty => IntErrorKind::Empty,
        std::num::IntErrorKind::InvalidDigit => IntErrorKind::InvalidDigit,
        std::num::IntErrorKind::PosOverflow => IntErrorKind::PosOverflow,
        std::num::IntErrorKind::NegOverflow => IntErrorKind::NegOverflow,
        other => panic!("unexpected kind {:?}", other),
    }
}

#[test]
fn parse_u64_accepts_digits_and_plus_sign() {
    assert_eq!(parse_u64("42"), Ok(42));
    assert_eq!(parse_u64("+7"), Ok(7));
    assert_eq!(parse_u64("007"), Ok(7));
    assert_eq!(parse_u64("0"), Ok(0));
    assert_eq!(parse_u64("18446744073709551615"), Ok(u64::MAX));
}

#[test]
fn parse_u64_rejects_malformed_and_overflowing_text() {
    assert_eq!(parse_u64(""), Err(IntErrorKind::Empty));
    assert_eq!(parse_u64("+"), Err(IntErrorKind::InvalidDigit));
    assert_eq!(parse_u64("-1"), Err(IntErrorKind::InvalidDigit));
    assert_eq!(parse_u64("1a"), Err(IntErrorKind::InvalidDigit));
    assert_eq!(parse_u64(" 1"), Err(IntErrorKind::InvalidDigit));
    assert_eq!(parse_u64("++1"), Err(IntErrorKind::InvalidDigit));
    assert_eq!(parse_u64("١٢"), Err(IntErrorKind::InvalidDigit));
    assert_eq!(parse_u64("18446744073709551616"), Err(IntErrorKind::PosOverflow));
    assert_eq!(parse_u64("99999999999999999999x"), Err(IntErrorKind::PosOverflow));
    assert_eq!(parse_u64("1x99999999999999999999"), Err(IntErrorKind::InvalidDigit));
}

#[test]
fn parse_i64_handles_signs_and_bounds() {
    assert_eq!(parse_i64("-9223372036854775808"), Ok(i64::MIN));
    assert_eq!(parse_i64("9223372036854775807"), Ok(i64::MAX));
    assert_eq!(parse_i64("-9223372036854775809"), Err(IntErrorKind::NegOverflow));
    assert_eq!(parse_i64("9223372036854775808"), Err(IntErrorKind::PosOverflow));
    assert_eq!(parse_i64("-0"), Ok(0));
    assert_eq!(parse_i64("+12"), Ok(12));
    assert_eq!(parse_i64("-"), Err(IntErrorKind::InvalidDigit));
    assert_eq!(parse_i64("+-1"), Err(IntErrorKind::InvalidDigit));
    assert_eq!(parse_i64("-1680000000"), Ok(-1680000000));
}

#[test]
fn parsing_agrees_with_std() {
    let samples = [
        "", "0", "1", "+1", "-1", "+", "-", "00", "12345", "-12345", "+-5", "5-", "1 ", "abc",
        "18446744073709551615", "18446744073709551616", "9223372036854775807",
        "9223372036854775808", "-9223372036854775808", "-9223372036854775809", "0x10", "１",
        "-99999999999999999999x", "99999999999999999999x", "-x9", "-0",
    ];
    for s in samples {
        assert_eq!(parse_u64(s), s.parse::<u64>().map_err(|e| std_kind(&e)), "u64 {:?}", s);
        assert_eq!(parse_i64(s), s.parse::<i64>().map_err(|e| std_kind(&e)), "i64 {:?}", s);
    }
}

#[test]
fn error_messages_are_std_messages() {
    let samples = ["", "x", "18446744073709551616", "-9223372036854775809"];
    for s in samples {
        if let Err(e) = s.parse::<i64>() {
            assert_eq!(std_kind(&e).message(), e.to_string(), "{:?}", s);
        }
        if let Err(e) = s.parse::<u64>() {
            assert_eq!(std_kind(&e).message(), e.to_string(), "{:?}", s);
        }
    }
    assert_eq!(IntErrorKind::NegOverflow.message(), "number too small to fit in target type");
}

#[test]
fn decimal_text_reads_back() {
    for n in [0u64, 1, 9, 10, 99, 100, 1_680_000_000, u64::MAX - 1, u64::MAX] {
        assert_eq!(parse_u64(&n.to_string()), Ok(n));
    }
    for n in [i64::MIN, i64::MIN + 1, -1_680_000_000, -10, -1, 0, 1, 10, 1_680_000_000, i64::MAX] {
        assert_eq!(parse_i64(&n.to_string()), Ok(n));
    }
}

#[test]
fn hex_rendering_matches_ethers_bytes() {
    assert_eq!(to_hex_prefixed(&[]), "0x");
    assert_eq!(to_hex_prefixed(&[0xde, 0xad, 0xbe, 0xef]), "0xdeadbeef");
    assert_eq!(to_hex_prefixed(&[0x00, 0x0f, 0xa0]), "0x000fa0");
    let data: Vec<u8> = (0u8..=255).collect();
    let ours = to_hex_prefixed(&data);
    let theirs = ethers::types::Bytes::from(data.clone()).to_string();
    assert_eq!(ours, theirs);
    assert_eq!(ours.len(), 2 + 2 * data.len());
}

#[test]
fn text_helpers() {
    assert!(str_equals("eth_call", "eth_call"));
    assert!(!str_equals("eth_call", "eth_calls"));
    assert!(starts_with("execution reverted: nope", "execution reverted"));
    assert!(!starts_with("execution", "execution reverted"));
    assert!(contains("daily limit exceeded", "limit"));
    assert!(contains("limit", "limit"));
    assert!(!contains("limi", "limit"));
    assert!(contains("anything", ""));
    assert!(contains("héllo wörld", "wö"));
}
