use depool_elect::text::{is_whitespace_char, utf8_width_of};
use depool_elect::tokens::{format_tokens, parse_tokens_to_nano, TokenError, ONE};

/// The same reading written directly with std's `trim`, `split_once` and
/// `parse`, to compare against.
fn reference_parse(value: &str) -> Result<u128, TokenError> {
    let value = value.trim();
    if value.is_empty() {
        return Err(TokenError::Empty);
    }
    let (whole, frac) = value.split_once('.').unwrap_or((value, ""));
    let whole = whole.parse::<u128>().map_err(|_| TokenError::InvalidAmount)?;
    if frac.len() > 9 {
        return Err(TokenError::TooManyDecimals);
    }
    let mut frac = frac.to_owned();
    while frac.len() < 9 {
        frac.push('0');
    }
    let frac = frac.parse::<u128>().map_err(|_| TokenError::InvalidAmount)?;
    whole
        .checked_mul(ONE)
        .and_then(|v| v.checked_add(frac))
        .ok_or(TokenError::TooLarge)
}

/// The same writing with std's `format!`.
fn reference_format(value: u128) -> String {
    let whole = value / ONE;
    let frac = value % ONE;
    if frac == 0 {
        return whole.to_string();
    }
    let mut frac = format!("{frac:09}");
    while frac.ends_with('0') {
        frac.pop();
    }
    format!("{whole}.{frac}")
}

#[test]
fn parses_whole_and_fractional_tokens() {
    assert_eq!(parse_tokens_to_nano("1"), Ok(1_000_000_000));
    assert_eq!(parse_tokens_to_nano("1.5"), Ok(1_500_000_000));
    assert_eq!(parse_tokens_to_nano(" 2.25 \n"), Ok(2_250_000_000));
    assert_eq!(parse_tokens_to_nano("0.000000001"), Ok(1));
    assert_eq!(parse_tokens_to_nano("5."), Ok(5_000_000_000));
    assert_eq!(parse_tokens_to_nano("+5"), Ok(5_000_000_000));
    assert_eq!(parse_tokens_to_nano("10000"), Ok(10_000_000_000_000));
    assert_eq!(parse_tokens_to_nano("\u{3000}7\u{a0}"), Ok(7_000_000_000));
}

#[test]
fn plus_sign_in_fraction_is_read_like_str_parse() {
    // "+5" is padded to "+50000000", which `str::parse` reads as 50000000.
    assert_eq!(parse_tokens_to_nano("1.+5"), Ok(1_050_000_000));
}

#[test]
fn empty_amounts_are_refused() {
    assert_eq!(parse_tokens_to_nano(""), Err(TokenError::Empty));
    assert_eq!(parse_tokens_to_nano(" \t\n"), Err(TokenError::Empty));
}

#[test]
fn invalid_amounts_are_refused() {
    assert_eq!(parse_tokens_to_nano("abc"), Err(TokenError::InvalidAmount));
    assert_eq!(parse_tokens_to_nano("-5"), Err(TokenError::InvalidAmount));
    assert_eq!(parse_tokens_to_nano(".5"), Err(TokenError::InvalidAmount));
    assert_eq!(parse_tokens_to_nano("+"), Err(TokenError::InvalidAmount));
    assert_eq!(parse_tokens_to_nano("1.2.3"), Err(TokenError::InvalidAmount));
    assert_eq!(parse_tokens_to_nano("1 000"), Err(TokenError::InvalidAmount));
    assert_eq!(parse_tokens_to_nano("1.\u{e9}"), Err(TokenError::InvalidAmount));
    assert_eq!(
        parse_tokens_to_nano("340282366920938463463374607431768211456"),
        Err(TokenError::InvalidAmount)
    );
}

#[test]
fn more_than_nine_decimal_bytes_are_refused() {
    assert_eq!(parse_tokens_to_nano("1.1234567891"), Err(TokenError::TooManyDecimals));
    // Five two-byte characters take ten bytes.
    assert_eq!(
        parse_tokens_to_nano("1.\u{e9}\u{e9}\u{e9}\u{e9}\u{e9}"),
        Err(TokenError::TooManyDecimals)
    );
}

#[test]
fn amounts_beyond_u128_nano_are_too_large() {
    assert_eq!(
        parse_tokens_to_nano("340282366920938463463374607432"),
        Err(TokenError::TooLarge)
    );
    assert_eq!(
        parse_tokens_to_nano("340282366920938463463374607431.768211456"),
        Err(TokenError::TooLarge)
    );
    assert_eq!(
        parse_tokens_to_nano("340282366920938463463374607431.768211455"),
        Ok(u128::MAX)
    );
}

#[test]
fn parse_agrees_with_std_reading() {
    let samples = [
        "0", "1", "01", "1.0", "1.000000000", "1.0000000000", "0.1", "9.999999999", " 3.14 ",
        "+0.5", "1.-5", "1e5", "١", "12345678901234567890", "1.12345678", "..", ".", "1..",
        "\u{85}42\u{2028}", "0x10", "007.700", "+", "++1", "1.+", "1. 5", "4294967296.1",
        "99999999999999999999999999999999999999", "1.𝟘",
    ];
    for s in samples {
        assert_eq!(parse_tokens_to_nano(s), reference_parse(s), "input {s:?}");
    }
}

#[test]
fn formats_whole_and_fractional_tokens() {
    assert_eq!(format_tokens(0), "0");
    assert_eq!(format_tokens(1), "0.000000001");
    assert_eq!(format_tokens(1_500_000_000), "1.5");
    assert_eq!(format_tokens(10_000_000_000), "10");
    assert_eq!(format_tokens(123_000_456_000), "123.000456");
    assert_eq!(
        format_tokens(u128::MAX),
        "340282366920938463463374607431.768211455"
    );
}

#[test]
fn format_agrees_with_std_formatting() {
    let samples = [
        0u128, 1, 9, 10, 999_999_999, 1_000_000_000, 1_000_000_001, 20_000_000_000,
        123_456_789_012_345, u128::MAX - 1, u128::MAX, 1 << 64, 1 << 100,
    ];
    for v in samples {
        assert_eq!(format_tokens(v), reference_format(v), "value {v}");
    }
}

#[test]
fn formatted_amounts_parse_back() {
    let samples = [
        0u128, 1, 7, 100, 999_999_999, 1_000_000_000, 1_000_000_010, 5_000_000_000,
        30_000_000_000, 123_456_789_123_456_789, u128::MAX,
    ];
    for v in samples {
        assert_eq!(parse_tokens_to_nano(&format_tokens(v)), Ok(v), "value {v}");
    }
}

#[test]
fn whitespace_matches_std_for_every_char() {
    for u in 0u32..=0x10FFFF {
        if let Some(c) = char::from_u32(u) {
            assert_eq!(is_whitespace_char(c), c.is_whitespace(), "char {u:#x}");
            assert_eq!(utf8_width_of(c), c.len_utf8(), "char {u:#x}");
        }
    }
}
