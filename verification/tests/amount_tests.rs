use gateway::amount::i64_to_amount;
use gateway::amount::parse_amount;
use gateway::amount::u64_to_amount;

#[test]
fn amount_thirty_round_trips_exactly() {
    let rendered = u64_to_amount(30);
    assert_eq!(rendered.as_str(), "30");
    assert_eq!(parse_amount(rendered.as_str()), Some(30));
}

#[test]
fn amount_rendering_is_plain_decimal() {
    assert_eq!(u64_to_amount(0).as_str(), "0");
    assert_eq!(u64_to_amount(5).as_str(), "5");
    assert_eq!(u64_to_amount(12345).as_str(), "12345");
    assert_eq!(u64_to_amount(u64::MAX).as_str(), "18446744073709551615");
}

#[test]
fn signed_amounts_render_with_sign() {
    assert_eq!(i64_to_amount(5).as_str(), "5");
    assert_eq!(i64_to_amount(0).as_str(), "0");
    assert_eq!(i64_to_amount(-5).as_str(), "-5");
    assert_eq!(i64_to_amount(i64::MIN).as_str(), "-9223372036854775808");
    assert_eq!(i64_to_amount(i64::MAX).as_str(), "9223372036854775807");
}

#[test]
fn parse_amount_accepts_only_digit_strings() {
    assert_eq!(parse_amount(""), None);
    assert_eq!(parse_amount("30.0"), None);
    assert_eq!(parse_amount("-30"), None);
    assert_eq!(parse_amount("abc"), None);
    assert_eq!(parse_amount("3 0"), None);
    assert_eq!(parse_amount("007"), Some(7));
}

#[test]
fn parse_amount_handles_the_u64_boundary() {
    assert_eq!(parse_amount("18446744073709551615"), Some(u64::MAX));
    assert_eq!(parse_amount("18446744073709551616"), None);
    assert_eq!(parse_amount("99999999999999999999999"), None);
}
