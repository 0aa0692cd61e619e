use ctf_bot::parse::parse_u64;

#[test]
fn plain_decimals_parse() {
    assert_eq!(parse_u64("0"), Some(0));
    assert_eq!(parse_u64("42"), Some(42));
    assert_eq!(parse_u64("1005"), Some(1005));
    assert_eq!(parse_u64("941763230493786144"), Some(941763230493786144));
}

#[test]
fn leading_zeros_parse() {
    assert_eq!(parse_u64("007"), Some(7));
    assert_eq!(parse_u64("00"), Some(0));
}

#[test]
fn largest_value_parses_and_one_past_it_does_not() {
    assert_eq!(parse_u64("18446744073709551615"), Some(u64::MAX));
    assert_eq!(parse_u64("18446744073709551616"), None);
    assert_eq!(parse_u64("99999999999999999999999999"), None);
}

#[test]
fn non_digit_input_is_rejected() {
    assert_eq!(parse_u64(""), None);
    assert_eq!(parse_u64("12a"), None);
    assert_eq!(parse_u64("a12"), None);
    assert_eq!(parse_u64(" 42"), None);
    assert_eq!(parse_u64("42 "), None);
    assert_eq!(parse_u64("+42"), None);
    assert_eq!(parse_u64("-1"), None);
    assert_eq!(parse_u64("4.2"), None);
    assert_eq!(parse_u64("general"), None);
}
