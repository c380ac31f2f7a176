use eggspire::args::{is_nat_i64, parse_weeks, span_from_weeks, SECONDS_IN_WEEK, WEEKS_LIMIT};

const REFUSAL: &str = "Has to be a natural number (1,2,..)";

#[test]
fn constants_have_their_values() {
    assert_eq!(SECONDS_IN_WEEK, 604_800);
    assert_eq!(WEEKS_LIMIT, 52_000);
}

#[test]
fn accepts_the_whole_range_of_weeks() {
    assert_eq!(is_nat_i64("1".to_string()), Ok(()));
    assert_eq!(is_nat_i64("52".to_string()), Ok(()));
    assert_eq!(is_nat_i64("51999".to_string()), Ok(()));
}

#[test]
fn refuses_zero_and_the_limit() {
    assert_eq!(is_nat_i64("0".to_string()), Err(REFUSAL.to_string()));
    assert_eq!(is_nat_i64("52000".to_string()), Err(REFUSAL.to_string()));
    assert_eq!(is_nat_i64("52001".to_string()), Err(REFUSAL.to_string()));
}

#[test]
fn refuses_negative_numbers() {
    assert_eq!(is_nat_i64("-1".to_string()), Err(REFUSAL.to_string()));
    assert_eq!(is_nat_i64("-52".to_string()), Err(REFUSAL.to_string()));
    assert_eq!(is_nat_i64("-0".to_string()), Err(REFUSAL.to_string()));
}

#[test]
fn refuses_what_is_no_integer() {
    for text in ["", "+", "-", "abc", "1.5", " 5", "5 ", "5w", "1_000", "0x10", "++5", "+-5", "\u{665}"] {
        assert_eq!(is_nat_i64(text.to_string()), Err(REFUSAL.to_string()), "{:?}", text);
    }
}

#[test]
fn refuses_numbers_beyond_any_integer_type() {
    assert_eq!(is_nat_i64("9223372036854775807".to_string()), Err(REFUSAL.to_string()));
    assert_eq!(is_nat_i64("9223372036854775808".to_string()), Err(REFUSAL.to_string()));
    assert_eq!(
        is_nat_i64("100000000000000000000000000000000000000000".to_string()),
        Err(REFUSAL.to_string())
    );
}

#[test]
fn accepts_a_plus_sign_and_leading_zeros() {
    assert_eq!(is_nat_i64("+5".to_string()), Ok(()));
    assert_eq!(is_nat_i64("05".to_string()), Ok(()));
    assert_eq!(is_nat_i64("+0051999".to_string()), Ok(()));
    assert_eq!(parse_weeks("0000000000000000000000000000000000000001"), Some(1));
}

#[test]
fn validator_agrees_with_the_standard_parser() {
    let texts = [
        "1", "9", "10", "51999", "52000", "0", "-3", "+3", "003", "3a", "a3", "", " ", "3 ", "+",
        "-", "--3", "99999", "18446744073709551616", "1e3", "\u{663}", "3\n",
    ];
    for text in texts {
        let expected = match text.parse::<i64>() {
            Ok(number) if number > 0 && number < 52000 => Some(number),
            _ => None,
        };
        assert_eq!(parse_weeks(text), expected, "{:?}", text);
        assert_eq!(is_nat_i64(text.to_string()).is_ok(), expected.is_some(), "{:?}", text);
    }
}

#[test]
fn parse_weeks_gives_the_number() {
    assert_eq!(parse_weeks("1"), Some(1));
    assert_eq!(parse_weeks("52"), Some(52));
    assert_eq!(parse_weeks("51999"), Some(51999));
    assert_eq!(parse_weeks("52000"), None);
    assert_eq!(parse_weeks("0"), None);
    assert_eq!(parse_weeks("x"), None);
}

#[test]
fn span_is_weeks_times_seconds_in_week() {
    assert_eq!(span_from_weeks("1"), Ok(604_800));
    assert_eq!(span_from_weeks("52"), Ok(31_449_600));
    assert_eq!(span_from_weeks("51999"), Ok(31_448_995_200));
}

#[test]
fn span_of_a_refused_text_is_the_refusal() {
    assert_eq!(span_from_weeks("0"), Err(REFUSAL.to_string()));
    assert_eq!(span_from_weeks("52000"), Err(REFUSAL.to_string()));
    assert_eq!(span_from_weeks("weeks"), Err(REFUSAL.to_string()));
}
