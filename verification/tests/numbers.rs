use tdlib_types::num::{from_str_to_opt_t, from_str_to_t, to_decimal, NumError};

#[test]
fn wide_integers_survive_the_round_trip() {
    for n in [i64::MIN, -1, 0, 1, i64::MAX] {
        assert_eq!(from_str_to_t(&to_decimal(n)), Ok(n));
    }
}

#[test]
fn canonical_text_of_wide_integers() {
    assert_eq!(to_decimal(i64::MIN), "-9223372036854775808");
    assert_eq!(to_decimal(-1), "-1");
    assert_eq!(to_decimal(0), "0");
    assert_eq!(to_decimal(1), "1");
    assert_eq!(to_decimal(1000), "1000");
    assert_eq!(to_decimal(i64::MAX), "9223372036854775807");
}

#[test]
fn out_of_range_literals_overflow() {
    assert_eq!(from_str_to_t("99999999999999999999"), Err(NumError::Overflow));
    assert_eq!(from_str_to_t("9223372036854775808"), Err(NumError::Overflow));
    assert_eq!(from_str_to_t("-9223372036854775809"), Err(NumError::Overflow));
    assert_eq!(from_str_to_t("-9223372036854775808"), Ok(i64::MIN));
    assert_eq!(from_str_to_t("9223372036854775807"), Ok(i64::MAX));
}

#[test]
fn signs_and_leading_zeros_are_read() {
    assert_eq!(from_str_to_t("+5"), Ok(5));
    assert_eq!(from_str_to_t("-5"), Ok(-5));
    assert_eq!(from_str_to_t("007"), Ok(7));
    assert_eq!(from_str_to_t("-0"), Ok(0));
    assert_eq!(from_str_to_t("000000000000000000000000000001"), Ok(1));
}

#[test]
fn text_that_is_no_literal_is_a_parse_error() {
    for s in ["", "+", "-", " 5", "5 ", "1_000", "0x10", "12a", "--1", "+-1", "1.5", "٣"] {
        assert_eq!(from_str_to_t(s), Err(NumError::ParseError), "{:?}", s);
    }
    assert_eq!(from_str_to_t("99999999999999999999x"), Err(NumError::ParseError));
}

#[test]
fn optional_text_gives_optional_number() {
    assert_eq!(from_str_to_opt_t(None), Ok(None));
    assert_eq!(from_str_to_opt_t(Some("42")), Ok(Some(42)));
    assert_eq!(from_str_to_opt_t(Some("x")), Err(NumError::ParseError));
    assert_eq!(from_str_to_opt_t(Some("99999999999999999999")), Err(NumError::Overflow));
}
