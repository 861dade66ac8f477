use hellojudge_core::numeric::{all_to_i64, parse_i64_decimal, IntParseError, IntegerFieldError, JsonScalar};
use hellojudge_core::text::{chars_of, clone_texts, i64_to_decimal, replace_text, string_of, text_eq, u64_to_decimal};

#[test]
fn decimal_rendering_of_unsigned_values() {
    assert_eq!(u64_to_decimal(0), "0");
    assert_eq!(u64_to_decimal(7), "7");
    assert_eq!(u64_to_decimal(10), "10");
    assert_eq!(u64_to_decimal(86400), "86400");
    assert_eq!(u64_to_decimal(u64::MAX), "18446744073709551615");
}

#[test]
fn decimal_rendering_of_signed_values() {
    assert_eq!(i64_to_decimal(0), "0");
    assert_eq!(i64_to_decimal(-1), "-1");
    assert_eq!(i64_to_decimal(1234), "1234");
    assert_eq!(i64_to_decimal(i64::MIN), "-9223372036854775808");
    assert_eq!(i64_to_decimal(i64::MAX), "9223372036854775807");
}

#[test]
fn decimal_rendering_round_trips_through_parsing() {
    for n in [0i64, 1, -1, 42, -42, 1000000007, i64::MIN, i64::MAX, -9, 10] {
        assert_eq!(parse_i64_decimal(&i64_to_decimal(n)), Ok(n));
    }
}

#[test]
fn replace_matches_std_replace() {
    let cases = [
        ("click {auth_token} now", "{auth_token}", "abc"),
        ("{auth_token}{auth_token}", "{auth_token}", "x"),
        ("no token here", "{auth_token}", "x"),
        ("aaa", "aa", "b"),
        ("", "{x}", "y"),
        ("链接：{reset_token}。", "{reset_token}", "12-34"),
    ];
    for (text, pattern, replacement) in cases {
        assert_eq!(replace_text(text, pattern, replacement), text.replace(pattern, replacement));
    }
}

#[test]
fn text_equality_compares_characters() {
    assert!(text_eq("default", "default"));
    assert!(!text_eq("default", "admin"));
    assert!(!text_eq("abc", "abcd"));
    assert!(text_eq("", ""));
    assert!(text_eq("中文", "中文"));
}

#[test]
fn characters_round_trip_through_vectors() {
    let cs = chars_of("a中b");
    assert_eq!(cs, vec!['a', '中', 'b']);
    assert_eq!(string_of(&cs), "a中b");
    let v = vec!["x".to_string(), "y".to_string()];
    assert_eq!(clone_texts(&v), v);
}

#[test]
fn parse_accepts_signed_decimals() {
    assert_eq!(parse_i64_decimal("123"), Ok(123));
    assert_eq!(parse_i64_decimal("+7"), Ok(7));
    assert_eq!(parse_i64_decimal("-5"), Ok(-5));
    assert_eq!(parse_i64_decimal("007"), Ok(7));
    assert_eq!(parse_i64_decimal("-0"), Ok(0));
    assert_eq!(parse_i64_decimal("9223372036854775807"), Ok(i64::MAX));
    assert_eq!(parse_i64_decimal("-9223372036854775808"), Ok(i64::MIN));
}

#[test]
fn parse_rejects_like_from_str_radix() {
    let cases = ["", "+", "-", "12a", " 1", "1 ", "9223372036854775808", "-9223372036854775809", "١٢", "+-1", "99999999999999999999x"];
    for s in cases {
        let expected = match i64::from_str_radix(s, 10) {
            Ok(v) => Ok(v),
            Err(e) => Err(match e.kind() {
                std::num::IntErrorKind::Empty => IntParseError::Empty,
                std::num::IntErrorKind::InvalidDigit => IntParseError::InvalidDigit,
                std::num::IntErrorKind::PosOverflow => IntParseError::PosOverflow,
                std::num::IntErrorKind::NegOverflow => IntParseError::NegOverflow,
                _ => panic!("unexpected kind"),
            }),
        };
        assert_eq!(parse_i64_decimal(s), expected, "input {:?}", s);
    }
    assert_eq!(parse_i64_decimal("9223372036854775808"), Err(IntParseError::PosOverflow));
    assert_eq!(parse_i64_decimal("-9223372036854775809"), Err(IntParseError::NegOverflow));
    assert_eq!(parse_i64_decimal(""), Err(IntParseError::Empty));
}

#[test]
fn parse_error_messages_match_std() {
    for s in ["", "x", "99999999999999999999", "-99999999999999999999"] {
        let std_msg = i64::from_str_radix(s, 10).unwrap_err().to_string();
        let ours = parse_i64_decimal(s).unwrap_err().message();
        assert_eq!(ours, std_msg);
    }
}

#[test]
fn integer_fields_accept_numbers_and_text() {
    assert_eq!(all_to_i64(&JsonScalar::PosInt(1000)), Ok(1000));
    assert_eq!(all_to_i64(&JsonScalar::NegInt(-3)), Ok(-3));
    assert_eq!(all_to_i64(&JsonScalar::Text("256".to_string())), Ok(256));
    assert_eq!(all_to_i64(&JsonScalar::PosInt(u64::MAX)), Err(IntegerFieldError::ExpectedInteger));
    assert_eq!(all_to_i64(&JsonScalar::Float), Err(IntegerFieldError::ExpectedInteger));
    assert_eq!(
        all_to_i64(&JsonScalar::Text("1.5".to_string())),
        Err(IntegerFieldError::BadText(IntParseError::InvalidDigit))
    );
    assert_eq!(all_to_i64(&JsonScalar::Other), Err(IntegerFieldError::UnexpectedType));
}

#[test]
fn integer_field_error_messages() {
    assert_eq!(IntegerFieldError::ExpectedInteger.message(), "Expected integer");
    assert_eq!(IntegerFieldError::UnexpectedType.message(), "Unexpected type");
    assert_eq!(
        IntegerFieldError::BadText(IntParseError::InvalidDigit).message(),
        "invalid digit found in string"
    );
}
