use rustpond::text::{chars_of, decimal_string, parse_i64, same_text, string_of};

#[test]
fn characters_go_to_a_vector_and_back() {
    let chars = chars_of("añb\u{1f600}");
    assert_eq!(chars, vec!['a', 'ñ', 'b', '\u{1f600}']);
    assert_eq!(string_of(&chars), "añb\u{1f600}");
    assert_eq!(chars_of(""), Vec::<char>::new());
    assert_eq!(string_of(&Vec::new()), "");
}

#[test]
fn same_text_compares_characters() {
    assert!(same_text("abc", "abc"));
    assert!(!same_text("abc", "abd"));
    assert!(!same_text("abc", "ab"));
    assert!(same_text("", ""));
}

#[test]
fn decimal_rendering_matches_the_usual_one() {
    for n in [0i64, 1, 9, 10, 11, 99, 100, 350, 404, 12345, -1, -10, -987, i64::MAX, i64::MIN, i64::MIN + 1] {
        assert_eq!(decimal_string(n), n.to_string());
    }
    assert_eq!(decimal_string(5), "5");
    assert_eq!(decimal_string(-42), "-42");
    assert_eq!(decimal_string(9223372036854775807), "9223372036854775807");
    assert_eq!(decimal_string(i64::MIN), "-9223372036854775808");
}

#[test]
fn decimal_integers_are_read() {
    assert_eq!(parse_i64("0"), Some(0));
    assert_eq!(parse_i64("1700000000"), Some(1700000000));
    assert_eq!(parse_i64("-15"), Some(-15));
    assert_eq!(parse_i64("+15"), Some(15));
    assert_eq!(parse_i64("007"), Some(7));
    assert_eq!(parse_i64("9223372036854775807"), Some(i64::MAX));
    assert_eq!(parse_i64("-9223372036854775808"), Some(i64::MIN));
}

#[test]
fn other_texts_are_not_integers() {
    for text in ["", "+", "-", "12a", " 12", "12 ", "1.5", "--1", "+-1", "9223372036854775808", "-9223372036854775809", "99999999999999999999999999", "١٢"] {
        assert_eq!(parse_i64(text), None);
    }
}

#[test]
fn reading_integers_agrees_with_the_standard_parser() {
    for text in ["", "+", "-", "0", "-0", "+0", "42", "-42", "+42", "0042", "4 2", "9223372036854775807", "9223372036854775808", "-9223372036854775808", "-9223372036854775809", "abc", "1e3", "0x10"] {
        assert_eq!(parse_i64(text), text.parse::<i64>().ok());
    }
}
