use canvascli::fingerprint::{fingerprint, FNV_OFFSET};
use canvascli::text::{eq_ignore_case, is_white_space, push_decimal, render_decimal, to_lower, trim};

#[test]
fn decimal_of_zero_is_one_digit() {
    assert_eq!(render_decimal(0), "0");
}

#[test]
fn decimal_has_no_leading_zero() {
    assert_eq!(render_decimal(7), "7");
    assert_eq!(render_decimal(10), "10");
    assert_eq!(render_decimal(1_234_567_890), "1234567890");
    assert_eq!(render_decimal(100), "100");
}

#[test]
fn decimal_of_the_largest_identifier() {
    assert_eq!(render_decimal(u64::MAX), "18446744073709551615");
}

#[test]
fn decimal_agrees_with_the_standard_library() {
    for n in [0u64, 1, 9, 10, 11, 99, 100, 101, 999, 1000, 65_535, 4_294_967_296, u64::MAX - 1] {
        assert_eq!(render_decimal(n), n.to_string());
    }
}

#[test]
fn push_decimal_appends() {
    let mut s = String::from("id=");
    push_decimal(&mut s, 405);
    assert_eq!(s, "id=405");
}

#[test]
fn to_lower_folds_ascii_capitals_only() {
    assert_eq!(to_lower('A'), 'a');
    assert_eq!(to_lower('Z'), 'z');
    assert_eq!(to_lower('a'), 'a');
    assert_eq!(to_lower('@'), '@');
    assert_eq!(to_lower('['), '[');
    assert_eq!(to_lower('5'), '5');
    assert_eq!(to_lower('É'), 'É');
}

#[test]
fn eq_ignore_case_sets_ascii_case_aside() {
    assert!(eq_ignore_case("CS101", "cs101"));
    assert!(eq_ignore_case("Intro to Logic", "INTRO TO LOGIC"));
    assert!(eq_ignore_case("", ""));
    assert!(!eq_ignore_case("CS101", "CS102"));
    assert!(!eq_ignore_case("CS101", "CS1010"));
    assert!(!eq_ignore_case("CS101 ", "CS101"));
}

#[test]
fn eq_ignore_case_keeps_other_letters_apart() {
    assert!(!eq_ignore_case("École", "école"));
    assert!(eq_ignore_case("École A", "École a"));
}

#[test]
fn white_space_is_what_unicode_marks() {
    for c in ['\t', '\n', '\u{0B}', '\u{0C}', '\r', ' ', '\u{85}', '\u{A0}', '\u{1680}', '\u{2000}', '\u{200A}', '\u{2028}', '\u{2029}', '\u{202F}', '\u{205F}', '\u{3000}'] {
        assert!(is_white_space(c));
    }
    for c in ['a', '0', '\u{08}', '\u{0E}', '\u{1F}', '\u{200B}', '\u{FEFF}', '_'] {
        assert!(!is_white_space(c));
    }
}

#[test]
fn white_space_agrees_with_the_standard_library() {
    let mut u = 0u32;
    while u < 0x3100 {
        if let Some(c) = char::from_u32(u) {
            assert_eq!(is_white_space(c), c.is_whitespace());
        }
        u += 1;
    }
}

#[test]
fn trim_removes_both_ends() {
    assert_eq!(trim("  token\n"), "token");
    assert_eq!(trim("token"), "token");
    assert_eq!(trim("\t a b \r\n"), "a b");
    assert_eq!(trim("\u{3000}é\u{A0}"), "é");
}

#[test]
fn trim_of_blank_is_empty() {
    assert_eq!(trim(""), "");
    assert_eq!(trim(" \n\t "), "");
}

#[test]
fn trim_keeps_inner_white_space() {
    assert_eq!(trim(" a  b "), "a  b");
}

#[test]
fn fingerprint_of_nothing_is_the_offset_basis() {
    assert_eq!(fingerprint(&vec![]), 0xcbf29ce484222325);
    assert_eq!(FNV_OFFSET, 0xcbf29ce484222325);
}

#[test]
fn fingerprint_known_values() {
    assert_eq!(fingerprint(&b"a".to_vec()), 0xaf63dc4c8601ec8c);
    assert_eq!(fingerprint(&b"foobar".to_vec()), 0x85944171f73967e8);
}

#[test]
fn fingerprint_tells_contents_apart() {
    let a = fingerprint(&b"BEGIN:VCALENDAR\nEND:VCALENDAR\n".to_vec());
    let b = fingerprint(&b"BEGIN:VCALENDAR\nEND:VCALENDAR\n ".to_vec());
    assert_ne!(a, b);
    assert_eq!(a, fingerprint(&b"BEGIN:VCALENDAR\nEND:VCALENDAR\n".to_vec()));
}
