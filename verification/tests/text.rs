use synixe_bot::text::{
    after_first, chars_of, contains_chars, ends_with_chars, find_chars, int_to_text,
    join_strings, parse_i64, parse_u64, replace_chars, starts_with_chars, string_of,
    trim_start_matches, u64_text,
};

fn v(s: &str) -> Vec<char> {
    s.chars().collect()
}

#[test]
fn numbers_written_and_read() {
    assert_eq!(u64_text(0), "0");
    assert_eq!(u64_text(18446744073709551615), "18446744073709551615");
    assert_eq!(int_to_text(-42), "-42");
    assert_eq!(int_to_text(i64::MIN), "-9223372036854775808");
    for n in [0u64, 7, 10, 12345, u64::MAX] {
        assert_eq!(parse_u64(&u64_text(n)), Some(n));
    }
    assert_eq!(parse_u64("+5"), Some(5));
    assert_eq!(parse_u64(""), None);
    assert_eq!(parse_u64("12a"), None);
    assert_eq!(parse_u64("18446744073709551616"), None);
    assert_eq!(parse_i64("-10"), Some(-10));
    assert_eq!(parse_i64("150"), Some(150));
    assert_eq!(parse_i64("-9223372036854775808"), Some(i64::MIN));
    assert_eq!(parse_i64("9223372036854775808"), None);
    assert_eq!(parse_i64("-+1"), None);
    assert_eq!(parse_i64("-"), None);
}

#[test]
fn searching() {
    assert_eq!(find_chars(&v("abcabc"), &v("ca")), Some(2));
    assert_eq!(find_chars(&v("abc"), &v("x")), None);
    assert!(contains_chars(&v("hello"), &v("ell")));
    assert!(starts_with_chars(&v("hello"), &v("he")));
    assert!(ends_with_chars(&v("hello"), &v("lo")));
    assert!(!ends_with_chars(&v("lo"), &v("hello")));
    assert_eq!(after_first(&v("a:b:c"), &v(":")), Some(v("b:c")));
    assert_eq!(after_first(&v("abc"), &v(":")), None);
}

#[test]
fn rewriting() {
    assert_eq!(replace_chars(&v("aXbXc"), &v("X"), &v("--")), v("a--b--c"));
    assert_eq!(replace_chars(&v("aaa"), &v("aa"), &v("b")), v("ba"));
    assert_eq!(replace_chars(&v("abc"), &v("z"), &v("y")), v("abc"));
    assert_eq!(trim_start_matches(&v("ababc"), &v("ab")), v("c"));
    assert_eq!(join_strings(&vec!["a".into(), "b".into(), "c".into()], ", "), "a, b, c");
    assert_eq!(join_strings(&vec![], ", "), "");
    assert_eq!(string_of(&chars_of("héllo")), "héllo");
}
