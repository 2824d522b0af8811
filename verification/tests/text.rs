use eucalyptus::text::{contains, ends_with, is_blank_str, push_decimal, starts_with, trim};

#[test]
fn trim_matches_std() {
    for s in ["", "  ", " a b ", "\t\nx\u{3000}", "\u{85}y\u{a0}", "plain"] {
        assert_eq!(trim(s), s.trim());
        assert_eq!(is_blank_str(s), s.trim().is_empty());
    }
}

#[test]
fn patterns_match_std() {
    let cases = [("hello world", "hello"), ("hello", "world"), ("abc", ""), ("", "a"), ("aaa", "aa")];
    for (s, p) in cases {
        assert_eq!(starts_with(s, p), s.starts_with(p));
        assert_eq!(ends_with(s, p), s.ends_with(p));
        assert_eq!(contains(s, p), s.contains(p));
    }
}

#[test]
fn decimal_matches_to_string() {
    for n in [0u64, 7, 10, 99, 12345, u64::MAX] {
        let mut s = String::from("n=");
        push_decimal(&mut s, n);
        assert_eq!(s, format!("n={}", n));
    }
}
