use yap_supervisor::text::{contains_str, i64_to_decimal, trimmed_chars, u64_to_decimal};

#[test]
fn substring_search() {
    assert!(contains_str("abcdef", "cde"));
    assert!(contains_str("abc", ""));
    assert!(contains_str("abc", "abc"));
    assert!(!contains_str("abc", "abcd"));
    assert!(!contains_str("aab", "abb"));
    assert!(contains_str("héllo wörld", "ö"));
}

#[test]
fn decimal_rendering() {
    assert_eq!(u64_to_decimal(0), "0");
    assert_eq!(u64_to_decimal(7), "7");
    assert_eq!(u64_to_decimal(1234), "1234");
    assert_eq!(u64_to_decimal(u64::MAX), u64::MAX.to_string());
    assert_eq!(i64_to_decimal(-42), "-42");
    assert_eq!(i64_to_decimal(-1), "-1");
    assert_eq!(i64_to_decimal(i64::MIN), i64::MIN.to_string());
    assert_eq!(i64_to_decimal(i64::MAX), i64::MAX.to_string());
}

#[test]
fn trimming_matches_str_trim() {
    for s in ["  a b  ", "\t\nx\r\n", "", "   ", "\u{3000}y\u{a0}", "z"] {
        let got: String = trimmed_chars(s).into_iter().collect();
        assert_eq!(got, s.trim());
    }
}
