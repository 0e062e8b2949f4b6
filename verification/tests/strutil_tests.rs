use base_agent::strutil::{
    clone_strings, contains_ci, i64_to_string, split_commas, str_eq, str_eq_ci, trim_str,
    u64_to_string,
};

#[test]
fn decimal_rendering_is_exact() {
    assert_eq!(u64_to_string(0), "0");
    assert_eq!(u64_to_string(7), "7");
    assert_eq!(u64_to_string(1234567890), "1234567890");
    assert_eq!(u64_to_string(u64::MAX), "18446744073709551615");
}

#[test]
fn signed_decimal_rendering_is_exact() {
    assert_eq!(i64_to_string(0), "0");
    assert_eq!(i64_to_string(-42), "-42");
    assert_eq!(i64_to_string(i64::MIN), "-9223372036854775808");
    assert_eq!(i64_to_string(i64::MAX), "9223372036854775807");
}

#[test]
fn string_equality_compares_characters() {
    assert!(str_eq("abc", "abc"));
    assert!(!str_eq("abc", "abd"));
    assert!(!str_eq("abc", "abcd"));
    assert!(str_eq("", ""));
}

#[test]
fn case_insensitive_equality_lowers_the_left_side() {
    assert!(str_eq_ci("ON", "on"));
    assert!(str_eq_ci("TrUe", "true"));
    assert!(!str_eq_ci("on", "ON"));
    assert!(!str_eq_ci("off", "on"));
}

#[test]
fn substring_search_ignores_case_in_the_haystack() {
    assert!(contains_ci("You exceeded your QUOTA limit", "quota"));
    assert!(contains_ci("error: RESOURCE_EXHAUSTED today", "resource_exhausted"));
    assert!(!contains_ci("all fine here", "quota"));
    assert!(contains_ci("anything", ""));
}

#[test]
fn trimming_removes_ascii_whitespace_at_both_ends() {
    assert_eq!(trim_str("  a b\t\n"), "a b");
    assert_eq!(trim_str(""), "");
    assert_eq!(trim_str(" \t\r\n "), "");
    assert_eq!(trim_str("key"), "key");
}

#[test]
fn splitting_keeps_empty_pieces() {
    assert_eq!(split_commas("a,b,,c"), vec!["a", "b", "", "c"]);
    assert_eq!(split_commas(""), vec![""]);
    assert_eq!(split_commas("one"), vec!["one"]);
    assert_eq!(split_commas(","), vec!["", ""]);
}

#[test]
fn cloning_strings_preserves_contents() {
    let v = vec!["x".to_string(), "y".to_string()];
    assert_eq!(clone_strings(&v), v);
}
