use janitorai_grabber::text::{
    push_decimal, str_eq, take_chars, to_ascii_lower, trim_end,
};

#[test]
fn ascii_lowercase_leaves_other_characters() {
    assert_eq!(to_ascii_lower("X-API-Key Ä"), "x-api-key Ä");
}

#[test]
fn decimal_digits() {
    let mut s = String::from("n=");
    push_decimal(&mut s, 0);
    push_decimal(&mut s, 10);
    push_decimal(&mut s, u64::MAX);
    assert_eq!(s, format!("n=010{}", u64::MAX));
}

#[test]
fn prefixes_trims_and_comparisons() {
    assert_eq!(take_chars("héllo", 2), "hé");
    assert_eq!(take_chars("hi", 5), "hi");
    assert_eq!(trim_end("a//", '/'), "a");
    assert_eq!(trim_end("///", '/'), "");
    assert!(str_eq("abc", "abc"));
    assert!(!str_eq("abc", "abd"));
}
