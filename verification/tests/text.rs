use connection_hub::text::{decimal, join3, strip_prefix, text_eq};

#[test]
fn text_eq_compares_characters() {
    assert!(text_eq("all", "all"));
    assert!(!text_eq("all", "al"));
    assert!(!text_eq("all", "All"));
    assert!(text_eq("", ""));
}

#[test]
fn strip_prefix_returns_the_rest() {
    assert_eq!(strip_prefix("data:metrics", "data:"), Some("metrics"));
    assert_eq!(strip_prefix("data:", "data:"), Some(""));
    assert_eq!(strip_prefix("dat", "data:"), None);
    assert_eq!(strip_prefix("direct:x", "data:"), None);
    assert_eq!(strip_prefix("anything", ""), Some("anything"));
}

#[test]
fn strip_prefix_counts_characters_not_bytes() {
    assert_eq!(strip_prefix("données:é", "données:"), Some("é"));
}

#[test]
fn decimal_writes_numbers_without_leading_zeros() {
    assert_eq!(decimal(0), "0");
    assert_eq!(decimal(7), "7");
    assert_eq!(decimal(10), "10");
    assert_eq!(decimal(301), "301");
    assert_eq!(decimal(u64::MAX), "18446744073709551615");
}

#[test]
fn join3_concatenates_in_order() {
    assert_eq!(join3("a (", "12", ") b"), "a (12) b");
    assert_eq!(join3("", "", ""), "");
}
