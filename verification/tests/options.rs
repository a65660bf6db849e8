use roux::text::str_contains;
use roux::text::u32_string;
use roux::FeedOption;

#[test]
fn new_options_are_empty() {
    let options = FeedOption::new();
    assert!(options.after.is_none());
    assert!(options.before.is_none());
    assert!(options.count.is_none());
}

#[test]
fn builders_set_their_field_only() {
    let options = FeedOption::new().after("t3_a").before("t3_b").count(9);
    assert_eq!(options.after.as_deref(), Some("t3_a"));
    assert_eq!(options.before.as_deref(), Some("t3_b"));
    assert_eq!(options.count, Some(9));
}

#[test]
fn decimal_rendering() {
    assert_eq!(u32_string(0), "0");
    assert_eq!(u32_string(7), "7");
    assert_eq!(u32_string(10), "10");
    assert_eq!(u32_string(25), "25");
    assert_eq!(u32_string(1234567890), "1234567890");
    assert_eq!(u32_string(u32::MAX), "4294967295");
}

#[test]
fn substring_search() {
    assert!(str_contains("a/comments/b", "comments/"));
    assert!(str_contains("comments/", "comments/"));
    assert!(!str_contains("a/comments.json?", "comments/"));
    assert!(str_contains("anything", ""));
    assert!(!str_contains("short", "much longer needle"));
    assert!(!str_contains("", "x"));
}
