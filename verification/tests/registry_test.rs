use hostcall::registry::Registry;
use hostcall::text::{decimal_string, starts_with};

#[test]
fn insert_get_remove() {
    let mut r: Registry<u32> = Registry::new();
    assert_eq!(r.insert("a".to_string(), 1), None);
    assert_eq!(r.insert("b".to_string(), 2), None);
    assert_eq!(r.insert("a".to_string(), 3), Some(1));
    assert_eq!(r.get("a"), Some(&3));
    assert_eq!(r.get("c"), None);
    assert_eq!(r.len(), 2);
    assert_eq!(r.remove("a"), Some(3));
    assert_eq!(r.remove("a"), None);
    assert!(!r.contains_key("a"));
    assert!(r.contains_key("b"));
    assert_eq!(r.keys(), vec!["b".to_string()]);
}

#[test]
fn decimal_numerals() {
    assert_eq!(decimal_string(0), "0");
    assert_eq!(decimal_string(7), "7");
    assert_eq!(decimal_string(10), "10");
    assert_eq!(decimal_string(12345), "12345");
    assert_eq!(decimal_string(usize::MAX), usize::MAX.to_string());
}

#[test]
fn byte_prefixes() {
    assert!(starts_with(b"GET / HTTP/1.1\r\nHost: x", b"GET / HTTP/1.1\r\n"));
    assert!(starts_with(b"abc", b""));
    assert!(!starts_with(b"ab", b"abc"));
    assert!(!starts_with(b"abd", b"abc"));
}
