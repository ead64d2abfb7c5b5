use conductor::text::{decimal, starts_with, str_eq};

#[test]
fn decimal_writes_plain_digits() {
    assert_eq!(decimal(0), "0");
    assert_eq!(decimal(7), "7");
    assert_eq!(decimal(42), "42");
    assert_eq!(decimal(8080), "8080");
    assert_eq!(decimal(u64::MAX), "18446744073709551615");
}

#[test]
fn starts_with_compares_the_leading_characters() {
    assert!(starts_with("init:abc", "init:"));
    assert!(starts_with("init:", "init:"));
    assert!(!starts_with("init", "init:"));
    assert!(!starts_with("xinit:", "init:"));
    assert!(starts_with("anything", ""));
}

#[test]
fn str_eq_is_equality_of_contents() {
    assert!(str_eq("Terminate", "Terminate"));
    assert!(!str_eq("Terminate", "terminate"));
    assert!(!str_eq("Terminate", "Terminate "));
}
