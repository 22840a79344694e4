use souk::text::{copy_string, copy_strings, decimal_of, decimal_string, plain_decimal_of, str_eq};

#[test]
fn equal_strings_are_equal() {
    assert!(str_eq("", ""));
    assert!(str_eq("flathub", "flathub"));
    assert!(str_eq("grüße", "grüße"));
}

#[test]
fn different_strings_are_different() {
    assert!(!str_eq("flathub", "flathub-beta"));
    assert!(!str_eq("flathub", "Flathub"));
    assert!(!str_eq("a", ""));
    assert!(!str_eq("é", "e"));
}

#[test]
fn copies_hold_the_same_text() {
    assert_eq!(copy_string(&"org.gnome.Maps".to_string()), "org.gnome.Maps");
    let list = vec!["network".to_string(), "".to_string(), "x11".to_string()];
    assert_eq!(copy_strings(&list), list);
    assert_eq!(copy_strings(&Vec::new()), Vec::<String>::new());
}

#[test]
fn numerals_are_read() {
    assert_eq!(decimal_of("0"), Some(0));
    assert_eq!(decimal_of("7"), Some(7));
    assert_eq!(decimal_of("042"), Some(42));
    assert_eq!(decimal_of("1234567890"), Some(1234567890));
    assert_eq!(decimal_of("18446744073709551615"), Some(u64::MAX));
}

#[test]
fn what_is_no_numeral_is_not_read() {
    assert_eq!(decimal_of(""), None);
    assert_eq!(decimal_of("4 2"), None);
    assert_eq!(decimal_of("-1"), None);
    assert_eq!(decimal_of("+1"), None);
    assert_eq!(decimal_of("12a"), None);
    assert_eq!(decimal_of("٣"), None);
    assert_eq!(decimal_of("1é"), None);
}

#[test]
fn numerals_beyond_64_bits_are_not_read() {
    assert_eq!(decimal_of("18446744073709551616"), None);
    assert_eq!(decimal_of("99999999999999999999"), None);
    assert_eq!(decimal_of("100000000000000000000000000"), None);
}

#[test]
fn numbers_are_written_without_leading_zeros() {
    assert_eq!(decimal_string(0), "0");
    assert_eq!(decimal_string(9), "9");
    assert_eq!(decimal_string(10), "10");
    assert_eq!(decimal_string(4711), "4711");
    assert_eq!(decimal_string(u64::MAX), "18446744073709551615");
}

#[test]
fn plain_numerals_are_read_back() {
    for n in [0u64, 1, 9, 10, 99, 100, 12345, u64::MAX - 1, u64::MAX] {
        assert_eq!(plain_decimal_of(&decimal_string(n)), Some(n));
    }
}

#[test]
fn numerals_with_leading_zeros_are_not_plain() {
    assert_eq!(plain_decimal_of("00"), None);
    assert_eq!(plain_decimal_of("07"), None);
    assert_eq!(plain_decimal_of("0"), Some(0));
    assert_eq!(plain_decimal_of(""), None);
    assert_eq!(plain_decimal_of("1x"), None);
    assert_eq!(plain_decimal_of("18446744073709551616"), None);
}
