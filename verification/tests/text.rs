use pastemyst::text::{decimal, join, same};

#[test]
fn decimal_of_zero_is_one_digit() {
    assert_eq!(decimal(0), "0");
}

#[test]
fn decimal_of_single_digits() {
    assert_eq!(decimal(7), "7");
    assert_eq!(decimal(9), "9");
}

#[test]
fn decimal_at_the_first_carry() {
    assert_eq!(decimal(10), "10");
    assert_eq!(decimal(99), "99");
    assert_eq!(decimal(100), "100");
}

#[test]
fn decimal_keeps_inner_zeros() {
    assert_eq!(decimal(1_000_203), "1000203");
}

#[test]
fn decimal_of_the_largest_number() {
    assert_eq!(decimal(u64::MAX), "18446744073709551615");
}

#[test]
fn decimal_agrees_with_the_standard_rendering() {
    let samples: [u64; 8] = [1, 12, 123, 1337, 42, 1_588_441_258, 9_999_999_999, 1 << 63];
    for n in samples {
        assert_eq!(decimal(n), n.to_string());
    }
}

#[test]
fn same_tells_equal_text() {
    assert!(same("", ""));
    assert!(same("never", "never"));
    assert!(same("h\u{e9}llo \u{1f980}", "h\u{e9}llo \u{1f980}"));
}

#[test]
fn same_tells_different_text() {
    assert!(!same("never", "neveR"));
    assert!(!same("1h", "1h "));
    assert!(!same("", "x"));
    assert!(!same("10h", "1h"));
    assert!(!same("\u{e9}", "e"));
}

#[test]
fn join_puts_the_tail_behind_the_head() {
    assert_eq!(join("ab", "cd"), "abcd");
    assert_eq!(join("", "cd"), "cd");
    assert_eq!(join("ab", ""), "ab");
}
