use request_relay::label::{decimal_text, window_label};

#[test]
fn single_digits() {
    let digits = ["0", "1", "2", "3", "4", "5", "6", "7", "8", "9"];
    for (n, digit) in digits.iter().enumerate() {
        assert_eq!(decimal_text(n as u128), *digit);
    }
}

#[test]
fn several_digits() {
    assert_eq!(decimal_text(10), "10");
    assert_eq!(decimal_text(99), "99");
    assert_eq!(decimal_text(100), "100");
    assert_eq!(decimal_text(1_234_567_890), "1234567890");
    assert_eq!(decimal_text(1_700_000_000_000), "1700000000000");
}

#[test]
fn largest_number() {
    assert_eq!(decimal_text(u128::MAX), "340282366920938463463374607431768211455");
}

#[test]
fn decimal_text_agrees_with_formatting() {
    let mut n: u128 = 1;
    for _ in 0..120 {
        assert_eq!(decimal_text(n), format!("{}", n));
        assert_eq!(decimal_text(n - 1), format!("{}", n - 1));
        n = n.wrapping_mul(2).wrapping_add(n / 3);
    }
}

#[test]
fn label_is_prefix_and_time() {
    assert_eq!(window_label(1_700_000_000_000), "window-1700000000000");
    assert_eq!(window_label(0), "window-0");
}

#[test]
fn labels_of_different_times_differ() {
    assert_ne!(window_label(1_700_000_000_000), window_label(1_700_000_000_001));
    assert_ne!(window_label(1), window_label(10));
    assert_ne!(window_label(0), window_label(100));
}
