use game_server::gui::matches_search;
use game_server::text::{decimal_string, push_zero_padded, starts_with};

#[test]
fn numbers_render_in_decimal() {
    assert_eq!(decimal_string(0), "0");
    assert_eq!(decimal_string(7), "7");
    assert_eq!(decimal_string(1234567890), "1234567890");
    assert_eq!(decimal_string(u64::MAX), u64::MAX.to_string());
}

#[test]
fn zero_padding_fills_to_the_width() {
    let mut s = String::new();
    push_zero_padded(&mut s, 5, 2);
    push_zero_padded(&mut s, 42, 4);
    push_zero_padded(&mut s, 12345, 4);
    assert_eq!(s, "05004212345");
}

#[test]
fn prefixes_and_case() {
    assert!(starts_with(".ping 5", ".ping"));
    assert!(!starts_with(".pin", ".ping"));
    assert!(starts_with("x", ""));
    assert!(matches_search("ÄbC", "äb"));
    assert!(!matches_search("abc", "äb"));
}
