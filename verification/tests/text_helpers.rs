use process_bridge::text::chars_of;
use process_bridge::text::render_decimal;
use process_bridge::text::starts_with;

#[test]
fn decimal_rendering_matches_the_usual_notation() {
    assert_eq!(render_decimal(0), "0");
    assert_eq!(render_decimal(7), "7");
    assert_eq!(render_decimal(10), "10");
    assert_eq!(render_decimal(-1), "-1");
    assert_eq!(render_decimal(1234567890), "1234567890");
    assert_eq!(render_decimal(i32::MAX), "2147483647");
    assert_eq!(render_decimal(i32::MIN), "-2147483648");
    for n in [-1000, -99, -10, -9, 1, 9, 11, 99, 100, 101, 255, 256, 65535] {
        assert_eq!(render_decimal(n), format!("{}", n));
    }
}

#[test]
fn prefix_test_counts_characters() {
    assert!(starts_with("[BOT_EVENT]{}", "[BOT_EVENT]"));
    assert!(starts_with("abc", ""));
    assert!(starts_with("", ""));
    assert!(starts_with("abc", "abc"));
    assert!(!starts_with("ab", "abc"));
    assert!(!starts_with("xabc", "abc"));
    assert!(!starts_with("", "a"));
    assert!(starts_with("\u{e9}t\u{e9}", "\u{e9}t"));
    assert!(!starts_with("\u{e9}t\u{e9}", "et"));
}

#[test]
fn characters_come_out_in_order() {
    assert_eq!(chars_of("a\u{e9}\u{4e2d}z"), vec!['a', '\u{e9}', '\u{4e2d}', 'z']);
    assert_eq!(chars_of(""), Vec::<char>::new());
}
