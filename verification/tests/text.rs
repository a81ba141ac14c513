use re_viewer::text::chars_of;
use re_viewer::text::comes_before;
use re_viewer::text::decimal_text;
use re_viewer::text::has_text;
use re_viewer::text::last_place;
use re_viewer::text::padded_decimal_text;

#[test]
fn numbers_are_printed_in_decimal() {
    assert_eq!(decimal_text(0), "0");
    assert_eq!(decimal_text(7), "7");
    assert_eq!(decimal_text(10), "10");
    assert_eq!(decimal_text(1234567890), "1234567890");
    assert_eq!(decimal_text(u128::MAX), u128::MAX.to_string());
}

#[test]
fn numbers_are_filled_up_with_zeros() {
    assert_eq!(padded_decimal_text(0, 6), "000000");
    assert_eq!(padded_decimal_text(42, 6), "000042");
    assert_eq!(padded_decimal_text(1234567, 6), "1234567");
    assert_eq!(padded_decimal_text(5, 0), "5");
}

#[test]
fn text_is_found() {
    assert!(has_text("hello world", "lo w"));
    assert!(has_text("hello", ""));
    assert!(!has_text("hello", "hello!"));
    assert!(!has_text("", "a"));
    assert!(has_text("stra\u{df}e", "\u{df}"));
}

#[test]
fn the_last_place_is_found() {
    assert_eq!(last_place("a%23b%23c", "%23"), Some(5));
    assert_eq!(last_place("%23", "%23"), Some(0));
    assert_eq!(last_place("a%2", "%23"), None);
    assert_eq!(last_place("\u{e9}%23", "%23"), Some(1));
}

#[test]
fn text_is_ordered_by_code_points() {
    assert!(comes_before("a", "b"));
    assert!(comes_before("a", "ab"));
    assert!(comes_before("Z", "a"));
    assert!(comes_before("", "a"));
    assert!(!comes_before("a", "a"));
    assert!(!comes_before("b", "a"));
    for a in ["", "a", "ab", "b", "\u{e9}", "z\u{10000}", "\u{ffff}"] {
        for b in ["", "a", "ab", "b", "\u{e9}", "z\u{10000}", "\u{ffff}"] {
            assert_eq!(comes_before(a, b), a < b);
        }
    }
}

#[test]
fn characters_are_listed() {
    assert_eq!(chars_of("a\u{e9}b"), vec!['a', '\u{e9}', 'b']);
    assert_eq!(chars_of(""), Vec::<char>::new());
}
