use mitoxide::strmap::StringMap;
use mitoxide::tagmap::TagMap;
use mitoxide::text;
use mitoxide::time::{duration_millis, epoch_seconds};
use std::time::Duration;

#[test]
fn decimal_numerals() {
    assert_eq!(text::decimal_string(0), "0");
    assert_eq!(text::decimal_string(7), "7");
    assert_eq!(text::decimal_string(10), "10");
    assert_eq!(text::decimal_string(1234567890), "1234567890");
    assert_eq!(text::decimal_string(u64::MAX), "18446744073709551615");
    assert_eq!(text::signed_decimal_string(0), "0");
    assert_eq!(text::signed_decimal_string(-1), "-1");
    assert_eq!(text::signed_decimal_string(i32::MAX), "2147483647");
    assert_eq!(text::signed_decimal_string(i32::MIN), "-2147483648");
}

#[test]
fn searching_in_text() {
    assert!(text::str_contains("hello world", "lo w"));
    assert!(text::str_contains("hello", ""));
    assert!(text::str_contains("", ""));
    assert!(!text::str_contains("", "a"));
    assert!(!text::str_contains("hello", "hello!"));
    assert!(text::str_contains("aaab", "aab"));
    assert!(text::str_contains("grüße", "üß"));
    assert!(text::str_contains_ignoring_case("Hello WORLD", "o wOr"));
    assert!(!text::str_contains_ignoring_case("Hello", "help"));
    assert!(text::str_starts_with(".hidden", "."));
    assert!(text::str_starts_with("abc", ""));
    assert!(!text::str_starts_with("abc", "abcd"));
    assert!(!text::str_starts_with("abc", "b"));
    assert!(text::str_eq("abc", "abc"));
    assert!(!text::str_eq("abc", "abd"));
    assert!(!text::str_eq("abc", "ab"));
    let chars = text::chars_of("a:b:c");
    assert_eq!(text::find_first(&chars, ':'), Some(1));
    assert_eq!(text::find_first(&chars, '@'), None);
}

#[test]
fn building_text() {
    assert_eq!(text::concat("ab", "cd"), "abcd");
    assert_eq!(text::concat("", ""), "");
    assert_eq!(text::copy_str("xyz"), "xyz");
    let chars = text::chars_of("héllo");
    assert_eq!(chars, vec!['h', 'é', 'l', 'l', 'o']);
    assert_eq!(text::string_of_range(&chars, 0, 5), "héllo");
    assert_eq!(text::string_of_range(&chars, 1, 3), "él");
    let parts = vec!["a".to_string(), "".to_string(), "c d".to_string()];
    assert_eq!(text::join_strings(&parts, " "), "a  c d");
    assert_eq!(text::join_strings(&parts, ", "), "a, , c d");
    assert_eq!(text::join_strings(&vec![], " "), "");
    assert_eq!(text::join_strings(&vec!["x".to_string()], " "), "x");
    let mut out = vec!["0".to_string()];
    text::append_copies(&mut out, &parts);
    text::push_copy(&mut out, "z");
    assert_eq!(out, vec!["0", "a", "", "c d", "z"]);
}

#[test]
fn trimming_text() {
    assert_eq!(text::trim_str("  a b \t\r\n"), "a b");
    assert_eq!(text::trim_str("a"), "a");
    assert_eq!(text::trim_str(" \n "), "");
    assert_eq!(text::trim_str(""), "");
    assert_eq!(text::trim_str("\u{a0}x\u{3000}"), "x");
    for c in ['\u{9}', '\u{b}', '\u{c}', '\u{85}', '\u{1680}', '\u{2003}', '\u{2028}', '\u{205f}'] {
        assert!(text::is_space_char(c));
        assert!(c.is_whitespace());
    }
    for c in ['a', '\u{200b}', '\u{8}', '\u{e}', '\u{180e}', '_'] {
        assert!(!text::is_space_char(c));
        assert!(!c.is_whitespace());
    }
    let chars = text::chars_of("x  yz  ");
    assert_eq!(text::trim_range(&chars, 1, 7), "yz");
}

#[test]
fn ports_are_read_as_the_standard_library_reads_them() {
    for s in ["0", "22", "65535", "65536", "", "+", "+5", "-5", "0x16", "00080", "8 ", " 8", "99999999999999999999", "٣"] {
        let chars = text::chars_of(s);
        assert_eq!(text::parse_port(&chars, 0), s.parse::<u16>().ok(), "{:?}", s);
    }
    let chars = text::chars_of("host:2222");
    assert_eq!(text::parse_port(&chars, 5), Some(2222));
    assert_eq!(text::parse_port(&chars, 9), None);
}

#[test]
fn string_maps_keep_the_order_of_insertion() {
    let mut map = StringMap::new();
    assert!(map.is_empty());
    assert_eq!(map.insert("b".to_string(), "1".to_string()), None);
    assert_eq!(map.insert("a".to_string(), "2".to_string()), None);
    assert_eq!(map.insert("b".to_string(), "3".to_string()), Some("1".to_string()));
    assert_eq!(map.len(), 2);
    assert!(!map.is_empty());
    assert!(map.contains_key("a"));
    assert!(!map.contains_key("c"));
    assert_eq!(map.get("b"), Some(&"3".to_string()));
    assert_eq!(map.get("c"), None);
    assert_eq!((map.key_at(0).as_str(), map.value_at(0).as_str()), ("b", "3"));
    assert_eq!((map.key_at(1).as_str(), map.value_at(1).as_str()), ("a", "2"));
    let copy = map.clone();
    assert_eq!(copy.len(), 2);
    assert_eq!(copy.get("a"), Some(&"2".to_string()));
    assert_eq!(copy.key_at(0), "b");
}

#[test]
fn tag_maps_replace_on_registration() {
    let mut map: TagMap<u8> = TagMap::new();
    assert_eq!(map.get("x"), None);
    map.register("x".to_string(), 1);
    map.register("y".to_string(), 2);
    map.register("x".to_string(), 3);
    assert_eq!(map.get("x"), Some(&3));
    assert_eq!(map.get("y"), Some(&2));
    assert!(map.contains("y"));
    assert!(!map.contains("z"));
}

#[test]
fn whole_milliseconds_of_a_span() {
    assert_eq!(duration_millis(&Duration::from_secs(300)), 300_000);
    assert_eq!(duration_millis(&Duration::from_micros(1999)), 1);
    assert_eq!(duration_millis(&Duration::ZERO), 0);
    assert_eq!(duration_millis(&Duration::MAX), u64::MAX);
}

#[test]
fn seconds_since_the_epoch() {
    assert_eq!(epoch_seconds(Some(Duration::from_millis(12345999))), 12345);
    assert_eq!(epoch_seconds(Some(Duration::ZERO)), 0);
    assert_eq!(epoch_seconds(None), 0);
    // the clock of this machine stands behind the year 2020
    match mitoxide::Request::ping() {
        mitoxide::Request::Ping { timestamp, .. } => assert!(timestamp > 1_577_836_800),
        _ => panic!("expected Ping"),
    }
}
