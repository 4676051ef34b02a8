//! The option parser.

use pam_kv::options::{last_text, parse_options, split_option, split_text, OptionMap};
use pam_kv::text::{is_blank, is_whitespace, read_number, same_bytes, same_text, split, Reading};

fn args(list: &[&str]) -> Vec<String> {
    list.iter().map(|s| s.to_string()).collect()
}

#[test]
fn key_and_value_are_split_at_the_first_equals_sign() {
    assert_eq!(split_option("db=/etc/users.yml"), ("db".to_string(), Some("/etc/users.yml".to_string())));
    assert_eq!(split_option("a=b=c"), ("a".to_string(), Some("b=c".to_string())));
    assert_eq!(split_option("=x"), (String::new(), Some("x".to_string())));
    assert_eq!(split_option("k= v "), ("k".to_string(), Some(" v ".to_string())));
}

#[test]
fn a_bare_key_has_no_value() {
    assert_eq!(split_option("debug"), ("debug".to_string(), None));
    assert_eq!(split_option(""), (String::new(), None));
}

#[test]
fn a_blank_value_is_no_value() {
    assert_eq!(split_option("db="), ("db".to_string(), None));
    assert_eq!(split_option("db=   "), ("db".to_string(), None));
    assert_eq!(split_option("db=\t\n"), ("db".to_string(), None));
    assert_eq!(split_option("db=\u{a0}\u{2003}\u{3000}"), ("db".to_string(), None));
    assert_eq!(split_option("db=\u{200b}"), ("db".to_string(), Some("\u{200b}".to_string())));
}

#[test]
fn split_text_keeps_the_text_as_it_stands() {
    assert_eq!(split_text("url=http://h/p?a=b"), ("url".to_string(), "http://h/p?a=b".to_string()));
    assert_eq!(split_text("url=  "), ("url".to_string(), "  ".to_string()));
    assert_eq!(split_text("url="), ("url".to_string(), String::new()));
    assert_eq!(split_text("url"), ("url".to_string(), String::new()));
    assert_eq!(split_text("clé=valeur"), ("clé".to_string(), "valeur".to_string()));
}

#[test]
fn options_are_collected_by_name() {
    let map = parse_options(&args(&["db=/etc/users.yml", "debug", "level=3"]));
    assert_eq!(map.len(), 3);
    assert_eq!(map.value("db"), Some(&"/etc/users.yml".to_string()));
    assert_eq!(map.value("level"), Some(&"3".to_string()));
    assert_eq!(map.value("debug"), None);
    assert!(map.contains("debug"));
    assert_eq!(map.get("debug"), Some(None));
    assert_eq!(map.get("db"), Some(Some(&"/etc/users.yml".to_string())));
    assert_eq!(map.get("other"), None);
    assert!(!map.contains("other"));
    assert!(!map.contains("DB"));
}

#[test]
fn the_last_occurrence_of_an_option_wins() {
    let map = parse_options(&args(&["db=first", "x=1", "db=second"]));
    assert_eq!(map.len(), 2);
    assert_eq!(map.value("db"), Some(&"second".to_string()));
    let map = parse_options(&args(&["db=first", "db"]));
    assert_eq!(map.len(), 1);
    assert!(map.contains("db"));
    assert_eq!(map.value("db"), None);
    let map = parse_options(&args(&["db", "db=later"]));
    assert_eq!(map.value("db"), Some(&"later".to_string()));
}

#[test]
fn no_arguments_give_no_options() {
    let map = parse_options(&Vec::new());
    assert_eq!(map.len(), 0);
    assert_eq!(map.get("db"), None);
}

#[test]
fn insert_replaces_the_value_of_a_known_name() {
    let mut map = OptionMap::new();
    assert_eq!(map.len(), 0);
    map.insert("a".to_string(), Some("1".to_string()));
    map.insert("b".to_string(), None);
    map.insert("a".to_string(), Some("2".to_string()));
    assert_eq!(map.len(), 2);
    assert_eq!(map.value("a"), Some(&"2".to_string()));
    assert_eq!(map.get("b"), Some(None));
}

#[test]
fn last_text_is_the_text_of_the_last_argument_with_the_name() {
    let list = args(&["url=http://one", "x", "url=http://two", "y=1"]);
    assert_eq!(last_text(&list, "url"), Some("http://two".to_string()));
    assert_eq!(last_text(&list, "x"), Some(String::new()));
    assert_eq!(last_text(&list, "y"), Some("1".to_string()));
    assert_eq!(last_text(&list, "z"), None);
    assert_eq!(last_text(&args(&["url=  "]), "url"), Some("  ".to_string()));
    assert_eq!(last_text(&Vec::new(), "url"), None);
}

#[test]
fn whitespace_is_what_unicode_calls_white_space() {
    for c in ['\t', '\n', '\u{b}', '\u{c}', '\r', ' ', '\u{85}', '\u{a0}', '\u{1680}', '\u{2000}',
        '\u{200a}', '\u{2028}', '\u{2029}', '\u{202f}', '\u{205f}', '\u{3000}']
    {
        assert!(is_whitespace(c));
    }
    for c in ['a', '0', '=', '\u{8}', '\u{e}', '\u{1f}', '\u{200b}', '\u{180e}', '\u{feff}', '\u{2060}'] {
        assert!(!is_whitespace(c));
    }
}

#[test]
fn whitespace_agrees_with_the_standard_library_on_every_character() {
    let mut n: u32 = 0;
    while n <= 0x10ffff {
        if let Some(c) = char::from_u32(n) {
            assert_eq!(is_whitespace(c), c.is_whitespace());
        }
        n += 1;
    }
}

#[test]
fn blank_text_holds_only_whitespace() {
    assert!(is_blank(""));
    assert!(is_blank(" \t\r\n"));
    assert!(!is_blank(" a "));
    assert!(!is_blank("."));
}

#[test]
fn texts_and_bytes_are_compared_exactly() {
    assert!(same_text("", ""));
    assert!(same_text("abc", "abc"));
    assert!(!same_text("abc", "abC"));
    assert!(!same_text("abc", "abcd"));
    assert!(!same_text("é", "e\u{301}"));
    assert!(same_bytes(&vec![1, 2, 3], &vec![1, 2, 3]));
    assert!(!same_bytes(&vec![1, 2, 3], &vec![1, 2]));
    assert!(!same_bytes(&vec![1, 2, 3], &vec![1, 2, 4]));
    assert!(same_bytes(&Vec::new(), &Vec::new()));
}

#[test]
fn a_text_is_split_at_every_separator() {
    assert_eq!(split("a,b,c", ','), vec!["a", "b", "c"]);
    assert_eq!(split("abc", ','), vec!["abc"]);
    assert_eq!(split("", ','), vec![""]);
    assert_eq!(split(",", ','), vec!["", ""]);
    assert_eq!(split("a,,b,", ','), vec!["a", "", "b", ""]);
    assert_eq!(split("m=1,é=2", ','), vec!["m=1", "é=2"]);
    for text in ["", ",", "a", "a,b", ",a,,b,,", "x=1,y=2,z"] {
        let expected: Vec<String> = text.split(',').map(|s| s.to_string()).collect();
        assert_eq!(split(text, ','), expected);
    }
}

#[test]
fn numbers_are_read_against_a_limit() {
    assert_eq!(read_number("0", 10), Reading::Number(0));
    assert_eq!(read_number("10", 10), Reading::Number(10));
    assert_eq!(read_number("11", 10), Reading::TooLarge);
    assert_eq!(read_number("007", 10), Reading::Number(7));
    assert_eq!(read_number("4294967295", u32::MAX), Reading::Number(u32::MAX));
    assert_eq!(read_number("4294967296", u32::MAX), Reading::TooLarge);
    assert_eq!(read_number("99999999999999999999999999", u32::MAX), Reading::TooLarge);
    assert_eq!(read_number("99999999999999999999999999x", u32::MAX), Reading::NoNumber);
    assert_eq!(read_number("", 10), Reading::NoNumber);
    assert_eq!(read_number("+1", 10), Reading::NoNumber);
    assert_eq!(read_number("-1", 10), Reading::NoNumber);
    assert_eq!(read_number("1 ", 10), Reading::NoNumber);
    assert_eq!(read_number("5", 0), Reading::TooLarge);
    assert_eq!(read_number("0", 0), Reading::Number(0));
}
