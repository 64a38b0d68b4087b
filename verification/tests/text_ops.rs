use ngrok_nodejs::text::clone_list;
use ngrok_nodejs::text::contains_char;
use ngrok_nodejs::text::contains_text;
use ngrok_nodejs::text::decimal;
use ngrok_nodejs::text::digit_value;
use ngrok_nodejs::text::joined;
use ngrok_nodejs::text::parses_as_i32;
use ngrok_nodejs::text::same_text;
use ngrok_nodejs::text::split_once;
use ngrok_nodejs::text::starts_with;
use ngrok_nodejs::text::without_prefix;

#[test]
fn split_once_cuts_at_first_separator() {
    let parts = split_once("X-Token: a:b", ':');
    assert_eq!(parts, Some(("X-Token".to_string(), " a:b".to_string())));
    assert_eq!(split_once("no separator", ':'), None);
    assert_eq!(split_once(":", ':'), Some((String::new(), String::new())));
    assert_eq!(split_once("", ':'), None);
}

#[test]
fn split_once_counts_characters_not_bytes() {
    let parts = split_once("clé:valeur", ':');
    assert_eq!(parts, Some(("clé".to_string(), "valeur".to_string())));
}

#[test]
fn without_prefix_strips_only_a_leading_prefix() {
    assert_eq!(without_prefix("unix:/tmp/s.sock", "unix:"), "/tmp/s.sock");
    assert_eq!(without_prefix("/tmp/unix:s", "unix:"), "/tmp/unix:s");
    assert_eq!(without_prefix("uni", "unix:"), "uni");
    assert_eq!(without_prefix("unix:", "unix:"), "");
}

#[test]
fn contains_char_finds_any_position() {
    assert!(contains_char("a/b", '/'));
    assert!(contains_char("/", '/'));
    assert!(!contains_char("ab", '/'));
    assert!(!contains_char("", '/'));
}

#[test]
fn starts_with_and_same_text_compare_whole_texts() {
    assert!(starts_with("pipe:x", "pipe:"));
    assert!(starts_with("pipe:", "pipe:"));
    assert!(!starts_with("pip", "pipe:"));
    assert!(starts_with("anything", ""));
    assert!(same_text("http", "http"));
    assert!(!same_text("http", "https"));
    assert!(!same_text("http", "HTTP"));
}

#[test]
fn contains_text_finds_a_phrase() {
    assert!(contains_text("a global default has already been set", "already been set"));
    assert!(contains_text("already been set", "already been set"));
    assert!(!contains_text("already been se", "already been set"));
    assert!(contains_text("abc", ""));
    assert!(!contains_text("", "a"));
    assert!(contains_text("aab", "ab"));
}

#[test]
fn decimal_writes_numbers_without_leading_zeros() {
    assert_eq!(decimal(0), "0");
    assert_eq!(decimal(7), "7");
    assert_eq!(decimal(10), "10");
    assert_eq!(decimal(8080), "8080");
    assert_eq!(decimal(65535), "65535");
    assert_eq!(decimal(4294967295), "4294967295");
}

#[test]
fn joined_and_clone_list_keep_every_character() {
    assert_eq!(joined("tcp://", "localhost"), "tcp://localhost");
    assert_eq!(joined("", ""), "");
    let list = vec!["a".to_string(), "".to_string(), "b:c".to_string()];
    assert_eq!(clone_list(&list), list);
}

#[test]
fn number_check_agrees_with_the_standard_parser() {
    let texts = [
        "", "0", "7", "80", "8080", "+80", "-80", "+", "-", "+-1", "--1", "++1", "1-", "1+",
        "00000000000000000080", "-0", "+0", "-00", "2147483647", "2147483648", "-2147483648",
        "-2147483649", "+2147483647", "+2147483648", "02147483647", "002147483648",
        "99999999999999999999999999", "-99999999999999999999999999", " 80", "80 ", "8 0", "8_0",
        "0x50", "80.0", "1e3", "eighty", "８０", "٨٠", "80\n", "\t80", "4294967296", "4294967295",
        "21474836470", "-21474836480", "1234567890", "12345678901",
    ];
    for text in texts {
        assert_eq!(parses_as_i32(text), text.parse::<i32>().is_ok(), "text {text:?}");
    }
    for n in [i32::MIN, i32::MIN + 1, -1, 0, 1, i32::MAX - 1, i32::MAX] {
        assert!(parses_as_i32(&n.to_string()));
        assert!(parses_as_i32(&format!("{n:+}")));
    }
    for n in [i32::MAX as i64 + 1, i32::MIN as i64 - 1, i64::MAX, i64::MIN] {
        assert!(!parses_as_i32(&n.to_string()));
    }
}

#[test]
fn digit_value_knows_the_ten_digits_only() {
    assert_eq!(digit_value('0'), Some(0));
    assert_eq!(digit_value('9'), Some(9));
    assert_eq!(digit_value('5'), Some(5));
    assert_eq!(digit_value('/'), None);
    assert_eq!(digit_value(':'), None);
    assert_eq!(digit_value('a'), None);
    assert_eq!(digit_value('٨'), None);
}
