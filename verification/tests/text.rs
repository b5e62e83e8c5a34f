use promptline::message::{clone_texts, Message, Role};
use promptline::text::{
    char_is_whitespace, chars_of, find_first, find_last, text_contains, text_ends_with,
    text_equals, text_starts_with, trim,
};

#[test]
fn whitespace_agrees_with_unicode() {
    let mut n: u32 = 0;
    while n <= 0x3100 {
        if let Some(c) = char::from_u32(n) {
            assert_eq!(char_is_whitespace(c), c.is_whitespace(), "U+{:04X}", n);
        }
        n += 1;
    }
    assert!(!char_is_whitespace('\u{FEFF}'));
    assert!(!char_is_whitespace('\u{10FFFF}'));
}

#[test]
fn trim_agrees_with_std() {
    for s in ["", " ", "a", " a", "a ", "  a b \n", "\u{3000}\u{e9} x\u{2003}", "\t\r\n", "x\u{85}"] {
        assert_eq!(trim(s), s.trim(), "{:?}", s);
    }
}

#[test]
fn searches_count_characters() {
    assert_eq!(chars_of("a\u{e9}b"), vec!['a', '\u{e9}', 'b']);
    let cs = chars_of("\u{e9}{x}{y}");
    assert_eq!(find_first(&cs, '{'), Some(1));
    assert_eq!(find_last(&cs, '}'), Some(6));
    assert_eq!(find_first(&cs, 'z'), None);
    assert_eq!(find_last(&cs, 'z'), None);
    assert_eq!(find_last(&chars_of(""), 'z'), None);
}

#[test]
fn prefix_suffix_and_substring() {
    assert!(text_starts_with("/help", "/"));
    assert!(text_starts_with("abc", ""));
    assert!(!text_starts_with("", "/"));
    assert!(!text_starts_with("a/", "/"));
    assert!(text_ends_with("done FINISH", "FINISH"));
    assert!(!text_ends_with("FINISHED", "FINISH"));
    assert!(!text_ends_with("ISH", "FINISH"));
    assert!(text_contains("the task is complete.", "task is complete"));
    assert!(text_contains("abc", ""));
    assert!(text_contains("", ""));
    assert!(text_contains("aab", "ab"));
    assert!(!text_contains("ab", "abc"));
    assert!(!text_contains("task is  complete", "task is complete"));
    assert!(text_equals("\u{e9}", "\u{e9}"));
    assert!(!text_equals("a", "ab"));
    assert!(!text_equals("ab", "ac"));
}

#[test]
fn messages_carry_their_role() {
    let m = Message::system("s".to_string());
    assert_eq!((m.role, m.content.as_str()), (Role::System, "s"));
    let m = Message::user("u");
    assert_eq!((m.role, m.content.as_str()), (Role::User, "u"));
    let m = Message::assistant("a".to_string());
    assert_eq!((m.role, m.content.as_str()), (Role::Assistant, "a"));
    assert_eq!(m.clone().content, "a");
    assert_eq!(Role::System.as_str(), "system");
    assert_eq!(Role::User.as_str(), "user");
    assert_eq!(Role::Assistant.as_str(), "assistant");
    assert_eq!(clone_texts(&vec!["x".to_string(), "y".to_string()]), vec!["x".to_string(), "y".to_string()]);
}
