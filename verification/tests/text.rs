use claire::text::{concat_str, copy_strings, ends_with, find_char, join, json_string, owned, pad, same_text, slice, trim};

#[test]
fn padding_right_aligns() {
    assert_eq!(pad("ab", 5), "   ab");
    assert_eq!(pad("abcdef", 5), "abcdef");
    assert_eq!(pad("é", 3), "  é");
    assert_eq!(format!("{:>10}", "snapshot"), pad("snapshot", 10));
}

#[test]
fn joining_and_suffixes() {
    assert_eq!(join(&vec![], ", "), "");
    assert_eq!(join(&vec!["a".to_string()], ", "), "a");
    assert_eq!(join(&vec!["a".to_string(), "b".to_string(), "c".to_string()], ", "), "a, b, c");
    assert!(ends_with("stateEnteredEventDetails", "EventDetails"));
    assert!(!ends_with("Details", "EventDetails"));
    assert!(ends_with("x", ""));
}

#[test]
fn finding_and_slicing() {
    assert_eq!(find_char("a_b_c", '_', 0), 1);
    assert_eq!(find_char("a_b_c", '_', 2), 3);
    assert_eq!(find_char("abc", '_', 0), 3);
    assert_eq!(slice("héllo", 1, 3), "él");
    assert_eq!(concat_str("tag:", "x"), "tag:x");
    assert!(same_text("a", "a") && !same_text("a", "b"));
    assert_eq!(owned("x"), "x");
    assert_eq!(copy_strings(&vec!["p".to_string()]), vec!["p"]);
}

#[test]
fn json_string_quotes_and_escapes() {
    assert_eq!(json_string("plain"), "\"plain\"");
    assert_eq!(json_string("a\"b\\c\n"), "\"a\\\"b\\\\c\\n\"");
    assert_eq!(trim("  x y \n"), "x y");
}

#[test]
fn json_string_escapes_control_characters() {
    assert_eq!(json_string("\u{1}\t\u{8}\u{c}\r\u{1f}"), "\"\\u0001\\t\\b\\f\\r\\u001f\"");
    assert_eq!(json_string("é/\u{7f}"), "\"é/\u{7f}\"");
    assert_eq!(json_string(""), "\"\"");
}

#[test]
fn trim_removes_unicode_white_space() {
    assert_eq!(trim("\u{3000}\u{a0} yes\u{2029}\u{85}"), "yes");
    assert_eq!(trim("\u{200b}x"), "\u{200b}x");
    assert_eq!(trim(" \t\n"), "");
    assert_eq!(trim("a b"), "a b");
}
