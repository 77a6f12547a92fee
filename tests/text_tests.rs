use afterpot::text::{blank, char_len, contains, decimal_string, redact_text, selected_text, strip_prefix, truncate_chars};

#[test]
fn char_len_counts_characters_not_bytes() {
    assert_eq!(char_len("hello"), 5);
    assert_eq!(char_len("こんにちは"), 5);
    assert_eq!(char_len("é🙂"), 2);
    assert_eq!(char_len(""), 0);
}

#[test]
fn truncate_keeps_whole_characters() {
    assert_eq!(truncate_chars("こんにちは世界", 3), "こんに");
    assert_eq!(truncate_chars("abc", 10), "abc");
    assert_eq!(truncate_chars("abc", 0), "");
}

#[test]
fn decimal_notation() {
    assert_eq!(decimal_string(0), "0");
    assert_eq!(decimal_string(7), "7");
    assert_eq!(decimal_string(1203), "1203");
    assert_eq!(decimal_string(usize::MAX), usize::MAX.to_string());
}

#[test]
fn redact_counts_multibyte_characters() {
    let s = "日本語のテキスト";
    assert_eq!(s.len(), 24);
    assert_eq!(redact_text(s, false), "<redacted 8 chars>");
    assert_eq!(redact_text("", false), "<redacted 0 chars>");
    assert_eq!(redact_text("🙂🙂", false), "<redacted 2 chars>");
}

#[test]
fn redact_verbose_short_text_unchanged() {
    assert_eq!(redact_text("short text", true), "short text");
    let fifty = "x".repeat(50);
    assert_eq!(redact_text(&fifty, true), fifty);
}

#[test]
fn redact_verbose_long_text_cut() {
    let long = "あ".repeat(60);
    let expected = format!("{}... (60 chars)", "あ".repeat(50));
    assert_eq!(redact_text(&long, true), expected);
}

#[test]
fn blank_and_selected_text() {
    assert!(blank(""));
    assert!(blank(" \t\n\u{3000}"));
    assert!(!blank("  a "));
    assert_eq!(selected_text("   ".to_string()), None);
    assert_eq!(selected_text("".to_string()), None);
    assert_eq!(selected_text(" hi ".to_string()), Some(" hi ".to_string()));
}

#[test]
fn infix_and_prefix() {
    assert!(contains("gemini-1.5-flash", "flash"));
    assert!(contains("abc", ""));
    assert!(!contains("gemini-pro", "flash"));
    assert!(!contains("fl", "flash"));
    assert_eq!(strip_prefix("models/gemini-pro", "models/"), Some("gemini-pro".to_string()));
    assert_eq!(strip_prefix("tunedModels/x", "models/"), None);
    assert_eq!(strip_prefix("models/", "models/"), Some(String::new()));
}
