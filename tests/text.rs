use rssbot::notify::compose_message;
use rssbot::text::{escape_markdown, is_markup, push_decimal};

#[test]
fn escape_leaves_plain_text() {
    assert_eq!(escape_markdown("Hello world"), "Hello world");
    assert_eq!(escape_markdown(""), "");
}

#[test]
fn escape_marks_markup_characters() {
    assert_eq!(escape_markdown("a_b*c.d!"), "a\\_b\\*c\\.d\\!");
    assert_eq!(escape_markdown("[x](y)"), "\\[x\\]\\(y\\)");
    assert_eq!(escape_markdown("1+1=2 | ~`>#-{}\\"), "1\\+1\\=2 \\| \\~\\`\\>\\#\\-\\{\\}\\\\");
}

#[test]
fn escape_keeps_unicode() {
    assert_eq!(escape_markdown("caf\u{e9} \u{1F600}."), "caf\u{e9} \u{1F600}\\.");
}

#[test]
fn markup_character_set() {
    for c in "_*[]()~`>#+-=|{}.!\\".chars() {
        assert!(is_markup(c), "{}", c);
    }
    for c in "aZ0 ,;:?'\"/@%&^$".chars() {
        assert!(!is_markup(c), "{}", c);
    }
}

#[test]
fn decimal_numerals() {
    let mut s = String::from("n=");
    push_decimal(&mut s, 0);
    assert_eq!(s, "n=0");
    let mut t = String::new();
    push_decimal(&mut t, 503);
    assert_eq!(t, "503");
    let mut u = String::new();
    push_decimal(&mut u, u64::MAX);
    assert_eq!(u, "18446744073709551615");
}

#[test]
fn message_layout() {
    assert_eq!(
        compose_message("Release 1.2", "Fixes (many)."),
        "\u{1F4F0} *Release 1\\.2*\n\nFixes \\(many\\)\\."
    );
}
