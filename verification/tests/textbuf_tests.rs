use seeker::textbuf::{is_printable_char, ImeEvent, KeyPress, TextBuffer};

#[test]
fn appending_past_capacity_is_a_noop() {
    let mut buf = TextBuffer::new();
    for i in 0..40u32 {
        let c = char::from_u32('a' as u32 + (i % 26)).unwrap();
        buf.key_text(&c.to_string());
    }
    let text = buf.contents();
    assert_eq!(text.chars().count(), 32);
    // The first 32 appends landed; the 33rd and later changed nothing.
    assert!(text.starts_with("abcdefghijklmnopqrstuvwxyzabcdef"));
    buf.key_text("z");
    assert_eq!(buf.contents(), text);
}

#[test]
fn backspace_on_empty_buffer_is_a_noop() {
    let mut buf = TextBuffer::new();
    buf.backspace();
    assert_eq!(buf.contents(), "");
    buf.key_text("ab");
    buf.backspace();
    assert_eq!(buf.contents(), "a");
}

#[test]
fn ime_commit_is_truncated_at_capacity() {
    let mut buf = TextBuffer::new();
    buf.key_text("aaaaaaaaaaaaaaaaaaaaaaaaaaaaaa");
    assert_eq!(buf.contents().chars().count(), 30);
    buf.handle_ime(&ImeEvent::Commit { value: "hello".to_string() });
    let text = buf.contents();
    assert_eq!(text.chars().count(), 32);
    assert!(text.ends_with("he"));
}

#[test]
fn ime_preedit_and_toggle_events_leave_buffer_alone() {
    let mut buf = TextBuffer::new();
    buf.key_text("x");
    buf.handle_ime(&ImeEvent::Preedit { value: "zzz".to_string(), has_cursor: true });
    buf.handle_ime(&ImeEvent::Enabled);
    buf.handle_ime(&ImeEvent::Disabled);
    assert_eq!(buf.contents(), "x");
}

#[test]
fn key_text_with_control_character_is_rejected() {
    let mut buf = TextBuffer::new();
    buf.key_text("ok");
    buf.key_text("\u{1b}");
    buf.key_text("a\u{7f}b");
    assert_eq!(buf.contents(), "ok");
}

#[test]
fn enter_archives_text_as_toast_and_clears() {
    let mut buf = TextBuffer::new();
    assert!(buf.handle_key(&KeyPress::Enter).is_none());
    buf.handle_key(&KeyPress::Text("folder".to_string()));
    let toast = buf.handle_key(&KeyPress::Enter).unwrap();
    assert_eq!(toast.text, "folder");
    assert_eq!(toast.remaining_ms, 5000);
    assert_eq!(buf.contents(), "");
}

#[test]
fn toast_expires_after_its_lifetime() {
    let mut buf = TextBuffer::new();
    buf.handle_key(&KeyPress::Text("t".to_string()));
    let mut toast = buf.handle_key(&KeyPress::Enter).unwrap();
    assert!(!toast.tick(4999));
    assert_eq!(toast.remaining_ms, 1);
    assert!(toast.tick(1));
    assert_eq!(toast.remaining_ms, 0);
    assert!(toast.tick(16));
}

#[test]
fn printable_character_classification() {
    assert!(is_printable_char('a'));
    assert!(is_printable_char('\u{4e2d}'));
    assert!(is_printable_char(' '));
    assert!(!is_printable_char('\u{1b}'));
    assert!(!is_printable_char('\u{7f}'));
    assert!(!is_printable_char('\u{e000}'));
    assert!(!is_printable_char('\u{f8ff}'));
    assert!(!is_printable_char('\u{f0000}'));
    assert!(!is_printable_char('\u{100000}'));
    assert!(is_printable_char('\u{ffff}'));
}
