use gtk_shell::keyboard::{insertable_text, KeyboardEvent, KeyboardEventKind, Modifiers};
use gtk_shell::boxed::boxed;

#[test]
fn macro_check() {
    let default = vec![Box::new(1), Box::new(2), Box::new(3)];
    let macros = boxed(vec![1, 2, 3]);

    assert_eq!(default, macros)
}

#[test]
fn insertable_text_keeps_printable() {
    assert_eq!(insertable_text("a").as_deref(), Some("a"));
    assert_eq!(insertable_text("日").as_deref(), Some("日"));
}

#[test]
fn insertable_text_rejects_xkb_control_chars() {
    // What xkb hands back for Backspace, Return, Escape and Delete.
    assert_eq!(insertable_text("\u{8}"), None);
    assert_eq!(insertable_text("\r"), None);
    assert_eq!(insertable_text("\u{1b}"), None);
    assert_eq!(insertable_text("\u{7f}"), None);
}

#[test]
fn insertable_text_rejects_empty() {
    assert_eq!(insertable_text(""), None);
}

#[test]
fn insertable_text_drops_controls_inside_text() {
    assert_eq!(insertable_text("a\u{8}b\u{9f}c").as_deref(), Some("abc"));
    assert_eq!(insertable_text("\u{1f}\u{7f}"), None);
    assert_eq!(insertable_text("\u{a0}").as_deref(), Some("\u{a0}"));
}

#[test]
fn boxed_keeps_order_and_handles_empty() {
    let v: Vec<Box<&str>> = boxed(vec!["x", "y"]);
    assert_eq!(v.len(), 2);
    assert_eq!(*v[0], "x");
    assert_eq!(*v[1], "y");
    assert!(boxed(Vec::<u8>::new()).is_empty());
}

#[test]
fn keyboard_event_accessors() {
    let press = KeyboardEvent::new(
        KeyboardEventKind::Press { keysym: 0xff08, repeat: false },
        Modifiers::default(),
    );
    assert_eq!(press.keysym(), Some(0xff08));
    assert!(press.is_press(0xff08));
    assert!(!press.is_release(0xff08));
    assert_eq!(press.commit_text(), None);

    let commit = KeyboardEvent::new(KeyboardEventKind::Commit("hi".to_string()), Modifiers::default());
    assert_eq!(commit.commit_text(), Some("hi"));
    assert_eq!(commit.keysym(), None);
}
