use gtk_shell::keyboard::{key, KeyboardEvent, KeyboardEventKind, Modifiers};
use gtk_shell::text_field::{EditOutcome, TextField};

fn commit(field: &mut TextField, text: &str) -> EditOutcome {
    field.on_keyboard(&KeyboardEvent::new(
        KeyboardEventKind::Commit(text.to_string()),
        Modifiers::default(),
    ))
}

fn press(field: &mut TextField, keysym: u32) -> bool {
    field
        .on_keyboard(&KeyboardEvent::new(
            KeyboardEventKind::Press { keysym, repeat: false },
            Modifiers::default(),
        ))
        .redraw
}

#[test]
fn commit_of_control_char_is_rejected() {
    let mut field = TextField::new();
    commit(&mut field, "abc");
    let inserted = commit(&mut field, "\u{8}");
    assert!(!inserted.redraw, "control char must not request a redraw");
    assert_eq!(field.text_value(), "abc");
}

#[test]
fn commit_inserts_at_cursor() {
    let mut field = TextField::new();
    commit(&mut field, "ab");
    assert_eq!(field.text_value(), "ab");
    assert_eq!(field.cursor(), 2);
}

#[test]
fn commit_multibyte_advances_cursor_by_bytes_not_chars() {
    let mut field = TextField::new();
    commit(&mut field, "日本語");
    assert_eq!(field.text_value(), "日本語");
    assert_eq!(field.cursor(), "日本語".len());
}

#[test]
fn backspace_removes_one_char_not_one_byte() {
    let mut field = TextField::new();
    commit(&mut field, "日本語");
    assert!(press(&mut field, key::BACKSPACE));
    assert_eq!(field.text_value(), "日本");
    assert_eq!(field.cursor(), "日本".len());
}

#[test]
fn backspace_at_start_is_noop() {
    let mut field = TextField::new();
    assert!(!press(&mut field, key::BACKSPACE));
    assert_eq!(field.text_value(), "");
}

#[test]
fn backspace_repeated_does_not_panic_on_multibyte() {
    let mut field = TextField::new();
    commit(&mut field, "日本語abc");
    for _ in 0..10 {
        press(&mut field, key::BACKSPACE);
    }
    assert_eq!(field.text_value(), "");
    assert_eq!(field.cursor(), 0);
}

#[test]
fn delete_forward_removes_one_char_after_cursor() {
    let mut field = TextField::new();
    commit(&mut field, "日本語");
    assert!(field.set_cursor(0));
    assert!(press(&mut field, key::DELETE));
    assert_eq!(field.text_value(), "本語");
    assert_eq!(field.cursor(), 0);
}

#[test]
fn left_right_move_by_char_not_byte() {
    let mut field = TextField::new();
    commit(&mut field, "日本語");
    assert!(press(&mut field, key::LEFT));
    assert_eq!(field.cursor(), "日本".len());
    assert!(press(&mut field, key::RIGHT));
    assert_eq!(field.cursor(), "日本語".len());
}

#[test]
fn home_end_move_to_bounds() {
    let mut field = TextField::new();
    commit(&mut field, "hello");
    assert!(press(&mut field, key::HOME));
    assert_eq!(field.cursor(), 0);
    assert!(press(&mut field, key::END));
    assert_eq!(field.cursor(), 5);
}

#[test]
fn insert_in_middle_of_multibyte_text() {
    let mut field = TextField::new();
    commit(&mut field, "日本語");
    assert!(field.set_cursor("日".len()));
    commit(&mut field, "X");
    assert_eq!(field.text_value(), "日X本語");
}

#[test]
fn on_change_called_with_current_text() {
    let mut field = TextField::new();
    let out = commit(&mut field, "hi");
    assert!(out.text_changed);
    assert_eq!(field.text_value(), "hi");
}

#[test]
fn disabled_field_ignores_keyboard() {
    let mut field = TextField::new().enabled(false);
    assert!(!commit(&mut field, "x").redraw);
    assert_eq!(field.text_value(), "");
}

#[test]
fn set_cursor_refuses_offsets_inside_a_character() {
    let mut field = TextField::new();
    commit(&mut field, "日本");
    assert!(!field.set_cursor(1));
    assert!(!field.set_cursor(7));
    assert_eq!(field.cursor(), 6);
    assert!(field.set_cursor(3));
    assert_eq!(field.cursor(), 3);
}

#[test]
fn backspace_undoes_a_typed_character() {
    let mut field = TextField::new();
    commit(&mut field, "日語");
    assert!(field.set_cursor(3));
    commit(&mut field, "本");
    assert_eq!(field.text_value(), "日本語");
    assert!(press(&mut field, key::BACKSPACE));
    assert_eq!(field.text_value(), "日語");
    assert_eq!(field.cursor(), 3);
}

#[test]
fn text_builder_places_cursor_at_end() {
    let field = TextField::new().text("héllo").unwrap();
    assert_eq!(field.text_value(), "héllo");
    assert_eq!(field.cursor(), "héllo".len());
    assert_eq!(TextField::new().text("a\u{7}b").unwrap().text_value(), "a\u{7}b");
}
