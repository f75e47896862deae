use gtk_shell::font::face_runs;
use gtk_shell::gallery::{
    button_code, cycle_target, focus_count, focus_stops, keysym_from_named, FocusChange,
    GalleryFocus, MouseButton, NamedKey, RAIL_FOCUS,
};
use gtk_shell::keyboard::key;
use gtk_shell::pointer::button;

#[test]
fn tab_walks_focusable_stops_and_wraps() {
    let stops = focus_stops(true, &vec![false, true, true]);
    assert_eq!(stops, vec![true, false, true, true]);
    assert_eq!(focus_count(3), 4);
    let mut f = GalleryFocus::new();
    let (change, redraw) = f.cycle_focus(&stops, false);
    assert_eq!(change, Some(FocusChange { blur: None, focus: Some(0) }));
    assert!(redraw);
    f.cycle_focus(&stops, false);
    assert_eq!(f.focus, Some(2));
    f.cycle_focus(&stops, false);
    assert_eq!(f.focus, Some(3));
    f.cycle_focus(&stops, false);
    assert_eq!(f.focus, Some(0));
    f.cycle_focus(&stops, true);
    assert_eq!(f.focus, Some(3));
}

#[test]
fn shift_tab_from_nothing_starts_before_the_last_stop() {
    // The walk starts just before stop 0, so going back visits the
    // second-to-last stop first and the last one after a full turn.
    assert_eq!(cycle_target(None, &vec![true, true, true], true), Some(1));
    assert_eq!(cycle_target(None, &vec![false, false, true], true), Some(2));
    assert_eq!(cycle_target(None, &vec![true], true), Some(0));
}

#[test]
fn tab_with_nothing_focusable_does_nothing() {
    let stops = vec![false, false];
    let mut f = GalleryFocus::new();
    assert_eq!(f.cycle_focus(&stops, false), (None, false));
    assert_eq!(f.focus, None);
    f.focus = Some(1);
    assert_eq!(f.cycle_focus(&stops, false), (None, false));
    assert_eq!(f.cycle_focus(&vec![false], true), (None, false));
    assert_eq!(f.focus, Some(1));
}

#[test]
fn tab_on_the_only_focusable_stop_keeps_it_and_repaints() {
    let mut f = GalleryFocus::new();
    f.focus = Some(1);
    assert_eq!(f.cycle_focus(&vec![false, true], false), (None, true));
    assert_eq!(f.focus, Some(1));
}

#[test]
fn clicks_focus_the_topmost_hit() {
    let mut f = GalleryFocus::new();
    assert_eq!(GalleryFocus::click_target(true, true, true, &vec![true]), Some(RAIL_FOCUS));
    assert_eq!(GalleryFocus::click_target(true, false, true, &vec![true]), None);
    assert_eq!(GalleryFocus::click_target(false, true, true, &vec![true, false, true, false]), Some(3));
    assert_eq!(GalleryFocus::click_target(false, true, false, &vec![true]), None);
    assert_eq!(f.update_focus_from_click(false, true, true, &vec![false, true]), Some(FocusChange { blur: None, focus: Some(2) }));
    assert_eq!(f.update_focus_from_click(false, true, true, &vec![false, true]), None);
    assert!(f.set_focus(None).is_some());
}

#[test]
fn page_switch_keeps_focus_only_on_the_rail() {
    let mut f = GalleryFocus::new();
    f.focus = Some(3);
    assert!(!f.take_nav_selection(None));
    assert!(!f.take_nav_selection(Some(0)));
    assert_eq!(f.focus, Some(3));
    assert!(f.take_nav_selection(Some(2)));
    assert_eq!((f.page, f.focus), (2, None));
    f.focus = Some(RAIL_FOCUS);
    f.set_page(4);
    assert_eq!((f.page, f.focus), (4, Some(RAIL_FOCUS)));
}

#[test]
fn window_system_keys_and_buttons() {
    assert_eq!(button_code(MouseButton::Left), Some(button::LEFT));
    assert_eq!(button_code(MouseButton::Middle), Some(button::MIDDLE));
    assert_eq!(button_code(MouseButton::Other), None);
    assert_eq!(keysym_from_named(NamedKey::Enter), Some(key::RETURN));
    assert_eq!(keysym_from_named(NamedKey::Delete), Some(key::DELETE));
    assert_eq!(keysym_from_named(NamedKey::Other), None);
}

#[test]
fn runs_split_where_the_typeface_changes() {
    let runs = face_runs("abc日本語abc", &vec![1, 1, 1, 2, 2, 2, 1, 1, 1]);
    let texts: Vec<&str> = runs.iter().map(|(s, _)| s.as_str()).collect();
    assert_eq!(texts, vec!["abc", "日本語", "abc"]);
    assert_eq!(runs.iter().map(|r| r.1).collect::<Vec<_>>(), vec![1, 2, 1]);
    assert_eq!(face_runs("abc", &vec![4, 4, 4]).len(), 1);
    assert!(face_runs("", &vec![]).is_empty());
}

use gtk_shell::gallery::{keyboard_input_actions, paste_event, KeyAction, LogicalKey};
use gtk_shell::keyboard::{KeyboardEventKind, Modifiers};

#[test]
fn key_events_become_focus_moves_pastes_and_deliveries() {
    let none = Modifiers::default();
    let shift = Modifiers { shift: true, ..Modifiers::default() };
    let ctrl = Modifiers { ctrl: true, ..Modifiers::default() };
    let tab = LogicalKey::Named(NamedKey::Tab);
    assert_eq!(keyboard_input_actions(&tab, true, false, None, shift), vec![KeyAction::CycleFocus { backward: true }]);
    assert_eq!(
        keyboard_input_actions(&tab, false, false, None, none),
        vec![KeyAction::Deliver(KeyboardEventKind::Release { keysym: key::TAB })]
    );
    let v = LogicalKey::Character("V".to_string());
    assert_eq!(keyboard_input_actions(&v, true, false, Some("v"), ctrl), vec![KeyAction::Paste]);
    // Without Ctrl the letter is typed.
    assert_eq!(
        keyboard_input_actions(&v, true, false, Some("v"), none),
        vec![KeyAction::Deliver(KeyboardEventKind::Commit("v".to_string()))]
    );
    // A shortcut types nothing.
    let a = LogicalKey::Character("a".to_string());
    assert!(keyboard_input_actions(&a, true, false, Some("a"), ctrl).is_empty());
    // Backspace delivers the editing key; its control character is no text.
    let bs = LogicalKey::Named(NamedKey::Backspace);
    assert_eq!(
        keyboard_input_actions(&bs, true, true, Some("\u{8}"), none),
        vec![KeyAction::Deliver(KeyboardEventKind::Press { keysym: key::BACKSPACE, repeat: true })]
    );
    assert!(keyboard_input_actions(&a, false, false, Some("a"), none).is_empty());
}

#[test]
fn paste_delivers_insertable_text_only() {
    assert_eq!(paste_event("hi\u{7}!"), Some(KeyboardEventKind::Commit("hi!".to_string())));
    assert_eq!(paste_event("\u{1b}"), None);
}
