use gtk_shell::keyboard::{key, KeyboardEvent, KeyboardEventKind, Modifiers};
use gtk_shell::pointer::{button, PointerEventKind};
use gtk_shell::widgets::segmented::{Segment, SegmentedButton, SelectionMode};

/// A control with `count` label segments.
fn placed_control(count: usize) -> SegmentedButton {
    let mut control = SegmentedButton::new();
    for i in 0..count {
        control = control.segment(Segment::new(&format!("S{i}")));
    }
    control
}

/// A press/release pair on segment `index`; returns the changes reported.
fn click_segment(control: &mut SegmentedButton, index: usize) -> Vec<(usize, bool)> {
    let mut seen = Vec::new();
    for kind in [
        PointerEventKind::Press { button: button::LEFT },
        PointerEventKind::Release { button: button::LEFT },
    ] {
        seen.extend(control.on_pointer(kind, Some(index)).changes);
    }
    seen
}

fn press_key(control: &mut SegmentedButton, keysym: u32, seen: &mut Vec<(usize, bool)>) -> bool {
    let out = control.on_keyboard(&KeyboardEvent::new(
        KeyboardEventKind::Press { keysym, repeat: false },
        Modifiers::default(),
    ));
    seen.extend(out.changes);
    out.redraw
}

#[test]
fn single_select_click_switches_selection_and_reports_both_changes() {
    let mut control = placed_control(3).selected(0);

    let seen = click_segment(&mut control, 1);

    assert!(!control.is_selected(0));
    assert!(control.is_selected(1));
    assert_eq!(seen, vec![(0, false), (1, true)]);
}

#[test]
fn single_select_click_on_already_selected_reports_nothing() {
    let mut control = placed_control(3).selected(1);

    let seen = click_segment(&mut control, 1);

    assert!(control.is_selected(1));
    assert!(seen.is_empty());
}

#[test]
fn multi_select_clicks_toggle_independently() {
    let mut control = placed_control(3).mode(SelectionMode::Multi);

    let mut seen = click_segment(&mut control, 0);
    seen.extend(click_segment(&mut control, 2));
    seen.extend(click_segment(&mut control, 0));

    assert!(!control.is_selected(0));
    assert!(control.is_selected(2));
    assert_eq!(seen, vec![(0, true), (2, true), (0, false)]);
}

#[test]
fn release_in_different_segment_does_not_activate() {
    let mut control = placed_control(3);

    let mut seen = control.on_pointer(PointerEventKind::Press { button: button::LEFT }, Some(0)).changes;
    seen.extend(control.on_pointer(PointerEventKind::Release { button: button::LEFT }, Some(2)).changes);

    assert!(seen.is_empty());
    assert!(control.selected_index().is_none());
}

#[test]
fn disabled_segment_ignores_clicks_while_neighbours_still_work() {
    let mut control = placed_control(3);
    control.set_segment_enabled(1, false);

    let mut seen = click_segment(&mut control, 1);
    assert!(control.selected_index().is_none());

    seen.extend(click_segment(&mut control, 2));
    assert!(control.is_selected(2));
    assert_eq!(seen, vec![(2, true)]);
}

#[test]
fn disabled_control_ignores_clicks_and_keys() {
    let mut control = placed_control(3).enabled(false);

    let mut seen = click_segment(&mut control, 0);
    assert!(seen.is_empty());

    assert!(!press_key(&mut control, key::SPACE, &mut seen));
    assert!(seen.is_empty());
    assert!(!control.focusable());
}

#[test]
fn segmented_set_selected_does_not_report() {
    let mut control = placed_control(3);

    control.set_selected(1, true);

    assert!(control.is_selected(1));
    assert_eq!(control.selected_indices(), vec![1]);
}

#[test]
fn segmented_keyboard_navigation_skips_disabled_clamps_and_activates() {
    let mut control = placed_control(3);
    control.set_segment_enabled(1, false);
    let mut seen = Vec::new();

    control.on_keyboard(&KeyboardEvent::new(KeyboardEventKind::Focus, Modifiers::default()));
    assert_eq!(control.focused_index(), 0);

    // RIGHT skips the disabled middle segment and lands on the last one.
    assert!(press_key(&mut control, key::RIGHT, &mut seen));
    assert_eq!(control.focused_index(), 2);
    // RIGHT again: already at the end, no wraparound.
    assert!(!press_key(&mut control, key::RIGHT, &mut seen));
    assert_eq!(control.focused_index(), 2);

    // LEFT skips the disabled middle segment on the way back.
    assert!(press_key(&mut control, key::LEFT, &mut seen));
    assert_eq!(control.focused_index(), 0);
    assert!(!press_key(&mut control, key::LEFT, &mut seen));

    assert!(press_key(&mut control, key::SPACE, &mut seen));
    assert!(control.is_selected(0));
    assert_eq!(seen, vec![(0, true)]);
}

#[test]
fn single_select_keeps_at_most_one_selected() {
    let mut control = placed_control(4).selected(3);
    for i in [0, 2, 1, 1, 3] {
        click_segment(&mut control, i);
        assert_eq!(control.selected_indices().len(), 1);
    }
    assert_eq!(control.selected_index(), Some(3));
}

#[test]
fn multi_select_toggle_twice_restores() {
    let mut control = placed_control(3).mode(SelectionMode::Multi).selected(1);
    let before = control.selected_indices();
    let first = click_segment(&mut control, 2);
    let second = click_segment(&mut control, 2);
    assert_eq!(first, vec![(2, true)]);
    assert_eq!(second, vec![(2, false)]);
    assert_eq!(control.selected_indices(), before);
}

#[test]
fn switching_to_single_mode_keeps_first_selection() {
    let mut control = placed_control(3).mode(SelectionMode::Multi);
    control.set_selected(0, true);
    control.set_selected(2, true);
    let control = control.mode(SelectionMode::Single);
    assert_eq!(control.selected_indices(), vec![0]);
}
