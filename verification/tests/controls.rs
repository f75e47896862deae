use gtk_shell::keyboard::{key, KeyboardEvent, KeyboardEventKind, Modifiers};
use gtk_shell::pointer::{button, PointerEventKind};
use gtk_shell::widgets::controls::{
    Button, ButtonShape, ButtonSize, CheckBox, IconActivation, IconButton, ListItem, RadioButton,
    Switch, SwitchIcons,
};
use gtk_shell::widgets::icon::Icon;
use gtk_shell::widgets::interaction::Morph;

const PRESS: PointerEventKind = PointerEventKind::Press { button: button::LEFT };
const RELEASE: PointerEventKind = PointerEventKind::Release { button: button::LEFT };

fn press_event(keysym: u32) -> KeyboardEvent {
    KeyboardEvent::new(KeyboardEventKind::Press { keysym, repeat: false }, Modifiers::default())
}

fn space_commit() -> KeyboardEvent {
    KeyboardEvent::new(KeyboardEventKind::Commit(" ".to_string()), Modifiers::default())
}

// --- icon button ---

fn icon_click(b: &mut IconButton) -> Vec<IconActivation> {
    let mut seen = Vec::new();
    seen.extend(b.on_pointer(PRESS, true).1);
    seen.extend(b.on_pointer(RELEASE, true).1);
    seen
}

#[test]
fn click_fires_on_click_when_not_toggling() {
    let mut b = IconButton::new().icon(Icon::Check);
    assert_eq!(icon_click(&mut b), vec![IconActivation::Clicked]);
    assert!(!b.is_selected());
}

#[test]
fn toggle_click_flips_selected_and_reports() {
    let mut b = IconButton::new().icon(Icon::Check).toggle(true);
    let mut seen = icon_click(&mut b);
    assert!(b.is_selected());
    seen.extend(icon_click(&mut b));
    assert!(!b.is_selected());
    assert_eq!(seen, vec![IconActivation::Changed(true), IconActivation::Changed(false)]);
}

#[test]
fn release_outside_does_not_activate() {
    let mut b = IconButton::new().icon(Icon::Check);
    assert!(b.on_pointer(PRESS, true).1.is_none());
    assert!(b.on_pointer(RELEASE, false).1.is_none());
}

#[test]
fn disabled_button_ignores_input() {
    let mut b = IconButton::new().icon(Icon::Check).enabled(false);
    assert!(icon_click(&mut b).is_empty());
    let (redraw, act) = b.on_keyboard(&press_event(key::SPACE));
    assert!(!redraw);
    assert!(act.is_none());
}

#[test]
fn icon_button_space_activates_however_it_arrives() {
    let mut b = IconButton::new().icon(Icon::Check);
    let (redraw, act) = b.on_keyboard(&press_event(key::SPACE));
    assert!(redraw);
    assert_eq!(act, Some(IconActivation::Clicked));
    let (redraw, act) = b.on_keyboard(&space_commit());
    assert!(redraw);
    assert_eq!(act, Some(IconActivation::Clicked));
}

#[test]
fn icon_button_set_selected_does_not_report() {
    let mut b = IconButton::new().icon(Icon::Check).toggle(true);
    b.set_selected(true);
    assert!(b.is_selected());
}

// --- checkbox ---

fn checkbox_click(c: &mut CheckBox) -> Vec<bool> {
    let mut seen = Vec::new();
    seen.extend(c.on_pointer(PRESS, true).1);
    seen.extend(c.on_pointer(RELEASE, true).1);
    seen
}

#[test]
fn checkbox_click_toggles_and_reports() {
    let mut c = CheckBox::new(false);
    let mut seen = checkbox_click(&mut c);
    assert!(c.checked());
    seen.extend(checkbox_click(&mut c));
    assert!(!c.checked());
    assert_eq!(seen, vec![true, false]);
}

#[test]
fn checkbox_release_outside_does_not_toggle() {
    let mut c = CheckBox::new(false);
    c.on_pointer(PRESS, true);
    c.on_pointer(RELEASE, false);
    assert!(!c.checked());
}

#[test]
fn disabled_checkbox_ignores_input() {
    let mut c = CheckBox::new(false).enabled(false);
    checkbox_click(&mut c);
    assert!(!c.checked());
    assert!(!c.on_keyboard(&press_event(key::SPACE)).0);
    assert!(!c.checked());
}

#[test]
fn checkbox_space_toggles_however_it_arrives() {
    let mut c = CheckBox::new(false);
    assert!(c.on_keyboard(&press_event(key::SPACE)).0);
    assert!(c.checked());
    assert!(c.on_keyboard(&space_commit()).0);
    assert!(!c.checked());
}

#[test]
fn checkbox_set_checked_does_not_report() {
    let mut c = CheckBox::new(false);
    assert!(c.set_checked(true));
    assert!(c.checked());
    assert!(!c.set_checked(true));
}

#[test]
fn set_checked_clears_indeterminate_even_when_unchanged() {
    for checked in [false, true] {
        let mut c = CheckBox::new(checked).indeterminate(true);
        assert!(!c.set_checked(checked));
        assert_eq!(c.checked(), checked);
        assert!(!c.indeterminate_value());
        assert!(!c.is_selected() || checked);
    }
}

#[test]
fn toggle_clears_indeterminate() {
    let mut c = CheckBox::new(false).indeterminate(true);
    assert!(c.indeterminate_value());
    assert_eq!(checkbox_click(&mut c), vec![true]);
    assert!(!c.indeterminate_value());
    assert!(c.checked());
}

#[test]
fn checkbox_toggle_twice_restores_checked() {
    let mut c = CheckBox::new(true).indeterminate(true);
    assert!(!c.toggle());
    assert!(c.toggle());
    assert!(c.checked());
    assert!(!c.indeterminate_value());
    assert!(c.is_selected());
}

// --- switch ---

fn switch_click(s: &mut Switch) -> Vec<bool> {
    let mut seen = Vec::new();
    seen.extend(s.on_pointer(PRESS, true).1);
    seen.extend(s.on_pointer(RELEASE, true).1);
    seen
}

#[test]
fn switch_click_toggles_and_reports() {
    let mut s = Switch::new(false);
    let mut seen = switch_click(&mut s);
    assert!(s.checked());
    seen.extend(switch_click(&mut s));
    assert!(!s.checked());
    assert_eq!(seen, vec![true, false]);
}

#[test]
fn switch_release_outside_does_not_toggle() {
    let mut s = Switch::new(false);
    s.on_pointer(PRESS, true);
    s.on_pointer(RELEASE, false);
    assert!(!s.checked());
}

#[test]
fn disabled_switch_ignores_input() {
    let mut s = Switch::new(false).enabled(false);
    switch_click(&mut s);
    assert!(!s.checked());
    assert!(!s.on_keyboard(&press_event(key::SPACE)).0);
    assert!(!s.checked());
}

#[test]
fn switch_space_toggles_however_it_arrives() {
    let mut s = Switch::new(false);
    assert!(s.on_keyboard(&press_event(key::SPACE)).0);
    assert!(s.checked());
    assert!(s.on_keyboard(&space_commit()).0);
    assert!(!s.checked());
}

#[test]
fn switch_set_checked_does_not_report() {
    let mut s = Switch::new(false);
    assert!(s.set_checked(true));
    assert!(s.checked());
}

#[test]
fn disabled_switch_releases_its_handle() {
    let mut s = Switch::new(false).enabled(false);
    let (out, report) = s.on_pointer(PRESS, true);
    assert_eq!(out.morph, Morph::Release);
    assert!(report.is_none());
}

#[test]
fn switch_icons_choose_per_state() {
    assert!(!SwitchIcons::NoIcons.on_unselected());
    assert!(!SwitchIcons::NoIcons.on_selected());
    assert!(SwitchIcons::Selected.on_selected());
    assert!(!SwitchIcons::Selected.on_unselected());
    assert!(SwitchIcons::Both.on_selected());
    assert!(SwitchIcons::Both.on_unselected());
}

// --- radio button ---

fn radio_click(r: &mut RadioButton) -> Vec<bool> {
    let mut seen = Vec::new();
    if r.on_pointer(PRESS, true).1 {
        seen.push(true);
    }
    if r.on_pointer(RELEASE, true).1 {
        seen.push(true);
    }
    seen
}

#[test]
fn click_selects_and_reports_once() {
    let mut r = RadioButton::new(false);
    assert_eq!(radio_click(&mut r), vec![true]);
    assert!(r.selected());
}

#[test]
fn click_on_already_selected_does_not_report_again() {
    let mut r = RadioButton::new(true);
    assert!(radio_click(&mut r).is_empty());
    assert!(r.selected());
}

#[test]
fn release_outside_does_not_select() {
    let mut r = RadioButton::new(false);
    r.on_pointer(PRESS, true);
    r.on_pointer(RELEASE, false);
    assert!(!r.selected());
}

#[test]
fn disabled_radio_ignores_input() {
    let mut r = RadioButton::new(false).enabled(false);
    radio_click(&mut r);
    assert!(!r.selected());
    assert!(!r.on_keyboard(&press_event(key::SPACE)).0);
    assert!(!r.selected());
}

#[test]
fn space_selects_however_it_arrives() {
    let mut r = RadioButton::new(false);
    assert!(r.on_keyboard(&press_event(key::SPACE)).0);
    assert!(r.selected());
    let (redraw, reported) = r.on_keyboard(&space_commit());
    assert!(redraw);
    assert!(r.selected());
    assert!(!reported);
}

#[test]
fn commit_space_selects_when_unselected() {
    let mut r = RadioButton::new(false);
    let (redraw, reported) = r.on_keyboard(&space_commit());
    assert!(redraw);
    assert!(r.selected());
    assert!(reported);
}

#[test]
fn radio_button_set_selected_does_not_report() {
    let mut r = RadioButton::new(false);
    assert!(r.set_selected(true));
    assert!(r.selected());
}

#[test]
fn set_selected_false_does_not_report() {
    let mut r = RadioButton::new(true);
    assert!(r.set_selected(false));
    assert!(!r.selected());
}

// --- list item ---

fn item_click(item: &mut ListItem) -> usize {
    let mut calls = 0;
    if item.on_pointer(PRESS, true).activate {
        calls += 1;
    }
    if item.on_pointer(RELEASE, true).activate {
        calls += 1;
    }
    calls
}

#[test]
fn interactive_item_fires_on_click_when_pressed_and_released_inside() {
    let mut item = ListItem::new("Headline").clickable(true);
    assert_eq!(item_click(&mut item), 1);
}

#[test]
fn release_outside_does_not_fire_on_click() {
    let mut item = ListItem::new("Headline").clickable(true);
    assert!(!item.on_pointer(PRESS, true).activate);
    assert!(!item.on_pointer(RELEASE, false).activate);
}

#[test]
fn non_interactive_item_ignores_pointer() {
    let mut item = ListItem::new("Headline");
    let dirty = item.on_pointer(PointerEventKind::Enter, true).redraw;
    assert!(!dirty);
    assert_eq!(item_click(&mut item), 0);
    assert!(!item.focusable());
}

#[test]
fn disabled_item_does_not_fire_on_click() {
    let mut item = ListItem::new("Headline").clickable(true).enabled(false);
    assert_eq!(item_click(&mut item), 0);
    assert!(!item.focusable());
}

#[test]
fn space_and_return_fire_on_click_when_focusable() {
    let mut item = ListItem::new("Headline").clickable(true);
    assert!(item.focusable());
    let a = item.on_keyboard(&space_commit());
    assert!(a.redraw && a.activate);
    let b = item.on_keyboard(&press_event(key::RETURN));
    assert!(b.redraw && b.activate);
}

#[test]
fn focus_and_blur_track_focused_state() {
    let mut item = ListItem::new("Headline").clickable(true);
    assert!(item.on_keyboard(&KeyboardEvent::new(KeyboardEventKind::Focus, Modifiers::default())).redraw);
    assert!(item.focused);
    assert!(item.on_keyboard(&KeyboardEvent::new(KeyboardEventKind::Blur, Modifiers::default())).redraw);
    assert!(!item.focused);
}

// --- button ---

#[test]
fn button_click_activates_only_inside() {
    let mut b = Button::new("OK");
    assert!(!b.on_pointer(PRESS, true).activate);
    assert!(b.on_pointer(RELEASE, true).activate);
    assert!(!b.on_pointer(PRESS, true).activate);
    assert!(!b.on_pointer(RELEASE, false).activate);
}

#[test]
fn button_geometry_tokens() {
    assert_eq!(ButtonSize::Small.height(), 40);
    assert_eq!(ButtonShape::Round.corner_radius(ButtonSize::Small, false), 20);
}

#[test]
fn hit_testing_uses_assigned_layout_rect() {
    // The renderer hit-tests against the assigned rect and hands the answer
    // over as `inside`: a press and release inside activate, outside not.
    let mut b = Button::new("OK");
    assert!(!b.on_pointer(PRESS, false).activate);
    assert!(!b.on_pointer(RELEASE, false).activate);
    assert!(!b.on_pointer(PRESS, true).activate);
    assert!(b.on_pointer(RELEASE, true).activate);
}

#[test]
fn click_within_padded_touch_target_toggles() {
    // A click in the padded touch target counts as inside the switch.
    let mut s = Switch::new(false);
    assert_eq!(switch_click(&mut s), vec![true]);
    assert!(s.checked());
}
