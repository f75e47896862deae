use gtk_shell::keyboard::{key, KeyboardEvent, KeyboardEventKind, Modifiers};
use gtk_shell::pointer::{button, PointerEventKind};
use gtk_shell::widgets::icon::Icon;
use gtk_shell::widgets::navigation_rail::{Hit, NavigationRail, NavigationRailItem};

fn placed_rail(count: usize) -> NavigationRail {
    let mut rail = NavigationRail::new();
    for i in 0..count {
        rail = rail.item(NavigationRailItem::new(Icon::Check).label(&format!("D{i}")));
    }
    rail
}

/// A press/release pair on `hit`; returns the destinations reported and
/// whether the menu button was clicked.
fn click(rail: &mut NavigationRail, hit: Hit) -> (Vec<usize>, bool) {
    let mut seen = Vec::new();
    let mut menu = false;
    for kind in [
        PointerEventKind::Press { button: button::LEFT },
        PointerEventKind::Release { button: button::LEFT },
    ] {
        let out = rail.on_pointer(kind, Some(hit));
        seen.extend(out.selected);
        menu |= out.menu_clicked;
    }
    (seen, menu)
}

fn press_key(rail: &mut NavigationRail, keysym: u32, seen: &mut Vec<usize>) -> bool {
    let out = rail.on_keyboard(&KeyboardEvent::new(
        KeyboardEventKind::Press { keysym, repeat: false },
        Modifiers::default(),
    ));
    seen.extend(out.selected);
    out.redraw
}

#[test]
fn click_switches_selection_and_reports() {
    let mut rail = placed_rail(3);
    let (seen, _) = click(&mut rail, Hit::Item(2));
    assert_eq!(rail.selected_index(), 2);
    assert_eq!(seen, vec![2]);
}

#[test]
fn click_on_already_selected_reports_nothing() {
    let mut rail = placed_rail(3);
    let (seen, _) = click(&mut rail, Hit::Item(0));
    assert_eq!(rail.selected_index(), 0);
    assert!(seen.is_empty());
}

#[test]
fn release_in_different_item_does_not_activate() {
    let mut rail = placed_rail(3);
    let mut seen = Vec::new();
    seen.extend(rail.on_pointer(PointerEventKind::Press { button: button::LEFT }, Some(Hit::Item(0))).selected);
    seen.extend(rail.on_pointer(PointerEventKind::Release { button: button::LEFT }, Some(Hit::Item(2))).selected);
    assert!(seen.is_empty());
    assert_eq!(rail.selected_index(), 0);
}

#[test]
fn disabled_item_ignores_clicks_while_neighbours_still_work() {
    let mut rail = placed_rail(3);
    rail.set_item_enabled(1, false);

    let (mut seen, _) = click(&mut rail, Hit::Item(1));
    assert_eq!(rail.selected_index(), 0);

    seen.extend(click(&mut rail, Hit::Item(2)).0);
    assert_eq!(rail.selected_index(), 2);
    assert_eq!(seen, vec![2]);
}

#[test]
fn disabled_rail_ignores_clicks_and_keys() {
    let mut rail = placed_rail(3).enabled(false);
    let (mut seen, _) = click(&mut rail, Hit::Item(1));
    assert!(seen.is_empty());
    assert!(!press_key(&mut rail, key::SPACE, &mut seen));
    assert!(seen.is_empty());
    assert!(!rail.focusable());
}

#[test]
fn navigation_rail_set_selected_does_not_report() {
    let mut rail = placed_rail(3);
    assert!(rail.set_selected(1));
    assert_eq!(rail.selected_index(), 1);
    assert!(!rail.set_selected(1));
    assert!(!rail.set_selected(7));
    assert_eq!(rail.selected_index(), 1);
}

#[test]
fn navigation_rail_keyboard_navigation_skips_disabled_clamps_and_activates() {
    let mut rail = placed_rail(3);
    rail.set_item_enabled(1, false);
    let mut seen = Vec::new();

    rail.on_keyboard(&KeyboardEvent::new(KeyboardEventKind::Focus, Modifiers::default()));
    assert_eq!(rail.focused_index(), 0);
    // DOWN skips the disabled middle destination and lands on the last.
    assert!(press_key(&mut rail, key::DOWN, &mut seen));
    assert_eq!(rail.focused_index(), 2);
    // DOWN again: already at the end, no wraparound.
    assert!(!press_key(&mut rail, key::DOWN, &mut seen));
    assert_eq!(rail.focused_index(), 2);
    // SPACE activates the focused (not yet selected) last destination.
    assert!(press_key(&mut rail, key::SPACE, &mut seen));
    assert_eq!(rail.selected_index(), 2);
    assert_eq!(seen, vec![2]);
    // UP skips the disabled middle destination on the way back.
    assert!(press_key(&mut rail, key::UP, &mut seen));
    assert_eq!(rail.focused_index(), 0);
    assert!(!press_key(&mut rail, key::UP, &mut seen));
}

#[test]
fn navigation_rail_space_activates_however_it_arrives() {
    let mut rail = placed_rail(2);
    let mut seen = Vec::new();
    rail.on_keyboard(&KeyboardEvent::new(KeyboardEventKind::Focus, Modifiers::default()));
    press_key(&mut rail, key::DOWN, &mut seen);
    let out = rail.on_keyboard(&KeyboardEvent::new(
        KeyboardEventKind::Commit(" ".to_string()),
        Modifiers::default(),
    ));
    assert!(out.redraw);
    seen.extend(out.selected);
    assert_eq!(rail.selected_index(), 1);
    assert_eq!(seen, vec![1]);
}

#[test]
fn menu_click_fires_its_own_callback_without_touching_selection() {
    let mut rail = placed_rail(2).menu_icon(Icon::Menu);
    let (seen, menu) = click(&mut rail, Hit::Menu);
    assert!(menu);
    assert!(seen.is_empty());
    assert_eq!(rail.selected_index(), 0);
}

#[test]
fn disabled_items_make_rail_unfocusable() {
    let mut rail = placed_rail(2);
    rail.set_item_enabled(0, false);
    rail.set_item_enabled(1, false);
    assert!(!rail.focusable());
}

#[test]
fn menu_click_toggles_expansion() {
    let mut rail = placed_rail(2).menu_icon(Icon::Menu);
    assert!(!rail.is_expanded());
    click(&mut rail, Hit::Menu);
    assert!(rail.is_expanded());
    click(&mut rail, Hit::Menu);
    assert!(!rail.is_expanded());
}

#[test]
fn click_destination_works_when_expanded() {
    let mut rail = placed_rail(3).expanded(true);
    let (seen, _) = click(&mut rail, Hit::Item(2));
    assert_eq!(rail.selected_index(), 2);
    assert_eq!(seen, vec![2]);
}

#[test]
fn menu_region_is_a_gap_without_a_menu_button() {
    let mut rail = placed_rail(2);
    let (seen, menu) = click(&mut rail, Hit::Menu);
    assert!(!menu);
    assert!(seen.is_empty());
    assert!(!rail.is_expanded());
}
