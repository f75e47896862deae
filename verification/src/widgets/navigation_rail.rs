//! Material 3 navigation rail: a vertical column of destinations with
//! exactly one selected, and an optional leading menu button that opens and
//! closes the rail. The rail owns selection, hover, press and the keyboard
//! cursor for every destination.
use vstd::prelude::*;

use crate::keyboard::{key, KeyboardEvent};
use crate::pointer::{button, PointerEventKind};
use crate::widgets::icon::Icon;
use crate::widgets::interaction::{key_intent, key_intent_spec, KeyIntent, StateLayer};
use crate::widgets::scan::{
    find_backward, find_forward, lemma_scan_backward, lemma_scan_forward, scan_backward,
    scan_forward,
};
use crate::widgets::segmented::{opt_str_view, opt_strs_view};

verus! {

/// Vertical placement of the destination group within the rail. The menu
/// button, when present, always stays pinned to the top.
#[derive(Debug, Clone, Copy, PartialEq, Eq, Default, Structural)]
pub enum NavigationRailAlignment {
    #[default]
    Top,
    Bottom,
}

/// One destination: configuration only.
pub struct NavigationRailItem {
    icon: Icon,
    label: Option<String>,
    enabled: bool,
}

pub ghost struct NavigationRailItemView {
    pub icon: Icon,
    pub label: Option<Seq<char>>,
    pub enabled: bool,
}

impl View for NavigationRailItem {
    type V = NavigationRailItemView;

    closed spec fn view(&self) -> NavigationRailItemView {
        NavigationRailItemView { icon: self.icon, label: opt_str_view(self.label), enabled: self.enabled }
    }
}

impl NavigationRailItem {
    pub fn new(icon: Icon) -> (r: Self)
        ensures
            r@ == (NavigationRailItemView { icon, label: None, enabled: true }),
    {
        NavigationRailItem { icon, label: None, enabled: true }
    }

    pub fn label(self, label: &str) -> (r: Self)
        ensures
            r@ == (NavigationRailItemView { label: Some(label@), ..self@ }),
    {
        NavigationRailItem { label: Some(String::from_str(label)), ..self }
    }

    pub fn enabled(self, enabled: bool) -> (r: Self)
        ensures
            r@ == (NavigationRailItemView { enabled, ..self@ }),
    {
        NavigationRailItem { enabled, ..self }
    }
}

/// What the pointer is over: a destination, or the menu button.
#[derive(Debug, Clone, Copy, PartialEq, Eq, Structural)]
pub enum Hit {
    Item(usize),
    Menu,
}

pub ghost struct NavigationRailView {
    pub icons: Seq<Icon>,
    pub labels: Seq<Option<Seq<char>>>,
    pub item_enabled: Seq<bool>,
    pub selected: usize,
    pub alignment: NavigationRailAlignment,
    pub menu_icon: Option<Icon>,
    pub expanded: bool,
    pub enabled: bool,
    pub font_key: Seq<char>,
    pub hovered: Option<Hit>,
    pub pressed: Option<Hit>,
    pub focused: bool,
    pub focused_index: usize,
}

impl NavigationRailView {
    pub open spec fn len(self) -> nat {
        self.icons.len()
    }

    /// Per-destination sequences line up; the selection and the keyboard
    /// cursor each name a destination, or are 0 on an empty rail.
    pub open spec fn wf(self) -> bool {
        &&& self.labels.len() == self.len()
        &&& self.item_enabled.len() == self.len()
        &&& self.selected == 0 || self.selected < self.len()
        &&& self.focused_index == 0 || self.focused_index < self.len()
        &&& self.len() <= usize::MAX
    }

    /// Activating destination `index` selects it, unless it is out of range,
    /// disabled, the rail is disabled, or it is already selected.
    pub open spec fn activates(self, index: int) -> bool {
        0 <= index < self.len() && self.enabled && self.item_enabled[index] && index
            != self.selected
    }

    pub open spec fn focus_target(self, forward: bool) -> Option<int> {
        if forward {
            scan_forward(self.item_enabled, self.focused_index + 1)
        } else {
            scan_backward(self.item_enabled, self.focused_index - 1)
        }
    }

    /// The region under the pointer that counts: disabled destinations
    /// behave as gaps, and there is no menu region without a menu button.
    pub open spec fn live_hit(self, hit: Option<Hit>) -> Option<Hit> {
        match hit {
            Some(Hit::Item(i)) => if i < self.len() && self.item_enabled[i as int] {
                Some(Hit::Item(i))
            } else {
                None
            },
            Some(Hit::Menu) => if self.menu_icon is Some {
                Some(Hit::Menu)
            } else {
                None
            },
            None => None,
        }
    }
}

/// What an input event did: repaint needed, the newly selected destination
/// to report, whether the menu button was clicked (the rail has then already
/// toggled its expansion).
#[derive(Debug, Clone, Copy, PartialEq, Eq, Structural)]
pub struct RailOutcome {
    pub redraw: bool,
    pub selected: Option<usize>,
    pub menu_clicked: bool,
}

pub struct NavigationRail {
    icons: Vec<Icon>,
    labels: Vec<Option<String>>,
    item_enabled: Vec<bool>,
    /// Always meaningful for a non-empty rail: a rail with destinations
    /// already has its first one selected.
    selected: usize,
    alignment: NavigationRailAlignment,
    menu_icon: Option<Icon>,
    expanded: bool,
    enabled: bool,
    font_key: String,
    hovered: Option<Hit>,
    pressed: Option<Hit>,
    focused: bool,
    /// The keyboard cursor: which destination Up/Down/Space act on. The
    /// menu button takes no keyboard focus.
    focused_index: usize,
}

impl View for NavigationRail {
    type V = NavigationRailView;

    closed spec fn view(&self) -> NavigationRailView {
        NavigationRailView {
            icons: self.icons@,
            labels: opt_strs_view(self.labels@),
            item_enabled: self.item_enabled@,
            selected: self.selected,
            alignment: self.alignment,
            menu_icon: self.menu_icon,
            expanded: self.expanded,
            enabled: self.enabled,
            font_key: self.font_key@,
            hovered: self.hovered,
            pressed: self.pressed,
            focused: self.focused,
            focused_index: self.focused_index,
        }
    }
}

impl NavigationRail {
    /// An empty, enabled, collapsed rail aligned to the top, with no menu
    /// button.
    pub fn new() -> (r: Self)
        ensures
            r@.wf(),
            r@ == (NavigationRailView {
                icons: Seq::empty(),
                labels: Seq::empty(),
                item_enabled: Seq::empty(),
                selected: 0,
                alignment: NavigationRailAlignment::Top,
                menu_icon: None,
                expanded: false,
                enabled: true,
                font_key: "noto_sans"@,
                hovered: None,
                pressed: None,
                focused: false,
                focused_index: 0,
            }),
    {
        let r = NavigationRail {
            icons: Vec::new(),
            labels: Vec::new(),
            item_enabled: Vec::new(),
            selected: 0,
            alignment: NavigationRailAlignment::Top,
            menu_icon: None,
            expanded: false,
            enabled: true,
            font_key: String::from_str("noto_sans"),
            hovered: None,
            pressed: None,
            focused: false,
            focused_index: 0,
        };
        proof {
            assert(opt_strs_view(r.labels@) =~= Seq::empty());
        }
        r
    }

    pub fn item(self, item: NavigationRailItem) -> (r: Self)
        requires
            self@.wf(),
            self@.len() < usize::MAX,
        ensures
            r@.wf(),
            r@ == (NavigationRailView {
                icons: self@.icons.push(item@.icon),
                labels: self@.labels.push(item@.label),
                item_enabled: self@.item_enabled.push(item@.enabled),
                ..self@
            }),
    {
        let mut s = self;
        let ghost old_labels = s.labels@;
        let NavigationRailItem { icon, label, enabled } = item;
        s.icons.push(icon);
        s.labels.push(label);
        s.item_enabled.push(enabled);
        proof {
            assert(opt_strs_view(s.labels@) =~= opt_strs_view(old_labels).push(opt_str_view(label)));
        }
        s
    }

    pub fn alignment(self, alignment: NavigationRailAlignment) -> (r: Self)
        ensures
            r@ == (NavigationRailView { alignment, ..self@ }),
    {
        NavigationRail { alignment, ..self }
    }

    pub fn set_alignment(&mut self, alignment: NavigationRailAlignment)
        ensures
            final(self)@ == (NavigationRailView { alignment, ..old(self)@ }),
    {
        self.alignment = alignment;
    }

    /// Adds a menu button above the destination group.
    pub fn menu_icon(self, icon: Icon) -> (r: Self)
        ensures
            r@ == (NavigationRailView { menu_icon: Some(icon), ..self@ }),
    {
        NavigationRail { menu_icon: Some(icon), ..self }
    }

    pub fn set_menu_icon(&mut self, icon: Option<Icon>)
        ensures
            final(self)@ == (NavigationRailView { menu_icon: icon, ..old(self)@ }),
    {
        self.menu_icon = icon;
    }

    /// Construction-time expansion state (the renderer snaps its width).
    pub fn expanded(self, expanded: bool) -> (r: Self)
        ensures
            r@ == (NavigationRailView { expanded, ..self@ }),
    {
        NavigationRail { expanded, ..self }
    }

    /// Opens or closes the rail (the renderer animates its width).
    pub fn set_expanded(&mut self, expanded: bool)
        ensures
            final(self)@ == (NavigationRailView { expanded, ..old(self)@ }),
    {
        self.expanded = expanded;
    }

    pub fn toggle_expanded(&mut self)
        ensures
            final(self)@ == (NavigationRailView { expanded: !old(self)@.expanded, ..old(self)@ }),
    {
        let e = !self.expanded;
        self.set_expanded(e);
    }

    pub fn is_expanded(&self) -> (r: bool)
        ensures
            r == self@.expanded,
    {
        self.expanded
    }

    pub fn enabled(self, enabled: bool) -> (r: Self)
        ensures
            r@ == (NavigationRailView { enabled, ..self@ }),
    {
        NavigationRail { enabled, ..self }
    }

    pub fn set_enabled(&mut self, enabled: bool)
        ensures
            final(self)@ == (NavigationRailView { enabled, ..old(self)@ }),
    {
        self.enabled = enabled;
    }

    pub fn is_enabled(&self) -> (r: bool)
        ensures
            r == self@.enabled,
    {
        self.enabled
    }

    /// Enables or disables one destination; an out-of-range index is ignored.
    pub fn set_item_enabled(&mut self, index: usize, enabled: bool)
        requires
            old(self)@.wf(),
        ensures
            final(self)@.wf(),
            final(self)@ == (NavigationRailView {
                item_enabled: if index < old(self)@.len() {
                    old(self)@.item_enabled.update(index as int, enabled)
                } else {
                    old(self)@.item_enabled
                },
                ..old(self)@
            }),
    {
        if index < self.item_enabled.len() {
            self.item_enabled.set(index, enabled);
        }
    }

    /// Key of a font registered with the renderer; defaults to `noto_sans`.
    pub fn font(self, key: &str) -> (r: Self)
        ensures
            r@ == (NavigationRailView { font_key: key@, ..self@ }),
    {
        NavigationRail { font_key: String::from_str(key), ..self }
    }

    pub fn font_key(&self) -> (r: &str)
        ensures
            r@ == self@.font_key,
    {
        self.font_key.as_str()
    }

    pub fn selected_index(&self) -> (r: usize)
        ensures
            r == self@.selected,
    {
        self.selected
    }

    pub fn focused_index(&self) -> (r: usize)
        ensures
            r == self@.focused_index,
    {
        self.focused_index
    }

    pub fn len(&self) -> (r: usize)
        requires
            self@.wf(),
        ensures
            r == self@.len(),
    {
        self.item_enabled.len()
    }

    /// Programmatic selection; reports nothing. An out-of-range or
    /// already-selected index is a no-op. Returns whether the selection
    /// moved (the renderer then sends the indicator traveling).
    pub fn set_selected(&mut self, index: usize) -> (moved: bool)
        requires
            old(self)@.wf(),
        ensures
            final(self)@.wf(),
            moved <==> index < old(self)@.len() && index != old(self)@.selected,
            final(self)@ == (NavigationRailView {
                selected: if moved {
                    index
                } else {
                    old(self)@.selected
                },
                ..old(self)@
            }),
    {
        if index >= self.item_enabled.len() || index == self.selected {
            return false;
        }
        self.selected = index;
        true
    }

    pub fn first_enabled_index(&self) -> (r: Option<usize>)
        ensures
            r matches Some(i) ==> scan_forward(self@.item_enabled, 0) == Some(i as int),
            r is None ==> scan_forward(self@.item_enabled, 0) is None,
    {
        find_forward(&self.item_enabled, 0)
    }

    /// The single activation path shared by pointer release and Space or
    /// Return. Re-activating the selected destination is a no-op. Returns
    /// the destination to report as newly selected.
    pub fn activate(&mut self, index: usize) -> (r: Option<usize>)
        requires
            old(self)@.wf(),
        ensures
            final(self)@.wf(),
            old(self)@.activates(index as int) ==> r == Some(index) && final(self)@
                == (NavigationRailView { selected: index, ..old(self)@ }),
            !old(self)@.activates(index as int) ==> r is None && final(self)@ == old(self)@,
    {
        if index >= self.item_enabled.len() {
            return None;
        }
        if !self.enabled || !self.item_enabled[index] || index == self.selected {
            return None;
        }
        self.selected = index;
        Some(index)
    }

    pub fn activate_focused(&mut self) -> (r: Option<usize>)
        requires
            old(self)@.wf(),
        ensures
            final(self)@.wf(),
            old(self)@.activates(old(self)@.focused_index as int) ==> r == Some(
                old(self)@.focused_index,
            ) && final(self)@ == (NavigationRailView {
                selected: old(self)@.focused_index,
                ..old(self)@
            }),
            !old(self)@.activates(old(self)@.focused_index as int) ==> r is None && final(self)@
                == old(self)@,
    {
        let i = self.focused_index;
        self.activate(i)
    }

    /// Moves the keyboard cursor to the nearest enabled destination above
    /// (`forward == false`) or below it, without wrapping around.
    pub fn move_focus(&mut self, forward: bool) -> (moved: bool)
        requires
            old(self)@.wf(),
        ensures
            final(self)@.wf(),
            moved <==> old(self)@.focus_target(forward) is Some,
            final(self)@ == (NavigationRailView {
                focused_index: match old(self)@.focus_target(forward) {
                    Some(j) => j as usize,
                    None => old(self)@.focused_index,
                },
                ..old(self)@
            }),
    {
        let target = if forward {
            find_forward(&self.item_enabled, self.focused_index + 1)
        } else {
            find_backward(&self.item_enabled, self.focused_index)
        };
        proof {
            lemma_scan_forward(self.item_enabled@, self.focused_index + 1);
            if self.focused_index > 0 {
                lemma_scan_backward(self.item_enabled@, self.focused_index - 1);
            }
        }
        match target {
            Some(j) => {
                self.focused_index = j;
                true
            },
            None => false,
        }
    }

    pub fn icon(&self, index: usize) -> (r: Icon)
        requires
            self@.wf(),
            index < self@.len(),
        ensures
            r == self@.icons[index as int],
    {
        self.icons[index]
    }

    pub fn label(&self, index: usize) -> (r: Option<&str>)
        requires
            self@.wf(),
            index < self@.len(),
        ensures
            match r {
                Some(t) => self@.labels[index as int] == Some(t@),
                None => self@.labels[index as int] is None,
            },
    {
        match &self.labels[index] {
            Some(t) => Some(t.as_str()),
            None => None,
        }
    }

    pub fn is_item_enabled(&self, index: usize) -> (r: bool)
        requires
            self@.wf(),
            index < self@.len(),
        ensures
            r == self@.item_enabled[index as int],
    {
        self.item_enabled[index]
    }

    pub fn menu(&self) -> (r: Option<Icon>)
        ensures
            r == self@.menu_icon,
    {
        self.menu_icon
    }

    pub fn alignment_value(&self) -> (r: NavigationRailAlignment)
        ensures
            r == self@.alignment,
    {
        self.alignment
    }

    /// The state layer of destination `index`: pressed, then the keyboard
    /// cursor, then hover; none on disabled destinations.
    pub fn item_state_layer(&self, index: usize) -> (r: StateLayer)
        requires
            self@.wf(),
            index < self@.len(),
        ensures
            r == if !self@.enabled || !self@.item_enabled[index as int] {
                StateLayer::Rest
            } else if self@.pressed == Some(Hit::Item(index)) {
                StateLayer::Pressed
            } else if self@.focused && self@.focused_index == index {
                StateLayer::Focused
            } else if self@.hovered == Some(Hit::Item(index)) {
                StateLayer::Hovered
            } else {
                StateLayer::Rest
            },
    {
        if !self.enabled || !self.item_enabled[index] {
            StateLayer::Rest
        } else if self.pressed == Some(Hit::Item(index)) {
            StateLayer::Pressed
        } else if self.focused && self.focused_index == index {
            StateLayer::Focused
        } else if self.hovered == Some(Hit::Item(index)) {
            StateLayer::Hovered
        } else {
            StateLayer::Rest
        }
    }

    /// The menu button takes no keyboard focus, so press and hover are the
    /// whole story.
    pub fn menu_state_layer(&self) -> (r: StateLayer)
        ensures
            r == if !self@.enabled {
                StateLayer::Rest
            } else if self@.pressed == Some(Hit::Menu) {
                StateLayer::Pressed
            } else if self@.hovered == Some(Hit::Menu) {
                StateLayer::Hovered
            } else {
                StateLayer::Rest
            },
    {
        if !self.enabled {
            StateLayer::Rest
        } else if self.pressed == Some(Hit::Menu) {
            StateLayer::Pressed
        } else if self.hovered == Some(Hit::Menu) {
            StateLayer::Hovered
        } else {
            StateLayer::Rest
        }
    }

    fn live_hit(&self, hit: Option<Hit>) -> (r: Option<Hit>)
        requires
            self@.wf(),
        ensures
            r == self@.live_hit(hit),
    {
        match hit {
            Some(Hit::Item(i)) => if i < self.item_enabled.len() && self.item_enabled[i] {
                Some(Hit::Item(i))
            } else {
                None
            },
            Some(Hit::Menu) => if self.menu_icon.is_some() {
                Some(Hit::Menu)
            } else {
                None
            },
            None => None,
        }
    }

    /// Pointer input. `hit` is the region whose rect contains the pointer.
    /// Press and release must land in the same region: on a destination
    /// that selects it, on the menu button that toggles expansion (before
    /// the click is reported, so a listener observes the new state).
    pub fn on_pointer(&mut self, kind: PointerEventKind, hit: Option<Hit>) -> (r: RailOutcome)
        requires
            old(self)@.wf(),
        ensures
            final(self)@.wf(),
            rail_pointer_step(old(self)@, kind, hit, final(self)@, r),
    {
        if !self.enabled {
            let dirty = self.hovered.is_some() || self.pressed.is_some();
            self.hovered = None;
            self.pressed = None;
            return RailOutcome { redraw: dirty, selected: None, menu_clicked: false };
        }
        let at = self.live_hit(hit);
        match kind {
            PointerEventKind::Enter | PointerEventKind::Motion => {
                let changed = self.hovered != at;
                self.hovered = at;
                RailOutcome { redraw: changed, selected: None, menu_clicked: false }
            },
            PointerEventKind::Leave => {
                let dirty = self.hovered.is_some() || self.pressed.is_some();
                self.hovered = None;
                self.pressed = None;
                RailOutcome { redraw: dirty, selected: None, menu_clicked: false }
            },
            PointerEventKind::Press { button } => {
                if button == button::LEFT {
                    self.hovered = at;
                    self.pressed = at;
                    RailOutcome { redraw: at.is_some(), selected: None, menu_clicked: false }
                } else {
                    RailOutcome { redraw: false, selected: None, menu_clicked: false }
                }
            },
            PointerEventKind::Release { button } => {
                if button == button::LEFT {
                    let was = self.pressed;
                    self.pressed = None;
                    let mut selected = None;
                    let mut menu_clicked = false;
                    match (was, at) {
                        (Some(p), Some(q)) => {
                            if p == q {
                                match p {
                                    Hit::Item(i) => {
                                        selected = self.activate(i);
                                    },
                                    Hit::Menu => {
                                        self.toggle_expanded();
                                        menu_clicked = true;
                                    },
                                }
                            }
                        },
                        _ => {},
                    }
                    RailOutcome { redraw: was.is_some(), selected, menu_clicked }
                } else {
                    RailOutcome { redraw: false, selected: None, menu_clicked: false }
                }
            },
            PointerEventKind::Axis => RailOutcome {
                redraw: false,
                selected: None,
                menu_clicked: false,
            },
        }
    }

    /// Keyboard input: focus lands the cursor on an enabled destination,
    /// Up/Down move it, Space/Return select the destination under it.
    pub fn on_keyboard(&mut self, event: &KeyboardEvent) -> (r: RailOutcome)
        requires
            old(self)@.wf(),
        ensures
            final(self)@.wf(),
            rail_key_step(old(self)@, key_intent_spec(event.kind), final(self)@, r),
    {
        if !self.enabled {
            return RailOutcome { redraw: false, selected: None, menu_clicked: false };
        }
        match key_intent(&event.kind) {
            KeyIntent::Focus => {
                self.focused = true;
                let n = self.item_enabled.len();
                let on_disabled = self.focused_index >= n || !self.item_enabled[self.focused_index];
                if on_disabled {
                    if let Some(i) = self.first_enabled_index() {
                        proof {
                            lemma_scan_forward(self.item_enabled@, 0);
                        }
                        self.focused_index = i;
                    }
                }
                RailOutcome { redraw: true, selected: None, menu_clicked: false }
            },
            KeyIntent::Blur => {
                self.focused = false;
                RailOutcome { redraw: true, selected: None, menu_clicked: false }
            },
            KeyIntent::Activate => {
                let selected = self.activate_focused();
                RailOutcome { redraw: true, selected, menu_clicked: false }
            },
            KeyIntent::Key(k) => {
                if k == key::UP {
                    let moved = self.move_focus(false);
                    RailOutcome { redraw: moved, selected: None, menu_clicked: false }
                } else if k == key::DOWN {
                    let moved = self.move_focus(true);
                    RailOutcome { redraw: moved, selected: None, menu_clicked: false }
                } else {
                    RailOutcome { redraw: false, selected: None, menu_clicked: false }
                }
            },
            KeyIntent::Ignore => RailOutcome { redraw: false, selected: None, menu_clicked: false },
        }
    }

    /// The rail takes focus only if it is enabled and has an enabled
    /// destination.
    pub fn focusable(&self) -> (r: bool)
        ensures
            r == (self@.enabled && scan_forward(self@.item_enabled, 0) is Some),
    {
        self.enabled && self.first_enabled_index().is_some()
    }

    pub fn set_focused(&mut self, focused: bool)
        ensures
            final(self)@ == (NavigationRailView { focused, ..old(self)@ }),
    {
        self.focused = focused;
    }
}

pub open spec fn quiet(redraw: bool) -> RailOutcome {
    RailOutcome { redraw, selected: None, menu_clicked: false }
}

/// A pointer event on rail `v`, leading to `w` with outcome `r`.
pub open spec fn rail_pointer_step(
    v: NavigationRailView,
    kind: PointerEventKind,
    hit: Option<Hit>,
    w: NavigationRailView,
    r: RailOutcome,
) -> bool {
    let at = v.live_hit(hit);
    if !v.enabled {
        w == (NavigationRailView { hovered: None, pressed: None, ..v }) && r == quiet(
            v.hovered is Some || v.pressed is Some,
        )
    } else {
        match kind {
            PointerEventKind::Enter | PointerEventKind::Motion => w == (NavigationRailView {
                hovered: at,
                ..v
            }) && r == quiet(v.hovered != at),
            PointerEventKind::Leave => w == (NavigationRailView { hovered: None, pressed: None, ..v })
                && r == quiet(v.hovered is Some || v.pressed is Some),
            PointerEventKind::Press { button } => if button == button::LEFT {
                w == (NavigationRailView { hovered: at, pressed: at, ..v }) && r == quiet(at is Some)
            } else {
                w == v && r == quiet(false)
            },
            PointerEventKind::Release { button } => if button == button::LEFT {
                let released = NavigationRailView { pressed: None, ..v };
                &&& r.redraw == (v.pressed is Some)
                &&& if v.pressed is Some && v.pressed == at {
                    match v.pressed->0 {
                        Hit::Item(i) => if v.activates(i as int) {
                            w == (NavigationRailView { selected: i, ..released }) && r.selected
                                == Some(i) && !r.menu_clicked
                        } else {
                            w == released && r.selected is None && !r.menu_clicked
                        },
                        Hit::Menu => w == (NavigationRailView { expanded: !v.expanded, ..released })
                            && r.selected is None && r.menu_clicked,
                    }
                } else {
                    w == released && r.selected is None && !r.menu_clicked
                }
            } else {
                w == v && r == quiet(false)
            },
            PointerEventKind::Axis => w == v && r == quiet(false),
        }
    }
}

/// A keyboard intent on rail `v`, leading to `w` with outcome `r`.
pub open spec fn rail_key_step(
    v: NavigationRailView,
    intent: KeyIntent,
    w: NavigationRailView,
    r: RailOutcome,
) -> bool {
    if !v.enabled {
        w == v && r == quiet(false)
    } else {
        match intent {
            KeyIntent::Focus => {
                let on_disabled = v.focused_index >= v.len() || !v.item_enabled[v.focused_index as int];
                &&& w == (NavigationRailView {
                    focused: true,
                    focused_index: if on_disabled && scan_forward(v.item_enabled, 0) is Some {
                        scan_forward(v.item_enabled, 0)->0 as usize
                    } else {
                        v.focused_index
                    },
                    ..v
                })
                &&& r == quiet(true)
            },
            KeyIntent::Blur => w == (NavigationRailView { focused: false, ..v }) && r == quiet(true),
            KeyIntent::Activate => if v.activates(v.focused_index as int) {
                w == (NavigationRailView { selected: v.focused_index, ..v }) && r == (RailOutcome {
                    redraw: true,
                    selected: Some(v.focused_index),
                    menu_clicked: false,
                })
            } else {
                w == v && r == quiet(true)
            },
            KeyIntent::Key(k) => if k == key::UP || k == key::DOWN {
                let t = v.focus_target(k == key::DOWN);
                &&& r == quiet(t is Some)
                &&& w == (NavigationRailView {
                    focused_index: match t {
                        Some(j) => j as usize,
                        None => v.focused_index,
                    },
                    ..v
                })
            } else {
                w == v && r == quiet(false)
            },
            KeyIntent::Ignore => w == v && r == quiet(false),
        }
    }
}

/// Activating a destination reports it exactly when the selection moves to
/// it; activating it again right after reports nothing.
pub proof fn law_rail_activation_reports_once(v: NavigationRailView, i: int)
    requires
        v.wf(),
        v.activates(i),
    ensures
        !(NavigationRailView { selected: i as usize, ..v }).activates(i),
        (NavigationRailView { selected: i as usize, ..v }).wf(),
{
}

/// Click and keyboard share one activation path: releasing the pointer on
/// the destination it was pressed on selects and reports exactly what Space
/// or Return does on that destination.
pub proof fn law_rail_click_and_key_agree(
    v: NavigationRailView,
    i: usize,
    w1: NavigationRailView,
    r1: RailOutcome,
    w2: NavigationRailView,
    r2: RailOutcome,
)
    requires
        v.enabled,
        i < v.len(),
        v.item_enabled[i as int],
        v.pressed == Some(Hit::Item(i)),
        v.focused_index == i,
        rail_pointer_step(v, PointerEventKind::Release { button: button::LEFT }, Some(Hit::Item(i)), w1, r1),
        rail_key_step(v, KeyIntent::Activate, w2, r2),
    ensures
        w1.selected == w2.selected,
        r1.selected == r2.selected,
{
}

} // verus!
