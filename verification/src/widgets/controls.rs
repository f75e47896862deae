//! The single-target Material 3 controls: common button, icon button,
//! checkbox, switch, radio button and list item. Each tracks hover, press
//! and focus; a press activates only when its release lands inside too, and
//! Space (as a key or as committed text) or Return activate from the
//! keyboard. A disabled control ignores input.
use vstd::prelude::*;

use crate::keyboard::KeyboardEvent;
use crate::pointer::PointerEventKind;
use crate::widgets::icon::Icon;
use crate::widgets::interaction::{
    key_intent, key_intent_spec, press_step, state_layer, state_layer_spec, KeyIntent, Morph,
    PointerOutcome, PressTracker, StateLayer,
};

verus! {

/// Emphasis order: Filled > FilledTonal > Elevated > Outlined > Text.
#[derive(Debug, Clone, Copy, PartialEq, Eq, Default, Structural)]
pub enum ButtonVariant {
    /// Primary action, highest emphasis.
    #[default]
    Filled,
    /// Medium emphasis, softer than filled.
    FilledTonal,
    /// Medium emphasis; the one variant that carries a shadow.
    Elevated,
    /// Medium emphasis, neutral.
    Outlined,
    /// Lowest emphasis.
    Text,
}

#[derive(Debug, Clone, Copy, PartialEq, Eq, Default, Structural)]
pub enum ButtonShape {
    /// Full corner radius.
    #[default]
    Round,
    /// Smaller corner radius.
    Square,
}

#[derive(Debug, Clone, Copy, PartialEq, Eq, Default, Structural)]
pub enum ButtonSize {
    ExtraSmall,
    #[default]
    Small,
    Medium,
    Large,
    ExtraLarge,
}

impl ButtonSize {
    pub open spec fn height_spec(self) -> u32 {
        match self {
            ButtonSize::ExtraSmall => 32u32,
            ButtonSize::Small => 40,
            ButtonSize::Medium => 48,
            ButtonSize::Large => 56,
            ButtonSize::ExtraLarge => 64,
        }
    }

    pub open spec fn corner_radius_spec(self, pressed: bool) -> u32 {
        if pressed {
            match self {
                ButtonSize::ExtraSmall | ButtonSize::Small => 8u32,
                ButtonSize::Medium => 12,
                ButtonSize::Large | ButtonSize::ExtraLarge => 16,
            }
        } else {
            (self.height_spec() / 2) as u32
        }
    }

    /// Container height, in dp.
    #[verifier::when_used_as_spec(height_spec)]
    pub fn height(self) -> (r: u32)
        ensures
            r == match self {
                ButtonSize::ExtraSmall => 32u32,
                ButtonSize::Small => 40,
                ButtonSize::Medium => 48,
                ButtonSize::Large => 56,
                ButtonSize::ExtraLarge => 64,
            },
    {
        match self {
            ButtonSize::ExtraSmall => 32,
            ButtonSize::Small => 40,
            ButtonSize::Medium => 48,
            ButtonSize::Large => 56,
            ButtonSize::ExtraLarge => 64,
        }
    }

    /// Padding on each side of the label, in dp.
    pub fn horizontal_padding(self) -> (r: u32)
        ensures
            r == match self {
                ButtonSize::ExtraSmall => 12u32,
                ButtonSize::Small => 16,
                ButtonSize::Medium | ButtonSize::Large => 24,
                ButtonSize::ExtraLarge => 32,
            },
    {
        match self {
            ButtonSize::ExtraSmall => 12,
            ButtonSize::Small => 16,
            ButtonSize::Medium | ButtonSize::Large => 24,
            ButtonSize::ExtraLarge => 32,
        }
    }

    /// Label text size: Label Large at the two smaller sizes, scaling up
    /// from there.
    pub fn label_size(self) -> (r: u32)
        ensures
            r == match self {
                ButtonSize::ExtraSmall | ButtonSize::Small => 14u32,
                ButtonSize::Medium | ButtonSize::Large => 16,
                ButtonSize::ExtraLarge => 18,
            },
    {
        match self {
            ButtonSize::ExtraSmall | ButtonSize::Small => 14,
            ButtonSize::Medium | ButtonSize::Large => 16,
            ButtonSize::ExtraLarge => 18,
        }
    }

    /// Round buttons use the `full` shape token, so at rest the radius is
    /// half the height; pressed, the corners square up.
    #[verifier::when_used_as_spec(corner_radius_spec)]
    pub fn corner_radius(self, pressed: bool) -> (r: u32)
        ensures
            pressed ==> r == match self {
                ButtonSize::ExtraSmall | ButtonSize::Small => 8u32,
                ButtonSize::Medium => 12,
                ButtonSize::Large | ButtonSize::ExtraLarge => 16,
            },
            !pressed ==> 2 * r == self.height(),
            r == self.corner_radius_spec(pressed),
    {
        if pressed {
            match self {
                ButtonSize::ExtraSmall | ButtonSize::Small => 8,
                ButtonSize::Medium => 12,
                ButtonSize::Large | ButtonSize::ExtraLarge => 16,
            }
        } else {
            self.height() / 2
        }
    }
}

impl ButtonShape {
    /// Corner radius in dp: round buttons follow their size; square ones
    /// use a fixed radius per size, pressed or not.
    pub fn corner_radius(self, size: ButtonSize, pressed: bool) -> (r: u32)
        ensures
            self == ButtonShape::Round ==> r == size.corner_radius(pressed),
            self == ButtonShape::Square ==> r == match size {
                ButtonSize::ExtraSmall | ButtonSize::Small => 12u32,
                ButtonSize::Medium => 16,
                ButtonSize::Large | ButtonSize::ExtraLarge => 28,
            },
    {
        match self {
            ButtonShape::Round => size.corner_radius(pressed),
            ButtonShape::Square => match size {
                ButtonSize::ExtraSmall | ButtonSize::Small => 12,
                ButtonSize::Medium => 16,
                ButtonSize::Large | ButtonSize::ExtraLarge => 28,
            },
        }
    }
}

/// What a keyboard event did to a focusable control: repaint needed, and
/// whether it activated the control.
#[derive(Debug, Clone, Copy, PartialEq, Eq, Structural)]
pub struct KeyOutcome {
    pub redraw: bool,
    pub activate: bool,
}

/// Focus, blur and activation of a focusable control: `(focused', outcome)`.
pub open spec fn focus_key_step(enabled: bool, focused: bool, intent: KeyIntent) -> (bool, KeyOutcome) {
    if !enabled {
        (focused, KeyOutcome { redraw: false, activate: false })
    } else {
        match intent {
            KeyIntent::Focus => (true, KeyOutcome { redraw: true, activate: false }),
            KeyIntent::Blur => (false, KeyOutcome { redraw: true, activate: false }),
            KeyIntent::Activate => (focused, KeyOutcome { redraw: true, activate: true }),
            _ => (focused, KeyOutcome { redraw: false, activate: false }),
        }
    }
}

/// `focus_key_step` for an executable control.
pub fn focus_key(enabled: bool, focused: &mut bool, event: &KeyboardEvent) -> (r: KeyOutcome)
    ensures
        (*final(focused), r) == focus_key_step(enabled, *old(focused), key_intent_spec(event.kind)),
{
    if !enabled {
        return KeyOutcome { redraw: false, activate: false };
    }
    match key_intent(&event.kind) {
        KeyIntent::Focus => {
            *focused = true;
            KeyOutcome { redraw: true, activate: false }
        },
        KeyIntent::Blur => {
            *focused = false;
            KeyOutcome { redraw: true, activate: false }
        },
        KeyIntent::Activate => KeyOutcome { redraw: true, activate: true },
        _ => KeyOutcome { redraw: false, activate: false },
    }
}

/// A common button: a label and a click. It takes no keyboard focus.
pub struct Button {
    pub label: String,
    pub variant: ButtonVariant,
    pub shape: ButtonShape,
    pub size: ButtonSize,
    pub font_key: String,
    pub enabled: bool,
    pub tracker: PressTracker,
}

impl Button {
    pub fn new(label: &str) -> (r: Self)
        ensures
            r.label@ == label@,
            r.variant == ButtonVariant::Filled,
            r.shape == ButtonShape::Round,
            r.size == ButtonSize::Small,
            r.font_key@ == "noto_sans"@,
            r.enabled,
            !r.tracker.hovered && !r.tracker.pressed,
    {
        Button {
            label: String::from_str(label),
            variant: ButtonVariant::Filled,
            shape: ButtonShape::Round,
            size: ButtonSize::Small,
            font_key: String::from_str("noto_sans"),
            enabled: true,
            tracker: PressTracker::new(),
        }
    }

    pub fn variant(self, variant: ButtonVariant) -> (r: Self)
        ensures
            r == (Button { variant, ..self }),
    {
        Button { variant, ..self }
    }

    pub fn shape(self, shape: ButtonShape) -> (r: Self)
        ensures
            r == (Button { shape, ..self }),
    {
        Button { shape, ..self }
    }

    /// Visual styling only: the layout system decides the actual rect.
    pub fn size(self, size: ButtonSize) -> (r: Self)
        ensures
            r == (Button { size, ..self }),
    {
        Button { size, ..self }
    }

    pub fn font(self, key: &str) -> (r: Self)
        ensures
            r.font_key@ == key@,
            r.label == self.label,
            r.variant == self.variant,
            r.shape == self.shape,
            r.size == self.size,
            r.enabled == self.enabled,
            r.tracker == self.tracker,
    {
        Button { font_key: String::from_str(key), ..self }
    }

    pub fn enabled(self, enabled: bool) -> (r: Self)
        ensures
            r == (Button { enabled, ..self }),
    {
        Button { enabled, ..self }
    }

    pub fn set_enabled(&mut self, enabled: bool)
        ensures
            *final(self) == (Button { enabled, ..*old(self) }),
    {
        self.enabled = enabled;
    }

    pub fn set_label(&mut self, label: &str)
        ensures
            final(self).label@ == label@,
            final(self).variant == old(self).variant,
            final(self).shape == old(self).shape,
            final(self).size == old(self).size,
            final(self).font_key == old(self).font_key,
            final(self).enabled == old(self).enabled,
            final(self).tracker == old(self).tracker,
    {
        self.label = String::from_str(label);
    }

    /// Pointer input with `inside` telling whether the pointer is over the
    /// button; `activate` in the outcome is a click.
    pub fn on_pointer(&mut self, kind: PointerEventKind, inside: bool) -> (r: PointerOutcome)
        ensures
            (final(self).tracker, r) == press_step(old(self).tracker, old(self).enabled, kind, inside),
            final(self).label == old(self).label,
            final(self).enabled == old(self).enabled,
            final(self).variant == old(self).variant,
    {
        let enabled = self.enabled;
        self.tracker.on_pointer(enabled, kind, inside)
    }

    pub fn state_layer(&self) -> (r: StateLayer)
        ensures
            r == state_layer_spec(self.enabled, self.tracker.pressed, false, self.tracker.hovered),
    {
        state_layer(self.enabled, self.tracker.pressed, false, self.tracker.hovered)
    }
}

#[derive(Debug, Clone, Copy, PartialEq, Eq, Default, Structural)]
pub enum IconButtonVariant {
    /// No container fill; lowest emphasis.
    #[default]
    Standard,
    /// Filled container, highest emphasis.
    Filled,
    /// Tonal container, medium emphasis.
    FilledTonal,
    /// No fill, 1dp outline.
    Outlined,
}

/// What activating an icon button means: a click, or (in toggle mode) a
/// flip to the reported selected state.
#[derive(Debug, Clone, Copy, PartialEq, Eq, Structural)]
pub enum IconActivation {
    Clicked,
    Changed(bool),
}

pub struct IconButton {
    pub variant: IconButtonVariant,
    pub icon: Option<Icon>,
    pub enabled: bool,
    /// Whether a click flips `selected` and reports it (true) or just
    /// reports a click (false).
    pub toggle: bool,
    pub selected: bool,
    pub tracker: PressTracker,
    pub focused: bool,
}

/// `(selected', activation)` after activating an icon button.
pub open spec fn icon_activation(toggle: bool, selected: bool) -> (bool, IconActivation) {
    if toggle {
        (!selected, IconActivation::Changed(!selected))
    } else {
        (selected, IconActivation::Clicked)
    }
}

impl IconButton {
    /// A standard, non-toggle icon button with no icon set.
    pub fn new() -> (r: Self)
        ensures
            r == (IconButton {
                variant: IconButtonVariant::Standard,
                icon: None,
                enabled: true,
                toggle: false,
                selected: false,
                tracker: PressTracker { hovered: false, pressed: false },
                focused: false,
            }),
    {
        IconButton {
            variant: IconButtonVariant::Standard,
            icon: None,
            enabled: true,
            toggle: false,
            selected: false,
            tracker: PressTracker::new(),
            focused: false,
        }
    }

    pub fn variant(self, variant: IconButtonVariant) -> (r: Self)
        ensures
            r == (IconButton { variant, ..self }),
    {
        IconButton { variant, ..self }
    }

    pub fn icon(self, icon: Icon) -> (r: Self)
        ensures
            r == (IconButton { icon: Some(icon), ..self }),
    {
        IconButton { icon: Some(icon), ..self }
    }

    pub fn enabled(self, enabled: bool) -> (r: Self)
        ensures
            r == (IconButton { enabled, ..self }),
    {
        IconButton { enabled, ..self }
    }

    /// Enables toggle behavior: a click flips the selected state and reports
    /// it instead of reporting a click.
    pub fn toggle(self, toggle: bool) -> (r: Self)
        ensures
            r == (IconButton { toggle, ..self }),
    {
        IconButton { toggle, ..self }
    }

    /// The initial selected state.
    pub fn selected(self, selected: bool) -> (r: Self)
        ensures
            r == (IconButton { selected, ..self }),
    {
        IconButton { selected, ..self }
    }

    pub fn set_enabled(&mut self, enabled: bool)
        ensures
            *final(self) == (IconButton { enabled, ..*old(self) }),
    {
        self.enabled = enabled;
    }

    pub fn is_selected(&self) -> (r: bool)
        ensures
            r == self.selected,
    {
        self.selected
    }

    /// The programmatic path: sets the selected state and reports nothing.
    pub fn set_selected(&mut self, selected: bool)
        ensures
            *final(self) == (IconButton { selected, ..*old(self) }),
    {
        self.selected = selected;
    }

    /// Flips the selected state (toggle mode) or clicks (plain mode).
    pub fn activate(&mut self) -> (r: IconActivation)
        ensures
            (final(self).selected, r) == icon_activation(old(self).toggle, old(self).selected),
            *final(self) == (IconButton { selected: final(self).selected, ..*old(self) }),
    {
        if self.toggle {
            self.selected = !self.selected;
            IconActivation::Changed(self.selected)
        } else {
            IconActivation::Clicked
        }
    }

    pub fn on_pointer(&mut self, kind: PointerEventKind, inside: bool) -> (r: (PointerOutcome, Option<IconActivation>))
        ensures
            ({
                let (t, o) = press_step(old(self).tracker, old(self).enabled, kind, inside);
                let (sel, act) = icon_activation(old(self).toggle, old(self).selected);
                &&& final(self).tracker == t
                &&& r.0 == o
                &&& o.activate ==> final(self).selected == sel && r.1 == Some(act)
                &&& !o.activate ==> final(self).selected == old(self).selected && r.1 is None
                &&& *final(self) == (IconButton {
                    tracker: t,
                    selected: final(self).selected,
                    ..*old(self)
                })
            }),
    {
        let enabled = self.enabled;
        let o = self.tracker.on_pointer(enabled, kind, inside);
        if o.activate {
            let a = self.activate();
            (o, Some(a))
        } else {
            (o, None)
        }
    }

    pub fn on_keyboard(&mut self, event: &KeyboardEvent) -> (r: (bool, Option<IconActivation>))
        ensures
            ({
                let (f, k) = focus_key_step(old(self).enabled, old(self).focused, key_intent_spec(event.kind));
                let (sel, act) = icon_activation(old(self).toggle, old(self).selected);
                &&& final(self).focused == f
                &&& r.0 == k.redraw
                &&& k.activate ==> final(self).selected == sel && r.1 == Some(act)
                &&& !k.activate ==> final(self).selected == old(self).selected && r.1 is None
                &&& *final(self) == (IconButton {
                    focused: f,
                    selected: final(self).selected,
                    ..*old(self)
                })
            }),
    {
        let enabled = self.enabled;
        let k = focus_key(enabled, &mut self.focused, event);
        if k.activate {
            let a = self.activate();
            (k.redraw, Some(a))
        } else {
            (k.redraw, None)
        }
    }

    pub fn focusable(&self) -> (r: bool)
        ensures
            r == self.enabled,
    {
        self.enabled
    }

    pub fn set_focused(&mut self, focused: bool)
        ensures
            *final(self) == (IconButton { focused, ..*old(self) }),
    {
        self.focused = focused;
    }

    pub fn state_layer(&self) -> (r: StateLayer)
        ensures
            r == state_layer_spec(self.enabled, self.tracker.pressed, self.focused, self.tracker.hovered),
    {
        state_layer(self.enabled, self.tracker.pressed, self.focused, self.tracker.hovered)
    }
}

/// A checkbox, with an optional third "indeterminate" state that takes
/// visual precedence over `checked`.
pub struct CheckBox {
    pub checked: bool,
    pub indeterminate: bool,
    pub enabled: bool,
    pub tracker: PressTracker,
    pub focused: bool,
}

impl CheckBox {
    pub fn new(checked: bool) -> (r: Self)
        ensures
            r == (CheckBox {
                checked,
                indeterminate: false,
                enabled: true,
                tracker: PressTracker { hovered: false, pressed: false },
                focused: false,
            }),
    {
        CheckBox {
            checked,
            indeterminate: false,
            enabled: true,
            tracker: PressTracker::new(),
            focused: false,
        }
    }

    pub fn indeterminate(self, indeterminate: bool) -> (r: Self)
        ensures
            r == (CheckBox { indeterminate, ..self }),
    {
        CheckBox { indeterminate, ..self }
    }

    pub fn enabled(self, enabled: bool) -> (r: Self)
        ensures
            r == (CheckBox { enabled, ..self }),
    {
        CheckBox { enabled, ..self }
    }

    pub fn set_enabled(&mut self, enabled: bool)
        ensures
            *final(self) == (CheckBox { enabled, ..*old(self) }),
    {
        self.enabled = enabled;
    }

    pub fn checked(&self) -> (r: bool)
        ensures
            r == self.checked,
    {
        self.checked
    }

    pub fn indeterminate_value(&self) -> (r: bool)
        ensures
            r == self.indeterminate,
    {
        self.indeterminate
    }

    /// Checked or indeterminate: the box paints filled.
    pub fn is_selected(&self) -> (r: bool)
        ensures
            r == (self.checked || self.indeterminate),
    {
        self.checked || self.indeterminate
    }

    /// The programmatic path: sets the checked state without reporting it,
    /// and clears indeterminate on every call, since an explicit state is
    /// unambiguous. Returns whether the checked value changed.
    pub fn set_checked(&mut self, checked: bool) -> (changed: bool)
        ensures
            changed == (old(self).checked != checked),
            *final(self) == (CheckBox { checked, indeterminate: false, ..*old(self) }),
            final(self).checked == checked && !final(self).indeterminate,
    {
        let changed = self.checked != checked;
        self.checked = checked;
        self.indeterminate = false;
        changed
    }

    /// Flips the checked state, clears indeterminate, and returns the new
    /// state to report.
    pub fn toggle(&mut self) -> (r: bool)
        ensures
            r == !old(self).checked,
            *final(self) == (CheckBox { checked: r, indeterminate: false, ..*old(self) }),
    {
        self.checked = !self.checked;
        self.indeterminate = false;
        self.checked
    }

    /// Pointer input; returns the outcome and the new checked state to
    /// report when the click toggled the box.
    pub fn on_pointer(&mut self, kind: PointerEventKind, inside: bool) -> (r: (PointerOutcome, Option<bool>))
        ensures
            ({
                let (t, o) = press_step(old(self).tracker, old(self).enabled, kind, inside);
                &&& r.0 == o
                &&& o.activate ==> r.1 == Some(!old(self).checked) && *final(self) == (CheckBox {
                    tracker: t,
                    checked: !old(self).checked,
                    indeterminate: false,
                    ..*old(self)
                })
                &&& !o.activate ==> r.1 is None && *final(self) == (CheckBox { tracker: t, ..*old(self) })
            }),
    {
        let enabled = self.enabled;
        let o = self.tracker.on_pointer(enabled, kind, inside);
        if o.activate {
            (o, Some(self.toggle()))
        } else {
            (o, None)
        }
    }

    pub fn on_keyboard(&mut self, event: &KeyboardEvent) -> (r: (bool, Option<bool>))
        ensures
            ({
                let (f, k) = focus_key_step(old(self).enabled, old(self).focused, key_intent_spec(event.kind));
                &&& r.0 == k.redraw
                &&& k.activate ==> r.1 == Some(!old(self).checked) && *final(self) == (CheckBox {
                    focused: f,
                    checked: !old(self).checked,
                    indeterminate: false,
                    ..*old(self)
                })
                &&& !k.activate ==> r.1 is None && *final(self) == (CheckBox { focused: f, ..*old(self) })
            }),
    {
        let enabled = self.enabled;
        let k = focus_key(enabled, &mut self.focused, event);
        if k.activate {
            (k.redraw, Some(self.toggle()))
        } else {
            (k.redraw, None)
        }
    }

    pub fn focusable(&self) -> (r: bool)
        ensures
            r == self.enabled,
    {
        self.enabled
    }

    pub fn set_focused(&mut self, focused: bool)
        ensures
            *final(self) == (CheckBox { focused, ..*old(self) }),
    {
        self.focused = focused;
    }

    pub fn state_layer(&self) -> (r: StateLayer)
        ensures
            r == state_layer_spec(self.enabled, self.tracker.pressed, self.focused, self.tracker.hovered),
    {
        state_layer(self.enabled, self.tracker.pressed, self.focused, self.tracker.hovered)
    }
}

/// Which states draw an icon inside a switch's handle.
#[derive(Debug, Clone, Copy, PartialEq, Eq, Default, Structural)]
pub enum SwitchIcons {
    /// No icons in either state.
    #[default]
    NoIcons,
    /// A checkmark when selected, nothing when unselected.
    Selected,
    /// A checkmark when selected, a cross when unselected.
    Both,
}

impl SwitchIcons {
    /// Whether the unselected handle shows an icon.
    pub fn on_unselected(self) -> (r: bool)
        ensures
            r == (self == SwitchIcons::Both),
    {
        self == SwitchIcons::Both
    }

    /// Whether the selected handle shows an icon.
    pub fn on_selected(self) -> (r: bool)
        ensures
            r == (self != SwitchIcons::NoIcons),
    {
        self != SwitchIcons::NoIcons
    }
}

pub struct Switch {
    pub checked: bool,
    pub icons: SwitchIcons,
    pub enabled: bool,
    pub tracker: PressTracker,
    pub focused: bool,
}

impl Switch {
    pub fn new(checked: bool) -> (r: Self)
        ensures
            r == (Switch {
                checked,
                icons: SwitchIcons::NoIcons,
                enabled: true,
                tracker: PressTracker { hovered: false, pressed: false },
                focused: false,
            }),
    {
        Switch {
            checked,
            icons: SwitchIcons::NoIcons,
            enabled: true,
            tracker: PressTracker::new(),
            focused: false,
        }
    }

    pub fn icons(self, icons: SwitchIcons) -> (r: Self)
        ensures
            r == (Switch { icons, ..self }),
    {
        Switch { icons, ..self }
    }

    pub fn enabled(self, enabled: bool) -> (r: Self)
        ensures
            r == (Switch { enabled, ..self }),
    {
        Switch { enabled, ..self }
    }

    pub fn set_enabled(&mut self, enabled: bool)
        ensures
            *final(self) == (Switch { enabled, ..*old(self) }),
    {
        self.enabled = enabled;
    }

    pub fn checked(&self) -> (r: bool)
        ensures
            r == self.checked,
    {
        self.checked
    }

    /// The programmatic path: sets the state without reporting it. Returns
    /// whether it changed (the handle then travels).
    pub fn set_checked(&mut self, checked: bool) -> (changed: bool)
        ensures
            changed == (old(self).checked != checked),
            *final(self) == (Switch { checked, ..*old(self) }),
    {
        if self.checked == checked {
            return false;
        }
        self.checked = checked;
        true
    }

    /// Flips the state and returns the new state to report.
    pub fn toggle(&mut self) -> (r: bool)
        ensures
            r == !old(self).checked,
            *final(self) == (Switch { checked: r, ..*old(self) }),
    {
        self.checked = !self.checked;
        self.checked
    }

    /// Pointer input. A disabled switch always sends its handle back to the
    /// resting size.
    pub fn on_pointer(&mut self, kind: PointerEventKind, inside: bool) -> (r: (PointerOutcome, Option<bool>))
        ensures
            ({
                let (t, o) = press_step(old(self).tracker, old(self).enabled, kind, inside);
                let o2 = if old(self).enabled {
                    o
                } else {
                    PointerOutcome { morph: Morph::Release, ..o }
                };
                &&& r.0 == o2
                &&& o.activate ==> r.1 == Some(!old(self).checked) && *final(self) == (Switch {
                    tracker: t,
                    checked: !old(self).checked,
                    ..*old(self)
                })
                &&& !o.activate ==> r.1 is None && *final(self) == (Switch { tracker: t, ..*old(self) })
            }),
    {
        let enabled = self.enabled;
        let o = self.tracker.on_pointer(enabled, kind, inside);
        let o2 = if enabled {
            o
        } else {
            PointerOutcome { morph: Morph::Release, ..o }
        };
        if o.activate {
            (o2, Some(self.toggle()))
        } else {
            (o2, None)
        }
    }

    pub fn on_keyboard(&mut self, event: &KeyboardEvent) -> (r: (bool, Option<bool>))
        ensures
            ({
                let (f, k) = focus_key_step(old(self).enabled, old(self).focused, key_intent_spec(event.kind));
                &&& r.0 == k.redraw
                &&& k.activate ==> r.1 == Some(!old(self).checked) && *final(self) == (Switch {
                    focused: f,
                    checked: !old(self).checked,
                    ..*old(self)
                })
                &&& !k.activate ==> r.1 is None && *final(self) == (Switch { focused: f, ..*old(self) })
            }),
    {
        let enabled = self.enabled;
        let k = focus_key(enabled, &mut self.focused, event);
        if k.activate {
            (k.redraw, Some(self.toggle()))
        } else {
            (k.redraw, None)
        }
    }

    pub fn focusable(&self) -> (r: bool)
        ensures
            r == self.enabled,
    {
        self.enabled
    }

    pub fn set_focused(&mut self, focused: bool)
        ensures
            *final(self) == (Switch { focused, ..*old(self) }),
    {
        self.focused = focused;
    }

    pub fn state_layer(&self) -> (r: StateLayer)
        ensures
            r == state_layer_spec(self.enabled, self.tracker.pressed, self.focused, self.tracker.hovered),
    {
        state_layer(self.enabled, self.tracker.pressed, self.focused, self.tracker.hovered)
    }
}

/// A radio button: interaction only ever selects it; deselecting it is the
/// caller's job when a sibling in its group is selected.
pub struct RadioButton {
    pub selected: bool,
    pub enabled: bool,
    pub tracker: PressTracker,
    pub focused: bool,
}

impl RadioButton {
    pub fn new(selected: bool) -> (r: Self)
        ensures
            r == (RadioButton {
                selected,
                enabled: true,
                tracker: PressTracker { hovered: false, pressed: false },
                focused: false,
            }),
    {
        RadioButton { selected, enabled: true, tracker: PressTracker::new(), focused: false }
    }

    pub fn enabled(self, enabled: bool) -> (r: Self)
        ensures
            r == (RadioButton { enabled, ..self }),
    {
        RadioButton { enabled, ..self }
    }

    pub fn set_enabled(&mut self, enabled: bool)
        ensures
            *final(self) == (RadioButton { enabled, ..*old(self) }),
    {
        self.enabled = enabled;
    }

    pub fn selected(&self) -> (r: bool)
        ensures
            r == self.selected,
    {
        self.selected
    }

    /// The programmatic path, used to deselect a sibling in a group: sets
    /// the state without reporting it. Returns whether it changed.
    pub fn set_selected(&mut self, selected: bool) -> (changed: bool)
        ensures
            changed == (old(self).selected != selected),
            *final(self) == (RadioButton { selected, ..*old(self) }),
    {
        if self.selected == selected {
            return false;
        }
        self.selected = selected;
        true
    }

    /// Selects the radio button; returns whether that is news to report (it
    /// is not if it was already selected: a radio button does not toggle
    /// off by itself).
    pub fn select(&mut self) -> (reported: bool)
        ensures
            reported == !old(self).selected,
            *final(self) == (RadioButton { selected: true, ..*old(self) }),
    {
        if self.selected {
            return false;
        }
        self.selected = true;
        true
    }

    /// Pointer input; the second component is whether selection is reported.
    pub fn on_pointer(&mut self, kind: PointerEventKind, inside: bool) -> (r: (PointerOutcome, bool))
        ensures
            ({
                let (t, o) = press_step(old(self).tracker, old(self).enabled, kind, inside);
                &&& r.0 == o
                &&& r.1 == (o.activate && !old(self).selected)
                &&& *final(self) == (RadioButton {
                    tracker: t,
                    selected: old(self).selected || o.activate,
                    ..*old(self)
                })
            }),
    {
        let enabled = self.enabled;
        let o = self.tracker.on_pointer(enabled, kind, inside);
        if o.activate {
            let reported = self.select();
            (o, reported)
        } else {
            (o, false)
        }
    }

    pub fn on_keyboard(&mut self, event: &KeyboardEvent) -> (r: (bool, bool))
        ensures
            ({
                let (f, k) = focus_key_step(old(self).enabled, old(self).focused, key_intent_spec(event.kind));
                &&& r.0 == k.redraw
                &&& r.1 == (k.activate && !old(self).selected)
                &&& *final(self) == (RadioButton {
                    focused: f,
                    selected: old(self).selected || k.activate,
                    ..*old(self)
                })
            }),
    {
        let enabled = self.enabled;
        let k = focus_key(enabled, &mut self.focused, event);
        if k.activate {
            let reported = self.select();
            (k.redraw, reported)
        } else {
            (k.redraw, false)
        }
    }

    pub fn focusable(&self) -> (r: bool)
        ensures
            r == self.enabled,
    {
        self.enabled
    }

    pub fn set_focused(&mut self, focused: bool)
        ensures
            *final(self) == (RadioButton { focused, ..*old(self) }),
    {
        self.focused = focused;
    }

    pub fn state_layer(&self) -> (r: StateLayer)
        ensures
            r == state_layer_spec(self.enabled, self.tracker.pressed, self.focused, self.tracker.hovered),
    {
        state_layer(self.enabled, self.tracker.pressed, self.focused, self.tracker.hovered)
    }
}

/// A list row: headline with optional supporting, overline and trailing
/// text. Only a clickable, enabled row is interactive; others are inert,
/// presentational rows.
pub struct ListItem {
    pub headline: String,
    pub supporting: Option<String>,
    pub overline: Option<String>,
    pub trailing_text: Option<String>,
    pub font_key: String,
    pub enabled: bool,
    /// Whether the row reports clicks.
    pub clickable: bool,
    pub tracker: PressTracker,
    pub focused: bool,
}

impl ListItem {
    pub fn new(headline: &str) -> (r: Self)
        ensures
            r.headline@ == headline@,
            r.supporting is None,
            r.overline is None,
            r.trailing_text is None,
            r.font_key@ == "noto_sans"@,
            r.enabled,
            !r.clickable,
            r.tracker == (PressTracker { hovered: false, pressed: false }),
            !r.focused,
    {
        ListItem {
            headline: String::from_str(headline),
            supporting: None,
            overline: None,
            trailing_text: None,
            font_key: String::from_str("noto_sans"),
            enabled: true,
            clickable: false,
            tracker: PressTracker::new(),
            focused: false,
        }
    }

    /// Second line, below the headline.
    pub fn supporting(self, text: &str) -> (r: Self)
        ensures
            r.supporting matches Some(t) && t@ == text@,
            r.headline == self.headline && r.overline == self.overline && r.trailing_text
                == self.trailing_text && r.enabled == self.enabled && r.clickable == self.clickable,
    {
        ListItem { supporting: Some(String::from_str(text)), ..self }
    }

    /// Small text drawn above the headline.
    pub fn overline(self, text: &str) -> (r: Self)
        ensures
            r.overline matches Some(t) && t@ == text@,
            r.headline == self.headline && r.supporting == self.supporting && r.trailing_text
                == self.trailing_text && r.enabled == self.enabled && r.clickable == self.clickable,
    {
        ListItem { overline: Some(String::from_str(text)), ..self }
    }

    /// Small supporting text drawn on the right side of the row.
    pub fn trailing_text(self, text: &str) -> (r: Self)
        ensures
            r.trailing_text matches Some(t) && t@ == text@,
            r.headline == self.headline && r.supporting == self.supporting && r.overline
                == self.overline && r.enabled == self.enabled && r.clickable == self.clickable,
    {
        ListItem { trailing_text: Some(String::from_str(text)), ..self }
    }

    pub fn enabled(self, enabled: bool) -> (r: Self)
        ensures
            r == (ListItem { enabled, ..self }),
    {
        ListItem { enabled, ..self }
    }

    /// Makes the row report clicks (or stop reporting them).
    pub fn clickable(self, clickable: bool) -> (r: Self)
        ensures
            r == (ListItem { clickable, ..self }),
    {
        ListItem { clickable, ..self }
    }

    pub fn set_enabled(&mut self, enabled: bool)
        ensures
            *final(self) == (ListItem { enabled, ..*old(self) }),
    {
        self.enabled = enabled;
    }

    pub fn set_clickable(&mut self, clickable: bool)
        ensures
            *final(self) == (ListItem { clickable, ..*old(self) }),
    {
        self.clickable = clickable;
    }

    /// Interactive rows get a state layer, hit-test input, and can take
    /// focus.
    pub fn interactive(&self) -> (r: bool)
        ensures
            r == (self.clickable && self.enabled),
    {
        self.clickable && self.enabled
    }

    /// Pointer input; `activate` in the outcome is a click to report. A
    /// row that is not interactive ignores the pointer entirely.
    pub fn on_pointer(&mut self, kind: PointerEventKind, inside: bool) -> (r: PointerOutcome)
        ensures
            !(old(self).clickable && old(self).enabled) ==> *final(self) == *old(self) && r
                == (PointerOutcome { redraw: false, activate: false, morph: Morph::Keep }),
            old(self).clickable && old(self).enabled ==> {
                let (t, o) = press_step(old(self).tracker, true, kind, inside);
                r == o && *final(self) == (ListItem { tracker: t, ..*old(self) })
            },
    {
        if !self.interactive() {
            return PointerOutcome { redraw: false, activate: false, morph: Morph::Keep };
        }
        self.tracker.on_pointer(true, kind, inside)
    }

    /// Keyboard input; `activate` in the outcome is a click to report.
    pub fn on_keyboard(&mut self, event: &KeyboardEvent) -> (r: KeyOutcome)
        ensures
            ({
                let (f, k) = focus_key_step(
                    old(self).clickable && old(self).enabled,
                    old(self).focused,
                    key_intent_spec(event.kind),
                );
                r == k && *final(self) == (ListItem { focused: f, ..*old(self) })
            }),
    {
        let interactive = self.interactive();
        focus_key(interactive, &mut self.focused, event)
    }

    pub fn focusable(&self) -> (r: bool)
        ensures
            r == (self.clickable && self.enabled),
    {
        self.interactive()
    }

    pub fn set_focused(&mut self, focused: bool)
        ensures
            *final(self) == (ListItem { focused, ..*old(self) }),
    {
        self.focused = focused;
    }

    pub fn state_layer(&self) -> (r: StateLayer)
        ensures
            r == state_layer_spec(
                self.clickable && self.enabled,
                self.tracker.pressed,
                self.focused,
                self.tracker.hovered,
            ),
    {
        state_layer(self.interactive(), self.tracker.pressed, self.focused, self.tracker.hovered)
    }
}

/// A checkbox after a toggle.
pub open spec fn checkbox_toggled(c: CheckBox) -> CheckBox {
    CheckBox { checked: !c.checked, indeterminate: false, ..c }
}

/// A switch after a toggle.
pub open spec fn switch_toggled(s: Switch) -> Switch {
    Switch { checked: !s.checked, ..s }
}

/// Toggling twice restores the checked state; a toggle always clears the
/// indeterminate state, and the state reported is the new one.
pub proof fn law_checkbox_toggle_twice(c: CheckBox)
    ensures
        checkbox_toggled(checkbox_toggled(c)).checked == c.checked,
        !checkbox_toggled(c).indeterminate,
        checkbox_toggled(checkbox_toggled(c)) == (CheckBox { indeterminate: false, ..c }),
{
}

/// Toggling a switch twice gives the switch back.
pub proof fn law_switch_toggle_twice(s: Switch)
    ensures
        switch_toggled(switch_toggled(s)) == s,
{
}

/// A radio button after `select`, and whether that select is reported.
pub open spec fn radio_selected(r: RadioButton) -> RadioButton {
    RadioButton { selected: true, ..r }
}

pub open spec fn select_reports(r: RadioButton) -> bool {
    !r.selected
}

/// Selecting a radio button reports at most once: selecting it again
/// reports nothing and changes nothing.
pub proof fn law_radio_select_reports_once(r: RadioButton)
    ensures
        !select_reports(radio_selected(r)),
        radio_selected(radio_selected(r)) == radio_selected(r),
{
}

} // verus!
