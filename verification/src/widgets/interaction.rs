//! The interaction rules every interactive widget shares: which state layer
//! is painted, what a key event asks of a widget, and the press/release
//! tracking of single-target controls.
use vstd::prelude::*;

use crate::keyboard::{is_space_text, key, text_is_space, KeyboardEventKind};
use crate::pointer::{button, PointerEventKind};

verus! {

/// The state layer painted over a control: pressed wins over focused,
/// focused over hovered.
#[derive(Debug, Clone, Copy, PartialEq, Eq, Structural)]
pub enum StateLayer {
    Rest,
    Hovered,
    Focused,
    Pressed,
}

pub open spec fn state_layer_spec(enabled: bool, pressed: bool, focused: bool, hovered: bool) -> StateLayer {
    if !enabled {
        StateLayer::Rest
    } else if pressed {
        StateLayer::Pressed
    } else if focused {
        StateLayer::Focused
    } else if hovered {
        StateLayer::Hovered
    } else {
        StateLayer::Rest
    }
}

pub fn state_layer(enabled: bool, pressed: bool, focused: bool, hovered: bool) -> (r: StateLayer)
    ensures
        r == state_layer_spec(enabled, pressed, focused, hovered),
{
    if !enabled {
        StateLayer::Rest
    } else if pressed {
        StateLayer::Pressed
    } else if focused {
        StateLayer::Focused
    } else if hovered {
        StateLayer::Hovered
    } else {
        StateLayer::Rest
    }
}

/// What a keyboard event asks of a focusable control. Space usually reaches
/// a widget as committed text rather than as a keysym, since backends route
/// anything printable through `Commit`; both forms activate, as does Return.
#[derive(Debug, Clone, Copy, PartialEq, Eq, Structural)]
pub enum KeyIntent {
    Focus,
    Blur,
    Activate,
    /// Any other key press, for the control to interpret.
    Key(u32),
    Ignore,
}

pub open spec fn key_intent_spec(kind: KeyboardEventKind) -> KeyIntent {
    match kind {
        KeyboardEventKind::Focus => KeyIntent::Focus,
        KeyboardEventKind::Blur => KeyIntent::Blur,
        KeyboardEventKind::Commit(text) => if is_space_text(text@) {
            KeyIntent::Activate
        } else {
            KeyIntent::Ignore
        },
        KeyboardEventKind::Press { keysym, .. } => if keysym == key::SPACE || keysym
            == key::RETURN {
            KeyIntent::Activate
        } else {
            KeyIntent::Key(keysym)
        },
        _ => KeyIntent::Ignore,
    }
}

pub fn key_intent(kind: &KeyboardEventKind) -> (r: KeyIntent)
    ensures
        r == key_intent_spec(*kind),
{
    match kind {
        KeyboardEventKind::Focus => KeyIntent::Focus,
        KeyboardEventKind::Blur => KeyIntent::Blur,
        KeyboardEventKind::Commit(text) => {
            if text_is_space(text.as_str()) {
                KeyIntent::Activate
            } else {
                KeyIntent::Ignore
            }
        },
        KeyboardEventKind::Press { keysym, .. } => {
            let k = *keysym;
            if k == key::SPACE || k == key::RETURN {
                KeyIntent::Activate
            } else {
                KeyIntent::Key(k)
            }
        },
        KeyboardEventKind::Release { .. } => KeyIntent::Ignore,
        KeyboardEventKind::Preedit { .. } => KeyIntent::Ignore,
    }
}

/// Which way the press shape-morph should head after a pointer event.
#[derive(Debug, Clone, Copy, PartialEq, Eq, Structural)]
pub enum Morph {
    Keep,
    /// Toward the pressed (squarer) shape.
    Press,
    /// Back to the resting shape.
    Release,
}

/// What a pointer event did to a single-target control.
#[derive(Debug, Clone, Copy, PartialEq, Eq, Structural)]
pub struct PointerOutcome {
    pub redraw: bool,
    /// Press and release both landed inside: the control activates.
    pub activate: bool,
    pub morph: Morph,
}

/// Hover and press tracking of a control with one hit target.
#[derive(Debug, Clone, Copy, PartialEq, Eq, Structural)]
pub struct PressTracker {
    pub hovered: bool,
    pub pressed: bool,
}

/// The tracker state and outcome after `kind` arrives with the pointer
/// `inside` the target or not.
pub open spec fn press_step(
    t: PressTracker,
    enabled: bool,
    kind: PointerEventKind,
    inside: bool,
) -> (PressTracker, PointerOutcome) {
    let release = if t.pressed {
        Morph::Release
    } else {
        Morph::Keep
    };
    if !enabled {
        (
            PressTracker { hovered: false, pressed: false },
            PointerOutcome { redraw: t.hovered || t.pressed, activate: false, morph: release },
        )
    } else {
        match kind {
            PointerEventKind::Enter | PointerEventKind::Motion => (
                PressTracker { hovered: inside, pressed: t.pressed },
                PointerOutcome { redraw: t.hovered != inside, activate: false, morph: Morph::Keep },
            ),
            PointerEventKind::Leave => (
                PressTracker { hovered: false, pressed: false },
                PointerOutcome { redraw: t.hovered || t.pressed, activate: false, morph: release },
            ),
            PointerEventKind::Press { button } => if button == button::LEFT && inside {
                (
                    PressTracker { hovered: true, pressed: true },
                    PointerOutcome { redraw: true, activate: false, morph: Morph::Press },
                )
            } else {
                (t, PointerOutcome { redraw: false, activate: false, morph: Morph::Keep })
            },
            PointerEventKind::Release { button } => if button == button::LEFT {
                (
                    PressTracker { hovered: t.hovered, pressed: false },
                    PointerOutcome { redraw: t.pressed, activate: t.pressed && inside, morph: release },
                )
            } else {
                (t, PointerOutcome { redraw: false, activate: false, morph: Morph::Keep })
            },
            PointerEventKind::Axis => (
                t,
                PointerOutcome { redraw: false, activate: false, morph: Morph::Keep },
            ),
        }
    }
}

impl PressTracker {
    pub fn new() -> (r: Self)
        ensures
            !r.hovered && !r.pressed,
    {
        PressTracker { hovered: false, pressed: false }
    }

    /// A press activates only when its release lands inside too, so a drag
    /// off the control cancels. A disabled control drops hover and press.
    pub fn on_pointer(&mut self, enabled: bool, kind: PointerEventKind, inside: bool) -> (r:
        PointerOutcome)
        ensures
            (*final(self), r) == press_step(*old(self), enabled, kind, inside),
    {
        let release = if self.pressed {
            Morph::Release
        } else {
            Morph::Keep
        };
        if !enabled {
            let dirty = self.hovered || self.pressed;
            self.hovered = false;
            self.pressed = false;
            return PointerOutcome { redraw: dirty, activate: false, morph: release };
        }
        match kind {
            PointerEventKind::Enter | PointerEventKind::Motion => {
                let changed = self.hovered != inside;
                self.hovered = inside;
                PointerOutcome { redraw: changed, activate: false, morph: Morph::Keep }
            },
            PointerEventKind::Leave => {
                let dirty = self.hovered || self.pressed;
                self.hovered = false;
                self.pressed = false;
                PointerOutcome { redraw: dirty, activate: false, morph: release }
            },
            PointerEventKind::Press { button } => {
                if button == button::LEFT && inside {
                    self.hovered = true;
                    self.pressed = true;
                    PointerOutcome { redraw: true, activate: false, morph: Morph::Press }
                } else {
                    PointerOutcome { redraw: false, activate: false, morph: Morph::Keep }
                }
            },
            PointerEventKind::Release { button } => {
                if button == button::LEFT {
                    let was_pressed = self.pressed;
                    self.pressed = false;
                    PointerOutcome {
                        redraw: was_pressed,
                        activate: was_pressed && inside,
                        morph: release,
                    }
                } else {
                    PointerOutcome { redraw: false, activate: false, morph: Morph::Keep }
                }
            },
            PointerEventKind::Axis => PointerOutcome {
                redraw: false,
                activate: false,
                morph: Morph::Keep,
            },
        }
    }
}

/// A control activates from the pointer only if a left press inside it is
/// followed by a left release inside it, with nothing in between.
pub proof fn law_click_activates(t: PressTracker, enabled: bool)
    requires
        enabled,
    ensures
        ({
            let (t1, o1) = press_step(t, enabled, PointerEventKind::Press { button: button::LEFT }, true);
            let (t2, o2) = press_step(t1, enabled, PointerEventKind::Release { button: button::LEFT }, true);
            !o1.activate && o2.activate && !t2.pressed
        }),
{
}

/// A release outside the control never activates it, and a disabled
/// control never activates.
pub proof fn law_no_activation_outside_or_disabled(
    t: PressTracker,
    enabled: bool,
    kind: PointerEventKind,
    inside: bool,
)
    requires
        !enabled || !inside,
    ensures
        !press_step(t, enabled, kind, inside).1.activate,
{
}

} // verus!
