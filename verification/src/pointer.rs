//! Pointer events as widgets see them: which phase of a gesture arrived and
//! with which button. Coordinates stay with the caller, which hit-tests them
//! against the widget's geometry and hands the widget the answer.
use vstd::prelude::*;

pub mod button;

verus! {

#[derive(Debug, Clone, Copy, PartialEq, Eq)]
pub enum PointerEventKind {
    Enter,
    Leave,
    Motion,
    Press { button: u32 },
    Release { button: u32 },
    /// A scroll; its amounts are the caller's business.
    Axis,
}

/// The button a press or release carries.
pub open spec fn button_of(kind: PointerEventKind) -> Option<u32> {
    match kind {
        PointerEventKind::Press { button } => Some(button),
        PointerEventKind::Release { button } => Some(button),
        _ => None,
    }
}

pub fn event_button(kind: PointerEventKind) -> (r: Option<u32>)
    ensures
        r == button_of(kind),
{
    match kind {
        PointerEventKind::Press { button } => Some(button),
        PointerEventKind::Release { button } => Some(button),
        _ => None,
    }
}

pub fn is_press(kind: PointerEventKind, button: u32) -> (r: bool)
    ensures
        r == (kind == PointerEventKind::Press { button }),
{
    match kind {
        PointerEventKind::Press { button: b } => b == button,
        _ => false,
    }
}

pub fn is_release(kind: PointerEventKind, button: u32) -> (r: bool)
    ensures
        r == (kind == PointerEventKind::Release { button }),
{
    match kind {
        PointerEventKind::Release { button: b } => b == button,
        _ => false,
    }
}

} // verus!
