//! The built-in vector icon set, shared by every widget that paints a glyph.
use vstd::prelude::*;

verus! {

/// A small built-in icon set, painted by the renderer into a 24dp box.
#[derive(Debug, Clone, Copy, PartialEq, Eq, Structural)]
pub enum Icon {
    Check,
    Close,
    Add,
    /// Three horizontal lines ("hamburger" menu).
    Menu,
    Favorite,
    /// A simplified gear glyph.
    Settings,
    /// Three dots (an overflow/"more" affordance).
    More,
    ArrowBack,
}

} // verus!
