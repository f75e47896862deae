//! Keysyms the widgets react to.
use vstd::prelude::*;

verus! {

pub const SPACE: u32 = 0x0020;
pub const BACKSPACE: u32 = 0xff08;
pub const TAB: u32 = 0xff09;
pub const RETURN: u32 = 0xff0d;
pub const ESCAPE: u32 = 0xff1b;
pub const HOME: u32 = 0xff50;
pub const LEFT: u32 = 0xff51;
pub const UP: u32 = 0xff52;
pub const RIGHT: u32 = 0xff53;
pub const DOWN: u32 = 0xff54;
pub const END: u32 = 0xff57;
pub const DELETE: u32 = 0xffff;

} // verus!
