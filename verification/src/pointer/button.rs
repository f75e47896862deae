//! Linux input button codes.
use vstd::prelude::*;

verus! {

pub const LEFT: u32 = 0x110;
pub const RIGHT: u32 = 0x111;
pub const MIDDLE: u32 = 0x112;

} // verus!
