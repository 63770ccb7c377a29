//! Dimensions of the playfield and of the sprites, and the fixed-point scale.

use vstd::prelude::*;

verus! {

/// Positions and speeds are counted in hundredths of a pixel.
pub const SUBPIXELS: i64 = 100;

pub const SCREEN_WIDTH: u8 = 128;
pub const SCREEN_HEIGHT: u8 = 64;
pub const DISPLAY_WIDTH: u32 = 128;
pub const DISPLAY_HEIGHT: u32 = 64;

pub const PUDGE_WIDTH: u8 = 18;
pub const PUDGE_HEIGHT: u8 = 13;
pub const HOOK_WIDTH: u8 = 5;
pub const HOOK_HEIGHT: u8 = 9;
pub const CREEP_WIDTH: u8 = 13;
pub const CREEP_HEIGHT: u8 = 11;

} // verus!
