//! Scaling of grid coordinates to screen pixels.

use vstd::prelude::*;

verus! {

/// Side of one grid cell, in pixels.
pub const BLOCK_SIZE: i64 = 25;

/// Pixel offset of grid coordinate `g`, clamped to the range of `u32`:
/// negative coordinates give 0, and offsets past `u32::MAX` give `u32::MAX`.
pub open spec fn pixel_of(g: int) -> int {
    let p = g * BLOCK_SIZE;
    if p < 0 {
        0
    } else if p > u32::MAX {
        u32::MAX as int
    } else {
        p
    }
}

/// Scales a grid coordinate to a pixel offset.
pub fn to_coord_u32(game_coord: i32) -> (r: u32)
    ensures
        r == pixel_of(game_coord as int),
{
    let p: i64 = game_coord as i64 * BLOCK_SIZE;
    if p < 0 {
        0
    } else if p > u32::MAX as i64 {
        u32::MAX
    } else {
        p as u32
    }
}

} // verus!
