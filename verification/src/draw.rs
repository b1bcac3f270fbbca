//! Grid-to-pixel coordinate scaling for the rendering host.

use vstd::prelude::*;

verus! {

/// Pixel width of one grid cell.
pub const BLOCK_SIZE: u32 = 25;

/// The pixel coordinate of grid column or row `game_coord`, scaled by
/// [`BLOCK_SIZE`] and clamped into `u32`: negative coordinates give 0 and
/// coordinates past the representable range give `u32::MAX`.
pub fn to_coord_u32(game_coord: i32) -> (r: u32)
    ensures
        game_coord <= 0 ==> r == 0,
        game_coord > 0 && game_coord * BLOCK_SIZE <= u32::MAX ==> r == game_coord * BLOCK_SIZE,
        game_coord > 0 && game_coord * BLOCK_SIZE > u32::MAX ==> r == u32::MAX,
{
    if game_coord <= 0 {
        0
    } else {
        assert(game_coord as u64 <= 0x7fff_ffff);
        let scaled: u64 = (game_coord as u64) * (BLOCK_SIZE as u64);
        if scaled > u32::MAX as u64 {
            u32::MAX
        } else {
            scaled as u32
        }
    }
}

} // verus!
