//! Sizing of the compute dispatch that writes the shared image.
//!
//! The tracing shader works in 16x16 tiles, so a dispatch must issue enough
//! work groups in each dimension to cover the whole presentation extent.

use vstd::prelude::*;

verus! {

/// Work groups issued by one compute dispatch, one per axis of the grid.
#[derive(Clone, Copy, Debug, PartialEq, Eq, Structural)]
pub struct GroupCount {
    pub x: u32,
    pub y: u32,
    pub z: u32,
}

/// The number of 16-wide tiles needed to cover `n` texels.
pub open spec fn ceil_div16(n: int) -> int {
    (n + 15) / 16
}

/// Work-group counts for a dispatch covering a `width` x `height` extent:
/// the ceiling of each dimension divided by the 16-texel tile size, and a
/// single layer in depth.
pub fn dispatch_groups(width: u32, height: u32) -> (g: GroupCount)
    ensures
        g.x as int == ceil_div16(width as int),
        g.y as int == ceil_div16(height as int),
        g.z == 1,
        16 * (g.x as int) >= width as int,
        16 * (g.y as int) >= height as int,
        width > 0 ==> 16 * (g.x as int - 1) < width as int,
        height > 0 ==> 16 * (g.y as int - 1) < height as int,
{
    let x: u32 = ((width as u64 + 15) / 16) as u32;
    let y: u32 = ((height as u64 + 15) / 16) as u32;
    GroupCount { x, y, z: 1 }
}

} // verus!
