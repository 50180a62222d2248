//! Integer block positions and squared distances.

use vstd::prelude::*;

verus! {

/// A position in the block grid: an integer 3-coordinate, immutable once
/// created.
#[derive(Clone, Copy, Debug, PartialEq, Eq, Structural, Hash)]
pub struct BlockPos {
    pub x: i32,
    pub y: i32,
    pub z: i32,
}

/// Squared Euclidean distance between two block positions, as a mathematical
/// integer.
pub open spec fn dist_sq(a: BlockPos, b: BlockPos) -> int {
    (a.x - b.x) * (a.x - b.x) + (a.y - b.y) * (a.y - b.y) + (a.z - b.z) * (a.z - b.z)
}

/// The square of a coordinate difference is nonnegative and bounded, so the
/// squared distance of two block positions always fits in `i128`.
proof fn lemma_square_bounded(d: int)
    requires
        -0x1_0000_0000 <= d <= 0x1_0000_0000,
    ensures
        0 <= d * d <= 0x1_0000_0000_0000_0000,
{
    assert(0 <= d * d <= 0x1_0000_0000_0000_0000) by (nonlinear_arith)
        requires
            -0x1_0000_0000 <= d <= 0x1_0000_0000,
    ;
}

impl BlockPos {
    pub fn new(x: i32, y: i32, z: i32) -> (p: BlockPos)
        ensures
            p == (BlockPos { x, y, z }),
    {
        BlockPos { x, y, z }
    }

    /// Squared Euclidean distance to `other`. Computed in `i128`, which is
    /// wide enough for any pair of `i32` coordinates.
    pub fn distance_squared_to(&self, other: &BlockPos) -> (d: i128)
        ensures
            d == dist_sq(*self, *other),
    {
        let dx: i128 = self.x as i128 - other.x as i128;
        let dy: i128 = self.y as i128 - other.y as i128;
        let dz: i128 = self.z as i128 - other.z as i128;
        proof {
            lemma_square_bounded(dx as int);
            lemma_square_bounded(dy as int);
            lemma_square_bounded(dz as int);
        }
        dx * dx + dy * dy + dz * dz
    }
}

} // verus!
