use vstd::prelude::*;

verus! {

/// Width of the playing field, in cells.
pub const AREA_WIDTH: i32 = 53;

/// Height of the playing field, in cells.
pub const AREA_HEIGHT: i32 = 31;

/// Half-extent of the x axis (half the width, rounded down): legal x
/// coordinates span -X_HALF ..= X_HALF.
pub const X_HALF: i32 = 26;

/// Half-extent of the y axis (half the height, rounded down): legal y
/// coordinates span -Y_HALF ..= Y_HALF.
pub const Y_HALF: i32 = 15;

/// Toroidal wrap of one coordinate: a coordinate past +half comes back in at
/// -half, one below -half comes back in at +half, and one inside the band is
/// left alone.
pub open spec fn wrap_spec(c: int, h: int) -> int {
    if c > h {
        -h
    } else if c < -h {
        h
    } else {
        c
    }
}

/// Wrap a coordinate into the band -half ..= half (toroidal topology: running
/// off one edge reappears at the opposite edge).
pub fn wrap(coord: i32, half: i32) -> (r: i32)
    requires
        0 < half,
    ensures
        r == wrap_spec(coord as int, half as int),
        -half <= r <= half,
{
    if coord > half {
        -half
    } else if coord < -half {
        half
    } else {
        coord
    }
}

/// Wrap law: wrapping is idempotent, and one step past either edge lands
/// exactly on the opposite edge.
pub proof fn lemma_wrap_idempotent(c: int, h: int)
    requires
        0 < h,
    ensures
        wrap_spec(wrap_spec(c, h), h) == wrap_spec(c, h),
        wrap_spec(h + 1, h) == -h,
        wrap_spec(-h - 1, h) == h,
{
}

} // verus!
