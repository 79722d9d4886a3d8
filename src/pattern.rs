use vstd::prelude::*;

verus! {

/// Whether the unit cell numbered `k` is even. `%` on `int` is Euclidean,
/// so cell `-1` (the unit left of the origin) is odd and cell `-2` even.
pub open spec fn is_even(k: int) -> bool {
    k % 2 == 0
}

/// The colour of a two-tone band pattern (stripes along x, rings around
/// the y axis) in the band numbered `band`, that is the floor of the
/// pattern-space coordinate or radius: `a` on even bands, `b` on odd ones.
pub fn alternate<T: Copy>(a: T, b: T, band: i64) -> (c: T)
    ensures
        c == if is_even(band as int) { a } else { b },
{
    if band % 2 == 0 {
        a
    } else {
        b
    }
}

/// The colour of a 3D checker pattern in the unit cube whose corner is
/// `(cx, cy, cz)`, the floors of the pattern-space coordinates: `a` where
/// their sum is even, `b` where it is odd.
pub fn checker<T: Copy>(a: T, b: T, cx: i64, cy: i64, cz: i64) -> (c: T)
    ensures
        c == if is_even(cx + cy + cz) { a } else { b },
{
    let sum: i128 = cx as i128 + cy as i128 + cz as i128;
    if sum % 2 == 0 {
        a
    } else {
        b
    }
}

} // verus!
