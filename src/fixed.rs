//! Fixed-point numbers: an integer `v` stands for the real number `v / 2^32`.
use vstd::prelude::*;

verus! {

/// The fixed-point value of 1.0.
pub const ONE: i64 = 4294967296;

/// Largest magnitude of a plane coordinate: 16.0 in fixed point.
pub const COORD_LIMIT: i64 = 68719476736;

/// Rescales a product of two fixed-point values back to fixed point,
/// truncating toward zero.
pub open spec fn rescale_spec(p: int) -> int {
    if p >= 0 {
        p / (ONE as int)
    } else {
        -((-p) / (ONE as int))
    }
}

/// Executable form of [`rescale_spec`].
pub fn rescale(p: i128) -> (r: i128)
    requires
        -0x1_0000_0000_0000_0000_0000_0000 <= p <= 0x1_0000_0000_0000_0000_0000_0000,
    ensures
        r == rescale_spec(p as int),
        -0x1_0000_0000_0000_0000 <= r <= 0x1_0000_0000_0000_0000,
{
    let one: i128 = ONE as i128;
    if p >= 0 {
        p / one
    } else {
        let m: i128 = -p;
        -(m / one)
    }
}

/// Rescaling never moves a value away from zero.
pub proof fn lemma_rescale_bound(p: int, b: int)
    requires
        0 <= b,
        -b <= p <= b,
    ensures
        -(b / (ONE as int)) <= rescale_spec(p) <= b / (ONE as int),
{
    if p >= 0 {
        vstd::arithmetic::div_mod::lemma_div_is_ordered(p, b, ONE as int);
    } else {
        vstd::arithmetic::div_mod::lemma_div_is_ordered(-p, b, ONE as int);
    }
    vstd::arithmetic::div_mod::lemma_div_pos_is_pos(b, ONE as int);
}

} // verus!
