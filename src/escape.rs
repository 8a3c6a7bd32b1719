//! The escape-time evaluator: iterate `z <- z*z + c` from `z = 0` until
//! `|z|^2 > 4` or the iteration limit is reached.
use vstd::prelude::*;
use crate::fixed::{ONE, COORD_LIMIT, rescale, rescale_spec, lemma_rescale_bound};

verus! {

/// A point of the complex plane in fixed point.
#[derive(Clone, Copy, PartialEq, Eq, Debug, Structural)]
pub struct Complex {
    pub re: i64,
    pub im: i64,
}

impl Complex {
    pub open spec fn view(&self) -> (int, int) {
        (self.re as int, self.im as int)
    }

    /// Both parts lie within the coordinate range.
    pub open spec fn wf(&self) -> bool {
        -COORD_LIMIT <= self.re <= COORD_LIMIT && -COORD_LIMIT <= self.im <= COORD_LIMIT
    }
}

/// `4.0` as the squared magnitude, at the scale of a product of two fixed-point values.
pub open spec fn escape_radius_sq() -> int {
    4 * (ONE as int) * (ONE as int)
}

/// `|z|^2 > 4`, on the unrescaled squares.
pub open spec fn escaped(z: (int, int)) -> bool {
    z.0 * z.0 + z.1 * z.1 > escape_radius_sq()
}

/// One step `z*z + c` in fixed point.
pub open spec fn step(z: (int, int), c: (int, int)) -> (int, int) {
    (
        rescale_spec(z.0 * z.0 - z.1 * z.1) + c.0,
        rescale_spec(2 * z.0 * z.1) + c.1,
    )
}

/// The count returned when the orbit stands at `z` after `k` steps.
pub open spec fn escape_from(z: (int, int), c: (int, int), k: nat, limit: nat) -> nat
    decreases limit - k,
{
    if k >= limit {
        limit
    } else {
        let next = step(z, c);
        if escaped(next) {
            k + 1
        } else {
            escape_from(next, c, k + 1, limit)
        }
    }
}

/// The escape time of `c`: the step at which the orbit of `0` leaves the
/// disc of radius 2, or `limit` where it stays inside for `limit` steps.
pub open spec fn escape_time(c: (int, int), limit: nat) -> nat {
    escape_from((0, 0), c, 0, limit)
}

proof fn lemma_square_bound(x: int, y: int)
    requires
        x * x + y * y <= escape_radius_sq(),
    ensures
        -0x2_0000_0000 <= x <= 0x2_0000_0000,
{
    assert(escape_radius_sq() == 0x2_0000_0000 * 0x2_0000_0000);
    if x > 0x2_0000_0000 {
        assert(x * x > 0x2_0000_0000 * 0x2_0000_0000) by (nonlinear_arith)
            requires x > 0x2_0000_0000;
        assert(y * y >= 0) by (nonlinear_arith);
    }
    if x < -0x2_0000_0000 {
        assert(x * x > 0x2_0000_0000 * 0x2_0000_0000) by (nonlinear_arith)
            requires x < -0x2_0000_0000;
        assert(y * y >= 0) by (nonlinear_arith);
    }
}

proof fn lemma_escape_from_bounded(z: (int, int), c: (int, int), k: nat, limit: nat)
    ensures
        escape_from(z, c, k, limit) <= limit,
        k <= limit ==> escape_from(z, c, k, limit) >= k,
    decreases limit - k,
{
    if k < limit {
        lemma_escape_from_bounded(step(z, c), c, k + 1, limit);
    }
}

proof fn lemma_product_bound(x: int, y: int, b: int)
    requires
        0 <= b,
        -b <= x <= b,
        -b <= y <= b,
    ensures
        -(b * b) <= x * y <= b * b,
        x == y ==> x * y >= 0,
{
    assert(-(b * b) <= x * y <= b * b) by (nonlinear_arith)
        requires 0 <= b, -b <= x <= b, -b <= y <= b;
    if x == y {
        assert(x * x >= 0) by (nonlinear_arith);
    }
}

/// The escape time never exceeds the limit.
pub proof fn lemma_escape_time_bounded(c: (int, int), limit: nat)
    ensures
        escape_time(c, limit) <= limit,
{
    lemma_escape_from_bounded((0, 0), c, 0, limit);
}

proof fn lemma_origin_from(k: nat, limit: nat)
    requires
        k <= limit,
    ensures
        escape_from((0, 0), (0, 0), k, limit) == limit,
    decreases limit - k,
{
    if k < limit {
        assert(step((0, 0), (0, 0)) == (0int, 0int));
        lemma_origin_from(k + 1, limit);
    }
}

/// The origin never escapes: its escape time is the limit itself.
pub proof fn lemma_origin_never_escapes(limit: nat)
    ensures
        escape_time((0, 0), limit) == limit,
{
    lemma_origin_from(0, limit);
}

/// The point `2 + 0i` reaches `|z|^2 = 4` after one step, which is not yet
/// beyond the bound, and leaves the disc at the second step.
pub proof fn lemma_two_escapes_at_second_step(limit: nat)
    requires
        limit >= 1,
    ensures
        escape_time((2 * ONE as int, 0), limit) == if limit == 1 { 1nat } else { 2nat },
        limit == 1 ==> escape_time((2 * ONE as int, 0), limit) <= 1,
{
    let c = (2 * ONE as int, 0int);
    let one = ONE as int;
    assert(one == 4294967296);
    assert(c.0 * c.0 + 0 * 0 == 4 * one * one) by (nonlinear_arith)
        requires c.0 == 2 * one;
    assert(step((0, 0), c) == c);
    assert(!escaped(c));
    assert(escape_from((0, 0), c, 0, limit) == escape_from(c, c, 1, limit));
    if limit > 1 {
        assert(rescale_spec(c.0 * c.0 - 0 * 0) == 4 * one) by {
            assert(c.0 * c.0 - 0 * 0 == (4 * one) * one) by (nonlinear_arith)
                requires c.0 == 2 * one;
            vstd::arithmetic::div_mod::lemma_div_multiples_vanish(4 * one, one);
        }
        assert(step(c, c) == (6 * one, 0int));
        assert((6 * one) * (6 * one) + 0 * 0 > 4 * one * one) by (nonlinear_arith)
            requires one > 0;
        assert(escape_from(c, c, 1, limit) == 2);
    }
}

/// Escape time of `c` under `iter_limit`.
pub fn evaluate(c: Complex, iter_limit: u32) -> (r: u32)
    requires
        c.wf(),
    ensures
        r == escape_time(c@, iter_limit as nat),
        r <= iter_limit,
{
    proof {
        lemma_escape_time_bounded(c@, iter_limit as nat);
    }
    let ghost radius = escape_radius_sq();
    assert(radius == 0x4_0000_0000_0000_0000);
    let bound: i128 = 0x4_0000_0000_0000_0000;
    let cre: i128 = c.re as i128;
    let cim: i128 = c.im as i128;
    let mut x: i128 = 0;
    let mut y: i128 = 0;
    let mut k: u32 = 0;
    while k < iter_limit
        invariant
            k <= iter_limit,
            cre == c.re,
            cim == c.im,
            c.wf(),
            bound == escape_radius_sq(),
            !escaped((x as int, y as int)),
            escape_from((x as int, y as int), c@, k as nat, iter_limit as nat)
                == escape_time(c@, iter_limit as nat),
        decreases iter_limit - k,
    {
        proof {
            lemma_square_bound(x as int, y as int);
            lemma_square_bound(y as int, x as int);
        }
        proof {
            lemma_product_bound(x as int, x as int, 0x2_0000_0000);
            lemma_product_bound(y as int, y as int, 0x2_0000_0000);
            lemma_product_bound(x as int, y as int, 0x2_0000_0000);
            lemma_product_bound(2 * x as int, y as int, 0x4_0000_0000);
        }
        let sq: i128 = x * x - y * y;
        let cross: i128 = 2 * x * y;
        proof {
            lemma_rescale_bound(sq as int, 0x10_0000_0000_0000_0000);
            lemma_rescale_bound(cross as int, 0x10_0000_0000_0000_0000);
            assert(0x10_0000_0000_0000_0000int / (ONE as int) == 0x10_0000_0000);
        }
        let nx: i128 = rescale(sq) + cre;
        let ny: i128 = rescale(cross) + cim;
        proof {
            lemma_product_bound(nx as int, nx as int, 0x40_0000_0000);
            lemma_product_bound(ny as int, ny as int, 0x40_0000_0000);
        }
        k = k + 1;
        if nx * nx + ny * ny > bound {
            return k;
        }
        x = nx;
        y = ny;
    }
    k
}

} // verus!
