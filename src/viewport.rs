//! The visible rectangle of the complex plane and its pixel grid.
//!
//! Convention: the column index `px` runs along the real axis and the row
//! index `py` along the imaginary axis; a buffer index is `py * px_width + px`.
use vstd::prelude::*;
use crate::fixed::{ONE, COORD_LIMIT};
use crate::escape::Complex;
use crate::error::RenderError;

verus! {

/// Bounds of the region in fixed point, and the grid's size in pixels.
#[derive(Clone, Copy, PartialEq, Eq, Debug, Structural)]
pub struct Viewport {
    pub re_min: i64,
    pub re_max: i64,
    pub im_min: i64,
    pub im_max: i64,
    pub px_width: u32,
    pub px_height: u32,
}

/// `0 <= p * span / n <= span` for a pixel offset `p <= n`.
pub proof fn lemma_offset_within(p: int, n: int, span: int)
    requires
        0 <= p <= n,
        0 < n,
        0 <= span,
    ensures
        0 <= (p * span) / n <= span,
{
    assert(0 <= p * span <= n * span) by (nonlinear_arith)
        requires 0 <= p <= n, 0 <= span;
    vstd::arithmetic::div_mod::lemma_div_is_ordered(p * span, n * span, n);
    vstd::arithmetic::div_mod::lemma_div_by_multiple(span, n);
    assert(n * span == span * n) by (nonlinear_arith);
    vstd::arithmetic::div_mod::lemma_div_pos_is_pos(p * span, n);
}

/// Bounds reached by zooming on a plane point with a half-span for each axis.
pub open spec fn zoom_half(span: int, num: int, den: int) -> int {
    ((span / 2) * num) / den
}

impl Viewport {
    /// Both spans are positive, all bounds within the coordinate range, and
    /// the grid is not empty.
    pub open spec fn wf(&self) -> bool {
        &&& -COORD_LIMIT <= self.re_min < self.re_max <= COORD_LIMIT
        &&& -COORD_LIMIT <= self.im_min < self.im_max <= COORD_LIMIT
        &&& self.px_width > 0
        &&& self.px_height > 0
    }

    pub open spec fn pixel_count(&self) -> nat {
        (self.px_width * self.px_height) as nat
    }

    /// Real part of the plane point of column `px`.
    pub open spec fn plane_re(&self, px: int) -> int {
        self.re_min + (px * (self.re_max - self.re_min)) / (self.px_width as int)
    }

    /// Imaginary part of the plane point of row `py`.
    pub open spec fn plane_im(&self, py: int) -> int {
        self.im_min + (py * (self.im_max - self.im_min)) / (self.px_height as int)
    }

    pub open spec fn plane_point(&self, px: int, py: int) -> (int, int) {
        (self.plane_re(px), self.plane_im(py))
    }

    /// The plane point of a buffer index.
    pub open spec fn index_point(&self, i: int) -> (int, int) {
        self.plane_point(i % (self.px_width as int), i / (self.px_width as int))
    }

    /// Half-spans after scaling by `num / den`.
    pub open spec fn zoom_half_re(&self, num: int, den: int) -> int {
        zoom_half(self.re_max - self.re_min, num, den)
    }

    pub open spec fn zoom_half_im(&self, num: int, den: int) -> int {
        zoom_half(self.im_max - self.im_min, num, den)
    }

    /// Whether zooming by `num / den` on the pixel `(px, py)` gives a valid
    /// viewport.
    pub open spec fn zoom_ok(&self, px: int, py: int, num: int, den: int) -> bool {
        let c = self.plane_point(px, py);
        let hr = self.zoom_half_re(num, den);
        let hi = self.zoom_half_im(num, den);
        &&& num > 0
        &&& den > 0
        &&& 0 <= px < self.px_width
        &&& 0 <= py < self.px_height
        &&& hr >= 1
        &&& hi >= 1
        &&& -COORD_LIMIT <= c.0 - hr
        &&& c.0 + hr <= COORD_LIMIT
        &&& -COORD_LIMIT <= c.1 - hi
        &&& c.1 + hi <= COORD_LIMIT
    }

    /// The viewport `v` is the zoom of `self` by `num / den` on `(px, py)`:
    /// centred on that pixel's plane point, each half-span scaled.
    pub open spec fn zoomed_to(&self, v: Viewport, px: int, py: int, num: int, den: int) -> bool {
        let c = self.plane_point(px, py);
        let hr = self.zoom_half_re(num, den);
        let hi = self.zoom_half_im(num, den);
        &&& v.re_min == c.0 - hr
        &&& v.re_max == c.0 + hr
        &&& v.im_min == c.1 - hi
        &&& v.im_max == c.1 + hi
        &&& v.px_width == self.px_width
        &&& v.px_height == self.px_height
    }

    /// A viewport with the given bounds and grid, where they are valid.
    pub fn new(re_min: i64, re_max: i64, im_min: i64, im_max: i64, px_width: u32, px_height: u32)
        -> (r: Result<Viewport, RenderError>)
        ensures
            match r {
                Ok(v) => v.wf() && v == (Viewport { re_min, re_max, im_min, im_max, px_width, px_height }),
                Err(e) => e == RenderError::InvalidViewport
                    && !(Viewport { re_min, re_max, im_min, im_max, px_width, px_height }).wf(),
            },
    {
        let v = Viewport { re_min, re_max, im_min, im_max, px_width, px_height };
        if v.is_valid() {
            Ok(v)
        } else {
            Err(RenderError::InvalidViewport)
        }
    }

    /// The whole set in view: real axis `[-2.25, 0.75]`, imaginary axis
    /// `[-1.5, 1.5]`.
    pub fn initial(px_width: u32, px_height: u32) -> (r: Result<Viewport, RenderError>)
        ensures
            match r {
                Ok(v) => {
                    &&& v.wf()
                    &&& v.re_min == -9 * ONE / 4
                    &&& v.re_max == 3 * ONE / 4
                    &&& v.im_min == -3 * ONE / 2
                    &&& v.im_max == 3 * ONE / 2
                    &&& v.px_width == px_width
                    &&& v.px_height == px_height
                },
                Err(e) => e == RenderError::InvalidViewport && (px_width == 0 || px_height == 0),
            },
    {
        Viewport::new(-9663676416, 3221225472, -6442450944, 6442450944, px_width, px_height)
    }

    /// Whether the invariant holds.
    pub fn is_valid(&self) -> (r: bool)
        ensures
            r == self.wf(),
    {
        -COORD_LIMIT <= self.re_min && self.re_min < self.re_max && self.re_max <= COORD_LIMIT
            && -COORD_LIMIT <= self.im_min && self.im_min < self.im_max && self.im_max <= COORD_LIMIT
            && self.px_width > 0 && self.px_height > 0
    }

    /// The plane point under the pixel `(px, py)`.
    pub fn pixel_to_plane(&self, px: u32, py: u32) -> (r: Complex)
        requires
            self.wf(),
            px < self.px_width,
            py < self.px_height,
        ensures
            r@ == self.plane_point(px as int, py as int),
            r.wf(),
            self.re_min <= r.re <= self.re_max,
            self.im_min <= r.im <= self.im_max,
    {
        proof {
            lemma_offset_within(px as int, self.px_width as int, self.re_max - self.re_min);
            lemma_offset_within(py as int, self.px_height as int, self.im_max - self.im_min);
        }
        let span_re: i128 = self.re_max as i128 - self.re_min as i128;
        let span_im: i128 = self.im_max as i128 - self.im_min as i128;
        assert(0 <= px * span_re <= 0x1_0000_0000 * 0x100_0000_0000) by (nonlinear_arith)
            requires 0 <= px < 0x1_0000_0000, 0 <= span_re <= 0x100_0000_0000;
        assert(0 <= py * span_im <= 0x1_0000_0000 * 0x100_0000_0000) by (nonlinear_arith)
            requires 0 <= py < 0x1_0000_0000, 0 <= span_im <= 0x100_0000_0000;
        let off_re: i128 = (px as i128 * span_re) / (self.px_width as i128);
        let off_im: i128 = (py as i128 * span_im) / (self.px_height as i128);
        Complex { re: (self.re_min as i128 + off_re) as i64, im: (self.im_min as i128 + off_im) as i64 }
    }

    /// Recentres on the plane point under the cursor and scales both
    /// half-spans by `num / den` (a zoom in for `num < den`). Where the result
    /// would not be a valid viewport, or the cursor is off the grid, the
    /// viewport stays as it was.
    pub fn zoom(&mut self, cursor_px: u32, cursor_py: u32, num: u32, den: u32) -> (r: Result<(), RenderError>)
        requires
            old(self).wf(),
        ensures
            final(self).wf(),
            r is Ok <==> old(self).zoom_ok(cursor_px as int, cursor_py as int, num as int, den as int),
            r is Ok ==> old(self).zoomed_to(*final(self), cursor_px as int, cursor_py as int, num as int, den as int),
            r is Err ==> *final(self) == *old(self) && r == Err::<(), RenderError>(RenderError::InvalidViewport),
    {
        if num == 0 || den == 0 || cursor_px >= self.px_width || cursor_py >= self.px_height {
            return Err(RenderError::InvalidViewport);
        }
        let c = self.pixel_to_plane(cursor_px, cursor_py);
        let span_re: i128 = self.re_max as i128 - self.re_min as i128;
        let span_im: i128 = self.im_max as i128 - self.im_min as i128;
        let half_re: i128 = span_re / 2;
        let half_im: i128 = span_im / 2;
        assert(0 <= half_re * num <= 0x100_0000_0000 * 0x1_0000_0000) by (nonlinear_arith)
            requires 0 <= half_re <= 0x100_0000_0000, 0 <= num < 0x1_0000_0000;
        assert(0 <= half_im * num <= 0x100_0000_0000 * 0x1_0000_0000) by (nonlinear_arith)
            requires 0 <= half_im <= 0x100_0000_0000, 0 <= num < 0x1_0000_0000;
        let hr: i128 = (half_re * num as i128) / (den as i128);
        let hi: i128 = (half_im * num as i128) / (den as i128);
        proof {
            vstd::arithmetic::div_mod::lemma_div_is_ordered(half_re * num, 0x100_0000_0000int * 0x1_0000_0000int, den as int);
            vstd::arithmetic::div_mod::lemma_div_is_ordered(half_im * num, 0x100_0000_0000int * 0x1_0000_0000int, den as int);
            vstd::arithmetic::div_mod::lemma_div_nonincreasing(0x100_0000_0000int * 0x1_0000_0000int, den as int);
            vstd::arithmetic::div_mod::lemma_div_pos_is_pos(half_re * num, den as int);
            vstd::arithmetic::div_mod::lemma_div_pos_is_pos(half_im * num, den as int);
        }
        let cre: i128 = c.re as i128;
        let cim: i128 = c.im as i128;
        let lim: i128 = COORD_LIMIT as i128;
        if hr < 1 || hi < 1 || cre - hr < -lim || cre + hr > lim || cim - hi < -lim || cim + hi > lim {
            return Err(RenderError::InvalidViewport);
        }
        self.re_min = (cre - hr) as i64;
        self.re_max = (cre + hr) as i64;
        self.im_min = (cim - hi) as i64;
        self.im_max = (cim + hi) as i64;
        Ok(())
    }
}

/// The centre pixel of an even-sized axis sees the middle of the span.
proof fn lemma_centre_offset(n: int, span: int)
    requires
        n > 0,
        n % 2 == 0,
        span >= 0,
    ensures
        ((n / 2) * span) / n == span / 2,
{
    let k = n / 2;
    assert(n == k * 2);
    assert(k > 0);
    vstd::arithmetic::div_mod::lemma_div_multiples_vanish_quotient(k, span, 2);
}

/// One axis of a zoom round trip: scaling the half-span `hs` by `num / den`
/// and back by `den / num` loses at most `den / num + 1` units.
proof fn lemma_half_round_trip(hs: int, num: int, den: int)
    requires
        hs >= 0,
        num > 0,
        den > 0,
    ensures
        0 <= hs - ((hs * num) / den * den) / num <= den / num + 1,
{
    let h1 = (hs * num) / den;
    let h2 = (h1 * den) / num;
    let q = den / num;
    vstd::arithmetic::div_mod::lemma_fundamental_div_mod(hs * num, den);
    vstd::arithmetic::div_mod::lemma_mod_pos_bound(hs * num, den);
    vstd::arithmetic::div_mod::lemma_div_pos_is_pos(hs * num, den);
    vstd::arithmetic::div_mod::lemma_fundamental_div_mod(h1 * den, num);
    vstd::arithmetic::div_mod::lemma_mod_pos_bound(h1 * den, num);
    vstd::arithmetic::div_mod::lemma_fundamental_div_mod(den, num);
    vstd::arithmetic::div_mod::lemma_mod_pos_bound(den, num);
    let r1 = (hs * num) % den;
    let r2 = (h1 * den) % num;
    let r3 = den % num;
    assert(num * (hs - h2) == r1 + r2) by (nonlinear_arith)
        requires hs * num == den * h1 + r1, h1 * den == num * h2 + r2;
    assert(hs - h2 >= 0) by (nonlinear_arith)
        requires num * (hs - h2) == r1 + r2, r1 >= 0, r2 >= 0, num > 0;
    assert(hs - h2 < q + 2) by (nonlinear_arith)
        requires num * (hs - h2) == r1 + r2, r1 < den, r2 < num, den == num * q + r3, r3 < num, num > 0;
}

/// One axis of a zoom round trip around the centre pixel of an even grid.
proof fn lemma_axis_round_trip(lo: int, hi: int, n: int, num: int, den: int)
    requires
        lo < hi,
        n > 0,
        n % 2 == 0,
        num > 0,
        den > 0,
        zoom_half(hi - lo, num, den) >= 1,
    ensures
        ({
            let c = lo + ((n / 2) * (hi - lo)) / n;
            let h1 = zoom_half(hi - lo, num, den);
            let c1 = (c - h1) + ((n / 2) * (2 * h1)) / n;
            let h2 = zoom_half(2 * h1, den, num);
            &&& c1 == c
            &&& 0 <= (c - h2) - lo <= den / num + 1
            &&& 0 <= hi - (c + h2) <= den / num + 2
        }),
{
    let span = hi - lo;
    lemma_centre_offset(n, span);
    let h1 = zoom_half(span, num, den);
    lemma_centre_offset(n, 2 * h1);
    assert((2 * h1) / 2 == h1);
    lemma_half_round_trip(span / 2, num, den);
    vstd::arithmetic::div_mod::lemma_fundamental_div_mod(span, 2);
}

/// Zooming by `num / den` on the centre pixel of an even grid and then by
/// `den / num` on the same pixel restores the bounds up to `den / num + 2`
/// fixed-point units.
pub proof fn lemma_zoom_round_trip(vp: Viewport, mid: Viewport, back: Viewport, num: int, den: int)
    requires
        vp.wf(),
        vp.px_width % 2 == 0,
        vp.px_height % 2 == 0,
        vp.zoom_ok(vp.px_width as int / 2, vp.px_height as int / 2, num, den),
        vp.zoomed_to(mid, vp.px_width as int / 2, vp.px_height as int / 2, num, den),
        mid.zoom_ok(vp.px_width as int / 2, vp.px_height as int / 2, den, num),
        mid.zoomed_to(back, vp.px_width as int / 2, vp.px_height as int / 2, den, num),
    ensures
        back.px_width == vp.px_width,
        back.px_height == vp.px_height,
        -(den / num + 2) <= back.re_min - vp.re_min <= den / num + 2,
        -(den / num + 2) <= back.re_max - vp.re_max <= den / num + 2,
        -(den / num + 2) <= back.im_min - vp.im_min <= den / num + 2,
        -(den / num + 2) <= back.im_max - vp.im_max <= den / num + 2,
{
    lemma_axis_round_trip(vp.re_min as int, vp.re_max as int, vp.px_width as int, num, den);
    lemma_axis_round_trip(vp.im_min as int, vp.im_max as int, vp.px_height as int, num, den);
    assert(mid.re_max - mid.re_min == 2 * vp.zoom_half_re(num, den));
    assert(mid.im_max - mid.im_min == 2 * vp.zoom_half_im(num, den));
}

} // verus!
