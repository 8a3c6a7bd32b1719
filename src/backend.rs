//! The compute backend: evaluates every pixel of a viewport, in sequence or
//! in parallel, into a row-major iteration buffer.
use vstd::prelude::*;
use rayon::iter::{IndexedParallelIterator, IntoParallelIterator, ParallelIterator};
use crate::escape::{escape_time, evaluate, lemma_escape_time_bounded};
use crate::viewport::Viewport;
use crate::error::RenderError;

verus! {

/// The escape time of the pixel at buffer index `i`.
pub open spec fn buffer_entry(vp: Viewport, limit: nat, i: int) -> nat {
    escape_time(vp.index_point(i), limit)
}

/// The iteration buffer of a viewport: one escape time per pixel, row-major.
pub open spec fn iteration_buffer(vp: Viewport, limit: u32) -> Seq<u32> {
    Seq::new(vp.pixel_count(), |i: int| buffer_entry(vp, limit as nat, i) as u32)
}

proof fn lemma_index_split(i: int, w: int, h: int)
    requires
        0 <= i < w * h,
        w > 0,
        h > 0,
    ensures
        0 <= i % w < w,
        0 <= i / w < h,
{
    vstd::arithmetic::div_mod::lemma_mod_pos_bound(i, w);
    vstd::arithmetic::div_mod::lemma_div_pos_is_pos(i, w);
    vstd::arithmetic::div_mod::lemma_div_by_multiple(h, w);
    assert(w * h == h * w) by (nonlinear_arith);
    vstd::arithmetic::div_mod::lemma_div_is_ordered(i, h * w - 1, w);
    vstd::arithmetic::div_mod::lemma_fundamental_div_mod(h * w - 1, w);
    vstd::arithmetic::div_mod::lemma_fundamental_div_mod(i, w);
    if i / w >= h {
        assert(w * (i / w) >= w * h) by (nonlinear_arith)
            requires i / w >= h, w > 0;
    }
}

/// Escape time of the pixel at buffer index `index`.
pub fn pixel_iterations(vp: &Viewport, iter_limit: u32, index: usize) -> (r: u32)
    requires
        vp.wf(),
        index < vp.pixel_count(),
    ensures
        r == buffer_entry(*vp, iter_limit as nat, index as int),
        r <= iter_limit,
{
    proof {
        lemma_index_split(index as int, vp.px_width as int, vp.px_height as int);
    }
    let w: usize = vp.px_width as usize;
    let px: u32 = (index % w) as u32;
    let py: u32 = (index / w) as u32;
    let c = vp.pixel_to_plane(px, py);
    evaluate(c, iter_limit)
}

/// Every entry of the iteration buffer lies in `[0, limit]`.
pub proof fn lemma_buffer_bounded(vp: Viewport, limit: u32)
    ensures
        forall|i: int| 0 <= i < iteration_buffer(vp, limit).len()
            ==> iteration_buffer(vp, limit)[i] <= limit,
{
    assert forall|i: int| 0 <= i < iteration_buffer(vp, limit).len()
        implies iteration_buffer(vp, limit)[i] <= limit by {
        lemma_escape_time_bounded(vp.index_point(i), limit as nat);
    }
}

/// Evaluates the pixels one after another.
pub fn compute_sequential(vp: &Viewport, iter_limit: u32) -> (r: Vec<u32>)
    requires
        vp.wf(),
        vp.pixel_count() <= usize::MAX,
    ensures
        r@ == iteration_buffer(*vp, iter_limit),
        r@.len() == vp.px_width * vp.px_height,
        forall|i: int| 0 <= i < r@.len() ==> r@[i] <= iter_limit,
{
    let n: usize = (vp.px_width as usize) * (vp.px_height as usize);
    let mut out: Vec<u32> = Vec::with_capacity(n);
    let mut i: usize = 0;
    while i < n
        invariant
            vp.wf(),
            n == vp.pixel_count(),
            i <= n,
            out@.len() == i,
            forall|j: int| 0 <= j < i ==> out@[j] == buffer_entry(*vp, iter_limit as nat, j) as u32,
        decreases n - i,
    {
        let v = pixel_iterations(vp, iter_limit, i);
        out.push(v);
        i = i + 1;
    }
    assert(out@ =~= iteration_buffer(*vp, iter_limit));
    proof {
        lemma_buffer_bounded(*vp, iter_limit);
    }
    out
}

/// Relies on rayon's `collect_into_vec` on the indexed parallel iterator of
/// `0..n`: the item computed for index `i` is stored at position `i`.
#[verifier::external_body]
fn par_pixels(vp: &Viewport, iter_limit: u32, n: usize) -> (r: Vec<u32>)
    requires
        vp.wf(),
        n == vp.pixel_count(),
    ensures
        r@.len() == n,
        forall|i: int| 0 <= i < n ==> r@[i] == buffer_entry(*vp, iter_limit as nat, i) as u32,
{
    let mut out: Vec<u32> = Vec::new();
    (0..n).into_par_iter().map(|i| pixel_iterations(vp, iter_limit, i)).collect_into_vec(&mut out);
    out
}

/// Evaluates the pixels in parallel over the host's cores.
pub fn compute_parallel(vp: &Viewport, iter_limit: u32) -> (r: Vec<u32>)
    requires
        vp.wf(),
        vp.pixel_count() <= usize::MAX,
    ensures
        r@ == iteration_buffer(*vp, iter_limit),
        r@.len() == vp.px_width * vp.px_height,
        forall|i: int| 0 <= i < r@.len() ==> r@[i] <= iter_limit,
{
    let n: usize = (vp.px_width as usize) * (vp.px_height as usize);
    let out = par_pixels(vp, iter_limit, n);
    assert(out@ =~= iteration_buffer(*vp, iter_limit));
    proof {
        lemma_buffer_bounded(*vp, iter_limit);
    }
    out
}

/// Doubling both pixel dimensions quadruples the buffer, and the pixel
/// `(2 px, 2 py)` of the finer grid sees the same plane point, hence the same
/// escape time, as the pixel `(px, py)` of the coarser one.
pub proof fn lemma_doubled_grid(vp: Viewport, fine: Viewport, limit: nat, px: int, py: int)
    requires
        vp.wf(),
        fine == (Viewport { px_width: fine.px_width, px_height: fine.px_height, ..vp }),
        fine.px_width == 2 * vp.px_width,
        fine.px_height == 2 * vp.px_height,
        0 <= px < vp.px_width,
        0 <= py < vp.px_height,
    ensures
        fine.pixel_count() == 4 * vp.pixel_count(),
        iteration_buffer(fine, limit as u32).len() == 4 * iteration_buffer(vp, limit as u32).len(),
        fine.plane_point(2 * px, 2 * py) == vp.plane_point(px, py),
        buffer_entry(fine, limit, (2 * py) * fine.px_width + 2 * px)
            == buffer_entry(vp, limit, py * vp.px_width + px),
{
    let w = vp.px_width as int;
    let h = vp.px_height as int;
    assert(fine.pixel_count() == 4 * vp.pixel_count()) by (nonlinear_arith)
        requires fine.px_width == 2 * w, fine.px_height == 2 * h,
            fine.pixel_count() == fine.px_width * fine.px_height, vp.pixel_count() == w * h;
    let sr = vp.re_max - vp.re_min;
    let si = vp.im_max - vp.im_min;
    assert((2 * px) * sr == 2 * (px * sr)) by (nonlinear_arith);
    assert((2 * py) * si == 2 * (py * si)) by (nonlinear_arith);
    vstd::arithmetic::div_mod::lemma_div_multiples_vanish_quotient(2, px * sr, w);
    vstd::arithmetic::div_mod::lemma_div_multiples_vanish_quotient(2, py * si, h);
    assert(fine.plane_point(2 * px, 2 * py) == vp.plane_point(px, py));
    let fi = (2 * py) * fine.px_width + 2 * px;
    let ci = py * w + px;
    assert(fi == (2 * py) * (2 * w) + 2 * px);
    assert((2 * py) * (2 * w) == (2 * w) * (2 * py)) by (nonlinear_arith);
    assert(py * w == w * py) by (nonlinear_arith);
    vstd::arithmetic::div_mod::lemma_fundamental_div_mod_converse(fi, 2 * w, 2 * py, 2 * px);
    vstd::arithmetic::div_mod::lemma_fundamental_div_mod_converse(ci, w, py, px);
    assert(fine.index_point(fi) == vp.index_point(ci));
}

/// How the pixels of a dispatch are evaluated.
#[derive(Clone, Copy, PartialEq, Eq, Debug, Structural)]
pub enum BackendKind {
    Sequential,
    Parallel,
}

/// A configured backend: the viewport and iteration limit of the next
/// dispatch. Only `update_viewport` and `zoom` change it.
pub struct Backend {
    viewport: Viewport,
    iter_limit: u32,
    kind: BackendKind,
}

impl Backend {
    pub closed spec fn spec_viewport(&self) -> Viewport {
        self.viewport
    }

    pub closed spec fn spec_iter_limit(&self) -> u32 {
        self.iter_limit
    }

    pub closed spec fn spec_kind(&self) -> BackendKind {
        self.kind
    }

    /// A valid viewport whose buffer fits in memory, and a positive limit.
    pub open spec fn wf(&self) -> bool {
        &&& self.spec_viewport().wf()
        &&& self.spec_viewport().pixel_count() <= usize::MAX
        &&& self.spec_iter_limit() > 0
    }

    /// A backend for `viewport` and `iter_limit`; refuses an invalid viewport.
    pub fn configure(viewport: Viewport, iter_limit: u32, kind: BackendKind) -> (r: Result<Backend, RenderError>)
        requires
            iter_limit > 0,
            viewport.pixel_count() <= usize::MAX,
        ensures
            r is Ok <==> viewport.wf(),
            r matches Ok(b) ==> b.wf() && b.spec_viewport() == viewport
                && b.spec_iter_limit() == iter_limit && b.spec_kind() == kind,
            r matches Err(e) ==> e == RenderError::InvalidViewport,
    {
        if !viewport.is_valid() {
            return Err(RenderError::InvalidViewport);
        }
        Ok(Backend { viewport, iter_limit, kind })
    }

    /// Evaluates every pixel and returns the row-major iteration buffer. Both
    /// kinds give the same buffer.
    pub fn dispatch(&self) -> (r: Vec<u32>)
        requires
            self.wf(),
        ensures
            r@ == iteration_buffer(self.spec_viewport(), self.spec_iter_limit()),
            r@.len() == self.spec_viewport().px_width * self.spec_viewport().px_height,
            forall|i: int| 0 <= i < r@.len() ==> r@[i] <= self.spec_iter_limit(),
    {
        match self.kind {
            BackendKind::Sequential => compute_sequential(&self.viewport, self.iter_limit),
            BackendKind::Parallel => compute_parallel(&self.viewport, self.iter_limit),
        }
    }

    /// Rebinds the viewport of the next dispatch; an invalid one is refused
    /// and the backend left as it was.
    pub fn update_viewport(&mut self, viewport: Viewport) -> (r: Result<(), RenderError>)
        requires
            old(self).wf(),
            viewport.pixel_count() <= usize::MAX,
        ensures
            final(self).wf(),
            r is Ok <==> viewport.wf(),
            r is Ok ==> final(self).spec_viewport() == viewport,
            r is Err ==> final(self).spec_viewport() == old(self).spec_viewport()
                && r == Err::<(), RenderError>(RenderError::InvalidViewport),
            final(self).spec_iter_limit() == old(self).spec_iter_limit(),
            final(self).spec_kind() == old(self).spec_kind(),
    {
        if !viewport.is_valid() {
            return Err(RenderError::InvalidViewport);
        }
        self.viewport = viewport;
        Ok(())
    }

    /// Zooms the viewport of the next dispatch (see `Viewport::zoom`).
    pub fn zoom(&mut self, cursor_px: u32, cursor_py: u32, num: u32, den: u32) -> (r: Result<(), RenderError>)
        requires
            old(self).wf(),
        ensures
            final(self).wf(),
            r is Ok <==> old(self).spec_viewport().zoom_ok(cursor_px as int, cursor_py as int, num as int, den as int),
            r is Ok ==> old(self).spec_viewport().zoomed_to(final(self).spec_viewport(),
                cursor_px as int, cursor_py as int, num as int, den as int),
            r is Err ==> final(self).spec_viewport() == old(self).spec_viewport()
                && r == Err::<(), RenderError>(RenderError::InvalidViewport),
            final(self).spec_iter_limit() == old(self).spec_iter_limit(),
            final(self).spec_kind() == old(self).spec_kind(),
    {
        self.viewport.zoom(cursor_px, cursor_py, num, den)
    }

    pub fn viewport(&self) -> (r: Viewport)
        ensures
            r == self.spec_viewport(),
    {
        self.viewport
    }

    pub fn iter_limit(&self) -> (r: u32)
        ensures
            r == self.spec_iter_limit(),
    {
        self.iter_limit
    }

    pub fn kind(&self) -> (r: BackendKind)
        ensures
            r == self.spec_kind(),
    {
        self.kind
    }
}

} // verus!
