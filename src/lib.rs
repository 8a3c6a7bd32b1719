//! Escape-time rendering of the Mandelbrot set over a fixed-point grid.
//!
//! Plane coordinates are fixed-point numbers: an `i64` holding a value scaled
//! by `2^32` (see [`fixed`]). The pipeline is viewport -> escape-time
//! evaluation of every pixel -> iteration buffer -> RGBA frame.
use vstd::prelude::*;
use crate::backend::{Backend, iteration_buffer};
use crate::color::{ColorRamp, frame_pixel, pixel_color, render_frame};

pub mod fixed;
pub mod escape;
pub mod error;
pub mod viewport;
pub mod backend;
pub mod color;
pub mod fallback;

verus! {

/// One frame: dispatch on the backend, then colour every pixel.
pub fn render(backend: &Backend, ramp: &ColorRamp) -> (r: Vec<u8>)
    requires
        backend.wf(),
        4 * backend.spec_viewport().pixel_count() <= usize::MAX,
        ramp@.len() == backend.spec_iter_limit(),
    ensures
        r@.len() == 4 * backend.spec_viewport().pixel_count(),
        forall|i: int| 0 <= i < backend.spec_viewport().pixel_count()
            ==> #[trigger] frame_pixel(r@, i) == pixel_color(
                iteration_buffer(backend.spec_viewport(), backend.spec_iter_limit())[i] as int,
                backend.spec_iter_limit() as int,
                ramp@,
            ),
{
    let buffer = backend.dispatch();
    render_frame(&buffer, backend.iter_limit(), ramp)
}

} // verus!
