use mandelbrot::backend::{compute_parallel, compute_sequential, pixel_iterations, Backend, BackendKind};
use mandelbrot::error::RenderError;
use mandelbrot::escape::evaluate;
use mandelbrot::fixed::ONE;
use mandelbrot::viewport::Viewport;

#[test]
fn end_to_end_four_by_four() {
    let vp = Viewport::initial(4, 4).unwrap();
    let backend = Backend::configure(vp, 10, BackendKind::Sequential).unwrap();
    let first = backend.dispatch();
    assert_eq!(first.len(), 16);
    assert!(first.iter().all(|&n| n <= 10));
    let second = backend.dispatch();
    assert_eq!(first, second);
    // top-left corner -2.25 - 1.5i escapes at once; -0.75 + 0i stays bounded
    assert_eq!(first[0], 1);
    assert_eq!(first[2 * 4 + 2], 10);
}

#[test]
fn buffer_is_row_major() {
    let vp = Viewport::new(-2 * ONE, 2 * ONE, -ONE, ONE, 5, 3).unwrap();
    let buf = compute_sequential(&vp, 40);
    assert_eq!(buf.len(), 15);
    for row in 0..3u32 {
        for col in 0..5u32 {
            let expected = evaluate(vp.pixel_to_plane(col, row), 40);
            assert_eq!(buf[(row * 5 + col) as usize], expected);
            assert_eq!(pixel_iterations(&vp, 40, (row * 5 + col) as usize), expected);
        }
    }
}

#[test]
fn sequential_and_parallel_agree() {
    let vp = Viewport::initial(64, 48).unwrap();
    let seq = compute_sequential(&vp, 100);
    let par = compute_parallel(&vp, 100);
    assert_eq!(seq.len(), 64 * 48);
    assert_eq!(seq, par);
    assert!(par.iter().any(|&n| n == 100));
    assert!(par.iter().any(|&n| n < 100));
    let b1 = Backend::configure(vp, 100, BackendKind::Sequential).unwrap();
    let b2 = Backend::configure(vp, 100, BackendKind::Parallel).unwrap();
    assert_eq!(b1.dispatch(), b2.dispatch());
}

#[test]
fn doubled_grid_quadruples_and_matches() {
    let coarse = Viewport::initial(6, 4).unwrap();
    let fine = Viewport { px_width: 12, px_height: 8, ..coarse };
    let a = compute_sequential(&coarse, 50);
    let b = compute_parallel(&fine, 50);
    assert_eq!(b.len(), 4 * a.len());
    for py in 0..4usize {
        for px in 0..6usize {
            assert_eq!(b[(2 * py) * 12 + 2 * px], a[py * 6 + px]);
        }
    }
}

#[test]
fn configure_refuses_invalid_viewport() {
    let bad = Viewport { re_min: ONE, re_max: 0, im_min: 0, im_max: ONE, px_width: 2, px_height: 2 };
    assert_eq!(Backend::configure(bad, 10, BackendKind::Parallel).err(), Some(RenderError::InvalidViewport));
}

#[test]
fn update_viewport_rebinds() {
    let vp = Viewport::initial(8, 8).unwrap();
    let mut backend = Backend::configure(vp, 20, BackendKind::Parallel).unwrap();
    let other = Viewport::new(-ONE / 4, ONE / 4, -ONE / 4, ONE / 4, 8, 8).unwrap();
    assert_eq!(backend.update_viewport(other), Ok(()));
    assert_eq!(backend.viewport(), other);
    assert_eq!(backend.iter_limit(), 20);
    assert_eq!(backend.kind(), BackendKind::Parallel);
    // the whole square lies within the main cardioid
    assert!(backend.dispatch().iter().all(|&n| n == 20));
    let bad = Viewport { px_width: 0, ..other };
    assert_eq!(backend.update_viewport(bad), Err(RenderError::InvalidViewport));
    assert_eq!(backend.viewport(), other);
}

#[test]
fn backend_zoom_changes_next_dispatch() {
    let vp = Viewport::initial(8, 8).unwrap();
    let mut backend = Backend::configure(vp, 30, BackendKind::Sequential).unwrap();
    let before = backend.dispatch();
    assert_eq!(backend.zoom(4, 4, 9, 10), Ok(()));
    let mut expected = vp;
    expected.zoom(4, 4, 9, 10).unwrap();
    assert_eq!(backend.viewport(), expected);
    let after = backend.dispatch();
    assert_eq!(after, compute_sequential(&expected, 30));
    assert_ne!(before, after);
    assert_eq!(backend.zoom(8, 0, 9, 10), Err(RenderError::InvalidViewport));
    assert_eq!(backend.viewport(), expected);
}
