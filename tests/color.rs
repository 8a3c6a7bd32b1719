use mandelbrot::backend::Backend;
use mandelbrot::backend::BackendKind;
use mandelbrot::color::{color_of, render_frame, ColorRamp, Rgb, Rgba};
use mandelbrot::render;
use mandelbrot::viewport::Viewport;

fn rgb(r: u8, g: u8, b: u8) -> Rgb {
    Rgb { r, g, b }
}

fn sample_palette() -> Vec<Rgb> {
    vec![rgb(25, 7, 26), rgb(0, 120, 50), rgb(9, 1, 47), rgb(4, 4, 73)]
}

const BLACK: Rgba = Rgba { r: 0, g: 0, b: 0, a: 255 };

#[test]
fn discrete_ramp_clamps_levels() {
    let palette = sample_palette();
    let ramp = ColorRamp::discrete(&palette, &vec![0, 1, 3, 4, 99]);
    assert_eq!(ramp.len(), 5);
    assert_eq!(ramp.get(0), palette[0]);
    assert_eq!(ramp.get(1), palette[1]);
    assert_eq!(ramp.get(2), palette[3]);
    assert_eq!(ramp.get(3), palette[3]);
    assert_eq!(ramp.get(4), palette[3]);
}

#[test]
fn single_entry_palette() {
    let ramp = ColorRamp::discrete(&vec![rgb(1, 2, 3)], &vec![0, 7]);
    assert_eq!(ramp.get(0), rgb(1, 2, 3));
    assert_eq!(ramp.get(1), rgb(1, 2, 3));
}

#[test]
fn interior_is_opaque_black() {
    let discrete = ColorRamp::discrete(&sample_palette(), &vec![0, 1, 2]);
    let gradient = ColorRamp::from_colors(vec![rgb(255, 255, 255), rgb(200, 100, 50), rgb(9, 9, 9)]);
    assert_eq!(color_of(3, 3, &discrete), BLACK);
    assert_eq!(color_of(3, 3, &gradient), BLACK);
}

#[test]
fn escaped_pixels_take_ramp_entry() {
    let gradient = ColorRamp::from_colors(vec![rgb(255, 255, 255), rgb(200, 100, 50), rgb(9, 9, 9)]);
    assert_eq!(color_of(1, 3, &gradient), Rgba { r: 200, g: 100, b: 50, a: 255 });
    assert_eq!(color_of(0, 3, &gradient), Rgba { r: 255, g: 255, b: 255, a: 255 });
}

#[test]
fn coloring_is_deterministic() {
    let palette = sample_palette();
    let levels = vec![0, 2, 3, 1];
    let a = ColorRamp::discrete(&palette, &levels);
    let b = ColorRamp::discrete(&palette, &levels);
    for it in 0..=4u32 {
        assert_eq!(color_of(it, 4, &a), color_of(it, 4, &b));
        assert_eq!(color_of(it, 4, &a), color_of(it, 4, &a));
    }
}

#[test]
fn frame_has_four_bytes_per_pixel() {
    let ramp = ColorRamp::from_colors(vec![rgb(10, 20, 30), rgb(40, 50, 60)]);
    let frame = render_frame(&vec![0, 2, 1], 2, &ramp);
    assert_eq!(frame, vec![10, 20, 30, 255, 0, 0, 0, 255, 40, 50, 60, 255]);
    assert!(render_frame(&vec![], 2, &ramp).is_empty());
}

#[test]
fn render_end_to_end() {
    let vp = Viewport::initial(4, 4).unwrap();
    let backend = Backend::configure(vp, 10, BackendKind::Parallel).unwrap();
    let ramp = ColorRamp::from_colors((0..10u8).map(|i| rgb(i, i, i)).collect());
    let frame = render(&backend, &ramp);
    assert_eq!(frame.len(), 4 * 16);
    let buf = backend.dispatch();
    for (i, &n) in buf.iter().enumerate() {
        let c = color_of(n, 10, &ramp);
        assert_eq!(&frame[4 * i..4 * i + 4], &[c.r, c.g, c.b, c.a]);
    }
    assert_eq!(&frame[0..4], &[1, 1, 1, 255]);
    assert_eq!(&frame[4 * 10..4 * 11], &[0, 0, 0, 255]);
    assert_eq!(frame, render(&backend, &ramp));
}

#[test]
fn doubled_frame_quadruples() {
    let small = Backend::configure(Viewport::initial(4, 4).unwrap(), 10, BackendKind::Sequential).unwrap();
    let large = Backend::configure(Viewport::initial(8, 8).unwrap(), 10, BackendKind::Sequential).unwrap();
    let ramp = ColorRamp::from_colors(vec![rgb(5, 5, 5); 10]);
    assert_eq!(render(&large, &ramp).len(), 4 * render(&small, &ramp).len());
}
