use mandelbrot::escape::{evaluate, Complex};
use mandelbrot::fixed::{rescale, COORD_LIMIT, ONE};

#[test]
fn origin_reaches_the_limit() {
    for limit in [1u32, 2, 10, 256, 1000] {
        assert_eq!(evaluate(Complex { re: 0, im: 0 }, limit), limit);
    }
}

#[test]
fn zero_limit_gives_zero() {
    assert_eq!(evaluate(Complex { re: 0, im: 0 }, 0), 0);
    assert_eq!(evaluate(Complex { re: 3 * ONE, im: 0 }, 0), 0);
}

#[test]
fn two_reaches_radius_then_escapes() {
    let two = Complex { re: 2 * ONE, im: 0 };
    assert_eq!(evaluate(two, 1), 1);
    assert_eq!(evaluate(two, 2), 2);
    assert_eq!(evaluate(two, 10), 2);
}

#[test]
fn far_point_escapes_at_first_step() {
    assert_eq!(evaluate(Complex { re: 3 * ONE, im: 0 }, 50), 1);
    assert_eq!(evaluate(Complex { re: 0, im: -3 * ONE }, 50), 1);
    // -2.25 - 1.5i: |c|^2 = 7.3125
    assert_eq!(evaluate(Complex { re: -9 * ONE / 4, im: -3 * ONE / 2 }, 10), 1);
}

#[test]
fn period_two_point_stays_bounded() {
    assert_eq!(evaluate(Complex { re: -ONE, im: 0 }, 500), 500);
    assert_eq!(evaluate(Complex { re: -3 * ONE / 4, im: 0 }, 10), 10);
}

#[test]
fn imaginary_unit_stays_bounded() {
    // i -> -1 + i -> -i -> -1 + i -> ...
    assert_eq!(evaluate(Complex { re: 0, im: ONE }, 100), 100);
}

#[test]
fn one_escapes_at_third_step() {
    // 1 -> 2 -> 5
    assert_eq!(evaluate(Complex { re: ONE, im: 0 }, 10), 3);
}

#[test]
fn counts_stay_within_limit() {
    let step = ONE / 4;
    let mut re = -2 * ONE;
    while re <= 2 * ONE {
        let mut im = -2 * ONE;
        while im <= 2 * ONE {
            let n = evaluate(Complex { re, im }, 30);
            assert!(n <= 30);
            im += step;
        }
        re += step;
    }
}

#[test]
fn rescale_truncates_toward_zero() {
    let one = ONE as i128;
    assert_eq!(rescale(3 * one * one), 3 * one);
    assert_eq!(rescale(-3 * one * one), -3 * one);
    assert_eq!(rescale(one + 1), 1);
    assert_eq!(rescale(-(one + 1)), -1);
    assert_eq!(rescale(one - 1), 0);
    assert_eq!(rescale(-(one - 1)), 0);
}

#[test]
fn extreme_coordinates_escape_at_once() {
    for (re, im) in [(COORD_LIMIT, COORD_LIMIT), (-COORD_LIMIT, -COORD_LIMIT), (COORD_LIMIT, -COORD_LIMIT)] {
        assert_eq!(evaluate(Complex { re, im }, u32::MAX), 1);
    }
}
