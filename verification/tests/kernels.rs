use fractal_raster::config::FractalType;
use fractal_raster::orbit::{first_escape, first_settled};
use fractal_raster::policy::{get_max_iterations, root_index};
use num_complex::Complex32;

fn escaped(z: &Complex32) -> bool {
    z.norm_sqr() > 16.0
}

fn mandelbrot(c: Complex32, max_i: u8) -> Option<(u8, Complex32)> {
    first_escape(Complex32::new(0.0, 0.0), |z: Complex32| z * z + c, escaped, max_i)
}

fn newton_step(z: &Complex32) -> Complex32 {
    let z2 = z * z;
    let z3 = z2 * z;
    z - (z3 - Complex32::new(1.0, 0.0)) / (Complex32::new(3.0, 0.0) * z2)
}

fn settled(z: &Complex32, next: &Complex32) -> bool {
    (next - z).norm_sqr() < 1e-6
}

fn newton(z: Complex32, max_i: u8) -> Option<(u8, u8)> {
    let roots = [
        Complex32::new(1.0, 0.0),
        Complex32::new(-0.5, 0.866025404),
        Complex32::new(-0.5, -0.866025404),
    ];
    first_settled(z, newton_step, settled, max_i).map(|(i, z)| {
        let near = |root: Complex32| (z - root).norm() < 1e-3;
        (i, root_index(near(roots[0]), near(roots[1]), near(roots[2])))
    })
}

#[test]
fn integer_orbit_escapes_at_the_first_large_point() {
    let double = |x: u64| 2 * x;
    let large = |x: &u64| *x > 10;
    assert_eq!(first_escape(1u64, double, large, 10), Some((5, 16)));
    assert_eq!(first_escape(1u64, double, large, 6), Some((5, 16)));
    assert_eq!(first_escape(1u64, double, large, 5), None);
    assert_eq!(first_escape(11u64, double, large, 2), Some((1, 11)));
    assert_eq!(first_escape(11u64, double, large, 1), None);
    assert_eq!(first_escape(11u64, double, large, 0), None);
    assert_eq!(first_escape(0u64, double, large, 255), None);
}

#[test]
fn integer_orbit_settles_when_neighbours_meet() {
    let halve = |x: &u64| *x / 2;
    let same = |a: &u64, b: &u64| a == b;
    assert_eq!(first_settled(8u64, halve, same, 32), Some((5, 0)));
    assert_eq!(first_settled(8u64, halve, same, 6), Some((5, 0)));
    assert_eq!(first_settled(8u64, halve, same, 5), None);
    assert_eq!(first_settled(0u64, halve, same, 2), Some((1, 0)));
    assert_eq!(first_settled(0u64, halve, same, 1), None);
    assert_eq!(first_settled(0u64, halve, same, 0), None);
}

#[test]
fn step_runs_once_per_iteration_below_the_bound() {
    let calls = std::cell::Cell::new(0u32);
    let step = |x: u64| {
        calls.set(calls.get() + 1);
        x + 1
    };
    assert_eq!(first_escape(0u64, step, |_: &u64| false, 255), None);
    assert_eq!(calls.get(), 254);
}

#[test]
fn mandelbrot_origin_never_escapes() {
    for max_i in [0u8, 1, 2, 32, 255] {
        assert_eq!(mandelbrot(Complex32::new(0.0, 0.0), max_i), None);
    }
    let bound = get_max_iterations(FractalType::Mandelbrot, 0);
    assert_eq!(mandelbrot(Complex32::new(0.0, 0.0), bound), None);
}

#[test]
fn mandelbrot_two_escapes() {
    // The orbit of 2 is 0, 2, 6: the third point is the first beyond radius 4.
    let (i, z) = mandelbrot(Complex32::new(2.0, 0.0), 255).unwrap();
    assert_eq!(i, 3);
    assert_eq!(z, Complex32::new(6.0, 0.0));
    assert_eq!(mandelbrot(Complex32::new(2.0, 0.0), 3), None);
}

#[test]
fn newton_roots_converge_in_one_iteration() {
    assert_eq!(newton(Complex32::new(1.0, 0.0), 32), Some((1, 85)));
    assert_eq!(newton(Complex32::new(-0.5, 0.866), 32), Some((1, 170)));
    assert_eq!(newton(Complex32::new(-0.5, -0.866), 32), Some((1, 255)));
}

#[test]
fn newton_bound_of_one_never_converges() {
    assert_eq!(newton(Complex32::new(1.0, 0.0), 1), None);
    assert_eq!(newton(Complex32::new(1.0, 0.0), 0), None);
}

#[test]
fn newton_far_start_reaches_a_root() {
    let bound = get_max_iterations(FractalType::Newton, 0);
    let (i, index) = newton(Complex32::new(3.0, 0.5), bound).unwrap();
    assert!(i > 1 && i < bound);
    assert_eq!(index, 85);
}

#[test]
fn same_start_and_bound_give_the_same_outcome() {
    for c in [Complex32::new(0.3, 0.5), Complex32::new(-0.75, 0.1), Complex32::new(1.0, 1.0)] {
        assert_eq!(mandelbrot(c, 255), mandelbrot(c, 255));
        assert_eq!(newton(c, 32), newton(c, 32));
    }
}

#[test]
fn a_larger_bound_keeps_an_escape() {
    let c = Complex32::new(0.4, 0.4);
    let (i, z) = mandelbrot(c, 255).unwrap();
    assert_eq!(mandelbrot(c, i), None);
    assert_eq!(mandelbrot(c, i + 1), Some((i, z)));
}
