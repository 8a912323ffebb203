use mandelbrot::kernel::{EscapeCounter, EscapeResult};
use mandelbrot::palette::{generate_palette, palette_color, Color};
use mandelbrot::sampler::{render_grid, sample_color, sample_grid_index, sample_pixel, SampleOutcome};
use num::complex::Complex;

fn rgb(r: u8, g: u8, b: u8) -> Color {
    Color { r, g, b }
}

/// Runs the escape-time iteration for `c` with the library's counter.
fn escape(re: f64, im: f64, max_iterations: u64, threshold: f64) -> EscapeResult {
    let c = Complex::new(re, im);
    let mut z = Complex::new(0.0, 0.0);
    let mut counter = EscapeCounter::new(max_iterations);
    loop {
        match counter.observe(z.norm() <= threshold) {
            Some(result) => return result,
            None => z = z * z + c,
        }
    }
}

#[test]
fn escape_quarter_is_interior() {
    assert_eq!(escape(0.25, 0.0, 256, 2.0), EscapeResult::Interior);
}

#[test]
fn escape_two_escapes_early() {
    // |z| is 0, then 2 (not above the threshold), then 6.
    assert_eq!(escape(2.0, 0.0, 256, 2.0), EscapeResult::Escaped(2));
}

#[test]
fn escape_origin_is_interior_for_any_budget() {
    for max in [1u64, 2, 7, 256] {
        assert_eq!(escape(0.0, 0.0, max, 3.0), EscapeResult::Interior);
    }
}

#[test]
fn escape_count_below_budget() {
    for (re, im) in [(0.3, 0.6), (-2.5, 0.1), (1.0, 1.0), (0.26, 0.0)] {
        if let EscapeResult::Escaped(n) = escape(re, im, 16, 3.0) {
            assert!(n < 16);
        }
    }
}

#[test]
fn counter_budget_of_one() {
    let mut counter = EscapeCounter::new(1);
    assert_eq!(counter.observe(true), None);
    assert_eq!(counter.observe(true), Some(EscapeResult::Interior));
    let mut other = EscapeCounter::new(1);
    assert_eq!(other.observe(false), Some(EscapeResult::Escaped(0)));
}

#[test]
fn palette_of_six_is_the_hue_wheel() {
    let p = generate_palette(6);
    assert_eq!(
        p,
        vec![
            rgb(255, 0, 0),
            rgb(255, 255, 0),
            rgb(0, 255, 0),
            rgb(0, 255, 255),
            rgb(0, 0, 255),
            rgb(255, 0, 255),
        ]
    );
}

#[test]
fn palette_has_requested_size() {
    for n in [1usize, 2, 5, 64, 100] {
        let p = generate_palette(n);
        assert_eq!(p.len(), n);
        for i in 0..3 * n {
            let _ = p[i % n];
        }
    }
}

#[test]
fn palette_of_sixty_four_values() {
    let p = generate_palette(64);
    assert_eq!(p[0], rgb(255, 0, 0));
    assert_eq!(p[1], rgb(255, 23, 0));
    assert_eq!(p[10], rgb(255, 239, 0));
    assert_eq!(p[11], rgb(247, 255, 0));
    assert_eq!(p[63], rgb(255, 0, 23));
    assert_eq!(palette_color(32, 64), rgb(0, 255, 255));
}

#[test]
fn palette_of_one_is_red() {
    assert_eq!(generate_palette(1), vec![rgb(255, 0, 0)]);
}

#[test]
fn sample_colors() {
    let p = generate_palette(64);
    assert_eq!(sample_color(SampleOutcome::OutsideWindow, &p), rgb(0, 0, 0));
    assert_eq!(sample_color(SampleOutcome::Evaluated(EscapeResult::Interior), &p), rgb(0, 0, 0));
    assert_eq!(sample_color(SampleOutcome::Evaluated(EscapeResult::Escaped(65)), &p), rgb(255, 23, 0));
}

#[test]
fn pixel_average_truncates() {
    let p = generate_palette(64);
    let samples = vec![
        SampleOutcome::Evaluated(EscapeResult::Escaped(0)),
        SampleOutcome::Evaluated(EscapeResult::Interior),
        SampleOutcome::OutsideWindow,
        SampleOutcome::Evaluated(EscapeResult::Escaped(65)),
    ];
    assert_eq!(sample_pixel(&samples, &p), rgb(127, 5, 0));
}

#[test]
fn pixel_outside_window_is_black() {
    let p = generate_palette(6);
    let samples = vec![SampleOutcome::OutsideWindow; 4];
    assert_eq!(sample_pixel(&samples, &p), rgb(0, 0, 0));
}

#[test]
fn pixel_with_one_sample_is_its_color() {
    let p = generate_palette(6);
    for n in 0..12u64 {
        let s = SampleOutcome::Evaluated(EscapeResult::Escaped(n));
        assert_eq!(sample_pixel(&vec![s], &p), sample_color(s, &p));
    }
}

#[test]
fn grid_index_of_sub_sample() {
    assert_eq!(sample_grid_index(3, 1, 2), 7);
    assert_eq!(sample_grid_index(0, 0, 1), 0);
}

#[test]
fn two_by_two_tile_with_budget_one_is_black() {
    let p = generate_palette(64);
    let mut samples = Vec::new();
    for y in 0..2u64 {
        for x in 0..2u64 {
            let cx = sample_grid_index(x, 0, 1) as f64 * 0.1 - 0.5;
            let cy = sample_grid_index(y, 0, 1) as f64 * 0.1;
            samples.push(SampleOutcome::Evaluated(escape(cx, cy, 1, 3.0)));
        }
    }
    let grid = render_grid(2, 2, 1, &samples, &p);
    assert_eq!(grid, vec![rgb(0, 0, 0); 4]);
}

#[test]
fn grid_is_row_major_and_deterministic() {
    let p = generate_palette(6);
    let e = |n: u64| SampleOutcome::Evaluated(EscapeResult::Escaped(n));
    // 3 wide, 2 high, 2 samples per pixel.
    let samples = vec![
        e(0), e(0), e(1), e(1), e(2), e(2),
        e(3), e(3), e(4), e(4), SampleOutcome::OutsideWindow, e(0),
    ];
    let a = render_grid(3, 2, 2, &samples, &p);
    let b = render_grid(3, 2, 2, &samples, &p);
    assert_eq!(a, b);
    assert_eq!(
        a,
        vec![
            rgb(255, 0, 0),
            rgb(255, 255, 0),
            rgb(0, 255, 0),
            rgb(0, 255, 255),
            rgb(0, 0, 255),
            rgb(127, 0, 0),
        ]
    );
}

#[test]
fn empty_grid() {
    let p = generate_palette(6);
    assert_eq!(render_grid(0, 5, 4, &Vec::new(), &p), Vec::new());
}
