//! Per-pixel supersampling and assembly of a tile's row-major pixel grid.
use vstd::prelude::*;
use crate::kernel::EscapeResult;
use crate::palette::Color;
use crate::parallel::par_map_range;

verus! {

/// What one sample point of a pixel came to.
#[derive(Clone, Copy, Debug, PartialEq, Eq, Structural)]
pub enum SampleOutcome {
    /// The point lies outside the plane window and was not evaluated.
    OutsideWindow,
    /// The point was evaluated by the escape-time iteration.
    Evaluated(EscapeResult),
}

/// The colour a sample contributes: black outside the window and inside the
/// set, and palette entry `n mod size` for a point that escaped after `n` steps.
pub open spec fn sample_rgb(s: SampleOutcome, palette: Seq<Color>) -> (int, int, int) {
    match s {
        SampleOutcome::OutsideWindow => (0, 0, 0),
        SampleOutcome::Evaluated(EscapeResult::Interior) => (0, 0, 0),
        SampleOutcome::Evaluated(EscapeResult::Escaped(n)) => palette[(n as int) % palette.len() as int].view_rgb(),
    }
}

/// The channel-wise sums of the colours of `samples`.
pub open spec fn sum_rgb(samples: Seq<SampleOutcome>, palette: Seq<Color>) -> (int, int, int)
    decreases samples.len(),
{
    if samples.len() == 0 {
        (0, 0, 0)
    } else {
        let rest = sum_rgb(samples.drop_last(), palette);
        let last = sample_rgb(samples.last(), palette);
        (rest.0 + last.0, rest.1 + last.1, rest.2 + last.2)
    }
}

/// The colour of a pixel: each channel sum divided by the number of samples,
/// truncating.
pub open spec fn pixel_rgb(samples: Seq<SampleOutcome>, palette: Seq<Color>) -> (int, int, int) {
    let s = sum_rgb(samples, palette);
    let n = samples.len() as int;
    (s.0 / n, s.1 / n, s.2 / n)
}

/// The samples of pixel `k` of a grid with `per_pixel` samples for each pixel.
pub open spec fn pixel_samples(samples: Seq<SampleOutcome>, k: int, per_pixel: int) -> Seq<SampleOutcome> {
    samples.subrange(k * per_pixel, k * per_pixel + per_pixel)
}

proof fn lemma_sum_bounds(samples: Seq<SampleOutcome>, palette: Seq<Color>)
    requires
        palette.len() > 0,
    ensures
        0 <= sum_rgb(samples, palette).0 <= 255 * samples.len(),
        0 <= sum_rgb(samples, palette).1 <= 255 * samples.len(),
        0 <= sum_rgb(samples, palette).2 <= 255 * samples.len(),
    decreases samples.len(),
{
    if samples.len() > 0 {
        lemma_sum_bounds(samples.drop_last(), palette);
    }
}

proof fn lemma_average_bounds(sum: int, n: int)
    requires
        n > 0,
        0 <= sum <= 255 * n,
    ensures
        0 <= sum / n <= 255,
{
    vstd::arithmetic::div_mod::lemma_div_is_ordered(sum, 255 * n, n);
    vstd::arithmetic::div_mod::lemma_div_by_multiple(255, n);
    vstd::arithmetic::div_mod::lemma_div_pos_is_pos(sum, n);
}

/// The colour that one sample contributes.
pub fn sample_color(s: SampleOutcome, palette: &Vec<Color>) -> (c: Color)
    requires
        palette@.len() > 0,
    ensures
        c.view_rgb() == sample_rgb(s, palette@),
{
    match s {
        SampleOutcome::OutsideWindow => Color::black(),
        SampleOutcome::Evaluated(EscapeResult::Interior) => Color::black(),
        SampleOutcome::Evaluated(EscapeResult::Escaped(n)) => {
            let len = palette.len() as u64;
            palette[(n % len) as usize]
        },
    }
}

/// The box-filter average of `count` samples starting at `start`.
fn average_samples(samples: &Vec<SampleOutcome>, start: usize, count: usize, palette: &Vec<Color>) -> (c: Color)
    requires
        count > 0,
        start + count <= samples@.len(),
        palette@.len() > 0,
    ensures
        c.view_rgb() == pixel_rgb(samples@.subrange(start as int, start + count), palette@),
{
    let len = samples.len();
    let mut r: u128 = 0;
    let mut g: u128 = 0;
    let mut b: u128 = 0;
    let mut j: usize = 0;
    while j < count
        invariant
            j <= count,
            start + count <= len,
            len == samples@.len(),
            palette@.len() > 0,
            (r as int, g as int, b as int) == sum_rgb(samples@.subrange(start as int, start + j), palette@),
        decreases count - j,
    {
        let c = sample_color(samples[start + j], palette);
        proof {
            let part = samples@.subrange(start as int, start + j + 1);
            assert(part.drop_last() =~= samples@.subrange(start as int, start + j));
            lemma_sum_bounds(samples@.subrange(start as int, start + j), palette@);
            assert(255 * j <= 255 * usize::MAX) by (nonlinear_arith)
                requires j <= usize::MAX;
        }
        r = r + c.r as u128;
        g = g + c.g as u128;
        b = b + c.b as u128;
        j = j + 1;
    }
    proof {
        let all = samples@.subrange(start as int, start + count);
        lemma_sum_bounds(all, palette@);
        lemma_average_bounds(r as int, count as int);
        lemma_average_bounds(g as int, count as int);
        lemma_average_bounds(b as int, count as int);
    }
    let n = count as u128;
    Color { r: (r / n) as u8, g: (g / n) as u8, b: (b / n) as u8 }
}

/// The colour of one pixel from all of its samples.
pub fn sample_pixel(samples: &Vec<SampleOutcome>, palette: &Vec<Color>) -> (c: Color)
    requires
        samples@.len() > 0,
        palette@.len() > 0,
    ensures
        c.view_rgb() == pixel_rgb(samples@, palette@),
{
    let c = average_samples(samples, 0, samples.len(), palette);
    assert(samples@.subrange(0, samples@.len() as int) =~= samples@);
    c
}

/// The position on the sample grid of sub-sample `sub` of pixel `pixel`, with
/// `factor` samples per pixel along an axis.
pub fn sample_grid_index(pixel: u64, sub: u64, factor: u64) -> (r: u64)
    requires
        sub < factor,
        pixel * factor + sub <= u64::MAX,
    ensures
        r == pixel * factor + sub,
{
    pixel * factor + sub
}

/// The pixel grid of a tile, row-major, `width * height` pixels with
/// `per_pixel` samples each; the samples of pixel `k` are the `k`-th run of
/// `per_pixel` entries of `samples`. Pixels are computed in parallel.
pub fn render_grid(width: usize, height: usize, per_pixel: usize, samples: &Vec<SampleOutcome>, palette: &Vec<Color>) -> (grid: Vec<Color>)
    requires
        per_pixel > 0,
        palette@.len() > 0,
        samples@.len() == width * height * per_pixel,
    ensures
        grid@.len() == width * height,
        forall|k: int| 0 <= k < width * height ==> (#[trigger] grid@[k]).view_rgb()
            == pixel_rgb(pixel_samples(samples@, k, per_pixel as int), palette@),
{
    assert(width * height <= width * height * per_pixel) by (nonlinear_arith)
        requires per_pixel > 0, width >= 0, height >= 0;
    let total = samples.len();
    let n: usize = width * height;
    let grid = par_map_range(n, |k: usize| -> (c: Color)
        requires
            k < n,
            n * per_pixel == total,
            total == samples@.len(),
        ensures
            c.view_rgb() == pixel_rgb(pixel_samples(samples@, k as int, per_pixel as int), palette@),
        {
            assert(k * per_pixel + per_pixel <= n * per_pixel) by (nonlinear_arith)
                requires k < n, per_pixel > 0;
            average_samples(samples, k * per_pixel, per_pixel, palette)
        });
    grid
}

/// Two grids that meet the contract of `render_grid` for the same inputs are
/// equal: each pixel is a function of its own samples and the palette alone,
/// so the result does not depend on the order or number of parallel workers.
pub proof fn lemma_render_deterministic(
    a: Seq<Color>,
    b: Seq<Color>,
    width: nat,
    height: nat,
    per_pixel: nat,
    samples: Seq<SampleOutcome>,
    palette: Seq<Color>,
)
    requires
        a.len() == width * height,
        b.len() == width * height,
        forall|k: int| 0 <= k < width * height ==> (#[trigger] a[k]).view_rgb()
            == pixel_rgb(pixel_samples(samples, k, per_pixel as int), palette),
        forall|k: int| 0 <= k < width * height ==> (#[trigger] b[k]).view_rgb()
            == pixel_rgb(pixel_samples(samples, k, per_pixel as int), palette),
    ensures
        a == b,
{
    assert forall|k: int| 0 <= k < a.len() implies a[k] == b[k] by {
        assert(a[k].view_rgb() == b[k].view_rgb());
    }
    assert(a =~= b);
}

/// Samples outside the plane window contribute black: a pixel whose samples
/// all lie outside the window is black.
pub proof fn lemma_outside_window_is_black(samples: Seq<SampleOutcome>, palette: Seq<Color>)
    requires
        samples.len() > 0,
        forall|j: int| 0 <= j < samples.len() ==> #[trigger] samples[j] == SampleOutcome::OutsideWindow,
    ensures
        sample_rgb(SampleOutcome::OutsideWindow, palette) == (0int, 0int, 0int),
        pixel_rgb(samples, palette) == (0int, 0int, 0int),
{
    lemma_sum_of_black(samples, palette);
}

proof fn lemma_sum_of_black(samples: Seq<SampleOutcome>, palette: Seq<Color>)
    requires
        forall|j: int| 0 <= j < samples.len() ==> sample_rgb(#[trigger] samples[j], palette) == (0int, 0int, 0int),
    ensures
        sum_rgb(samples, palette) == (0int, 0int, 0int),
    decreases samples.len(),
{
    if samples.len() > 0 {
        let rest = samples.drop_last();
        assert forall|j: int| 0 <= j < rest.len() implies sample_rgb(#[trigger] rest[j], palette) == (0int, 0int, 0int) by {
            assert(rest[j] == samples[j]);
        }
        lemma_sum_of_black(rest, palette);
        assert(sample_rgb(samples[samples.len() - 1], palette) == (0int, 0int, 0int));
    }
}

/// With one sample per pixel, the pixel has exactly that sample's colour.
pub proof fn lemma_single_sample_pixel(samples: Seq<SampleOutcome>, palette: Seq<Color>)
    requires
        samples.len() == 1,
    ensures
        pixel_rgb(samples, palette) == sample_rgb(samples[0], palette),
{
    let s = sample_rgb(samples[0], palette);
    assert(samples.drop_last().len() == 0);
    assert(samples.last() == samples[0]);
    assert(sum_rgb(samples.drop_last(), palette) == (0int, 0int, 0int));
    assert(sum_rgb(samples, palette) == (0 + s.0, 0 + s.1, 0 + s.2));
    assert(s.0 / 1 == s.0 && s.1 / 1 == s.1 && s.2 / 1 == s.2);
}

} // verus!
