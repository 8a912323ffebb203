//! The cyclic colour palette: a hue sweep through red, yellow, green, cyan,
//! blue and magenta at full saturation and value.
use vstd::prelude::*;
use crate::parallel::par_map_range;

verus! {

/// An 8-bit RGB colour.
#[derive(Clone, Copy, Debug, PartialEq, Eq, Structural)]
pub struct Color {
    pub r: u8,
    pub g: u8,
    pub b: u8,
}

impl Color {
    /// The colour of a point inside the set, and of a sample outside the window.
    pub fn black() -> (c: Color)
        ensures
            c.view_rgb() == (0int, 0int, 0int),
    {
        Color { r: 0, g: 0, b: 0 }
    }

    pub open spec fn view_rgb(self) -> (int, int, int) {
        (self.r as int, self.g as int, self.b as int)
    }
}

/// `floor(255 * num / size)`: a channel that ramps over one sixth of the cycle,
/// where `num / size` is the position within that sixth.
pub open spec fn ramp(num: int, size: int) -> int {
    (255 * num) / size
}

/// Entry `i` of a palette of `size` colours. The hue phase is `6 * i / size`,
/// taken exactly; its integer part picks the segment of the sweep, and the
/// channel that moves in that segment is the truncated `255 * t`, where `t`
/// is the interpolation factor of that segment.
pub open spec fn palette_rgb(i: int, size: int) -> (int, int, int) {
    let p = 6 * i;
    if p <= size {
        (255, ramp(p, size), 0)
    } else if p <= 2 * size {
        (ramp(2 * size - p, size), 255, 0)
    } else if p <= 3 * size {
        (0, 255, ramp(p - 2 * size, size))
    } else if p <= 4 * size {
        (0, ramp(4 * size - p, size), 255)
    } else if p <= 5 * size {
        (ramp(p - 4 * size, size), 0, 255)
    } else {
        (255, 0, ramp(6 * size - p, size))
    }
}

proof fn lemma_ramp_bounds(num: int, size: int)
    requires
        0 <= num <= size,
        size > 0,
    ensures
        0 <= ramp(num, size) <= 255,
{
    assert(0 <= 255 * num <= 255 * size) by (nonlinear_arith)
        requires 0 <= num <= size;
    vstd::arithmetic::div_mod::lemma_div_is_ordered(255 * num, 255 * size, size);
    vstd::arithmetic::div_mod::lemma_div_by_multiple(255, size);
    vstd::arithmetic::div_mod::lemma_div_pos_is_pos(255 * num, size);
}

fn ramp_exec(num: u128, size: u128) -> (r: u8)
    requires
        num <= size,
        0 < size <= 6 * (usize::MAX as int),
    ensures
        r as int == ramp(num as int, size as int),
{
    proof {
        lemma_ramp_bounds(num as int, size as int);
    }
    ((255 * num) / size) as u8
}

/// Colour `i` of a palette of `size` colours.
pub fn palette_color(i: usize, size: usize) -> (c: Color)
    requires
        i < size,
    ensures
        c.view_rgb() == palette_rgb(i as int, size as int),
{
    let p: u128 = 6 * (i as u128);
    let s: u128 = size as u128;
    if p <= s {
        Color { r: 255, g: ramp_exec(p, s), b: 0 }
    } else if p <= 2 * s {
        Color { r: ramp_exec(2 * s - p, s), g: 255, b: 0 }
    } else if p <= 3 * s {
        Color { r: 0, g: 255, b: ramp_exec(p - 2 * s, s) }
    } else if p <= 4 * s {
        Color { r: 0, g: ramp_exec(4 * s - p, s), b: 255 }
    } else if p <= 5 * s {
        Color { r: ramp_exec(p - 4 * s, s), g: 0, b: 255 }
    } else {
        Color { r: 255, g: 0, b: ramp_exec(6 * s - p, s) }
    }
}

/// The palette of `size` colours, computed entry by entry in parallel.
pub fn generate_palette(size: usize) -> (pal: Vec<Color>)
    requires
        size > 0,
    ensures
        pal@.len() == size,
        forall|i: int| 0 <= i < size ==> (#[trigger] pal@[i]).view_rgb() == palette_rgb(i, size as int),
{
    let pal = par_map_range(size, |i: usize| -> (c: Color)
        requires
            i < size,
        ensures
            c.view_rgb() == palette_rgb(i as int, size as int),
        { palette_color(i, size) });
    pal
}

/// Every entry of a palette of `size` colours, taken cyclically at any index,
/// is an RGB triple with each channel in `0..=255`.
pub proof fn lemma_palette_entries_in_range(i: nat, size: nat)
    requires
        size > 0,
    ensures
        0 <= palette_rgb((i % size) as int, size as int).0 <= 255,
        0 <= palette_rgb((i % size) as int, size as int).1 <= 255,
        0 <= palette_rgb((i % size) as int, size as int).2 <= 255,
{
    let j = (i % size) as int;
    let s = size as int;
    let p = 6 * j;
    assert(0 <= j < s);
    if p <= s {
        lemma_ramp_bounds(p, s);
    } else if p <= 2 * s {
        lemma_ramp_bounds(2 * s - p, s);
    } else if p <= 3 * s {
        lemma_ramp_bounds(p - 2 * s, s);
    } else if p <= 4 * s {
        lemma_ramp_bounds(4 * s - p, s);
    } else if p <= 5 * s {
        lemma_ramp_bounds(p - 4 * s, s);
    } else {
        lemma_ramp_bounds(6 * s - p, s);
    }
}

/// Two palettes that meet the contract of `generate_palette` for one size are
/// equal: the palette does not depend on how its entries were scheduled.
pub proof fn lemma_palette_deterministic(a: Seq<Color>, b: Seq<Color>, size: nat)
    requires
        a.len() == size,
        b.len() == size,
        forall|i: int| 0 <= i < size ==> (#[trigger] a[i]).view_rgb() == palette_rgb(i, size as int),
        forall|i: int| 0 <= i < size ==> (#[trigger] b[i]).view_rgb() == palette_rgb(i, size as int),
    ensures
        a == b,
{
    assert forall|i: int| 0 <= i < size implies a[i] == b[i] by {
        assert(a[i].view_rgb() == b[i].view_rgb());
    }
    assert(a =~= b);
}

} // verus!
