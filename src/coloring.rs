//! Turning escape times into colours: the interior colour, basic cyclic
//! colouring, and smooth colouring that blends two neighbouring palette
//! entries.
use vstd::prelude::*;
use vstd::arithmetic::div_mod::{lemma_div_is_ordered, lemma_div_multiples_vanish};
use crate::color::{Color, opaque, interior_spec};
use crate::palette::{palette_pair, wrapped_pair};

verus! {

/// The denominator of a blend fraction: `p` stands for `p / FRACTION_ONE`.
/// It is 2 to the 53rd power, so the fractional part of a 64-bit float of
/// magnitude at least one converts to it without loss.
pub const FRACTION_ONE: u64 = 9007199254740992;

/// The channel `floor(start + (end - start) * p / FRACTION_ONE)`.
pub open spec fn mix(start: u8, end: u8, p: int) -> int {
    (start * FRACTION_ONE + (end - start) * p) / (FRACTION_ONE as int)
}

/// The colour that lies the fraction `p` of the way from `start` to `end`,
/// channel by channel and rounded down, fully opaque.
pub open spec fn blend_spec(start: Color, end: Color, p: int) -> Color {
    Color {
        r: mix(start.r, end.r, p) as u8,
        g: mix(start.g, end.g, p) as u8,
        b: mix(start.b, end.b, p) as u8,
        a: 255,
    }
}

/// A blended channel never leaves the range between its two ends, and the
/// fraction zero gives the start.
pub proof fn lemma_mix_between(start: u8, end: u8, p: int)
    requires
        0 <= p < FRACTION_ONE,
    ensures
        start <= end ==> start <= mix(start, end, p) <= end,
        end <= start ==> end <= mix(start, end, p) <= start,
        mix(start, end, 0) == start,
{
    let one = FRACTION_ONE as int;
    let s = start as int;
    let e = end as int;
    let n = s * one + (e - s) * p;
    lemma_div_multiples_vanish(s, one);
    lemma_div_multiples_vanish(e, one);
    assert(s * one == one * s) by (nonlinear_arith);
    assert(e * one == one * e) by (nonlinear_arith);
    assert(s * one + (e - s) * 0 == s * one) by (nonlinear_arith);
    if s <= e {
        assert(s * one <= n <= e * one) by (nonlinear_arith)
            requires
                s <= e,
                0 <= p < one,
                n == s * one + (e - s) * p,
        ;
        lemma_div_is_ordered(s * one, n, one);
        lemma_div_is_ordered(n, e * one, one);
    }
    if e <= s {
        assert(e * one <= n <= s * one) by (nonlinear_arith)
            requires
                e <= s,
                0 <= p < one,
                n == s * one + (e - s) * p,
        ;
        lemma_div_is_ordered(e * one, n, one);
        lemma_div_is_ordered(n, s * one, one);
    }
}

/// As the fraction grows, a blended channel moves from its start towards
/// its end and never back.
pub proof fn lemma_mix_monotone(start: u8, end: u8, p1: int, p2: int)
    requires
        0 <= p1 <= p2 < FRACTION_ONE,
    ensures
        start <= end ==> mix(start, end, p1) <= mix(start, end, p2),
        end <= start ==> mix(start, end, p2) <= mix(start, end, p1),
{
    let one = FRACTION_ONE as int;
    let s = start as int;
    let e = end as int;
    let n1 = s * one + (e - s) * p1;
    let n2 = s * one + (e - s) * p2;
    if s <= e {
        assert(n1 <= n2) by (nonlinear_arith)
            requires
                s <= e,
                p1 <= p2,
                n1 == s * one + (e - s) * p1,
                n2 == s * one + (e - s) * p2,
        ;
        lemma_div_is_ordered(n1, n2, one);
    }
    if e <= s {
        assert(n2 <= n1) by (nonlinear_arith)
            requires
                e <= s,
                p1 <= p2,
                n1 == s * one + (e - s) * p1,
                n2 == s * one + (e - s) * p2,
        ;
        lemma_div_is_ordered(n2, n1, one);
    }
}

/// For a fixed pair of palette entries, every channel of the blend stays
/// between the two entries' channels and moves monotonically from the
/// first towards the second as the fraction sweeps from zero towards one.
pub proof fn lemma_blend_continuous(start: Color, end: Color, p1: int, p2: int)
    requires
        0 <= p1 <= p2 < FRACTION_ONE,
    ensures
        blend_spec(start, end, 0) == start.with_alpha(),
        start.r <= end.r ==> start.r <= blend_spec(start, end, p1).r <= blend_spec(start, end, p2).r <= end.r,
        end.r <= start.r ==> end.r <= blend_spec(start, end, p2).r <= blend_spec(start, end, p1).r <= start.r,
        start.g <= end.g ==> start.g <= blend_spec(start, end, p1).g <= blend_spec(start, end, p2).g <= end.g,
        end.g <= start.g ==> end.g <= blend_spec(start, end, p2).g <= blend_spec(start, end, p1).g <= start.g,
        start.b <= end.b ==> start.b <= blend_spec(start, end, p1).b <= blend_spec(start, end, p2).b <= end.b,
        end.b <= start.b ==> end.b <= blend_spec(start, end, p2).b <= blend_spec(start, end, p1).b <= start.b,
{
    lemma_mix_between(start.r, end.r, p1);
    lemma_mix_between(start.r, end.r, p2);
    lemma_mix_monotone(start.r, end.r, p1, p2);
    lemma_mix_between(start.g, end.g, p1);
    lemma_mix_between(start.g, end.g, p2);
    lemma_mix_monotone(start.g, end.g, p1, p2);
    lemma_mix_between(start.b, end.b, p1);
    lemma_mix_between(start.b, end.b, p2);
    lemma_mix_monotone(start.b, end.b, p1, p2);
}

/// One channel of a blend.
fn mix_channel(start: u8, end: u8, p: u64) -> (c: u8)
    requires
        p < FRACTION_ONE,
    ensures
        c == mix(start, end, p as int),
{
    proof {
        lemma_mix_between(start, end, p as int);
    }
    let s = start as u64;
    let e = end as u64;
    if s <= e {
        assert((e - s) * p <= 255 * FRACTION_ONE) by (nonlinear_arith)
            requires
                e - s <= 255,
                p < FRACTION_ONE,
        ;
        let n = s * FRACTION_ONE + (e - s) * p;
        (n / FRACTION_ONE) as u8
    } else {
        assert((s - e) * p <= s * FRACTION_ONE) by (nonlinear_arith)
            requires
                s - e <= s,
                p < FRACTION_ONE,
        ;
        assert(s * FRACTION_ONE + (e - s) * p == s * FRACTION_ONE - (s - e) * p) by (nonlinear_arith);
        let n = s * FRACTION_ONE - (s - e) * p;
        (n / FRACTION_ONE) as u8
    }
}

/// The colour the fraction `p / FRACTION_ONE` of the way from `start` to
/// `end`, each channel rounded down; the result is fully opaque.
pub fn calculate_color(start: Color, end: Color, p: u64) -> (c: Color)
    requires
        p < FRACTION_ONE,
    ensures
        c == blend_spec(start, end, p as int),
{
    Color {
        r: mix_channel(start.r, end.r, p),
        g: mix_channel(start.g, end.g, p),
        b: mix_channel(start.b, end.b, p),
        a: 255,
    }
}

/// A fractional iteration count: `index + fraction / FRACTION_ONE`.
#[derive(Clone, Copy, Debug, PartialEq, Eq, Structural)]
pub struct SmoothCount {
    /// The whole part, which picks the first palette entry to blend.
    pub index: usize,
    /// The fractional part, in units of `1 / FRACTION_ONE`.
    pub fraction: u64,
}

/// What the escape-time loop found for one pixel.
#[derive(Clone, Copy, Debug, PartialEq, Eq, Structural)]
pub struct Sample {
    /// The number of iterations made, at most the cap.
    pub iterations: usize,
    /// The smoothed iteration count, used by smooth colouring when the
    /// point escaped.
    pub count: SmoothCount,
}

/// How escape times become colours.
#[derive(Clone, Copy, Debug, PartialEq, Eq, Structural)]
pub enum ColorMode {
    /// Every point gets the interior colour.
    Interior,
    /// The palette entry at the iteration count, cyclically.
    Basic,
    /// A blend of two neighbouring palette entries at the smoothed count.
    Smooth,
}

/// A sample whose fraction is a proper fraction.
pub open spec fn sample_ok(s: Sample) -> bool {
    s.count.fraction < FRACTION_ONE
}

/// The smooth colour at a fractional count: the blend of the palette
/// entries at `index` and `index + 1`, cyclically.
pub open spec fn interpolate_spec(p: Seq<Color>, count: SmoothCount) -> Color {
    blend_spec(
        wrapped_pair(p, count.index as int).0,
        wrapped_pair(p, count.index as int).1,
        count.fraction as int,
    )
}

/// Smooth colouring: interior points are opaque black, escaped ones get
/// the blend at their fractional count.
pub open spec fn smooth_spec(p: Seq<Color>, max_iterations: usize, s: Sample) -> Color {
    if s.iterations >= max_iterations {
        interior_spec()
    } else {
        interpolate_spec(p, s.count)
    }
}

/// Basic colouring: a point that escaped after `n` steps, with
/// `0 < n < max_iterations`, gets the palette entry at `n` cyclically;
/// every other point is opaque black.
pub open spec fn basic_spec(p: Seq<Color>, n: usize, max_iterations: usize) -> Color {
    if 0 < n < max_iterations {
        p[n as int % p.len() as int]
    } else {
        interior_spec()
    }
}

/// The colour of one pixel under a colouring mode.
pub open spec fn pixel_spec(mode: ColorMode, p: Seq<Color>, max_iterations: usize, s: Sample) -> Color {
    match mode {
        ColorMode::Interior => interior_spec(),
        ColorMode::Basic => basic_spec(p, s.iterations, max_iterations),
        ColorMode::Smooth => smooth_spec(p, max_iterations, s),
    }
}

/// Blends the palette entries at `count.index` and `count.index + 1`,
/// both taken cyclically, by the fraction of the count.
pub fn interpolate_color(palette: &Vec<Color>, count: SmoothCount) -> (c: Color)
    requires
        palette@.len() > 0,
        count.fraction < FRACTION_ONE,
    ensures
        c == interpolate_spec(palette@, count),
{
    let (start, end) = palette_pair(palette, count.index);
    calculate_color(start, end, count.fraction)
}

/// Smooth colouring of one pixel.
pub fn smooth_color(palette: &Vec<Color>, max_iterations: usize, s: Sample) -> (c: Color)
    requires
        palette@.len() > 0,
        sample_ok(s),
    ensures
        c == smooth_spec(palette@, max_iterations, s),
{
    if s.iterations >= max_iterations {
        Color::interior()
    } else {
        interpolate_color(palette, s.count)
    }
}

/// Basic colouring of one pixel that escaped after `n` steps.
pub fn map_iteration_to_color_basic(palette: &Vec<Color>, n: usize, max_iterations: usize) -> (c: Color)
    requires
        palette@.len() > 0,
    ensures
        c == basic_spec(palette@, n, max_iterations),
{
    if n < max_iterations && n > 0 {
        palette[n % palette.len()]
    } else {
        Color::interior()
    }
}

/// The colour of one pixel under a colouring mode.
pub fn color_pixel(mode: ColorMode, palette: &Vec<Color>, max_iterations: usize, s: Sample) -> (c: Color)
    requires
        palette@.len() > 0,
        sample_ok(s),
    ensures
        c == pixel_spec(mode, palette@, max_iterations, s),
{
    match mode {
        ColorMode::Interior => Color::interior(),
        ColorMode::Basic => map_iteration_to_color_basic(palette, s.iterations, max_iterations),
        ColorMode::Smooth => smooth_color(palette, max_iterations, s),
    }
}

} // verus!
