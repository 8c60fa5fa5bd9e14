//! The fixed colour tables that smooth colouring cycles through.
use vstd::prelude::*;
use crate::color::{Color, opaque};

verus! {

/// The palettes on offer.
#[derive(Clone, Copy, Debug, PartialEq, Eq, Structural)]
pub enum PaletteId {
    /// Blue and yellow, the channels of `Uf` reversed.
    BlueYellow,
    /// The classic sixteen-colour gradient, from dark brown through blue to orange.
    Uf,
    /// Twelve shades of orange and yellow.
    Orange,
    /// Twelve shades of light blue and green.
    LightBlue,
    /// Nine shades of red and gold.
    Red,
    /// Ten shades of green.
    Green,
}

/// The colours of `PaletteId::BlueYellow`, in order.
pub open spec fn blue_yellow_spec() -> Seq<Color> {
    seq![
        opaque(15, 30, 66),
        opaque(26, 7, 25),
        opaque(47, 1, 9),
        opaque(73, 4, 4),
        opaque(100, 7, 0),
        opaque(138, 44, 12),
        opaque(177, 82, 24),
        opaque(209, 125, 57),
        opaque(229, 181, 134),
        opaque(248, 236, 211),
        opaque(191, 233, 241),
        opaque(95, 201, 248),
        opaque(0, 170, 255),
        opaque(0, 128, 204),
        opaque(0, 87, 153),
        opaque(3, 52, 106),
    ]
}

/// The colours of `PaletteId::Uf`, in order.
pub open spec fn uf_spec() -> Seq<Color> {
    seq![
        opaque(66, 30, 15),
        opaque(25, 7, 26),
        opaque(9, 1, 47),
        opaque(4, 4, 73),
        opaque(0, 7, 100),
        opaque(12, 44, 138),
        opaque(24, 82, 177),
        opaque(57, 125, 209),
        opaque(134, 181, 229),
        opaque(211, 236, 248),
        opaque(241, 233, 191),
        opaque(248, 201, 95),
        opaque(255, 170, 0),
        opaque(204, 128, 0),
        opaque(153, 87, 0),
        opaque(106, 52, 3),
    ]
}

/// The colours of `PaletteId::Orange`, in order.
pub open spec fn orange_spec() -> Seq<Color> {
    seq![
        opaque(180, 64, 16),
        opaque(229, 83, 0),
        opaque(255, 105, 0),
        opaque(255, 43, 0),
        opaque(255, 64, 35),
        opaque(255, 92, 0),
        opaque(255, 129, 0),
        opaque(255, 159, 0),
        opaque(255, 195, 77),
        opaque(235, 190, 15),
        opaque(220, 195, 15),
        opaque(215, 252, 0),
    ]
}

/// The colours of `PaletteId::LightBlue`, in order.
pub open spec fn light_blue_spec() -> Seq<Color> {
    seq![
        opaque(47, 86, 233),
        opaque(45, 100, 245),
        opaque(47, 141, 255),
        opaque(51, 171, 249),
        opaque(52, 204, 255),
        opaque(82, 219, 255),
        opaque(23, 236, 236),
        opaque(110, 255, 255),
        opaque(168, 255, 255),
        opaque(149, 212, 122),
        opaque(169, 255, 47),
        opaque(255, 173, 47),
    ]
}

/// The colours of `PaletteId::Red`, in order.
pub open spec fn red_spec() -> Seq<Color> {
    seq![
        opaque(139, 0, 0),
        opaque(178, 34, 34),
        opaque(255, 99, 71),
        opaque(255, 127, 80),
        opaque(233, 150, 122),
        opaque(255, 160, 122),
        opaque(184, 134, 11),
        opaque(218, 165, 32),
        opaque(240, 230, 140),
    ]
}

/// The colours of `PaletteId::Green`, in order.
pub open spec fn green_spec() -> Seq<Color> {
    seq![
        opaque(154, 205, 50),
        opaque(128, 128, 0),
        opaque(85, 107, 47),
        opaque(107, 142, 35),
        opaque(0, 100, 0),
        opaque(0, 128, 0),
        opaque(34, 139, 34),
        opaque(0, 255, 0),
        opaque(50, 205, 50),
        opaque(143, 188, 143),
    ]
}

/// The colours of a palette, in order.
pub open spec fn palette_spec(id: PaletteId) -> Seq<Color> {
    match id {
        PaletteId::BlueYellow => blue_yellow_spec(),
        PaletteId::Uf => uf_spec(),
        PaletteId::Orange => orange_spec(),
        PaletteId::LightBlue => light_blue_spec(),
        PaletteId::Red => red_spec(),
        PaletteId::Green => green_spec(),
    }
}

fn blue_yellow() -> (p: Vec<Color>)
    ensures
        p@ == blue_yellow_spec(),
{
    let p = vec![
        Color::rgb(15, 30, 66),
        Color::rgb(26, 7, 25),
        Color::rgb(47, 1, 9),
        Color::rgb(73, 4, 4),
        Color::rgb(100, 7, 0),
        Color::rgb(138, 44, 12),
        Color::rgb(177, 82, 24),
        Color::rgb(209, 125, 57),
        Color::rgb(229, 181, 134),
        Color::rgb(248, 236, 211),
        Color::rgb(191, 233, 241),
        Color::rgb(95, 201, 248),
        Color::rgb(0, 170, 255),
        Color::rgb(0, 128, 204),
        Color::rgb(0, 87, 153),
        Color::rgb(3, 52, 106),
    ];
    assert(p@ =~= blue_yellow_spec());
    p
}

fn uf() -> (p: Vec<Color>)
    ensures
        p@ == uf_spec(),
{
    let p = vec![
        Color::rgb(66, 30, 15),
        Color::rgb(25, 7, 26),
        Color::rgb(9, 1, 47),
        Color::rgb(4, 4, 73),
        Color::rgb(0, 7, 100),
        Color::rgb(12, 44, 138),
        Color::rgb(24, 82, 177),
        Color::rgb(57, 125, 209),
        Color::rgb(134, 181, 229),
        Color::rgb(211, 236, 248),
        Color::rgb(241, 233, 191),
        Color::rgb(248, 201, 95),
        Color::rgb(255, 170, 0),
        Color::rgb(204, 128, 0),
        Color::rgb(153, 87, 0),
        Color::rgb(106, 52, 3),
    ];
    assert(p@ =~= uf_spec());
    p
}

fn orange() -> (p: Vec<Color>)
    ensures
        p@ == orange_spec(),
{
    let p = vec![
        Color::rgb(180, 64, 16),
        Color::rgb(229, 83, 0),
        Color::rgb(255, 105, 0),
        Color::rgb(255, 43, 0),
        Color::rgb(255, 64, 35),
        Color::rgb(255, 92, 0),
        Color::rgb(255, 129, 0),
        Color::rgb(255, 159, 0),
        Color::rgb(255, 195, 77),
        Color::rgb(235, 190, 15),
        Color::rgb(220, 195, 15),
        Color::rgb(215, 252, 0),
    ];
    assert(p@ =~= orange_spec());
    p
}

fn light_blue() -> (p: Vec<Color>)
    ensures
        p@ == light_blue_spec(),
{
    let p = vec![
        Color::rgb(47, 86, 233),
        Color::rgb(45, 100, 245),
        Color::rgb(47, 141, 255),
        Color::rgb(51, 171, 249),
        Color::rgb(52, 204, 255),
        Color::rgb(82, 219, 255),
        Color::rgb(23, 236, 236),
        Color::rgb(110, 255, 255),
        Color::rgb(168, 255, 255),
        Color::rgb(149, 212, 122),
        Color::rgb(169, 255, 47),
        Color::rgb(255, 173, 47),
    ];
    assert(p@ =~= light_blue_spec());
    p
}

fn red() -> (p: Vec<Color>)
    ensures
        p@ == red_spec(),
{
    let p = vec![
        Color::rgb(139, 0, 0),
        Color::rgb(178, 34, 34),
        Color::rgb(255, 99, 71),
        Color::rgb(255, 127, 80),
        Color::rgb(233, 150, 122),
        Color::rgb(255, 160, 122),
        Color::rgb(184, 134, 11),
        Color::rgb(218, 165, 32),
        Color::rgb(240, 230, 140),
    ];
    assert(p@ =~= red_spec());
    p
}

fn green() -> (p: Vec<Color>)
    ensures
        p@ == green_spec(),
{
    let p = vec![
        Color::rgb(154, 205, 50),
        Color::rgb(128, 128, 0),
        Color::rgb(85, 107, 47),
        Color::rgb(107, 142, 35),
        Color::rgb(0, 100, 0),
        Color::rgb(0, 128, 0),
        Color::rgb(34, 139, 34),
        Color::rgb(0, 255, 0),
        Color::rgb(50, 205, 50),
        Color::rgb(143, 188, 143),
    ];
    assert(p@ =~= green_spec());
    p
}

/// The number of colours in a palette.
pub open spec fn palette_len(id: PaletteId) -> nat {
    match id {
        PaletteId::BlueYellow => 16,
        PaletteId::Uf => 16,
        PaletteId::Orange => 12,
        PaletteId::LightBlue => 12,
        PaletteId::Red => 9,
        PaletteId::Green => 10,
    }
}

/// The colours of the palette `id`, in order.
pub fn palette(id: PaletteId) -> (p: Vec<Color>)
    ensures
        p@ == palette_spec(id),
        p@.len() == palette_len(id),
{
    match id {
        PaletteId::BlueYellow => blue_yellow(),
        PaletteId::Uf => uf(),
        PaletteId::Orange => orange(),
        PaletteId::LightBlue => light_blue(),
        PaletteId::Red => red(),
        PaletteId::Green => green(),
    }
}

/// The two neighbouring entries that a smooth colour at `index` blends:
/// the entry at `index` and the one after it, both taken modulo the
/// palette's length.
pub open spec fn wrapped_pair(p: Seq<Color>, index: int) -> (Color, Color) {
    (p[index % p.len() as int], p[(index + 1) % p.len() as int])
}

/// The entries `index` and `index + 1` of a palette, each taken modulo its
/// length, so that any index picks a colour of the palette.
pub fn palette_pair(p: &Vec<Color>, index: usize) -> (r: (Color, Color))
    requires
        p@.len() > 0,
    ensures
        r == wrapped_pair(p@, index as int),
{
    let n = p.len();
    let i = index % n;
    let j = if i + 1 == n { 0 } else { i + 1 };
    proof {
        lemma_wrap_next(index as int, n as int);
    }
    (p[i], p[j])
}

/// Taking `index + 1` modulo `n` is the same as stepping once from `index`
/// modulo `n` and wrapping at `n`.
proof fn lemma_wrap_next(index: int, n: int)
    requires
        index >= 0,
        n > 0,
    ensures
        (index + 1) % n == (if index % n + 1 == n { 0 } else { index % n + 1 }),
{
    vstd::arithmetic::div_mod::lemma_fundamental_div_mod(index, n);
    vstd::arithmetic::div_mod::lemma_fundamental_div_mod(index + 1, n);
    vstd::arithmetic::div_mod::lemma_mod_pos_bound(index, n);
    let q = index / n;
    let r = index % n;
    assert(index + 1 == q * n + r + 1) by (nonlinear_arith)
        requires
            index == n * q + r,
    ;
    assert((q + 1) * n == q * n + n) by (nonlinear_arith);
    if r + 1 == n {
        vstd::arithmetic::div_mod::lemma_fundamental_div_mod_converse(index + 1, n, q + 1, 0);
    } else {
        vstd::arithmetic::div_mod::lemma_fundamental_div_mod_converse(index + 1, n, q, r + 1);
    }
}

/// For every non-empty palette and every index, both entries a smooth
/// colour blends lie inside the palette, and the second follows the first
/// cyclically.
pub proof fn lemma_wrapped_pair_in_bounds(p: Seq<Color>, index: int)
    requires
        p.len() > 0,
        index >= 0,
    ensures
        0 <= index % (p.len() as int) < p.len(),
        0 <= (index + 1) % (p.len() as int) < p.len(),
        (index + 1) % p.len() as int == (if index % p.len() as int + 1 == p.len() { 0 } else { index % p.len() as int + 1 }),
{
    lemma_wrap_next(index, p.len() as int);
}

} // verus!
