//! The rendered picture, held in an `image::RgbaImage`, and its packed
//! 32-bit form for a display.
use vstd::prelude::*;
use vstd::arithmetic::div_mod::{lemma_fundamental_div_mod_converse, lemma_mod_pos_bound};
use image::RgbaImage;
use crate::color::{Color, packed};
use crate::coloring::{ColorMode, Sample, color_pixel, pixel_spec, sample_ok};

verus! {

/// A picture held in an `image::RgbaImage`; Verus sees it through
/// `picture_rows` and `picture_width` only.
#[verifier::external_body]
pub struct Picture {
    img: RgbaImage,
}

/// The pixels of a picture, row by row, each as (red, green, blue, alpha).
pub uninterp spec fn picture_rows(p: Picture) -> Seq<Seq<(u8, u8, u8, u8)>>;

/// The width a picture was made with.
pub uninterp spec fn picture_width(p: Picture) -> nat;

/// The channels of a colour as a tuple.
pub open spec fn channels(c: Color) -> (u8, u8, u8, u8) {
    (c.r, c.g, c.b, c.a)
}

/// A pixel whose channels are all zero.
pub open spec fn blank() -> (u8, u8, u8, u8) {
    (0u8, 0u8, 0u8, 0u8)
}

/// The packed 32-bit form of a pixel, red in the lowest byte.
pub open spec fn pack_channels(t: (u8, u8, u8, u8)) -> int {
    t.0 as int + 256 * t.1 as int + 65536 * t.2 as int + 16777216 * t.3 as int
}

/// Channel `k` of a pixel, red first.
pub open spec fn channel(t: (u8, u8, u8, u8), k: int) -> u8 {
    if k == 0 {
        t.0
    } else if k == 1 {
        t.1
    } else if k == 2 {
        t.2
    } else {
        t.3
    }
}

/// The colour the picture must show at column `x` of row `y` when rendered
/// row by row from `samples`.
pub open spec fn expected(
    mode: ColorMode,
    palette: Seq<Color>,
    max_iterations: usize,
    samples: Seq<Sample>,
    width: nat,
    y: int,
    x: int,
) -> (u8, u8, u8, u8) {
    channels(pixel_spec(mode, palette, max_iterations, samples[y * width + x]))
}

/// Relies on `ImageBuffer::new`: a `width` by `height` buffer whose
/// channels are all zero; it panics when `4 * width * height` overflows.
#[verifier::external_body]
fn new_picture(width: u32, height: u32) -> (p: Picture)
    requires
        4 * width * height <= usize::MAX,
    ensures
        picture_width(p) == width,
        picture_rows(p) == Seq::new(height as nat, |y: int| Seq::new(width as nat, |x: int| blank())),
{
    Picture { img: RgbaImage::new(width, height) }
}

/// Relies on `ImageBuffer::put_pixel`: it overwrites the pixel at
/// column `x` of row `y` and panics outside the picture.
#[verifier::external_body]
fn set_pixel(p: &mut Picture, x: u32, y: u32, c: Color)
    requires
        y < picture_rows(*old(p)).len(),
        x < picture_width(*old(p)),
    ensures
        picture_width(*final(p)) == picture_width(*old(p)),
        picture_rows(*final(p)) == picture_rows(*old(p)).update(
            y as int,
            picture_rows(*old(p))[y as int].update(x as int, channels(c)),
        ),
{
    p.img.put_pixel(x, y, image::Rgba([c.r, c.g, c.b, c.a]));
}

/// Relies on `ImageBuffer::get_pixel`: the pixel at column `x` of row `y`;
/// it panics outside the picture.
#[verifier::external_body]
fn pixel_at(p: &Picture, x: u32, y: u32) -> (c: Color)
    requires
        y < picture_rows(*p).len(),
        x < picture_width(*p),
    ensures
        channels(c) == picture_rows(*p)[y as int][x as int],
{
    let px = p.img.get_pixel(x, y);
    Color { r: px.0[0], g: px.0[1], b: px.0[2], a: px.0[3] }
}

/// Relies on `ImageBuffer::width`: the width the buffer was made with.
#[verifier::external_body]
fn width_of(p: &Picture) -> (w: u32)
    ensures
        w == picture_width(*p),
{
    p.img.width()
}

/// Relies on `ImageBuffer::height`: the number of rows.
#[verifier::external_body]
fn height_of(p: &Picture) -> (h: u32)
    ensures
        h == picture_rows(*p).len(),
{
    p.img.height()
}

/// Relies on `ImageBuffer::into_raw`: the channel bytes, four per pixel,
/// rows one after another, top row first.
#[verifier::external_body]
fn raw_of(p: Picture) -> (bytes: Vec<u8>)
    ensures
        bytes@.len() == 4 * picture_rows(p).len() * picture_width(p),
        forall|i: int|
            0 <= i < bytes@.len() ==> #[trigger] bytes@[i] == channel(
                picture_rows(p)[(i / 4) / picture_width(p) as int][(i / 4) % picture_width(p) as int],
                i % 4,
            ),
{
    p.img.into_raw()
}

/// The picture is `width` by `height` and shows at each pixel the colour
/// of its sample under `mode`.
pub open spec fn renders(
    p: Picture,
    width: nat,
    height: nat,
    mode: ColorMode,
    palette: Seq<Color>,
    max_iterations: usize,
    samples: Seq<Sample>,
) -> bool {
    &&& p.wf()
    &&& picture_width(p) == width
    &&& picture_rows(p).len() == height
    &&& forall|y: int, x: int|
        0 <= y < height && 0 <= x < width ==> #[trigger] picture_rows(p)[y][x] == expected(
            mode,
            palette,
            max_iterations,
            samples,
            width,
            y,
            x,
        )
}

/// Colouring is a function of its inputs: two pictures coloured from the
/// same samples with the same mode, palette and cap hold the same pixels.
pub proof fn lemma_coloring_deterministic(
    p1: Picture,
    p2: Picture,
    width: nat,
    height: nat,
    mode: ColorMode,
    palette: Seq<Color>,
    max_iterations: usize,
    samples: Seq<Sample>,
)
    requires
        renders(p1, width, height, mode, palette, max_iterations, samples),
        renders(p2, width, height, mode, palette, max_iterations, samples),
    ensures
        picture_width(p1) == picture_width(p2),
        picture_rows(p1) == picture_rows(p2),
{
    assert forall|y: int| 0 <= y < height implies #[trigger] picture_rows(p1)[y] == picture_rows(p2)[y] by {
        assert(picture_rows(p1)[y] =~= picture_rows(p2)[y]);
    }
    assert(picture_rows(p1) =~= picture_rows(p2));
}

/// Colours a `width` by `height` picture from per-pixel samples given row
/// by row, top row first: the pixel at column `x` of row `y` gets the
/// colour of `samples[y * width + x]` under `mode`.
pub fn color_mandelbrot_set(
    width: u32,
    height: u32,
    mode: ColorMode,
    palette: &Vec<Color>,
    max_iterations: usize,
    samples: &Vec<Sample>,
) -> (p: Picture)
    requires
        4 * width * height <= usize::MAX,
        samples@.len() == width * height,
        palette@.len() > 0,
        forall|i: int| 0 <= i < samples@.len() ==> sample_ok(#[trigger] samples@[i]),
    ensures
        renders(p, width as nat, height as nat, mode, palette@, max_iterations, samples@),
{
    let mut pic = new_picture(width, height);
    assert(width * height <= usize::MAX) by (nonlinear_arith)
        requires
            4 * width * height <= usize::MAX,
    ;
    let mut y: u32 = 0;
    let mut row_start: usize = 0;
    while y < height
        invariant
            width * height <= usize::MAX,
            samples@.len() == width * height,
            palette@.len() > 0,
            forall|i: int| 0 <= i < samples@.len() ==> sample_ok(#[trigger] samples@[i]),
            y <= height,
            row_start == y * width,
            picture_width(pic) == width,
            picture_rows(pic).len() == height,
            pic.wf(),
            forall|yy: int, xx: int|
                0 <= yy < height && 0 <= xx < width ==> #[trigger] picture_rows(pic)[yy][xx] == if yy < y {
                    expected(mode, palette@, max_iterations, samples@, width as nat, yy, xx)
                } else {
                    blank()
                },
        decreases height - y,
    {
        let mut x: u32 = 0;
        while x < width
            invariant
                width * height <= usize::MAX,
                samples@.len() == width * height,
                palette@.len() > 0,
                forall|i: int| 0 <= i < samples@.len() ==> sample_ok(#[trigger] samples@[i]),
                y < height,
                x <= width,
                row_start == y * width,
                picture_width(pic) == width,
                picture_rows(pic).len() == height,
                pic.wf(),
                forall|yy: int, xx: int|
                    0 <= yy < height && 0 <= xx < width ==> #[trigger] picture_rows(pic)[yy][xx] == if yy < y || (yy == y && xx < x) {
                        expected(mode, palette@, max_iterations, samples@, width as nat, yy, xx)
                    } else {
                        blank()
                    },
            decreases width - x,
        {
            assert(row_start + x < width * height) by (nonlinear_arith)
                requires
                    row_start == y * width,
                    x < width,
                    y < height,
            ;
            let c = color_pixel(mode, palette, max_iterations, samples[row_start + x as usize]);
            set_pixel(&mut pic, x, y, c);
            x = x + 1;
        }
        assert(row_start + width as usize == (y + 1) * width) by (nonlinear_arith)
            requires
                row_start == y * width,
        ;
        assert(row_start + width <= width * height) by (nonlinear_arith)
            requires
                row_start == y * width,
                y < height,
        ;
        row_start = row_start + width as usize;
        y = y + 1;
    }
    pic
}

impl Picture {
    /// Every row is as long as the picture is wide.
    pub open spec fn wf(self) -> bool {
        forall|y: int| 0 <= y < picture_rows(self).len() ==> #[trigger] picture_rows(self)[y].len() == picture_width(self)
    }

    /// The width in pixels.
    pub fn width(&self) -> (w: u32)
        ensures
            w == picture_width(*self),
    {
        width_of(self)
    }

    /// The height in pixels.
    pub fn height(&self) -> (h: u32)
        ensures
            h == picture_rows(*self).len(),
    {
        height_of(self)
    }

    /// The colour at column `x` of row `y`.
    pub fn get(&self, x: u32, y: u32) -> (c: Color)
        requires
            y < picture_rows(*self).len(),
            x < picture_width(*self),
        ensures
            channels(c) == picture_rows(*self)[y as int][x as int],
    {
        pixel_at(self, x, y)
    }

    /// The pixels packed one per 32-bit word, red in the lowest byte and
    /// alpha in the highest, rows one after another, top row first.
    pub fn packed_pixels(&self) -> (words: Vec<u32>)
        ensures
            words@.len() == picture_rows(*self).len() * picture_width(*self),
            forall|i: int|
                0 <= i < words@.len() ==> #[trigger] words@[i] as int == pack_channels(
                    picture_rows(*self)[i / picture_width(*self) as int][i % picture_width(*self) as int],
                ),
    {
        let w = self.width();
        let h = self.height();
        let ghost rows = picture_rows(*self);
        let mut words: Vec<u32> = Vec::new();
        let mut y: u32 = 0;
        while y < h
            invariant
                w == picture_width(*self),
                h == rows.len(),
                rows == picture_rows(*self),
                y <= h,
                words@.len() == y * w,
                forall|i: int|
                    0 <= i < words@.len() ==> #[trigger] words@[i] as int == pack_channels(rows[i / w as int][i % w as int]),
            decreases h - y,
        {
            let mut x: u32 = 0;
            while x < w
                invariant
                    w == picture_width(*self),
                    h == rows.len(),
                    rows == picture_rows(*self),
                    y < h,
                    x <= w,
                    words@.len() == y * w + x,
                    forall|i: int|
                        0 <= i < words@.len() ==> #[trigger] words@[i] as int == pack_channels(rows[i / w as int][i % w as int]),
                decreases w - x,
            {
                let c = pixel_at(self, x, y);
                let word = c.pack();
                proof {
                    lemma_fundamental_div_mod_converse(y * w + x, w as int, y as int, x as int);
                    assert(packed(c) == pack_channels(channels(c)));
                }
                words.push(word);
                x = x + 1;
            }
            assert(y * w + w == (y + 1) * w) by (nonlinear_arith);
            y = y + 1;
        }
        assert(h * w == rows.len() * picture_width(*self));
        words
    }

    /// The channel bytes, four per pixel (red, green, blue, alpha), rows
    /// one after another, top row first.
    pub fn into_raw(self) -> (bytes: Vec<u8>)
        ensures
            bytes@.len() == 4 * picture_rows(self).len() * picture_width(self),
            forall|i: int|
                0 <= i < bytes@.len() ==> #[trigger] bytes@[i] == channel(
                    picture_rows(self)[(i / 4) / picture_width(self) as int][(i / 4) % picture_width(self) as int],
                    i % 4,
                ),
    {
        raw_of(self)
    }
}

} // verus!
