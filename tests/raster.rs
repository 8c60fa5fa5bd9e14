use fractal_visualization::color::Color;
use fractal_visualization::coloring::{ColorMode, Sample, SmoothCount, FRACTION_ONE};
use fractal_visualization::palette::{palette, PaletteId};
use fractal_visualization::raster::color_mandelbrot_set;

fn sample(iterations: usize, index: usize, fraction: u64) -> Sample {
    Sample { iterations, count: SmoothCount { index, fraction } }
}

fn samples_3x2() -> Vec<Sample> {
    vec![
        sample(50, 0, 0),
        sample(3, 0, 0),
        sample(3, 1, FRACTION_ONE / 2),
        sample(4, 9, 0),
        sample(4, 10, 0),
        sample(0, 5, 0),
    ]
}

#[test]
fn picture_shows_samples_row_by_row() {
    let p = palette(PaletteId::Green);
    let pic = color_mandelbrot_set(3, 2, ColorMode::Smooth, &p, 50, &samples_3x2());
    assert_eq!(pic.width(), 3);
    assert_eq!(pic.height(), 2);
    assert_eq!(pic.get(0, 0), Color::interior());
    assert_eq!(pic.get(1, 0), p[0]);
    // halfway from (128, 128, 0) to (85, 107, 47)
    assert_eq!(pic.get(2, 0), Color::rgb(106, 117, 23));
    assert_eq!(pic.get(0, 1), p[9]);
    assert_eq!(pic.get(1, 1), p[0]);
    assert_eq!(pic.get(2, 1), p[5]);
}

#[test]
fn basic_picture_uses_iteration_counts() {
    let p = palette(PaletteId::BlueYellow);
    let pic = color_mandelbrot_set(3, 2, ColorMode::Basic, &p, 50, &samples_3x2());
    assert_eq!(pic.get(0, 0), Color::interior());
    assert_eq!(pic.get(1, 0), p[3]);
    assert_eq!(pic.get(0, 1), p[4]);
    assert_eq!(pic.get(2, 1), Color::interior());
}

#[test]
fn packed_pixels_are_row_major_red_lowest() {
    let p = palette(PaletteId::Green);
    let pic = color_mandelbrot_set(3, 2, ColorMode::Smooth, &p, 50, &samples_3x2());
    let words = pic.packed_pixels();
    assert_eq!(words.len(), 6);
    assert_eq!(words[0], 0xFF00_0000);
    // (154, 205, 50, 255)
    assert_eq!(words[1], 0xFF32_CD9A);
    assert_eq!(words[3], p[9].pack());
    assert_eq!(words[5], p[5].pack());
}

#[test]
fn raw_bytes_hold_four_channels_per_pixel() {
    let p = palette(PaletteId::Green);
    let pic = color_mandelbrot_set(3, 2, ColorMode::Smooth, &p, 50, &samples_3x2());
    let raw = pic.into_raw();
    assert_eq!(raw.len(), 24);
    assert_eq!(&raw[0..4], &[0, 0, 0, 255]);
    assert_eq!(&raw[4..8], &[154, 205, 50, 255]);
    assert_eq!(&raw[20..24], &[0, 128, 0, 255]);
}

#[test]
fn coloring_twice_gives_identical_pictures() {
    let p = palette(PaletteId::Uf);
    let a = color_mandelbrot_set(3, 2, ColorMode::Smooth, &p, 50, &samples_3x2());
    let b = color_mandelbrot_set(3, 2, ColorMode::Smooth, &p, 50, &samples_3x2());
    assert_eq!(a.packed_pixels(), b.packed_pixels());
    assert_eq!(a.into_raw(), b.into_raw());
}

#[test]
fn empty_picture_has_no_pixels() {
    let p = palette(PaletteId::Red);
    let pic = color_mandelbrot_set(0, 0, ColorMode::Smooth, &p, 50, &Vec::new());
    assert_eq!(pic.packed_pixels(), Vec::<u32>::new());
    assert_eq!(pic.into_raw(), Vec::<u8>::new());
}
