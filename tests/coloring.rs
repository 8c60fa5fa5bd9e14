use fractal_visualization::color::Color;
use fractal_visualization::coloring::{
    calculate_color, color_pixel, interpolate_color, map_iteration_to_color_basic, smooth_color,
    ColorMode, Sample, SmoothCount, FRACTION_ONE,
};
use fractal_visualization::palette::{palette, palette_pair, PaletteId};

const ALL: [PaletteId; 6] = [
    PaletteId::BlueYellow,
    PaletteId::Uf,
    PaletteId::Orange,
    PaletteId::LightBlue,
    PaletteId::Red,
    PaletteId::Green,
];

fn sample(iterations: usize, index: usize, fraction: u64) -> Sample {
    Sample { iterations, count: SmoothCount { index, fraction } }
}

#[test]
fn pack_puts_red_in_lowest_byte() {
    let c = Color { r: 1, g: 2, b: 3, a: 4 };
    assert_eq!(c.pack(), 0x0403_0201);
    assert_eq!(Color::interior().pack(), 0xFF00_0000);
    assert_eq!(Color::rgb(255, 255, 255).pack(), 0xFFFF_FFFF);
}

#[test]
fn palettes_have_their_lengths_and_colours() {
    let lens: Vec<usize> = ALL.iter().map(|id| palette(*id).len()).collect();
    assert_eq!(lens, vec![16, 16, 12, 12, 9, 10]);
    assert_eq!(palette(PaletteId::Uf)[0], Color::rgb(66, 30, 15));
    assert_eq!(palette(PaletteId::BlueYellow)[0], Color::rgb(15, 30, 66));
    assert_eq!(palette(PaletteId::Green)[9], Color::rgb(143, 188, 143));
    for id in ALL {
        assert!(palette(id).iter().all(|c| c.a == 255));
    }
}

#[test]
fn palette_pair_wraps_at_the_end() {
    let p = palette(PaletteId::Green);
    assert_eq!(palette_pair(&p, 0), (p[0], p[1]));
    assert_eq!(palette_pair(&p, 9), (p[9], p[0]));
    assert_eq!(palette_pair(&p, 10), (p[0], p[1]));
    assert_eq!(palette_pair(&p, 23), (p[3], p[4]));
    let m = usize::MAX % 10;
    assert_eq!(palette_pair(&p, usize::MAX), (p[m], p[(m + 1) % 10]));
}

#[test]
fn palette_pair_stays_in_bounds_for_every_palette() {
    for id in ALL {
        let p = palette(id);
        let n = p.len();
        for index in (0..200usize).chain([usize::MAX - 1, usize::MAX]) {
            let (a, b) = palette_pair(&p, index);
            assert_eq!(a, p[index % n]);
            assert_eq!(b, p[(index % n + 1) % n]);
        }
    }
}

#[test]
fn calculate_color_rounds_down() {
    let black = Color::rgb(0, 0, 0);
    let white = Color::rgb(255, 255, 255);
    assert_eq!(calculate_color(black, white, FRACTION_ONE / 2), Color::rgb(127, 127, 127));
    assert_eq!(calculate_color(black, white, 0), black);
    assert_eq!(calculate_color(black, white, FRACTION_ONE - 1), Color::rgb(254, 254, 254));
    let a = Color::rgb(200, 100, 10);
    let b = Color::rgb(100, 200, 10);
    assert_eq!(calculate_color(a, b, FRACTION_ONE / 4), Color::rgb(175, 125, 10));
}

#[test]
fn calculate_color_is_opaque() {
    let a = Color { r: 10, g: 20, b: 30, a: 0 };
    let b = Color { r: 30, g: 20, b: 10, a: 7 };
    let c = calculate_color(a, b, FRACTION_ONE / 2);
    assert_eq!(c, Color::rgb(20, 20, 20));
}

#[test]
fn calculate_color_moves_monotonically_without_overshoot() {
    let start = Color::rgb(3, 250, 128);
    let end = Color::rgb(240, 9, 128);
    let mut prev = calculate_color(start, end, 0);
    assert_eq!(prev, start);
    for k in 1..=64u64 {
        let p = (FRACTION_ONE - 1) / 64 * k;
        let c = calculate_color(start, end, p);
        assert!(prev.r <= c.r && c.r <= end.r);
        assert!(prev.g >= c.g && c.g >= end.g);
        assert_eq!(c.b, 128);
        prev = c;
    }
}

#[test]
fn interpolate_color_blends_neighbours() {
    let p = palette(PaletteId::Green);
    // entries 9 and 0: (143, 188, 143) and (154, 205, 50)
    let c = interpolate_color(&p, SmoothCount { index: 19, fraction: FRACTION_ONE / 2 });
    assert_eq!(c, Color::rgb(148, 196, 96));
    let d = interpolate_color(&p, SmoothCount { index: 4, fraction: 0 });
    assert_eq!(d, p[4]);
}

#[test]
fn smooth_color_is_black_inside() {
    let p = palette(PaletteId::Green);
    assert_eq!(smooth_color(&p, 50, sample(50, 3, 5)), Color::interior());
    assert_eq!(smooth_color(&p, 50, sample(60, 3, 5)), Color::interior());
    assert_eq!(smooth_color(&p, 50, sample(49, 3, 0)), p[3]);
}

#[test]
fn basic_color_cycles_through_palette() {
    let p = palette(PaletteId::BlueYellow);
    assert_eq!(map_iteration_to_color_basic(&p, 0, 1000), Color::interior());
    assert_eq!(map_iteration_to_color_basic(&p, 1000, 1000), Color::interior());
    assert_eq!(map_iteration_to_color_basic(&p, 1, 1000), Color::rgb(26, 7, 25));
    assert_eq!(map_iteration_to_color_basic(&p, 17, 1000), Color::rgb(26, 7, 25));
    assert_eq!(map_iteration_to_color_basic(&p, 999, 1000), p[999 % 16]);
}

#[test]
fn color_pixel_follows_mode() {
    let p = palette(PaletteId::Red);
    let s = sample(5, 2, 0);
    assert_eq!(color_pixel(ColorMode::Interior, &p, 10, s), Color::interior());
    assert_eq!(color_pixel(ColorMode::Basic, &p, 10, s), p[5]);
    assert_eq!(color_pixel(ColorMode::Smooth, &p, 10, s), p[2]);
    assert_eq!(color_pixel(ColorMode::Smooth, &p, 5, s), Color::interior());
}
