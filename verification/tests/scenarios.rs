use bevy::color::{Hsla, Hsva, Srgba};
use palette::{FromColor, Okhsl, Okhsv, Srgb};
use sefenbu::pixels::{PixelGrid, SpaceCoordinate};
use sefenbu::providers::generic::Provider;
use sefenbu::providers::hsl::HslProvider;
use sefenbu::providers::hsv::HsvProvider;
use sefenbu::providers::okhsl::OkhslProvider;
use sefenbu::providers::okhsv::OkhsvProvider;

fn fixed(x: f32) -> i64 {
    (x * 1_000.0) as i64
}

fn okhsv(r: f32, g: f32, b: f32) -> SpaceCoordinate {
    let c = Okhsv::from_color(Srgb::new(r, g, b));
    SpaceCoordinate {
        axis0: fixed(c.hue.into_positive_degrees()),
        axis1: fixed(c.saturation * 100.0),
        axis2: fixed(c.value * 100.0),
    }
}

fn okhsl(r: f32, g: f32, b: f32) -> SpaceCoordinate {
    let c = Okhsl::from_color(Srgb::new(r, g, b));
    SpaceCoordinate {
        axis0: fixed(c.lightness * 100.0),
        axis1: fixed(c.hue.into_positive_degrees()),
        axis2: fixed(c.saturation * 100.0),
    }
}

fn hsv(r: f32, g: f32, b: f32) -> SpaceCoordinate {
    let c: Hsva = Srgba::rgb(r, g, b).into();
    SpaceCoordinate {
        axis0: fixed(c.hue),
        axis1: fixed(c.saturation * 100.0),
        axis2: fixed(c.value * 100.0),
    }
}

fn hsl(r: f32, g: f32, b: f32) -> SpaceCoordinate {
    let c: Hsla = Srgba::rgb(r, g, b).into();
    SpaceCoordinate {
        axis0: fixed(c.lightness * 100.0),
        axis1: fixed(c.hue),
        axis2: fixed(c.saturation * 100.0),
    }
}

#[test]
fn four_primaries_fill_four_hue_bins_of_okhsv() {
    let pixels = vec![
        okhsv(1.0, 0.0, 0.0),
        okhsv(0.0, 1.0, 0.0),
        okhsv(0.0, 0.0, 1.0),
        okhsv(1.0, 1.0, 0.0),
    ];
    let g = PixelGrid::new(2, 2, pixels).unwrap();
    let p = OkhsvProvider::new();
    assert_eq!(OkhsvProvider::DELTA, 2_000);
    let series = p.histogram_data(&g);
    assert_eq!(series, vec![(28_000, 1), (108_000, 1), (142_000, 1), (264_000, 1)]);
    let mut sum = 0.0;
    for bin in &series {
        let share = bin.1 as f64 / 4.0;
        assert_eq!(share, 0.25);
        sum += share;
    }
    assert_eq!(sum, 1.0);
}

#[test]
fn a_gray_image_raises_one_column_to_full_height() {
    let gray = okhsv(0.5, 0.5, 0.5);
    let g = PixelGrid::new(10, 10, vec![gray; 100]).unwrap();
    let mut p = OkhsvProvider::new();
    if (gray.axis0 - p.current()).abs() <= 2 * OkhsvProvider::DELTA {
        p.set(500);
    }
    assert!((gray.axis0 - p.current()).abs() > OkhsvProvider::DELTA);
    let (relevant, keys) = p.inspect(&g, 3, 7);
    assert!(relevant);
    assert_eq!(keys.0, 0);
    assert!(40_000 <= keys.1 && keys.1 <= 60_000);
    let mesh = p.create_mesh(&g);
    assert_eq!(mesh.vertices.len(), 8 * 2_500);
    assert_eq!(mesh.indices.len(), 30 * 2_500);
    assert_eq!(mesh.y_max, 100);
    let full = ((keys.0 / 2_000) * 50 + keys.1 / 2_000) as usize;
    for cell in 0..2_500 {
        let height = mesh.vertices[8 * cell].y;
        if cell == full {
            assert_eq!(height, 100);
            assert_eq!(height as f64 / mesh.y_max as f64, 1.0);
        } else {
            assert_eq!(height, 0);
        }
        for corner in 0..4 {
            assert_eq!(mesh.vertices[8 * cell + corner].y, height);
            assert_eq!(mesh.vertices[8 * cell + 4 + corner].y, 0);
        }
    }
}

#[test]
fn a_gray_image_at_its_own_hue_is_drawn_flat() {
    let gray = okhsv(0.5, 0.5, 0.5);
    let g = PixelGrid::new(10, 10, vec![gray; 100]).unwrap();
    let mut p = OkhsvProvider::new();
    p.decr(360_000);
    p.incr(gray.axis0);
    assert_eq!(p.current(), gray.axis0);
    let mesh = p.create_mesh(&g);
    assert_eq!(mesh.y_max, 1);
    for vertex in &mesh.vertices {
        assert_eq!(vertex.y, 0);
    }
    assert_eq!(p.histogram_data(&g).len(), 1);
    assert_eq!(p.histogram_data(&g)[0].1, 100);
}

#[test]
fn pure_red_sits_in_the_last_cell_of_hsv() {
    let red = hsv(1.0, 0.0, 0.0);
    assert_eq!(red, SpaceCoordinate { axis0: 0, axis1: 100_000, axis2: 100_000 });
    let g = PixelGrid::new(1, 1, vec![red]).unwrap();
    let p = HsvProvider::new();
    assert_eq!(p.inspect(&g, 0, 0), (true, (98_000, 98_000)));
    assert_eq!(p.histogram_data(&g), vec![(0, 1)]);
    let mesh = p.create_mesh(&g);
    assert_eq!(mesh.vertices[8 * 2_499].y, 1);
    assert_eq!(mesh.vertices[8 * 2_499 + 3].x, 100_000);
    assert_eq!(mesh.vertices[8 * 2_499 + 3].z, 100_000);
}

#[test]
fn hsv_bins_are_those_of_the_float_formula() {
    let colors: [(f32, f32, f32); 5] =
        [(0.2, 0.4, 0.6), (0.9, 0.1, 0.5), (0.3, 0.3, 0.1), (0.0, 0.58, 1.0), (0.42, 1.0, 0.42)];
    let p = HsvProvider::new();
    for (r, g, b) in colors {
        let c: Hsva = Srgba::rgb(r, g, b).into();
        let hue_key = (c.hue / 2.0) as i64 * 2;
        let sat_key = ((c.saturation * 100.0 / 2.0) as i64 * 2).min(98);
        let val_key = ((c.value * 100.0 / 2.0) as i64 * 2).min(98);
        let pixel = hsv(r, g, b);
        assert_eq!(p.convert(pixel), hue_key * 1_000);
        let grid = PixelGrid::new(1, 1, vec![pixel]).unwrap();
        let (relevant, keys) = p.inspect(&grid, 0, 0);
        assert!(relevant);
        assert_eq!(keys, (sat_key * 1_000, val_key * 1_000));
    }
}

#[test]
fn the_lightness_sliced_spaces_count_by_lightness() {
    let pixels_hsl = vec![hsl(1.0, 0.0, 0.0), hsl(0.0, 0.0, 0.0), hsl(1.0, 1.0, 1.0), hsl(0.0, 0.0, 1.0)];
    let g = PixelGrid::new(4, 1, pixels_hsl).unwrap();
    let p = HslProvider::new();
    assert_eq!(p.histogram_data(&g), vec![(0, 1), (50_000, 2), (99_000, 1)]);
    let (relevant, keys) = p.inspect(&g, 3, 0);
    assert!(relevant);
    assert_eq!(keys, (237_600, 98_000));
    assert_eq!(p.inspect(&g, 2, 0).0, false);

    let pixels_okhsl = vec![okhsl(0.0, 0.0, 0.0), okhsl(1.0, 0.0, 0.0), okhsl(1.0, 0.0, 0.0)];
    let h = PixelGrid::new(3, 1, pixels_okhsl).unwrap();
    let q = OkhslProvider::new();
    let series = q.histogram_data(&h);
    assert_eq!(series.len(), 2);
    assert_eq!(series[0], (0, 1));
    assert_eq!(series[1].1, 2);
    assert!(50_000 < series[1].0 && series[1].0 < 65_000);
    let (relevant, keys) = q.inspect(&h, 1, 0);
    assert!(relevant);
    assert_eq!(keys.0, 28_800);
}
