use sefenbu::pixels::{PixelGrid, SpaceCoordinate};
use sefenbu::providers::generic::Provider;
use sefenbu::providers::histgen::{inspect_pixel, relevant};
use sefenbu::providers::hsl::HslProvider;
use sefenbu::providers::hsv::HsvProvider;
use sefenbu::providers::okhsl::OkhslProvider;
use sefenbu::providers::okhsv::OkhsvProvider;
use sefenbu::quantize::Axis;

fn px(axis0: i64, axis1: i64, axis2: i64) -> SpaceCoordinate {
    SpaceCoordinate { axis0, axis1, axis2 }
}

fn grid(width: u32, height: u32, pixels: Vec<SpaceCoordinate>) -> PixelGrid {
    PixelGrid::new(width, height, pixels).unwrap()
}

#[test]
fn a_grid_needs_as_many_pixels_as_it_has_places() {
    assert!(PixelGrid::new(2, 2, vec![px(0, 0, 0); 4]).is_some());
    assert!(PixelGrid::new(2, 2, vec![px(0, 0, 0); 3]).is_none());
    assert!(PixelGrid::new(2, 2, vec![px(0, 0, 0); 5]).is_none());
    assert!(PixelGrid::new(0, 0, vec![]).is_some());
    assert!(PixelGrid::new(0, 7, vec![]).is_some());
    assert!(PixelGrid::new(1, 0, vec![px(0, 0, 0)]).is_none());
    assert!(PixelGrid::new(u32::MAX, u32::MAX, vec![px(0, 0, 0)]).is_none());
}

#[test]
fn a_grid_keeps_its_pixels_row_by_row() {
    let g = grid(3, 2, vec![px(0, 0, 0), px(1, 0, 0), px(2, 0, 0), px(3, 0, 0), px(4, 0, 0), px(5, 0, 0)]);
    assert_eq!(g.width(), 3);
    assert_eq!(g.height(), 2);
    assert_eq!(g.get_pixel(0, 0), px(0, 0, 0));
    assert_eq!(g.get_pixel(2, 0), px(2, 0, 0));
    assert_eq!(g.get_pixel(0, 1), px(3, 0, 0));
    assert_eq!(g.get_pixel(2, 1), px(5, 0, 0));
}

#[test]
fn convert_gives_the_key_of_the_slice_bin() {
    let p = OkhsvProvider::new();
    assert_eq!(p.convert(px(0, 0, 0)), 0);
    assert_eq!(p.convert(px(1_999, 0, 0)), 0);
    assert_eq!(p.convert(px(2_000, 0, 0)), 2_000);
    assert_eq!(p.convert(px(29_233, 50_000, 50_000)), 28_000);
    assert_eq!(p.convert(px(359_999, 0, 0)), 358_000);
    assert_eq!(p.convert(px(360_000, 0, 0)), 358_000);
    assert_eq!(p.convert(px(-1, 0, 0)), 0);
    let q = HslProvider::new();
    assert_eq!(q.convert(px(50_000, 0, 0)), 50_000);
    assert_eq!(q.convert(px(50_999, 0, 0)), 50_000);
    assert_eq!(q.convert(px(100_000, 0, 0)), 99_000);
    let r = OkhslProvider::new();
    assert_eq!(r.convert(px(12_345, 0, 0)), 12_000);
    let s = HsvProvider::new();
    assert_eq!(s.convert(px(12_345, 0, 0)), 12_000);
}

#[test]
fn histogram_counts_every_pixel_once() {
    let pixels = vec![
        px(0, 0, 0),
        px(1_000, 0, 0),
        px(2_000, 0, 0),
        px(120_500, 0, 0),
        px(121_999, 0, 0),
        px(359_000, 0, 0),
    ];
    let g = grid(3, 2, pixels);
    let series = OkhsvProvider::new().histogram_data(&g);
    assert_eq!(series, vec![(0, 2), (2_000, 1), (120_000, 2), (358_000, 1)]);
    let total: u64 = series.iter().map(|bin| bin.1).sum();
    assert_eq!(total, 6);
}

#[test]
fn histogram_shares_add_up_to_one() {
    let mut pixels = Vec::new();
    for k in 0..12 {
        pixels.push(px((k * 37_117) % 360_000, 0, 0));
    }
    let g = grid(4, 3, pixels);
    let series = HsvProvider::new().histogram_data(&g);
    let sum: f64 = series.iter().map(|bin| bin.1 as f64 / 12.0).sum();
    assert!((sum - 1.0).abs() < 1e-9);
    for pair in series.windows(2) {
        assert!(pair[0].0 < pair[1].0);
    }
    for bin in &series {
        assert!(bin.1 > 0);
        assert_eq!(bin.0 % 2_000, 0);
        assert!(0 <= bin.0 && bin.0 < 360_000);
    }
}

#[test]
fn histogram_does_not_depend_on_the_slice() {
    let g = grid(2, 1, vec![px(10_000, 0, 0), px(350_000, 0, 0)]);
    let mut p = OkhsvProvider::new();
    let at_max = p.histogram_data(&g);
    p.set(0);
    let at_min = p.histogram_data(&g);
    assert_eq!(at_max, at_min);
    assert_eq!(at_max, vec![(10_000, 1), (350_000, 1)]);
    assert_eq!(p.histogram_data(&g), at_min);
}

#[test]
fn histogram_of_an_empty_image_is_empty() {
    let g = grid(0, 0, vec![]);
    assert_eq!(OkhsvProvider::new().histogram_data(&g), vec![]);
    assert_eq!(HslProvider::new().histogram_data(&g), vec![]);
}

#[test]
fn histogram_of_lightness_uses_one_percent_bins() {
    let g = grid(4, 1, vec![px(0, 0, 0), px(999, 0, 0), px(99_999, 0, 0), px(100_000, 0, 0)]);
    assert_eq!(OkhslProvider::new().histogram_data(&g), vec![(0, 2), (99_000, 2)]);
    assert_eq!(HslProvider::new().histogram_data(&g), vec![(0, 2), (99_000, 2)]);
}

#[test]
fn a_pixel_counts_when_it_lies_more_than_a_step_from_the_slice() {
    assert!(relevant(&px(100_000, 0, 0), 97_999, 2_000));
    assert!(!relevant(&px(100_000, 0, 0), 98_000, 2_000));
    assert!(!relevant(&px(100_000, 0, 0), 100_000, 2_000));
    assert!(!relevant(&px(100_000, 0, 0), 102_000, 2_000));
    assert!(relevant(&px(100_000, 0, 0), 102_001, 2_000));
    assert!(relevant(&px(i64::MIN, 0, 0), i64::MAX, 2_000));
    assert!(relevant(&px(i64::MAX, 0, 0), i64::MIN, i64::MAX));
    assert!(!relevant(&px(0, 0, 0), i64::MAX, i64::MAX));
}

#[test]
fn inspect_pixel_gives_the_keys_of_the_cell() {
    let x = Axis { max: 360_000, delta: 7_200 };
    let z = Axis { max: 100_000, delta: 2_000 };
    assert_eq!(inspect_pixel(&px(50_000, 10_000, 33_333), 80_000, 1_000, &x, &z), (true, (7_200, 32_000)));
    assert_eq!(inspect_pixel(&px(50_000, 10_000, 33_333), 50_500, 1_000, &x, &z), (false, (0, 0)));
    assert_eq!(inspect_pixel(&px(50_000, 360_000, 100_000), 0, 1_000, &x, &z), (true, (352_800, 98_000)));
    assert_eq!(inspect_pixel(&px(50_000, -1, -1), 0, 1_000, &x, &z), (true, (0, 0)));
}

#[test]
fn inspect_reads_the_pixel_at_its_place() {
    let g = grid(2, 2, vec![
        px(10_000, 11_000, 12_000),
        px(20_000, 21_000, 22_000),
        px(30_000, 31_000, 32_000),
        px(359_000, 41_000, 42_000),
    ]);
    let mut p = OkhsvProvider::new();
    assert_eq!(p.inspect(&g, 0, 0), (true, (10_000, 12_000)));
    assert_eq!(p.inspect(&g, 1, 0), (true, (20_000, 22_000)));
    assert_eq!(p.inspect(&g, 0, 1), (true, (30_000, 32_000)));
    assert_eq!(p.inspect(&g, 1, 1), (false, (0, 0)));
    p.set(56);
    assert_eq!(p.current(), 20_000);
    assert_eq!(p.inspect(&g, 0, 0), (true, (10_000, 12_000)));
    assert_eq!(p.inspect(&g, 1, 0), (false, (0, 0)));
    assert_eq!(p.inspect(&g, 1, 1), (true, (40_000, 42_000)));
    let q = HslProvider::new();
    assert_eq!(q.inspect(&g, 0, 0), (true, (7_200, 12_000)));
    assert_eq!(q.inspect(&g, 1, 1), (true, (36_000, 42_000)));
}
