use sefenbu::pixels::{PixelGrid, SpaceCoordinate};
use sefenbu::providers::generic::Provider;
use sefenbu::providers::hsl::HslProvider;
use sefenbu::providers::okhsv::OkhsvProvider;
use sefenbu::scene::histogram_covering;

fn px(axis0: i64) -> SpaceCoordinate {
    SpaceCoordinate { axis0, axis1: 0, axis2: 0 }
}

#[test]
fn the_covering_has_a_bar_for_every_value_of_the_slice() {
    let g = PixelGrid::new(0, 0, vec![]).unwrap();
    let hue = histogram_covering(&OkhsvProvider::new(), &g);
    assert_eq!(hue.bars.len(), 181);
    for (k, bar) in hue.bars.iter().enumerate() {
        assert_eq!(*bar, (k as i64 * 2_000, 0));
    }
    assert_eq!(hue.scale, 1);
    let lightness = histogram_covering(&HslProvider::new(), &g);
    assert_eq!(lightness.bars.len(), 101);
    assert_eq!(lightness.bars[100], (100_000, 0));
    assert_eq!(lightness.scale, 1);
}

#[test]
fn the_covering_raises_the_bars_of_the_filled_bins() {
    let pixels = vec![px(0), px(1_999), px(4_000), px(4_500), px(5_999), px(359_999), px(360_000)];
    let g = PixelGrid::new(7, 1, pixels).unwrap();
    let covering = histogram_covering(&OkhsvProvider::new(), &g);
    assert_eq!(covering.bars.len(), 181);
    assert_eq!(covering.scale, 3);
    for (k, bar) in covering.bars.iter().enumerate() {
        let expected = match k {
            0 => 2,
            2 => 3,
            179 => 2,
            _ => 0,
        };
        assert_eq!(*bar, (k as i64 * 2_000, expected));
        assert!(bar.1 <= covering.scale);
    }
}

#[test]
fn the_covering_does_not_depend_on_the_slice() {
    let g = PixelGrid::new(2, 1, vec![px(50_000), px(50_500)]).unwrap();
    let mut p = HslProvider::new();
    let before = histogram_covering(&p, &g);
    p.set(500);
    let after = histogram_covering(&p, &g);
    assert_eq!(before.bars, after.bars);
    assert_eq!(before.scale, 2);
    assert_eq!(after.scale, 2);
    assert_eq!(before.bars[50], (50_000, 2));
}
