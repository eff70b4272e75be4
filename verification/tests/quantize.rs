use sefenbu::quantize::{floor_div, quantize, Axis, SCALE};

#[test]
fn quantize_rounds_down_to_a_multiple_of_the_step() {
    assert_eq!(quantize(7_000, 2_000), 6_000);
    assert_eq!(quantize(7_999, 2_000), 6_000);
    assert_eq!(quantize(1, 2_000), 0);
    assert_eq!(quantize(359_999, 2_000), 358_000);
    assert_eq!(quantize(71_999, 7_200), 64_800);
}

#[test]
fn quantize_keeps_a_value_on_a_boundary() {
    assert_eq!(quantize(6_000, 2_000), 6_000);
    assert_eq!(quantize(0, 2_000), 0);
    assert_eq!(quantize(72_000, 7_200), 72_000);
}

#[test]
fn quantize_rounds_negative_values_down() {
    assert_eq!(quantize(-1, 2_000), -2_000);
    assert_eq!(quantize(-2_000, 2_000), -2_000);
    assert_eq!(quantize(-2_001, 2_000), -4_000);
}

#[test]
fn quantize_is_idempotent() {
    let steps: [i64; 4] = [1, 1_000, 2_000, 7_200];
    let values: [i64; 8] = [0, 1, 1_999, 2_000, 180_500, 359_999, -1, -7_201];
    for step in steps {
        for value in values {
            let once = quantize(value, step);
            assert_eq!(quantize(once, step), once);
            assert!(once <= value && value < once + step);
            assert_eq!(once % step, 0);
        }
    }
}

#[test]
fn floor_div_rounds_towards_negative_infinity() {
    assert_eq!(floor_div(7, 2), 3);
    assert_eq!(floor_div(-7, 2), -4);
    assert_eq!(floor_div(-8, 2), -4);
    assert_eq!(floor_div(0, 5), 0);
    assert_eq!(floor_div(i64::MIN, 1), i64::MIN);
    assert_eq!(floor_div(i64::MAX, i64::MAX), 1);
    assert_eq!(floor_div(i64::MIN, i64::MAX), -2);
}

#[test]
fn scale_is_one_thousand() {
    assert_eq!(SCALE, 1_000);
}

#[test]
fn axis_new_accepts_only_an_axis() {
    assert_eq!(Axis::new(100_000, 2_000), Some(Axis { max: 100_000, delta: 2_000 }));
    assert_eq!(Axis::new(1, 1), Some(Axis { max: 1, delta: 1 }));
    assert_eq!(Axis::new(100_000, 0), None);
    assert_eq!(Axis::new(100_000, -2_000), None);
    assert_eq!(Axis::new(1_000, 2_000), None);
    assert_eq!(Axis::new(0, 0), None);
    assert_eq!(Axis::new(4_294_967_295, 1), Some(Axis { max: 4_294_967_295, delta: 1 }));
    assert_eq!(Axis::new(4_294_967_296, 1), None);
}

#[test]
fn axis_counts_its_bins_rounding_up() {
    assert_eq!(Axis { max: 100_000, delta: 2_000 }.cells(), 50);
    assert_eq!(Axis { max: 360_000, delta: 2_000 }.cells(), 180);
    assert_eq!(Axis { max: 360_000, delta: 7_200 }.cells(), 50);
    assert_eq!(Axis { max: 100_000, delta: 1_000 }.cells(), 100);
    assert_eq!(Axis { max: 10, delta: 4 }.cells(), 3);
    assert_eq!(Axis { max: 5, delta: 5 }.cells(), 1);
}

#[test]
fn axis_clamps_before_it_quantizes() {
    let axis = Axis { max: 100_000, delta: 2_000 };
    assert_eq!(axis.bin_key(100_000), 98_000);
    assert_eq!(axis.bin_key(99_999), 98_000);
    assert_eq!(axis.bin_key(98_000), 98_000);
    assert_eq!(axis.bin_key(97_999), 96_000);
    assert_eq!(axis.bin_key(250_000), 98_000);
    assert_eq!(axis.bin_key(i64::MAX), 98_000);
    assert_eq!(axis.bin_key(-1), 0);
    assert_eq!(axis.bin_key(i64::MIN), 0);
    assert_eq!(axis.clamp(100_000), 99_999);
    assert_eq!(axis.clamp(-3), 0);
    assert_eq!(axis.clamp(42), 42);
}

#[test]
fn axis_bin_key_is_index_times_step() {
    let axis = Axis { max: 360_000, delta: 7_200 };
    let values: [i64; 6] = [0, 7_199, 7_200, 180_000, 359_999, 360_000];
    let indices: [u32; 6] = [0, 0, 1, 25, 49, 49];
    for k in 0..6 {
        assert_eq!(axis.bin_index(values[k]), indices[k]);
        assert_eq!(axis.bin_key(values[k]), indices[k] as i64 * 7_200);
        assert!(axis.bin_index(values[k]) < axis.cells());
    }
}

#[test]
fn axis_with_a_narrow_last_bin() {
    let axis = Axis { max: 10, delta: 4 };
    assert_eq!(axis.bin_key(9), 8);
    assert_eq!(axis.bin_key(10), 8);
    assert_eq!(axis.bin_key(7), 4);
    assert_eq!(axis.bin_index(9), 2);
}
