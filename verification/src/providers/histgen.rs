//! What the two histograms count.
//!
//! The scrub histogram counts every pixel by the bin of its slice-axis value.
//! The slice histogram counts the pixels that lie more than one step away
//! from the slice, by the cell of their two other values.

use vstd::prelude::*;
use crate::mesh::{
    cell_x, cell_z, grid_cells, height_scale, lemma_cell_number, lemma_max_count, max_count,
};
use crate::pixels::SpaceCoordinate;
use crate::quantize::Axis;

verus! {

/// The number of `pixels` that `pred` holds of.
pub open spec fn count_where(
    pixels: Seq<SpaceCoordinate>,
    pred: spec_fn(SpaceCoordinate) -> bool,
) -> nat
    decreases pixels.len(),
{
    if pixels.len() == 0 {
        0
    } else {
        count_where(pixels.drop_last(), pred) + if pred(pixels.last()) {
            1nat
        } else {
            0nat
        }
    }
}

/// Holds of the pixels whose slice-axis value falls into the bin with `key`.
pub open spec fn in_bin(axis: Axis, key: int) -> spec_fn(SpaceCoordinate) -> bool {
    |p: SpaceCoordinate| axis.bin_key_spec(p.axis0 as int) == key
}

/// The number of `pixels` whose slice-axis value falls into the bin with
/// `key`.
pub open spec fn bin_count(pixels: Seq<SpaceCoordinate>, axis: Axis, key: int) -> nat {
    count_where(pixels, in_bin(axis, key))
}

/// Whether a pixel counts for the slice histogram: its slice-axis value lies
/// more than `delta` away from `slice`, on either side.
pub open spec fn is_relevant(p: SpaceCoordinate, slice: int, delta: int) -> bool {
    p.axis0 - slice > delta || slice - p.axis0 > delta
}

/// What inspecting a pixel yields: whether it counts, and if so the keys of
/// the bins that its two other values fall into; (0, 0) for one that does
/// not count.
pub open spec fn inspect_spec(p: SpaceCoordinate, slice: int, delta: int, x: Axis, z: Axis) -> (
    bool,
    (i64, i64),
) {
    if is_relevant(p, slice, delta) {
        (true, (x.bin_key_spec(p.axis1 as int) as i64, z.bin_key_spec(p.axis2 as int) as i64))
    } else {
        (false, (0, 0))
    }
}

/// Whether a pixel counts for the slice histogram around `slice`.
pub fn relevant(p: &SpaceCoordinate, slice: i64, delta: i64) -> (b: bool)
    ensures
        b == is_relevant(*p, slice as int, delta as int),
{
    let distance: i128 = p.axis0 as i128 - slice as i128;
    distance > delta as i128 || -distance > delta as i128
}

/// Inspects a pixel for the slice histogram around `slice`: says whether it
/// counts, and if so the keys of the cell that it falls into.
pub fn inspect_pixel(p: &SpaceCoordinate, slice: i64, delta: i64, x: &Axis, z: &Axis) -> (res: (
    bool,
    (i64, i64),
))
    requires
        x.wf(),
        z.wf(),
    ensures
        res == inspect_spec(*p, slice as int, delta as int, *x, *z),
        res.0 ==> x.is_key(res.1.0 as int) && z.is_key(res.1.1 as int),
{
    if relevant(p, slice, delta) {
        (true, (x.bin_key(p.axis1), z.bin_key(p.axis2)))
    } else {
        (false, (0, 0))
    }
}

/// Holds of the pixels that count and fall into the cell with the keys `k1`
/// and `k2`.
pub open spec fn in_cell(slice: int, delta: int, x: Axis, z: Axis, k1: int, k2: int) -> spec_fn(
    SpaceCoordinate,
) -> bool {
    |p: SpaceCoordinate|
        is_relevant(p, slice, delta) && x.bin_key_spec(p.axis1 as int) == k1 && z.bin_key_spec(
            p.axis2 as int,
        ) == k2
}

/// The number of `pixels` that count and fall into the cell with the keys
/// `k1` and `k2`.
pub open spec fn slice_count(
    pixels: Seq<SpaceCoordinate>,
    slice: int,
    delta: int,
    x: Axis,
    z: Axis,
    k1: int,
    k2: int,
) -> nat {
    count_where(pixels, in_cell(slice, delta, x, z, k1, k2))
}

/// The table of the slice histogram: for each cell of the grid, numbered row
/// by row, the number of `pixels` that count and fall into it.
pub open spec fn slice_table(
    pixels: Seq<SpaceCoordinate>,
    slice: int,
    delta: int,
    x: Axis,
    z: Axis,
) -> Seq<u64> {
    Seq::new(
        grid_cells(x, z) as nat,
        |c: int| slice_count(pixels, slice, delta, x, z, cell_x(x, z, c), cell_z(x, z, c)) as u64,
    )
}

/// The scrub histogram over the first `n` bins of `axis`: for each of them
/// that holds a pixel, its key and the number of pixels in it, in the order
/// of the bins.
pub open spec fn scrub_series(pixels: Seq<SpaceCoordinate>, axis: Axis, n: nat) -> Seq<(i64, u64)>
    decreases n,
{
    if n == 0 {
        Seq::empty()
    } else {
        let before = scrub_series(pixels, axis, (n - 1) as nat);
        let key = (n - 1) * axis.delta;
        if bin_count(pixels, axis, key) > 0 {
            before.push((key as i64, bin_count(pixels, axis, key) as u64))
        } else {
            before
        }
    }
}

/// Whether `series` is the scrub histogram of `pixels`: its keys ascend, each
/// of its entries is a bin of `axis` with the number of pixels in it, which
/// is not 0, and no bin that holds a pixel is left out.
pub open spec fn is_scrub_histogram(
    series: Seq<(i64, u64)>,
    pixels: Seq<SpaceCoordinate>,
    axis: Axis,
) -> bool {
    &&& forall|a: int, b: int| 0 <= a < b < series.len() ==> series[a].0 < series[b].0
    &&& forall|a: int|
        0 <= a < series.len() ==> axis.is_key(#[trigger] series[a].0 as int) && series[a].1 > 0
            && series[a].1 == bin_count(pixels, axis, series[a].0 as int)
    &&& forall|key: int|
        axis.is_key(key) && #[trigger] bin_count(pixels, axis, key) > 0 ==> exists|a: int|
            0 <= a < series.len() && series[a].0 == key
}

/// The sum of the counts of a series of bins.
pub open spec fn series_total(series: Seq<(i64, u64)>) -> nat
    decreases series.len(),
{
    if series.len() == 0 {
        0
    } else {
        series_total(series.drop_last()) + series.last().1 as nat
    }
}

/// The number of `pixels` in the first `n` bins of `axis` together.
pub open spec fn sum_bins(pixels: Seq<SpaceCoordinate>, axis: Axis, n: nat) -> nat
    decreases n,
{
    if n == 0 {
        0
    } else {
        sum_bins(pixels, axis, (n - 1) as nat) + bin_count(pixels, axis, (n - 1) * axis.delta)
    }
}

/// No count exceeds the number of pixels.
pub proof fn lemma_count_bound(pixels: Seq<SpaceCoordinate>, pred: spec_fn(SpaceCoordinate) -> bool)
    ensures
        count_where(pixels, pred) <= pixels.len(),
    decreases pixels.len(),
{
    if pixels.len() > 0 {
        lemma_count_bound(pixels.drop_last(), pred);
    }
}

/// Where `pred` holds of no pixel, the count is 0.
pub proof fn lemma_count_none(pixels: Seq<SpaceCoordinate>, pred: spec_fn(SpaceCoordinate) -> bool)
    requires
        forall|i: int| 0 <= i < pixels.len() ==> !pred(#[trigger] pixels[i]),
    ensures
        count_where(pixels, pred) == 0,
    decreases pixels.len(),
{
    if pixels.len() > 0 {
        let init = pixels.drop_last();
        assert forall|i: int| 0 <= i < init.len() implies !pred(#[trigger] init[i]) by {
            assert(init[i] == pixels[i]);
        }
        lemma_count_none(init, pred);
    }
}

/// Where `pred` holds of every pixel, the count is their number.
pub proof fn lemma_count_all(pixels: Seq<SpaceCoordinate>, pred: spec_fn(SpaceCoordinate) -> bool)
    requires
        forall|i: int| 0 <= i < pixels.len() ==> pred(#[trigger] pixels[i]),
    ensures
        count_where(pixels, pred) == pixels.len(),
    decreases pixels.len(),
{
    if pixels.len() > 0 {
        let init = pixels.drop_last();
        assert forall|i: int| 0 <= i < init.len() implies pred(#[trigger] init[i]) by {
            assert(init[i] == pixels[i]);
        }
        lemma_count_all(init, pred);
    }
}

/// Counting one pixel more adds 1 where `pred` holds of it.
pub proof fn lemma_count_step(
    pixels: Seq<SpaceCoordinate>,
    pred: spec_fn(SpaceCoordinate) -> bool,
    m: int,
)
    requires
        0 <= m < pixels.len(),
    ensures
        count_where(pixels.take(m + 1), pred) == count_where(pixels.take(m), pred) + if pred(
            pixels[m],
        ) {
            1nat
        } else {
            0nat
        },
{
    assert(pixels.take(m + 1).drop_last() =~= pixels.take(m));
}

/// Two keys of an axis are equal only where they number the same bin.
pub proof fn lemma_key_distinct(axis: Axis, a: int, b: int)
    requires
        axis.wf(),
        a != b,
    ensures
        a * axis.delta != b * axis.delta,
{
    assert(a * axis.delta != b * axis.delta) by (nonlinear_arith)
        requires
            a != b,
            axis.delta > 0,
    ;
}

/// One pixel more adds 1 to the first `n` bins together where it falls into
/// one of them.
proof fn lemma_sum_bins_step(pixels: Seq<SpaceCoordinate>, axis: Axis, n: nat)
    requires
        axis.wf(),
        pixels.len() > 0,
    ensures
        sum_bins(pixels, axis, n) == sum_bins(pixels.drop_last(), axis, n) + if axis.bin_index_spec(
            pixels.last().axis0 as int,
        ) < n {
            1nat
        } else {
            0nat
        },
    decreases n,
{
    if n > 0 {
        lemma_sum_bins_step(pixels, axis, (n - 1) as nat);
        let value = pixels.last().axis0 as int;
        axis.lemma_bin(value);
        if axis.bin_index_spec(value) != n - 1 {
            lemma_key_distinct(axis, axis.bin_index_spec(value), n - 1);
        }
    }
}

/// The bins of an axis hold every pixel once: their counts add up to the
/// number of pixels.
pub proof fn lemma_bins_hold_all(pixels: Seq<SpaceCoordinate>, axis: Axis)
    requires
        axis.wf(),
    ensures
        sum_bins(pixels, axis, axis.cells_spec() as nat) == pixels.len(),
    decreases pixels.len(),
{
    axis.lemma_cells();
    if pixels.len() == 0 {
        lemma_sum_bins_empty(pixels, axis, axis.cells_spec() as nat);
    } else {
        lemma_bins_hold_all(pixels.drop_last(), axis);
        lemma_sum_bins_step(pixels, axis, axis.cells_spec() as nat);
        axis.lemma_bin(pixels.last().axis0 as int);
    }
}

proof fn lemma_sum_bins_empty(pixels: Seq<SpaceCoordinate>, axis: Axis, n: nat)
    requires
        pixels.len() == 0,
    ensures
        sum_bins(pixels, axis, n) == 0,
    decreases n,
{
    if n > 0 {
        lemma_sum_bins_empty(pixels, axis, (n - 1) as nat);
    }
}

/// The keys of a cell name it: the cell's lower corner is a pair of keys of
/// the two axes, and no other cell has the same pair.
pub proof fn lemma_cell_keys(x: Axis, z: Axis, cell: int)
    requires
        x.wf(),
        z.wf(),
        0 <= cell < grid_cells(x, z),
    ensures
        x.is_key(cell_x(x, z, cell)),
        z.is_key(cell_z(x, z, cell)),
        cell_x(x, z, cell) / (x.delta as int) == cell / z.cells_spec(),
        cell_z(x, z, cell) / (z.delta as int) == cell % z.cells_spec(),
        cell == (cell_x(x, z, cell) / (x.delta as int)) * z.cells_spec() + cell_z(x, z, cell) / (
        z.delta as int),
{
    let nx = x.cells_spec();
    let nz = z.cells_spec();
    x.lemma_cells();
    z.lemma_cells();
    let ix = cell / nz;
    let iz = cell % nz;
    assert(0 <= ix < nx && 0 <= iz < nz && cell == ix * nz + iz) by (nonlinear_arith)
        requires
            ix == cell / nz,
            iz == cell % nz,
            0 <= cell < nx * nz,
            0 < nz,
    ;
    x.lemma_key_of_index(ix);
    z.lemma_key_of_index(iz);
    lemma_quotient_of_multiple(ix, x.delta as int);
    lemma_quotient_of_multiple(iz, z.delta as int);
}

/// The number of the cell that a pair of keys names lies in the grid, and
/// the cell's keys are that pair.
pub proof fn lemma_cell_of_keys(x: Axis, z: Axis, k1: int, k2: int)
    requires
        x.wf(),
        z.wf(),
        x.is_key(k1),
        z.is_key(k2),
    ensures
        0 <= (k1 / (x.delta as int)) * z.cells_spec() + k2 / (z.delta as int) < grid_cells(x, z),
        cell_x(x, z, (k1 / (x.delta as int)) * z.cells_spec() + k2 / (z.delta as int)) == k1,
        cell_z(x, z, (k1 / (x.delta as int)) * z.cells_spec() + k2 / (z.delta as int)) == k2,
{
    let nx = x.cells_spec();
    let nz = z.cells_spec();
    let ix = k1 / (x.delta as int);
    let iz = k2 / (z.delta as int);
    lemma_key_index(x, k1);
    lemma_key_index(z, k2);
    lemma_cell_number(ix, iz, nx, nz);
}

/// A key is its bin's number times the step, and the number is one of the
/// axis's bins.
pub proof fn lemma_key_index(axis: Axis, key: int)
    requires
        axis.wf(),
        axis.is_key(key),
    ensures
        0 <= key / (axis.delta as int) < axis.cells_spec(),
        (key / (axis.delta as int)) * axis.delta == key,
        axis.bin_key_spec(key) == key,
{
    let d = axis.delta as int;
    let m = axis.max as int;
    let n = key / d;
    let q = (m - 1) / d;
    assert(n * d == key && 0 <= n <= q) by (nonlinear_arith)
        requires
            n == key / d,
            q == (m - 1) / d,
            key % d == 0,
            0 <= key <= m - 1,
            0 < d,
    ;
}

proof fn lemma_quotient_of_multiple(n: int, d: int)
    requires
        d > 0,
    ensures
        (n * d) / d == n,
{
    assert((n * d) / d == n) by (nonlinear_arith)
        requires
            d > 0,
    ;
}

/// Where no pixel lies more than a step away from the slice, every cell of
/// the slice histogram is empty and the height scale is 1: the bar chart is
/// flat, and still well defined.
pub proof fn image_without_relevant_pixel_is_flat(
    pixels: Seq<SpaceCoordinate>,
    slice: int,
    delta: int,
    x: Axis,
    z: Axis,
)
    requires
        x.wf(),
        z.wf(),
        forall|i: int| 0 <= i < pixels.len() ==> !is_relevant(#[trigger] pixels[i], slice, delta),
    ensures
        forall|c: int|
            0 <= c < grid_cells(x, z) ==> #[trigger] slice_table(pixels, slice, delta, x, z)[c]
                == 0,
        height_scale(slice_table(pixels, slice, delta, x, z)) == 1,
{
    let table = slice_table(pixels, slice, delta, x, z);
    x.lemma_cells();
    z.lemma_cells();
    assert forall|c: int| 0 <= c < grid_cells(x, z) implies #[trigger] table[c] == 0 by {
        lemma_count_none(
            pixels,
            in_cell(slice, delta, x, z, cell_x(x, z, c), cell_z(x, z, c)),
        );
    }
    lemma_max_count(table);
    if table.len() > 0 {
        let c = choose|c: int| 0 <= c < table.len() && table[c] == max_count(table);
        lemma_cell_number(0, 0, x.cells_spec(), z.cells_spec());
        assert(table[c] == 0);
    }
}

/// An image of one color that lies more than a step away from the slice
/// fills one cell with all its pixels and leaves the others empty: a single
/// column of full height.
pub proof fn uniform_image_fills_one_cell(
    pixels: Seq<SpaceCoordinate>,
    p: SpaceCoordinate,
    slice: int,
    delta: int,
    x: Axis,
    z: Axis,
)
    requires
        x.wf(),
        z.wf(),
        0 < pixels.len() <= u64::MAX,
        forall|i: int| 0 <= i < pixels.len() ==> #[trigger] pixels[i] == p,
        is_relevant(p, slice, delta),
    ensures
        forall|c: int|
            0 <= c < grid_cells(x, z) ==> #[trigger] slice_table(pixels, slice, delta, x, z)[c]
                == if c == x.bin_index_spec(p.axis1 as int) * z.cells_spec() + z.bin_index_spec(
                p.axis2 as int,
            ) {
                pixels.len()
            } else {
                0
            },
        0 <= x.bin_index_spec(p.axis1 as int) * z.cells_spec() + z.bin_index_spec(p.axis2 as int)
            < grid_cells(x, z),
        height_scale(slice_table(pixels, slice, delta, x, z)) == pixels.len(),
{
    let table = slice_table(pixels, slice, delta, x, z);
    let ix = x.bin_index_spec(p.axis1 as int);
    let iz = z.bin_index_spec(p.axis2 as int);
    let full = ix * z.cells_spec() + iz;
    x.lemma_bin(p.axis1 as int);
    z.lemma_bin(p.axis2 as int);
    lemma_cell_number(ix, iz, x.cells_spec(), z.cells_spec());
    assert forall|c: int| 0 <= c < grid_cells(x, z) implies #[trigger] table[c] == if c == full {
        pixels.len()
    } else {
        0
    } by {
        let pred = in_cell(slice, delta, x, z, cell_x(x, z, c), cell_z(x, z, c));
        lemma_cell_keys(x, z, c);
        if c == full {
            assert forall|i: int| 0 <= i < pixels.len() implies pred(#[trigger] pixels[i]) by {
                assert(pixels[i] == p);
            }
            lemma_count_all(pixels, pred);
        } else {
            if x.bin_key_spec(p.axis1 as int) == cell_x(x, z, c) && z.bin_key_spec(p.axis2 as int)
                == cell_z(x, z, c) {
                lemma_quotient_of_multiple(ix, x.delta as int);
                lemma_quotient_of_multiple(iz, z.delta as int);
                assert(false);
            }
            assert forall|i: int| 0 <= i < pixels.len() implies !pred(#[trigger] pixels[i]) by {
                assert(pixels[i] == p);
            }
            lemma_count_none(pixels, pred);
        }
    }
    lemma_max_count(table);
    assert(table[full] == pixels.len());
}

} // verus!
