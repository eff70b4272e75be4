//! What every color space provides: a slice parameter, the two histograms
//! of an image around it, and the bar-chart mesh.

use vstd::prelude::*;
use crate::mesh::{build_mesh, cell_x, cell_z, grid_cells, mesh_of, MeshData};
use crate::parameter::{decremented, fraction_value, incremented};
use crate::pixels::{lemma_scan_index, PixelGrid, SpaceCoordinate};
use crate::providers::histgen::{
    bin_count, in_bin, in_cell, inspect_spec, is_scrub_histogram, lemma_bins_hold_all,
    lemma_cell_keys,
    lemma_cell_of_keys, lemma_count_bound, lemma_count_step, lemma_key_distinct, lemma_key_index,
    scrub_series, series_total, slice_count, slice_table, sum_bins,
};
use crate::quantize::{axis_of, Axis};

verus! {

/// However large an image is, its pixels can be counted in 64 bits.
proof fn lemma_pixel_count_fits(w: u32, h: u32)
    ensures
        w * h < u64::MAX,
{
    assert(w * h <= 0xffff_ffff * 0xffff_ffff) by (nonlinear_arith)
        requires
            0 <= w <= 0xffff_ffff,
            0 <= h <= 0xffff_ffff,
    ;
}

/// A color space with a slice parameter.
///
/// The constants are fixed-point values in thousandths. `MIN`, `MAX` and
/// `DELTA` bound and step the slice parameter, and `MAX` and `DELTA` bin
/// the slice axis; `X_MAX`, `X_DELTA`, `Z_MAX` and `Z_DELTA` bin the two
/// axes of the bar chart.
pub trait Provider: Sized {
    const MAX: i64;

    const MIN: i64;

    const DELTA: i64;

    const X_MAX: i64;

    const X_DELTA: i64;

    const Z_MAX: i64;

    const Z_DELTA: i64;

    /// The constants describe three axes, the bounds of the slice are in
    /// order, and the vertices of the bar chart can be numbered with 32 bits.
    ///
    /// A color space proves this of its constants, and states their values
    /// here as well: a proof about one color space calls this lemma to learn
    /// them.
    proof fn lemma_constants()
        ensures
            Self::MIN <= Self::MAX,
            axis_of(Self::MAX, Self::DELTA).wf(),
            axis_of(Self::X_MAX, Self::X_DELTA).wf(),
            axis_of(Self::Z_MAX, Self::Z_DELTA).wf(),
            8 * grid_cells(
                axis_of(Self::X_MAX, Self::X_DELTA),
                axis_of(Self::Z_MAX, Self::Z_DELTA),
            ) <= u32::MAX,
    ;

    /// The value of the slice parameter.
    spec fn slice(&self) -> int;

    /// Whether the slice parameter was touched since the mark was last
    /// cleared.
    spec fn changed(&self) -> bool;

    /// Moves the slice up by `change`, no further than `MAX`.
    fn incr(&mut self, change: i64)
        ensures
            final(self).slice() == incremented(
                old(self).slice(),
                change as int,
                Self::MIN as int,
                Self::MAX as int,
            ),
            final(self).changed(),
    ;

    /// Moves the slice down by `change`, no further than `MIN`.
    fn decr(&mut self, change: i64)
        ensures
            final(self).slice() == decremented(
                old(self).slice(),
                change as int,
                Self::MIN as int,
                Self::MAX as int,
            ),
            final(self).changed(),
    ;

    /// Sets the slice to the fraction `new` of `MAX`, quantized by `DELTA`.
    /// `new` is in thousandths; below 0 it counts as 0, above 1000 as 1000.
    fn set(&mut self, new: i64)
        ensures
            final(self).slice() == fraction_value(
                new as int,
                Self::MIN as int,
                Self::MAX as int,
                Self::DELTA as int,
            ),
            final(self).changed(),
    ;

    /// The value of the slice parameter.
    fn current(&self) -> (v: i64)
        ensures
            v == self.slice(),
            Self::MIN <= v <= Self::MAX,
    ;

    /// Whether the slice parameter was touched since the mark was last
    /// cleared.
    fn is_changed(&self) -> (b: bool)
        ensures
            b == self.changed(),
    ;

    /// Clears the mark, once what depends on the slice has been brought up
    /// to date.
    fn clear_changed(&mut self)
        ensures
            !final(self).changed(),
            final(self).slice() == old(self).slice(),
    ;

    /// Says of the pixel in column `i` of row `j` whether it counts for the
    /// slice histogram, and if so which cell it falls into.
    fn inspect(&self, img: &PixelGrid, i: u32, j: u32) -> (res: (bool, (i64, i64)))
        requires
            i < img.width_spec(),
            j < img.height_spec(),
        ensures
            res == inspect_spec(
                img.pixel_spec(i as int, j as int),
                self.slice(),
                Self::DELTA as int,
                axis_of(Self::X_MAX, Self::X_DELTA),
                axis_of(Self::Z_MAX, Self::Z_DELTA),
            ),
    ;

    /// Builds the bar chart of the slice histogram of `img`: one column for
    /// every cell of the grid, as high as the number of pixels that lie more
    /// than `DELTA` away from the slice and fall into the cell.
    fn create_mesh(&self, img: &PixelGrid) -> (mesh: MeshData)
        ensures
            mesh@ == mesh_of(
                slice_table(
                    img@,
                    self.slice(),
                    Self::DELTA as int,
                    axis_of(Self::X_MAX, Self::X_DELTA),
                    axis_of(Self::Z_MAX, Self::Z_DELTA),
                ),
                axis_of(Self::X_MAX, Self::X_DELTA),
                axis_of(Self::Z_MAX, Self::Z_DELTA),
            ),
            mesh.vertices.len() == 8 * grid_cells(
                axis_of(Self::X_MAX, Self::X_DELTA),
                axis_of(Self::Z_MAX, Self::Z_DELTA),
            ),
            mesh.indices.len() == 30 * grid_cells(
                axis_of(Self::X_MAX, Self::X_DELTA),
                axis_of(Self::Z_MAX, Self::Z_DELTA),
            ),
    {
        proof {
            Self::lemma_constants();
        }
        let x = Axis { max: Self::X_MAX, delta: Self::X_DELTA };
        let z = Axis { max: Self::Z_MAX, delta: Self::Z_DELTA };
        let nx: u32 = x.cells();
        let nz: u32 = z.cells();
        let cells: usize = (nx * nz) as usize;
        let w: u32 = img.width();
        let h: u32 = img.height();
        let ghost slice = self.slice();
        let ghost delta = Self::DELTA as int;
        let ghost pixels = img@;

        let mut stats: Vec<u64> = Vec::new();
        let mut c: usize = 0;
        while c < cells
            invariant
                c <= cells,
                stats.len() == c,
                forall|n: int| 0 <= n < c ==> stats[n] == 0,
            decreases cells - c,
        {
            stats.push(0);
            c = c + 1;
        }

        let mut done: u64 = 0;
        let mut j: u32 = 0;
        while j < h
            invariant
                x == axis_of(Self::X_MAX, Self::X_DELTA),
                z == axis_of(Self::Z_MAX, Self::Z_DELTA),
                x.wf(),
                z.wf(),
                nx == x.cells_spec(),
                nz == z.cells_spec(),
                cells == grid_cells(x, z),
                w == img.width_spec(),
                h == img.height_spec(),
                pixels == img@,
                pixels.len() == w * h,
                slice == self.slice(),
                delta == Self::DELTA,
                j <= h,
                done == j * w,
                stats.len() == cells,
                forall|n: int|
                    0 <= n < cells ==> stats[n] == #[trigger] slice_count(
                        pixels.take(done as int),
                        slice,
                        delta,
                        x,
                        z,
                        cell_x(x, z, n),
                        cell_z(x, z, n),
                    ),
            decreases h - j,
        {
            let mut i: u32 = 0;
            while i < w
                invariant
                    x == axis_of(Self::X_MAX, Self::X_DELTA),
                    z == axis_of(Self::Z_MAX, Self::Z_DELTA),
                    x.wf(),
                    z.wf(),
                    nx == x.cells_spec(),
                    nz == z.cells_spec(),
                    cells == grid_cells(x, z),
                    w == img.width_spec(),
                    h == img.height_spec(),
                    pixels == img@,
                    pixels.len() == w * h,
                    slice == self.slice(),
                    delta == Self::DELTA,
                    j < h,
                    i <= w,
                    done == j * w + i,
                    stats.len() == cells,
                    forall|n: int|
                        0 <= n < cells ==> stats[n] == #[trigger] slice_count(
                            pixels.take(done as int),
                            slice,
                            delta,
                            x,
                            z,
                            cell_x(x, z, n),
                            cell_z(x, z, n),
                        ),
                decreases w - i,
            {
                proof {
                    lemma_scan_index(i as int, j as int, w as int, h as int);
                    lemma_pixel_count_fits(w, h);
                }
                let (relevant, data) = self.inspect(img, i, j);
                let ghost p = pixels[done as int];
                let ghost before = stats@;
                if relevant {
                    proof {
                        x.lemma_bin(p.axis1 as int);
                        z.lemma_bin(p.axis2 as int);
                        lemma_cell_of_keys(x, z, data.0 as int, data.1 as int);
                        lemma_key_index(x, data.0 as int);
                        lemma_key_index(z, data.1 as int);
                    }
                    let at: usize = (data.0 / x.delta) as usize * nz as usize + (data.1
                        / z.delta) as usize;
                    proof {
                        lemma_count_bound(
                            pixels.take(done as int),
                            in_cell(
                                slice,
                                delta,
                                x,
                                z,
                                cell_x(x, z, at as int),
                                cell_z(x, z, at as int),
                            ),
                        );
                        assert(stats[at as int] == slice_count(
                            pixels.take(done as int),
                            slice,
                            delta,
                            x,
                            z,
                            cell_x(x, z, at as int),
                            cell_z(x, z, at as int),
                        ));
                    }
                    let count: u64 = stats[at];
                    stats.set(at, count + 1);
                }
                proof {
                    assert forall|n: int| 0 <= n < cells implies stats[n] == #[trigger] slice_count(
                        pixels.take(done + 1),
                        slice,
                        delta,
                        x,
                        z,
                        cell_x(x, z, n),
                        cell_z(x, z, n),
                    ) by {
                        lemma_count_step(
                            pixels,
                            in_cell(slice, delta, x, z, cell_x(x, z, n), cell_z(x, z, n)),
                            done as int,
                        );
                        assert(before[n] == slice_count(
                            pixels.take(done as int),
                            slice,
                            delta,
                            x,
                            z,
                            cell_x(x, z, n),
                            cell_z(x, z, n),
                        ));
                        lemma_cell_keys(x, z, n);
                        if relevant {
                            lemma_cell_of_keys(x, z, data.0 as int, data.1 as int);
                            x.lemma_bin(p.axis1 as int);
                            z.lemma_bin(p.axis2 as int);
                        }
                    }
                }
                done = done + 1;
                i = i + 1;
            }
            proof {
                assert((j + 1) * w == j * w + w) by (nonlinear_arith);
            }
            j = j + 1;
        }
        proof {
            assert(done == w * h) by (nonlinear_arith)
                requires
                    done == j * w,
                    j == h,
            ;
            assert(pixels.take(done as int) =~= pixels);
            assert(stats@ =~= slice_table(pixels, slice, delta, x, z));
        }
        build_mesh(&stats, &x, &z)
    }

    /// The key of the bin of the scrub histogram that a pixel falls into.
    fn convert(&self, pixel: SpaceCoordinate) -> (key: i64)
        ensures
            key == axis_of(Self::MAX, Self::DELTA).bin_key_spec(pixel.axis0 as int),
    ;

    /// Builds the scrub histogram of `img`: for every bin of the slice axis
    /// that holds a pixel, the bin's key and the number of pixels in it, in
    /// the order of the keys. A bin's share of the image is its count over
    /// the number of pixels.
    fn histogram_data(&self, img: &PixelGrid) -> (series: Vec<(i64, u64)>)
        ensures
            series@ == scrub_series(
                img@,
                axis_of(Self::MAX, Self::DELTA),
                axis_of(Self::MAX, Self::DELTA).cells_spec() as nat,
            ),
            is_scrub_histogram(series@, img@, axis_of(Self::MAX, Self::DELTA)),
            series_total(series@) == img@.len(),
    {
        proof {
            Self::lemma_constants();
        }
        let axis = Axis { max: Self::MAX, delta: Self::DELTA };
        let bins: u32 = axis.cells();
        let w: u32 = img.width();
        let h: u32 = img.height();
        let ghost pixels = img@;

        let mut result: Vec<u64> = Vec::new();
        let mut c: u32 = 0;
        while c < bins
            invariant
                c <= bins,
                result.len() == c,
                forall|n: int| 0 <= n < c ==> result[n] == 0,
            decreases bins - c,
        {
            result.push(0);
            c = c + 1;
        }

        let mut done: u64 = 0;
        let mut j: u32 = 0;
        while j < h
            invariant
                axis == axis_of(Self::MAX, Self::DELTA),
                axis.wf(),
                bins == axis.cells_spec(),
                w == img.width_spec(),
                h == img.height_spec(),
                pixels == img@,
                pixels.len() == w * h,
                j <= h,
                done == j * w,
                result.len() == bins,
                forall|n: int|
                    0 <= n < bins ==> result[n] == #[trigger] bin_count(
                        pixels.take(done as int),
                        axis,
                        n * axis.delta,
                    ),
            decreases h - j,
        {
            let mut i: u32 = 0;
            while i < w
                invariant
                    axis == axis_of(Self::MAX, Self::DELTA),
                    axis.wf(),
                    bins == axis.cells_spec(),
                    w == img.width_spec(),
                    h == img.height_spec(),
                    pixels == img@,
                    pixels.len() == w * h,
                    j < h,
                    i <= w,
                    done == j * w + i,
                    result.len() == bins,
                    forall|n: int|
                        0 <= n < bins ==> result[n] == #[trigger] bin_count(
                            pixels.take(done as int),
                            axis,
                            n * axis.delta,
                        ),
                decreases w - i,
            {
                proof {
                    lemma_scan_index(i as int, j as int, w as int, h as int);
                    lemma_pixel_count_fits(w, h);
                }
                let pixel = img.get_pixel(i, j);
                let key = self.convert(pixel);
                proof {
                    axis.lemma_bin(pixel.axis0 as int);
                    lemma_key_index(axis, key as int);
                }
                let at: usize = (key / axis.delta) as usize;
                let ghost before = result@;
                proof {
                    lemma_count_bound(pixels.take(done as int), in_bin(axis, at * axis.delta));
                    assert(result[at as int] == bin_count(
                        pixels.take(done as int),
                        axis,
                        at * axis.delta,
                    ));
                }
                let count: u64 = result[at];
                result.set(at, count + 1);
                proof {
                    assert forall|n: int| 0 <= n < bins implies result[n] == #[trigger] bin_count(
                        pixels.take(done + 1),
                        axis,
                        n * axis.delta,
                    ) by {
                        lemma_count_step(pixels, in_bin(axis, n * axis.delta), done as int);
                        assert(before[n] == bin_count(
                            pixels.take(done as int),
                            axis,
                            n * axis.delta,
                        ));
                        if n != at {
                            lemma_key_distinct(axis, n, at as int);
                        }
                    }
                }
                done = done + 1;
                i = i + 1;
            }
            proof {
                assert((j + 1) * w == j * w + w) by (nonlinear_arith);
            }
            j = j + 1;
        }
        proof {
            assert(done == w * h) by (nonlinear_arith)
                requires
                    done == j * w,
                    j == h,
            ;
            assert(pixels.take(done as int) =~= pixels);
            lemma_bins_hold_all(pixels, axis);
        }

        let mut series: Vec<(i64, u64)> = Vec::new();
        let mut n: u32 = 0;
        while n < bins
            invariant
                axis == axis_of(Self::MAX, Self::DELTA),
                axis.wf(),
                bins == axis.cells_spec(),
                pixels == img@,
                n <= bins,
                result.len() == bins,
                forall|m: int|
                    0 <= m < bins ==> result[m] == #[trigger] bin_count(
                        pixels,
                        axis,
                        m * axis.delta,
                    ),
                forall|a: int, b: int| 0 <= a < b < series.len() ==> series[a].0 < series[b].0,
                forall|a: int| 0 <= a < series.len() ==> (#[trigger] series[a]).0 < n * axis.delta,
                forall|a: int|
                    0 <= a < series.len() ==> axis.is_key(#[trigger] series[a].0 as int)
                        && series[a].1 > 0 && series[a].1 == bin_count(
                        pixels,
                        axis,
                        series[a].0 as int,
                    ),
                forall|m: int|
                    0 <= m < n && #[trigger] bin_count(pixels, axis, m * axis.delta) > 0
                        ==> exists|a: int| 0 <= a < series.len() && series[a].0 == m * axis.delta,
                series_total(series@) == sum_bins(pixels, axis, n as nat),
                series@ == scrub_series(pixels, axis, n as nat),
            decreases bins - n,
        {
            proof {
                axis.lemma_key_of_index(n as int);
                assert((n + 1) * axis.delta == n * axis.delta + axis.delta) by (nonlinear_arith);
            }
            let count: u64 = result[n as usize];
            if count > 0 {
                let ghost before = series@;
                series.push((n as i64 * axis.delta, count));
                proof {
                    assert(series@.drop_last() =~= before);
                    assert forall|m: int|
                        0 <= m < n + 1 && #[trigger] bin_count(pixels, axis, m * axis.delta)
                            > 0 implies exists|a: int|
                        0 <= a < series.len() && series[a].0 == m * axis.delta by {
                        if m < n {
                            let a = choose|a: int|
                                0 <= a < before.len() && before[a].0 == m * axis.delta;
                            assert(series[a].0 == m * axis.delta);
                        } else {
                            assert(series[series.len() - 1].0 == m * axis.delta);
                        }
                    }
                }
            }
            n = n + 1;
        }
        proof {
            assert forall|key: int|
                axis.is_key(key) && #[trigger] bin_count(pixels, axis, key) > 0 implies exists|
                a: int,
            | 0 <= a < series.len() && series[a].0 == key by {
                lemma_key_index(axis, key);
                let m = key / (axis.delta as int);
                assert(bin_count(pixels, axis, m * axis.delta) > 0);
            }
        }
        series
    }
}

/// What a renderer is handed of the slice: its value and its step.
pub trait SliceMaterial {
    /// The value of the slice.
    spec fn slice_value(&self) -> int;

    /// The step of the slice.
    spec fn step(&self) -> int;
}

/// A color space together with what its three views are drawn with. Each
/// accessor hands out the present value of the slice and its step.
pub trait CSpaceProvider: Provider {
    type FilterMaterial: SliceMaterial;

    type Viz2dMaterial: SliceMaterial;

    type Viz3dMaterial: SliceMaterial;

    /// What the image filter is drawn with.
    fn get_filter(&self) -> (m: Self::FilterMaterial)
        ensures
            m.slice_value() == self.slice(),
            m.step() == Self::DELTA,
    ;

    /// What the scale of the slice axis is drawn with.
    fn get_viz2d_material(&self) -> (m: Self::Viz2dMaterial)
        ensures
            m.slice_value() == self.slice(),
            m.step() == Self::DELTA,
    ;

    /// What the bar chart is drawn with.
    fn get_viz3d_material(&self) -> (m: Self::Viz3dMaterial)
        ensures
            m.slice_value() == self.slice(),
            m.step() == Self::DELTA,
    ;
}

} // verus!
