//! The bar-chart mesh: one rectangular column for every cell of the grid
//! that two quantized axes span.
//!
//! Positions are kept exact. A vertex holds `x` and `z` in the units of the
//! two axes and `y` as a pixel count. The mesh carries the three extents by
//! which a renderer divides them: a vertex stands at `x / x_max - 1/2`,
//! `y / y_max` and `z / z_max - 1/2`.

use vstd::prelude::*;
use crate::quantize::Axis;

verus! {

/// A corner of a column.
#[derive(Clone, Copy, Debug, PartialEq, Eq, Structural)]
pub struct Vertex {
    pub x: i64,
    pub y: u64,
    pub z: i64,
}

/// A triangle list: `indices` holds three entries for each triangle, each the
/// place of a vertex in `vertices`.
#[derive(Debug)]
pub struct MeshData {
    pub vertices: Vec<Vertex>,
    pub indices: Vec<u32>,
    /// The extent of the first axis, which `x` is measured against.
    pub x_max: i64,
    /// The count that stands for full height: the largest count of all
    /// cells, or 1 where every cell is empty.
    pub y_max: u64,
    /// The extent of the second axis, which `z` is measured against.
    pub z_max: i64,
}

/// What a mesh holds.
pub struct MeshView {
    pub vertices: Seq<Vertex>,
    pub indices: Seq<u32>,
    pub x_max: i64,
    pub y_max: u64,
    pub z_max: i64,
}

impl View for MeshData {
    type V = MeshView;

    open spec fn view(&self) -> MeshView {
        MeshView {
            vertices: self.vertices@,
            indices: self.indices@,
            x_max: self.x_max,
            y_max: self.y_max,
            z_max: self.z_max,
        }
    }
}

/// The eight corners of the column that rises over the rectangle from
/// (`bx`, `bz`) to (`bx + dx`, `bz + dz`): the four of the top face at
/// `height`, then the four of the base at 0.
pub open spec fn column_vertices(bx: int, bz: int, dx: int, dz: int, height: u64) -> Seq<Vertex> {
    seq![
        Vertex { x: bx as i64, y: height, z: bz as i64 },
        Vertex { x: (bx + dx) as i64, y: height, z: bz as i64 },
        Vertex { x: bx as i64, y: height, z: (bz + dz) as i64 },
        Vertex { x: (bx + dx) as i64, y: height, z: (bz + dz) as i64 },
        Vertex { x: bx as i64, y: 0, z: bz as i64 },
        Vertex { x: (bx + dx) as i64, y: 0, z: bz as i64 },
        Vertex { x: bx as i64, y: 0, z: (bz + dz) as i64 },
        Vertex { x: (bx + dx) as i64, y: 0, z: (bz + dz) as i64 },
    ]
}

/// The ten triangles of the column whose first corner is vertex `k`: two
/// each for the top and the four sides. A column rests on the floor, so it
/// has no bottom face.
pub open spec fn column_indices(k: int) -> Seq<u32> {
    seq![
        (k + 1) as u32, k as u32, (k + 3) as u32,
        (k + 3) as u32, k as u32, (k + 2) as u32,
        (k + 7) as u32, (k + 3) as u32, (k + 6) as u32,
        (k + 6) as u32, (k + 3) as u32, (k + 2) as u32,
        (k + 1) as u32, (k + 5) as u32, (k + 4) as u32,
        (k + 4) as u32, k as u32, (k + 1) as u32,
        (k + 3) as u32, (k + 7) as u32, (k + 5) as u32,
        (k + 5) as u32, (k + 1) as u32, (k + 3) as u32,
        k as u32, (k + 4) as u32, (k + 6) as u32,
        (k + 6) as u32, (k + 2) as u32, k as u32,
    ]
}

/// The lower corner on the first axis of cell number `cell`, where cells are
/// numbered row by row and a row runs along the second axis.
pub open spec fn cell_x(x: Axis, z: Axis, cell: int) -> int {
    (cell / z.cells_spec()) * x.delta
}

/// The lower corner on the second axis of cell number `cell`.
pub open spec fn cell_z(x: Axis, z: Axis, cell: int) -> int {
    (cell % z.cells_spec()) * z.delta
}

/// The vertices of the first `n` cells: each cell's column after those of
/// the cells before it.
pub open spec fn grid_vertices(counts: Seq<u64>, x: Axis, z: Axis, n: nat) -> Seq<Vertex>
    decreases n,
{
    if n == 0 {
        Seq::empty()
    } else {
        grid_vertices(counts, x, z, (n - 1) as nat) + column_vertices(
            cell_x(x, z, n - 1),
            cell_z(x, z, n - 1),
            x.delta as int,
            z.delta as int,
            counts[n - 1],
        )
    }
}

/// The index entries of the first `n` cells: each cell's triangles after
/// those of the cells before it, over its own eight vertices.
pub open spec fn grid_indices(n: nat) -> Seq<u32>
    decreases n,
{
    if n == 0 {
        Seq::empty()
    } else {
        grid_indices((n - 1) as nat) + column_indices(8 * (n - 1))
    }
}

/// The largest of `counts`, or 0 where there is none.
pub open spec fn max_count(counts: Seq<u64>) -> u64
    decreases counts.len(),
{
    if counts.len() == 0 {
        0
    } else if counts.last() > max_count(counts.drop_last()) {
        counts.last()
    } else {
        max_count(counts.drop_last())
    }
}

/// The count that a column of full height stands for: the largest count, but
/// 1 where that is 0, so that every height can be divided by it.
pub open spec fn height_scale(counts: Seq<u64>) -> u64 {
    if max_count(counts) == 0 {
        1
    } else {
        max_count(counts)
    }
}

/// The number of cells of the grid that the two axes span.
pub open spec fn grid_cells(x: Axis, z: Axis) -> int {
    x.cells_spec() * z.cells_spec()
}

/// The bar chart of a table of counts over the grid that `x` and `z` span:
/// the columns of all cells, the triangles over them, and the extents that
/// the positions are measured against.
pub open spec fn mesh_of(counts: Seq<u64>, x: Axis, z: Axis) -> MeshView {
    MeshView {
        vertices: grid_vertices(counts, x, z, grid_cells(x, z) as nat),
        indices: grid_indices(grid_cells(x, z) as nat),
        x_max: x.max,
        y_max: height_scale(counts),
        z_max: z.max,
    }
}

/// No count exceeds the largest, and some cell holds it.
pub proof fn lemma_max_count(counts: Seq<u64>)
    ensures
        forall|c: int| 0 <= c < counts.len() ==> counts[c] <= max_count(counts),
        counts.len() > 0 ==> exists|c: int| 0 <= c < counts.len() && counts[c] == max_count(counts),
    decreases counts.len(),
{
    if counts.len() > 0 {
        let init = counts.drop_last();
        lemma_max_count(init);
        assert forall|c: int| 0 <= c < counts.len() implies counts[c] <= max_count(counts) by {
            if c < init.len() {
                assert(init[c] == counts[c]);
            }
        }
        if counts.last() > max_count(init) {
            assert(counts[counts.len() - 1] == max_count(counts));
        } else if init.len() > 0 {
            let c = choose|c: int| 0 <= c < init.len() && init[c] == max_count(init);
            assert(counts[c] == max_count(counts));
        } else {
            assert(counts[0] == max_count(counts));
        }
    }
}

/// A grid of `n` cells has eight vertices for each of them, whatever the
/// cells hold.
pub proof fn lemma_grid_vertices_len(counts: Seq<u64>, x: Axis, z: Axis, n: nat)
    ensures
        grid_vertices(counts, x, z, n).len() == 8 * n,
    decreases n,
{
    if n > 0 {
        lemma_grid_vertices_len(counts, x, z, (n - 1) as nat);
    }
}

/// A grid of `n` cells has thirty index entries for each of them.
pub proof fn lemma_grid_indices_len(n: nat)
    ensures
        grid_indices(n).len() == 30 * n,
    decreases n,
{
    if n > 0 {
        lemma_grid_indices_len((n - 1) as nat);
    }
}

/// A bar chart has eight vertices and thirty index entries for every cell of
/// the grid, however many of the cells are empty.
pub proof fn mesh_has_a_column_for_every_cell(counts: Seq<u64>, x: Axis, z: Axis)
    requires
        x.wf(),
        z.wf(),
    ensures
        mesh_of(counts, x, z).vertices.len() == 8 * grid_cells(x, z),
        mesh_of(counts, x, z).indices.len() == 30 * grid_cells(x, z),
        grid_cells(x, z) >= 1,
{
    x.lemma_cells();
    z.lemma_cells();
    lemma_cell_number(0, 0, x.cells_spec(), z.cells_spec());
    lemma_grid_vertices_len(counts, x, z, grid_cells(x, z) as nat);
    lemma_grid_indices_len(grid_cells(x, z) as nat);
}

/// Every index entry of a grid names one of the eight vertices of its own
/// cell, so each triangle stays within one column.
pub proof fn indices_stay_in_their_cell(n: nat, i: int)
    requires
        0 <= i < 30 * n,
        8 * n <= u32::MAX,
    ensures
        grid_indices(n).len() == 30 * n,
        8 * (i / 30) <= grid_indices(n)[i] < 8 * (i / 30) + 8,
    decreases n,
{
    lemma_grid_indices_len(n);
    lemma_grid_indices_len((n - 1) as nat);
    if i < 30 * (n - 1) {
        indices_stay_in_their_cell((n - 1) as nat, i);
    } else {
        let k = 8 * (n - 1);
        let j = i - 30 * (n - 1);
        assert(grid_indices(n)[i] == column_indices(k)[j]);
        assert(i / 30 == n - 1);
    }
}

fn push_column_vertices(
    vertices: &mut Vec<Vertex>,
    bx: i64,
    bz: i64,
    dx: i64,
    dz: i64,
    height: u64,
)
    requires
        bx + dx <= i64::MAX,
        bz + dz <= i64::MAX,
        bx + dx >= i64::MIN,
        bz + dz >= i64::MIN,
    ensures
        final(vertices)@ == old(vertices)@ + column_vertices(
            bx as int,
            bz as int,
            dx as int,
            dz as int,
            height,
        ),
{
    let ghost before = vertices@;
    vertices.push(Vertex { x: bx, y: height, z: bz });
    vertices.push(Vertex { x: bx + dx, y: height, z: bz });
    vertices.push(Vertex { x: bx, y: height, z: bz + dz });
    vertices.push(Vertex { x: bx + dx, y: height, z: bz + dz });
    vertices.push(Vertex { x: bx, y: 0, z: bz });
    vertices.push(Vertex { x: bx + dx, y: 0, z: bz });
    vertices.push(Vertex { x: bx, y: 0, z: bz + dz });
    vertices.push(Vertex { x: bx + dx, y: 0, z: bz + dz });
    assert(vertices@ =~= before + column_vertices(
        bx as int,
        bz as int,
        dx as int,
        dz as int,
        height,
    ));
}

fn push_column_indices(indices: &mut Vec<u32>, k: u32)
    requires
        k + 7 <= u32::MAX,
    ensures
        final(indices)@ == old(indices)@ + column_indices(k as int),
{
    let ghost before = indices@;
    // top
    indices.push(k + 1);
    indices.push(k);
    indices.push(k + 3);
    indices.push(k + 3);
    indices.push(k);
    indices.push(k + 2);
    // right
    indices.push(k + 7);
    indices.push(k + 3);
    indices.push(k + 6);
    indices.push(k + 6);
    indices.push(k + 3);
    indices.push(k + 2);
    // left
    indices.push(k + 1);
    indices.push(k + 5);
    indices.push(k + 4);
    indices.push(k + 4);
    indices.push(k);
    indices.push(k + 1);
    // back
    indices.push(k + 3);
    indices.push(k + 7);
    indices.push(k + 5);
    indices.push(k + 5);
    indices.push(k + 1);
    indices.push(k + 3);
    // front
    indices.push(k);
    indices.push(k + 4);
    indices.push(k + 6);
    indices.push(k + 6);
    indices.push(k + 2);
    indices.push(k);
    assert(indices@ =~= before + column_indices(k as int));
}

/// The largest of `counts`, or 1 where none is above 0.
pub fn find_height_scale(counts: &Vec<u64>) -> (scale: u64)
    ensures
        scale == height_scale(counts@),
        scale >= 1,
        forall|c: int| 0 <= c < counts.len() ==> counts[c] <= scale,
{
    let mut largest: u64 = 0;
    let mut c: usize = 0;
    while c < counts.len()
        invariant
            c <= counts.len(),
            largest == max_count(counts@.take(c as int)),
        decreases counts.len() - c,
    {
        proof {
            assert(counts@.take(c + 1).drop_last() =~= counts@.take(c as int));
        }
        if counts[c] > largest {
            largest = counts[c];
        }
        c = c + 1;
    }
    proof {
        assert(counts@.take(c as int) =~= counts@);
        lemma_max_count(counts@);
    }
    if largest == 0 {
        1
    } else {
        largest
    }
}

/// Builds the bar chart of a table of counts: cell number `c` of the grid
/// holds `counts[c]`, cells are numbered row by row, and a row runs along
/// the second axis. Every cell gets a column, an empty one a column of
/// height 0.
pub fn build_mesh(counts: &Vec<u64>, x: &Axis, z: &Axis) -> (mesh: MeshData)
    requires
        x.wf(),
        z.wf(),
        counts.len() == grid_cells(*x, *z),
        8 * grid_cells(*x, *z) <= u32::MAX,
    ensures
        mesh@ == mesh_of(counts@, *x, *z),
        mesh.vertices.len() == 8 * grid_cells(*x, *z),
        mesh.indices.len() == 30 * grid_cells(*x, *z),
{
    let y_max = find_height_scale(counts);
    let nx: u32 = x.cells();
    let nz: u32 = z.cells();
    let mut vertices: Vec<Vertex> = Vec::new();
    let mut indices: Vec<u32> = Vec::new();
    let mut k: u32 = 0;
    let mut cell: usize = 0;
    let mut ix: u32 = 0;
    while ix < nx
        invariant
            x.wf(),
            z.wf(),
            nx == x.cells_spec(),
            nz == z.cells_spec(),
            nz >= 1,
            counts.len() == nx * nz,
            8 * (nx * nz) <= u32::MAX,
            ix <= nx,
            cell == ix * nz,
            k == 8 * cell,
            vertices@ == grid_vertices(counts@, *x, *z, cell as nat),
            indices@ == grid_indices(cell as nat),
        decreases nx - ix,
    {
        proof {
            x.lemma_cells();
            assert(0 <= ix * x.delta <= (nx - 1) * x.delta) by (nonlinear_arith)
                requires
                    0 <= ix <= nx - 1,
                    0 < x.delta,
            ;
        }
        let bx: i64 = ix as i64 * x.delta;
        let mut iz: u32 = 0;
        while iz < nz
            invariant
                x.wf(),
                z.wf(),
                nx == x.cells_spec(),
                nz == z.cells_spec(),
                counts.len() == nx * nz,
                8 * (nx * nz) <= u32::MAX,
                ix < nx,
                iz <= nz,
                bx == ix * x.delta,
                0 <= bx < x.max,
                cell == ix * nz + iz,
                k == 8 * cell,
                vertices@ == grid_vertices(counts@, *x, *z, cell as nat),
                indices@ == grid_indices(cell as nat),
            decreases nz - iz,
        {
            proof {
                lemma_cell_number(ix as int, iz as int, nx as int, nz as int);
                z.lemma_cells();
                assert(0 <= iz * z.delta <= (nz - 1) * z.delta) by (nonlinear_arith)
                    requires
                        0 <= iz <= nz - 1,
                        0 < z.delta,
                ;
            }
            let bz: i64 = iz as i64 * z.delta;
            push_column_vertices(&mut vertices, bx, bz, x.delta, z.delta, counts[cell]);
            push_column_indices(&mut indices, k);
            k = k + 8;
            cell = cell + 1;
            iz = iz + 1;
        }
        proof {
            assert((ix + 1) * nz == ix * nz + nz) by (nonlinear_arith);
        }
        ix = ix + 1;
    }
    proof {
        lemma_grid_vertices_len(counts@, *x, *z, cell as nat);
        lemma_grid_indices_len(cell as nat);
    }
    MeshData { vertices, indices, x_max: x.max, y_max, z_max: z.max }
}

/// Cell (`ix`, `iz`) of a grid of `nx` rows of `nz` cells has the number
/// `ix * nz + iz`, which names no other cell.
pub proof fn lemma_cell_number(ix: int, iz: int, nx: int, nz: int)
    requires
        0 <= ix < nx,
        0 <= iz < nz,
    ensures
        0 <= ix * nz + iz < nx * nz,
        (ix * nz + iz) / nz == ix,
        (ix * nz + iz) % nz == iz,
{
    assert(0 <= ix * nz && ix * nz + nz <= nx * nz) by (nonlinear_arith)
        requires
            0 <= ix < nx,
            0 < nz,
    ;
    assert((ix * nz + iz) / nz == ix && (ix * nz + iz) % nz == iz) by (nonlinear_arith)
        requires
            0 <= iz < nz,
    ;
}

} // verus!
