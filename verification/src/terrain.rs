//! The geometry of a terrain: which vertices and which triangles a
//! heightmap of a given size yields.
//!
//! The vertices are the samples, row by row. Every quad between four
//! neighbouring samples gives two triangles, and, away from the far edges,
//! further triangles that bridge to the quad one column and one row on.

use vstd::prelude::*;
use crate::heightmap::{LandscapeData, PixelData};
use crate::vertex::{Vertex, ONE, ZERO};

verus! {

/// The vertex made from one sample: position and texture coordinate are
/// copied, the normal is zero and the color is white.
pub open spec fn terrain_vertex(sample: PixelData) -> Vertex {
    Vertex {
        position: sample.position,
        normal: [ZERO, ZERO, ZERO],
        tex_coords: sample.tex_coords,
        color: [ONE, ONE, ONE],
    }
}

/// The first `n` vertices of the terrain of `data`: vertex `k` is made
/// from the sample in column `k % width` of row `k / width`.
pub open spec fn terrain_vertices_prefix(data: LandscapeData, n: int) -> Seq<Vertex> {
    Seq::new(
        n as nat,
        |k: int| terrain_vertex(data.sample(k % (data.width as int), k / (data.width as int))),
    )
}

/// The vertices of the terrain of `data`: one for each sample.
pub open spec fn terrain_vertices(data: LandscapeData) -> Seq<Vertex> {
    terrain_vertices_prefix(data, data.width * data.height)
}

/// The two triangles of the quad whose top-left sample is `(x, y)`.
pub open spec fn main_triangles(w: int, x: int, y: int) -> Seq<int> {
    let top_left = y * w + x;
    let bottom_left = (y + 1) * w + x;
    seq![top_left, bottom_left, top_left + 1, top_left + 1, bottom_left, bottom_left + 1]
}

/// The two triangles that join the quad at `(x, y)` to the next column.
pub open spec fn column_bridge(w: int, x: int, y: int) -> Seq<int> {
    let top_right = y * w + x + 1;
    let bottom_right = (y + 1) * w + x + 1;
    seq![top_right, bottom_right, top_right + 1, bottom_right, bottom_right + 1, top_right + 1]
}

/// The two triangles that join the quad at `(x, y)` to the next row.
pub open spec fn row_bridge(w: int, x: int, y: int) -> Seq<int> {
    let bottom_left = (y + 1) * w + x;
    let bottom_right = bottom_left + 1;
    seq![
        bottom_left,
        bottom_left + w,
        bottom_right,
        bottom_right,
        bottom_left + w,
        bottom_right + w,
    ]
}

/// All indices emitted for the quad at `(x, y)` of a `w` by `h` grid.
pub open spec fn quad_indices(w: int, h: int, x: int, y: int) -> Seq<int> {
    main_triangles(w, x, y) + (if x < w - 2 {
        column_bridge(w, x, y)
    } else {
        Seq::empty()
    }) + (if y < h - 2 {
        row_bridge(w, x, y)
    } else {
        Seq::empty()
    })
}

/// The indices of the first `n` quads of row `y`.
pub open spec fn row_indices(w: int, h: int, y: int, n: int) -> Seq<int>
    decreases n,
{
    if n <= 0 {
        Seq::empty()
    } else {
        row_indices(w, h, y, n - 1) + quad_indices(w, h, n - 1, y)
    }
}

/// The indices of the first `rows` rows of quads.
pub open spec fn grid_indices(w: int, h: int, rows: int) -> Seq<int>
    decreases rows,
{
    if rows <= 0 {
        Seq::empty()
    } else {
        grid_indices(w, h, rows - 1) + row_indices(w, h, rows - 1, w - 1)
    }
}

/// The index list of a terrain of `w` by `h` samples.
pub open spec fn terrain_indices(w: int, h: int) -> Seq<int> {
    grid_indices(w, h, h - 1)
}

/// An index cut down to its low 32 bits. An index of a terrain that 32
/// bits can number is left as it is.
pub open spec fn cut_index(index: int) -> u32 {
    (index % 0x1_0000_0000) as u32
}

/// A list of indices, each cut down to its low 32 bits.
pub open spec fn cut_indices(indices: Seq<int>) -> Seq<u32> {
    Seq::new(indices.len(), |k: int| cut_index(indices[k]))
}

/// Cutting a joined list is joining the cut lists.
pub proof fn lemma_cut_indices_join(first: Seq<int>, second: Seq<int>)
    ensures
        cut_indices(first + second) == cut_indices(first) + cut_indices(second),
{
    assert(cut_indices(first + second) =~= cut_indices(first) + cut_indices(second));
}

/// A sequence of 32-bit indices as mathematical integers.
pub open spec fn as_ints(s: Seq<u32>) -> Seq<int> {
    s.map_values(|i: u32| i as int)
}

/// How many indices the first `n` quads of row `y` give.
pub open spec fn row_index_count(w: int, h: int, y: int, n: int) -> int {
    if n <= 0 {
        0
    } else {
        6 * n + 6 * (if n <= w - 2 { n } else if w >= 2 { w - 2 } else { 0 }) + (if y < h - 2 {
            6 * n
        } else {
            0
        })
    }
}

/// How many indices a terrain of `w` by `h` samples has.
pub open spec fn terrain_index_count(w: int, h: int) -> int {
    if w <= 1 || h <= 1 {
        0
    } else {
        6 * ((w - 1) * (h - 1) + (w - 2) * (h - 1) + (w - 1) * (h - 2))
    }
}

/// Every index of a quad inside the grid names a sample of the grid.
pub proof fn lemma_quad_indices_in_range(w: int, h: int, x: int, y: int)
    requires
        0 <= x < w - 1,
        0 <= y < h - 1,
    ensures
        forall|k: int|
            0 <= k < quad_indices(w, h, x, y).len() ==> 0 <= #[trigger] quad_indices(w, h, x, y)[k]
                < w * h,
        quad_indices(w, h, x, y).len() == 6 + (if x < w - 2 { 6int } else { 0 }) + (if y < h - 2 {
            6int
        } else {
            0
        }),
{
    assert(0 <= y * w && (y + 1) * w + w <= w * h || y >= h - 2) by (nonlinear_arith)
        requires
            0 <= y < h - 1,
            w >= 2,
    ;
    assert((y + 1) * w <= (h - 1) * w && (h - 1) * w == w * h - w && 0 <= y * w && (y + 1) * w == y
        * w + w) by (nonlinear_arith)
        requires
            0 <= y < h - 1,
            w >= 2,
    ;
    if y < h - 2 {
        assert((y + 2) * w <= (h - 1) * w && (y + 2) * w == (y + 1) * w + w) by (nonlinear_arith)
            requires
                0 <= y < h - 2,
                w >= 2,
        ;
    }
    let q = quad_indices(w, h, x, y);
    assert forall|k: int| 0 <= k < q.len() implies 0 <= #[trigger] q[k] < w * h by {
        let m = main_triangles(w, x, y);
        let c = if x < w - 2 {
            column_bridge(w, x, y)
        } else {
            Seq::empty()
        };
        if k < 6 {
            assert(q[k] == m[k]);
        } else if k < 6 + c.len() {
            assert(q[k] == c[k - 6]);
        } else {
            assert(q[k] == row_bridge(w, x, y)[k - 6 - c.len()]);
        }
    }
}

/// Every index of a row of quads names a sample of the grid, and the row
/// has the stated number of indices.
pub proof fn lemma_row_indices(w: int, h: int, y: int, n: int)
    requires
        0 <= y < h - 1,
        n <= w - 1,
    ensures
        forall|k: int|
            0 <= k < row_indices(w, h, y, n).len() ==> 0 <= #[trigger] row_indices(w, h, y, n)[k]
                < w * h,
        row_indices(w, h, y, n).len() == row_index_count(w, h, y, n),
    decreases n,
{
    if n > 0 {
        lemma_row_indices(w, h, y, n - 1);
        lemma_quad_indices_in_range(w, h, n - 1, y);
    }
}

/// Every index of the first `rows` rows names a sample of the grid, and
/// together they have `rows` times the indices of a full row.
pub proof fn lemma_grid_indices(w: int, h: int, rows: int)
    requires
        rows <= h - 1,
    ensures
        forall|k: int|
            0 <= k < grid_indices(w, h, rows).len() ==> 0 <= #[trigger] grid_indices(w, h, rows)[k]
                < w * h,
        rows <= 0 ==> grid_indices(w, h, rows).len() == 0,
        rows > 0 && w <= 1 ==> grid_indices(w, h, rows).len() == 0,
        rows > 0 && w >= 2 ==> grid_indices(w, h, rows).len() == 6 * ((w - 1) * rows + (w - 2)
            * rows + (w - 1) * (if rows <= h - 2 { rows } else { h - 2 })),
    decreases rows,
{
    if rows > 0 {
        lemma_grid_indices(w, h, rows - 1);
        lemma_row_indices(w, h, rows - 1, w - 1);
        if w >= 2 {
            let r = rows;
            let low = if r - 1 <= h - 2 {
                r - 1
            } else {
                h - 2
            };
            let high = if r <= h - 2 {
                r
            } else {
                h - 2
            };
            assert(low == r - 1);
            assert((w - 1) * r == (w - 1) * (r - 1) + (w - 1)) by (nonlinear_arith);
            assert((w - 2) * r == (w - 2) * (r - 1) + (w - 2)) by (nonlinear_arith);
            assert((w - 1) * 0 == 0 && (w - 2) * 0 == 0) by (nonlinear_arith);
            if r - 1 < h - 2 {
                assert(high == r);
            } else {
                assert(high == r - 1);
            }
            assert(grid_indices(w, h, r - 1).len() == 6 * ((w - 1) * (r - 1) + (w - 2) * (r - 1)
                + (w - 1) * (r - 1)));
            assert(row_indices(w, h, r - 1, w - 1).len() == 6 * (w - 1) + 6 * (w - 2) + (if r - 1
                < h - 2 {
                6 * (w - 1)
            } else {
                0
            }));
        }
    }
}

/// A terrain of more than one row and more than one column has a
/// non-empty index list; one of a single row or column has none. The
/// list has exactly [`terrain_index_count`] entries.
pub proof fn lemma_terrain_index_count(w: int, h: int)
    ensures
        terrain_indices(w, h).len() == terrain_index_count(w, h),
        w > 1 && h > 1 ==> terrain_indices(w, h).len() >= 6,
        w <= 1 || h <= 1 ==> terrain_indices(w, h).len() == 0,
{
    lemma_grid_indices(w, h, h - 1);
    if w > 1 && h > 1 {
        assert((w - 1) * (h - 1) >= 1 && (w - 2) * (h - 1) >= 0 && (w - 1) * (h - 2) >= 0)
            by (nonlinear_arith)
            requires
                w > 1,
                h > 1,
        ;
    }
}

/// Every index of a terrain names one of its `w * h` vertices.
pub proof fn lemma_terrain_indices_in_range(w: int, h: int)
    ensures
        forall|k: int|
            0 <= k < terrain_indices(w, h).len() ==> 0 <= #[trigger] terrain_indices(w, h)[k] < w
                * h,
{
    lemma_grid_indices(w, h, h - 1);
}

/// A terrain has one vertex for each sample.
pub proof fn lemma_terrain_vertex_count(data: LandscapeData)
    ensures
        terrain_vertices(data).len() == data.width * data.height,
{
    assert(data.width * data.height >= 0) by (nonlinear_arith)
        requires
            data.width >= 0,
            data.height >= 0,
    ;
}

/// Column `x` of row `y` is sample number `y * w + x`.
pub proof fn lemma_sample_number(w: int, x: int, y: int)
    requires
        0 <= x < w,
        0 <= y,
    ensures
        (y * w + x) / w == y,
        (y * w + x) % w == x,
{
    vstd::arithmetic::div_mod::lemma_fundamental_div_mod_converse(y * w + x, w, y, x);
}

} // verus!
