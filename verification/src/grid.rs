//! The reference grid: lines on the ground plane, along both axes.

use vstd::prelude::*;
use crate::binding::TextureBindGroup;
use crate::transform::{Transform, MINUS_ONE};
use crate::vertex::{Vertex, ONE, ZERO};

verus! {

/// Where the lines of a grid lie. The lines along the depth axis cross the
/// width axis at `xs`, those along the width axis cross the depth axis at
/// `zs`; each line runs from the near edge to the far edge. Every value is
/// a single-precision coordinate stored as its bit pattern.
#[derive(Clone, Debug, PartialEq, Eq)]
pub struct GridLines {
    pub xs: Vec<u32>,
    pub zs: Vec<u32>,
    pub min_x: u32,
    pub max_x: u32,
    pub min_z: u32,
    pub max_z: u32,
}

/// The largest number of vertices that 16-bit indices can tell apart.
pub const MAX_GRID_VERTICES: usize = 65536;

/// A vertex of the grid at the given coordinates on the ground plane.
pub open spec fn grid_vertex(x: u32, z: u32) -> Vertex {
    Vertex {
        position: [x, ZERO, z],
        normal: [ZERO, ZERO, ZERO],
        tex_coords: [ZERO, ZERO],
        color: [ONE, ONE, ONE],
    }
}

/// The two ends of each of the first `n` lines that cross the width axis.
pub open spec fn depth_lines(lines: GridLines, n: int) -> Seq<Vertex>
    decreases n,
{
    if n <= 0 {
        Seq::empty()
    } else {
        depth_lines(lines, n - 1).push(grid_vertex(lines.xs@[n - 1], lines.min_z)).push(
            grid_vertex(lines.xs@[n - 1], lines.max_z),
        )
    }
}

/// The two ends of each of the first `n` lines that cross the depth axis.
pub open spec fn width_lines(lines: GridLines, n: int) -> Seq<Vertex>
    decreases n,
{
    if n <= 0 {
        Seq::empty()
    } else {
        width_lines(lines, n - 1).push(grid_vertex(lines.min_x, lines.zs@[n - 1])).push(
            grid_vertex(lines.max_x, lines.zs@[n - 1]),
        )
    }
}

/// The vertices of a grid: the ends of the lines across the width axis,
/// then the ends of those across the depth axis.
pub open spec fn grid_vertices(lines: GridLines) -> Seq<Vertex> {
    depth_lines(lines, lines.xs@.len() as int) + width_lines(lines, lines.zs@.len() as int)
}

/// The indices of a grid of `n` vertices: each vertex once, in order, so
/// that every two in a row are the ends of one line.
pub open spec fn grid_line_indices(n: int) -> Seq<u16> {
    Seq::new(n as nat, |k: int| k as u16)
}

/// The first `n` lines across the width axis have two vertices each.
pub proof fn lemma_depth_lines_len(lines: GridLines, n: int)
    requires
        0 <= n,
    ensures
        depth_lines(lines, n).len() == 2 * n,
    decreases n,
{
    if n > 0 {
        lemma_depth_lines_len(lines, n - 1);
    }
}

/// The first `n` lines across the depth axis have two vertices each.
pub proof fn lemma_width_lines_len(lines: GridLines, n: int)
    requires
        0 <= n,
    ensures
        width_lines(lines, n).len() == 2 * n,
    decreases n,
{
    if n > 0 {
        lemma_width_lines_len(lines, n - 1);
    }
}

/// The reference grid of the scene.
#[derive(Clone, Debug, PartialEq, Eq)]
pub struct Grid {
    pub transform: Transform,
    pub vertices: Vec<Vertex>,
    pub indices: Vec<u16>,
    pub index_count: u32,
    pub texture_bind_group: TextureBindGroup,
}

impl Grid {
    /// The grid is whole: it has one index for each vertex and its index
    /// count is that of its index list.
    pub open spec fn well_formed(&self) -> bool {
        &&& self.index_count == self.indices@.len()
        &&& self.indices@.len() == self.vertices@.len()
        &&& forall|k: int| 0 <= k < self.indices@.len() ==> (#[trigger] self.indices@[k]) == k
    }

    /// Whether the grid is whole.
    pub fn is_well_formed(&self) -> (ok: bool)
        ensures
            ok == self.well_formed(),
    {
        if self.indices.len() > u32::MAX as usize || self.index_count != self.indices.len() as u32
            || self.indices.len() != self.vertices.len() {
            return false;
        }
        let mut k: usize = 0;
        while k < self.indices.len()
            invariant
                k <= self.indices@.len(),
                forall|j: int| 0 <= j < k ==> (#[trigger] self.indices@[j]) == j,
            decreases self.indices@.len() - k,
        {
            if self.indices[k] as usize != k {
                return false;
            }
            k = k + 1;
        }
        true
    }

    /// Whether the lines are few enough for 16-bit indices.
    pub open spec fn spec_can_build(lines: &GridLines) -> bool {
        2 * (lines.xs@.len() + lines.zs@.len()) <= MAX_GRID_VERTICES
    }

    /// Whether the lines are few enough for 16-bit indices.
    #[verifier::when_used_as_spec(spec_can_build)]
    pub fn can_build(lines: &GridLines) -> (ok: bool)
        ensures
            ok == Grid::spec_can_build(lines),
    {
        lines.xs.len() <= MAX_GRID_VERTICES / 2 && lines.zs.len() <= MAX_GRID_VERTICES / 2
            - lines.xs.len()
    }

    /// The grid over the given lines, one unit below the origin, shaded
    /// flat from its vertex colors.
    pub fn new(lines: &GridLines) -> (grid: Self)
        requires
            Grid::can_build(lines),
        ensures
            grid.transform == (Transform {
                position: [ZERO, MINUS_ONE, ZERO],
                rotation: [ZERO, ZERO, ZERO],
                scale: [ONE, ONE, ONE],
            }),
            grid.vertices@ == grid_vertices(*lines),
            grid.indices@ == grid_line_indices(grid_vertices(*lines).len() as int),
            grid.index_count == 2 * (lines.xs@.len() + lines.zs@.len()),
            grid.texture_bind_group == TextureBindGroup::flat(),
            grid.well_formed(),
    {
        let (vertices, indices) = Self::generate_grid(lines);
        proof {
            lemma_depth_lines_len(*lines, lines.xs@.len() as int);
            lemma_width_lines_len(*lines, lines.zs@.len() as int);
        }
        let index_count: u32 = indices.len() as u32;
        Grid {
            transform: Transform::new(
                [ZERO, MINUS_ONE, ZERO],
                [ZERO, ZERO, ZERO],
                [ONE, ONE, ONE],
            ),
            vertices,
            indices,
            index_count,
            texture_bind_group: TextureBindGroup::flat(),
        }
    }

    /// The vertices and indices of the grid over the given lines.
    fn generate_grid(lines: &GridLines) -> (mesh: (Vec<Vertex>, Vec<u16>))
        requires
            Grid::can_build(lines),
        ensures
            mesh.0@ == grid_vertices(*lines),
            mesh.1@ == grid_line_indices(grid_vertices(*lines).len() as int),
    {
        let mut vertices: Vec<Vertex> = Vec::new();
        let mut indices: Vec<u16> = Vec::new();
        let columns: usize = lines.xs.len();
        let rows: usize = lines.zs.len();
        let mut i: usize = 0;
        while i < columns
            invariant
                i <= columns,
                columns == lines.xs@.len(),
                2 * columns <= MAX_GRID_VERTICES,
                vertices@ == depth_lines(*lines, i as int),
                indices@ == grid_line_indices(2 * i),
            decreases columns - i,
        {
            let x: u32 = lines.xs[i];
            vertices.push(
                Vertex {
                    position: [x, ZERO, lines.min_z],
                    normal: [ZERO, ZERO, ZERO],
                    tex_coords: [ZERO, ZERO],
                    color: [ONE, ONE, ONE],
                },
            );
            vertices.push(
                Vertex {
                    position: [x, ZERO, lines.max_z],
                    normal: [ZERO, ZERO, ZERO],
                    tex_coords: [ZERO, ZERO],
                    color: [ONE, ONE, ONE],
                },
            );
            indices.push((i * 2) as u16);
            indices.push((i * 2 + 1) as u16);
            assert(indices@ =~= grid_line_indices(2 * (i + 1)));
            i = i + 1;
        }
        let base: usize = vertices.len();
        proof {
            lemma_depth_lines_len(*lines, columns as int);
        }
        let mut i: usize = 0;
        while i < rows
            invariant
                i <= rows,
                rows == lines.zs@.len(),
                columns == lines.xs@.len(),
                base == 2 * columns,
                2 * (columns + rows) <= MAX_GRID_VERTICES,
                vertices@ == depth_lines(*lines, columns as int) + width_lines(*lines, i as int),
                indices@ == grid_line_indices(base + 2 * i),
            decreases rows - i,
        {
            let z: u32 = lines.zs[i];
            vertices.push(
                Vertex {
                    position: [lines.min_x, ZERO, z],
                    normal: [ZERO, ZERO, ZERO],
                    tex_coords: [ZERO, ZERO],
                    color: [ONE, ONE, ONE],
                },
            );
            vertices.push(
                Vertex {
                    position: [lines.max_x, ZERO, z],
                    normal: [ZERO, ZERO, ZERO],
                    tex_coords: [ZERO, ZERO],
                    color: [ONE, ONE, ONE],
                },
            );
            indices.push((base + i * 2) as u16);
            indices.push((base + i * 2 + 1) as u16);
            assert(vertices@ =~= depth_lines(*lines, columns as int) + width_lines(
                *lines,
                i + 1,
            ));
            assert(indices@ =~= grid_line_indices(base + 2 * (i + 1)));
            i = i + 1;
        }
        proof {
            lemma_width_lines_len(*lines, rows as int);
        }
        (vertices, indices)
    }
}

} // verus!
