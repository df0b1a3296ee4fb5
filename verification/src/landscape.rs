//! A landscape: terrain built from a heightmap, with up to six texture
//! layers packed into one texture array.

use vstd::prelude::*;
use crate::binding::TextureBindGroup;
use crate::heightmap::LandscapeData;
use crate::terrain::{
    as_ints, column_bridge, cut_index, cut_indices, grid_indices, lemma_cut_indices_join,
    lemma_sample_number, lemma_terrain_index_count, lemma_terrain_indices_in_range,
    lemma_terrain_vertex_count, main_triangles, row_bridge, row_indices, terrain_index_count,
    terrain_indices, terrain_vertices, terrain_vertices_prefix,
};
use crate::texture::{Extent3d, Texture};
use crate::transform::{Transform, MINUS_HUNDRED};
use crate::vertex::{Vertex, ONE, ZERO};

verus! {

/// The number of layers of a landscape's texture array.
pub const LAYER_COUNT: u32 = 6;

/// The texture layers of a landscape: three color textures, each with the
/// mask that says where it shows.
#[derive(Clone, Copy, Debug, PartialEq, Eq, Structural)]
pub enum LandscapeTextureKinds {
    Primary,
    PrimaryMask,
    Rockmap,
    RockmapMask,
    Soil,
    SoilMask,
}

impl LandscapeTextureKinds {
    /// The layer of the texture array that holds this kind.
    pub open spec fn spec_layer(self) -> u32 {
        match self {
            LandscapeTextureKinds::Primary => 0,
            LandscapeTextureKinds::PrimaryMask => 1,
            LandscapeTextureKinds::Rockmap => 2,
            LandscapeTextureKinds::RockmapMask => 3,
            LandscapeTextureKinds::Soil => 4,
            LandscapeTextureKinds::SoilMask => 5,
        }
    }

    /// The layer of the texture array that holds this kind.
    #[verifier::when_used_as_spec(spec_layer)]
    pub fn layer(self) -> (layer: u32)
        ensures
            layer == self.spec_layer(),
            layer < LAYER_COUNT,
    {
        match self {
            LandscapeTextureKinds::Primary => 0,
            LandscapeTextureKinds::PrimaryMask => 1,
            LandscapeTextureKinds::Rockmap => 2,
            LandscapeTextureKinds::RockmapMask => 3,
            LandscapeTextureKinds::Soil => 4,
            LandscapeTextureKinds::SoilMask => 5,
        }
    }
}

/// The texture array of a landscape: what each of its six layers holds.
/// A layer that was never written holds nothing.
#[derive(Clone, Debug, PartialEq, Eq)]
pub struct TextureArray {
    pub size: Extent3d,
    pub layers: Vec<Option<Vec<u8>>>,
}

/// What the layers of an array hold before anything is written to them.
pub open spec fn blank_layers() -> Seq<Option<Seq<u8>>> {
    Seq::new(LAYER_COUNT as nat, |i: int| None)
}

impl TextureArray {
    /// The array has its six layers.
    pub open spec fn well_formed(&self) -> bool {
        &&& self.layers@.len() == LAYER_COUNT
        &&& self.size.depth_or_array_layers == LAYER_COUNT
    }

    /// Whether the array has its six layers.
    pub fn is_well_formed(&self) -> (ok: bool)
        ensures
            ok == self.well_formed(),
    {
        self.layers.len() == LAYER_COUNT as usize && self.size.depth_or_array_layers
            == LAYER_COUNT
    }

    /// The bytes held by each layer.
    pub open spec fn layers_view(&self) -> Seq<Option<Seq<u8>>> {
        Seq::new(
            self.layers@.len(),
            |i: int|
                match self.layers@[i] {
                    Some(bytes) => Some(bytes@),
                    None => None,
                },
        )
    }
}

/// The layers of a landscape's array, blank where it has no array yet.
pub open spec fn layers_of(array: Option<TextureArray>) -> Seq<Option<Seq<u8>>> {
    match array {
        Some(array) => array.layers_view(),
        None => blank_layers(),
    }
}

/// The extent of a landscape's array once `texture` is attached: that of
/// the array it has, or else six layers of the texture's own size.
pub open spec fn extent_with(array: Option<TextureArray>, texture: Texture) -> Extent3d {
    match array {
        Some(array) => array.size,
        None => Extent3d {
            width: texture.width,
            height: texture.height,
            depth_or_array_layers: LAYER_COUNT,
        },
    }
}

/// A terrain entity of the scene.
#[derive(Clone, Debug, PartialEq, Eq)]
pub struct Landscape {
    pub id: String,
    pub transform: Transform,
    pub vertices: Vec<Vertex>,
    pub indices: Vec<u32>,
    pub index_count: u32,
    pub texture_array: Option<TextureArray>,
    pub texture_bind_group: Option<TextureBindGroup>,
}

impl Landscape {
    /// The landscape is whole: its index count is that of its index list,
    /// every index names one of its vertices, and it has a texture bind
    /// group exactly when it has a texture array, which the bind group then
    /// shows.
    pub open spec fn well_formed(&self) -> bool {
        &&& self.index_count == self.indices@.len()
        &&& forall|k: int|
            0 <= k < self.indices@.len() ==> (#[trigger] self.indices@[k]) < self.vertices@.len()
        &&& match self.texture_array {
            Some(array) => {
                &&& array.well_formed()
                &&& self.texture_bind_group == Some(TextureBindGroup::layered(array.size))
            },
            None => self.texture_bind_group is None,
        }
    }

    /// Whether the landscape is whole.
    pub fn is_well_formed(&self) -> (ok: bool)
        ensures
            ok == self.well_formed(),
    {
        if self.indices.len() > u32::MAX as usize || self.index_count != self.indices.len() as u32 {
            return false;
        }
        let mut k: usize = 0;
        while k < self.indices.len()
            invariant
                k <= self.indices@.len(),
                forall|j: int| 0 <= j < k ==> (#[trigger] self.indices@[j]) < self.vertices@.len(),
            decreases self.indices@.len() - k,
        {
            if self.indices[k] as usize >= self.vertices.len() {
                return false;
            }
            k = k + 1;
        }
        match &self.texture_array {
            Some(array) => {
                array.is_well_formed() && match self.texture_bind_group {
                    Some(group) => group == TextureBindGroup::layered(array.size),
                    None => false,
                }
            },
            None => self.texture_bind_group.is_none(),
        }
    }

    /// Whether a landscape can be built from `data`: the grid has the size
    /// it states, and its vertices and indices can be counted in 32 bits.
    pub open spec fn spec_can_build(data: &LandscapeData) -> bool {
        &&& data.well_formed()
        &&& data.width * data.height <= u32::MAX
        &&& terrain_index_count(data.width as int, data.height as int) <= u32::MAX
    }

    /// Whether a landscape can be built from `data`.
    #[verifier::when_used_as_spec(spec_can_build)]
    pub fn can_build(data: &LandscapeData) -> (ok: bool)
        ensures
            ok == Landscape::spec_can_build(data),
    {
        if !data.is_well_formed() {
            return false;
        }
        let w: u128 = data.width as u128;
        let h: u128 = data.height as u128;
        assert(w * h <= 0xFFFF_FFFF_FFFF_FFFF * 0xFFFF_FFFF_FFFF_FFFF) by (nonlinear_arith)
            requires
                w <= 0xFFFF_FFFF_FFFF_FFFF,
                h <= 0xFFFF_FFFF_FFFF_FFFF,
        ;
        if w * h > u32::MAX as u128 {
            return false;
        }
        if w <= 1 || h <= 1 {
            return true;
        }
        assert(w - 1 <= w * h && h - 1 <= w * h && (w - 1) * (h - 1) <= w * h && (w - 2) * (h
            - 1) <= w * h && (w - 1) * (h - 2) <= w * h) by (nonlinear_arith)
            requires
                w >= 2,
                h >= 2,
        ;
        let quads: u128 = (w - 1) * (h - 1) + (w - 2) * (h - 1) + (w - 1) * (h - 2);
        6 * quads <= u32::MAX as u128
    }

    /// The landscape with the given id whose terrain is built from `data`.
    /// It stands a hundred units below the origin and has no texture yet.
    pub fn new(id: &String, data: &LandscapeData) -> (landscape: Self)
        requires
            Landscape::can_build(data),
        ensures
            landscape.id@ == id@,
            landscape.transform == (Transform {
                position: [ZERO, MINUS_HUNDRED, ZERO],
                rotation: [ZERO, ZERO, ZERO],
                scale: [ONE, ONE, ONE],
            }),
            landscape.vertices@ == terrain_vertices(*data),
            as_ints(landscape.indices@) == terrain_indices(data.width as int, data.height as int),
            landscape.index_count == landscape.indices@.len(),
            landscape.texture_array is None,
            landscape.texture_bind_group is None,
            landscape.well_formed(),
    {
        let (vertices, indices) = Self::generate_terrain(data);
        proof {
            lemma_terrain_index_count(data.width as int, data.height as int);
            lemma_terrain_indices_in_range(data.width as int, data.height as int);
            lemma_terrain_vertex_count(*data);
            assert forall|k: int| 0 <= k < indices@.len() implies (#[trigger] indices@[k])
                < vertices@.len() by {
                assert(as_ints(indices@)[k] == indices@[k] as int);
            }
        }
        let index_count: u32 = indices.len() as u32;
        Self {
            id: id.clone(),
            transform: Transform::new(
                [ZERO, MINUS_HUNDRED, ZERO],
                [ZERO, ZERO, ZERO],
                [ONE, ONE, ONE],
            ),
            vertices,
            indices,
            index_count,
            texture_array: None,
            texture_bind_group: None,
        }
    }

    /// Attaches `new_texture` as the layer of the given kind. The first
    /// attach allocates the texture array, six layers of the texture's own
    /// size; every attach writes its layer and rebuilds the bind group over
    /// the array. Returns whether the array was allocated by this call.
    ///
    /// By contract with the caller, a texture attached to an existing
    /// array has the array's width and height.
    pub fn update_texture(&mut self, kind: LandscapeTextureKinds, new_texture: &Texture) -> (allocated:
        bool)
        requires
            old(self).well_formed(),
        ensures
            final(self).well_formed(),
            allocated == (old(self).texture_array is None),
            final(self).texture_array matches Some(array) && {
                &&& array.size == extent_with(old(self).texture_array, *new_texture)
                &&& array.layers_view() == layers_of(old(self).texture_array).update(
                    kind.layer() as int,
                    Some(new_texture.data@),
                )
            },
            final(self).id == old(self).id,
            final(self).transform == old(self).transform,
            final(self).vertices == old(self).vertices,
            final(self).indices == old(self).indices,
            final(self).index_count == old(self).index_count,
    {
        let layer: usize = kind.layer() as usize;
        let allocated = self.texture_array.is_none();
        if allocated {
            self.create_texture_array(new_texture.size());
        }
        let bytes = new_texture.data.clone();
        assert(bytes@ =~= new_texture.data@);
        let ghost before = layers_of(self.texture_array);
        assert(before == layers_of(old(self).texture_array));
        match &mut self.texture_array {
            Some(array) => {
                array.layers[layer] = Some(bytes);
                assert(array.layers_view() =~= before.update(layer as int, Some(bytes@)));
            },
            None => {},
        }
        self.update_bind_group();
        allocated
    }

    /// Allocates the texture array: six blank layers of the width and
    /// height of `size`.
    fn create_texture_array(&mut self, size: Extent3d)
        ensures
            final(self).texture_array matches Some(array) && {
                &&& array.well_formed()
                &&& array.size == (Extent3d {
                    width: size.width,
                    height: size.height,
                    depth_or_array_layers: LAYER_COUNT,
                })
                &&& array.layers_view() == blank_layers()
            },
            final(self).texture_bind_group == old(self).texture_bind_group,
            final(self).id == old(self).id,
            final(self).transform == old(self).transform,
            final(self).vertices == old(self).vertices,
            final(self).indices == old(self).indices,
            final(self).index_count == old(self).index_count,
    {
        let mut layers: Vec<Option<Vec<u8>>> = Vec::new();
        let mut i: u32 = 0;
        while i < LAYER_COUNT
            invariant
                i <= LAYER_COUNT,
                layers@.len() == i,
                forall|k: int| 0 <= k < i ==> (#[trigger] layers@[k]) is None,
            decreases LAYER_COUNT - i,
        {
            layers.push(None);
            i = i + 1;
        }
        let array = TextureArray {
            size: Extent3d {
                width: size.width,
                height: size.height,
                depth_or_array_layers: LAYER_COUNT,
            },
            layers,
        };
        assert(array.layers_view() =~= blank_layers());
        self.texture_array = Some(array);
    }

    /// Rebuilds the texture bind group from the texture array. Without an
    /// array the bind group stays as it is.
    fn update_bind_group(&mut self)
        ensures
            final(self).texture_bind_group == (match old(self).texture_array {
                Some(array) => Some(TextureBindGroup::layered(array.size)),
                None => old(self).texture_bind_group,
            }),
            final(self).texture_array == old(self).texture_array,
            final(self).id == old(self).id,
            final(self).transform == old(self).transform,
            final(self).vertices == old(self).vertices,
            final(self).indices == old(self).indices,
            final(self).index_count == old(self).index_count,
    {
        match &self.texture_array {
            Some(array) => {
                self.texture_bind_group = Some(TextureBindGroup::layered(array.size));
            },
            None => {},
        }
    }

    /// Builds the vertices and the indices of the terrain of `data`: one
    /// vertex for each sample, row by row, and the triangles of every quad.
    /// The indices are 32 bits wide: where the terrain has more samples
    /// than 32 bits can number, each index is cut down to its low 32 bits.
    pub fn generate_terrain(data: &LandscapeData) -> (mesh: (Vec<Vertex>, Vec<u32>))
        requires
            data.well_formed(),
        ensures
            mesh.0@ == terrain_vertices(*data),
            mesh.1@ == cut_indices(terrain_indices(data.width as int, data.height as int)),
            data.width * data.height <= u32::MAX ==> as_ints(mesh.1@) == terrain_indices(
                data.width as int,
                data.height as int,
            ),
            mesh.0@.len() == data.width * data.height,
            mesh.1@.len() == terrain_index_count(data.width as int, data.height as int),
            data.width > 1 && data.height > 1 ==> mesh.1@.len() > 0,
            data.width <= 1 || data.height <= 1 ==> mesh.1@.len() == 0,
            forall|k: int|
                0 <= k < mesh.1@.len() ==> (#[trigger] mesh.1@[k]) < data.width * data.height,
    {
        let w: usize = data.width;
        let h: usize = data.height;
        let mut vertices: Vec<Vertex> = Vec::new();
        let mut y: usize = 0;
        assert(vertices@ =~= terrain_vertices_prefix(*data, 0));
        while y < h
            invariant
                y <= h,
                w == data.width,
                h == data.height,
                data.well_formed(),
                vertices@ == terrain_vertices_prefix(*data, y * w),
            decreases h - y,
        {
            let mut x: usize = 0;
            while x < w
                invariant
                    x <= w,
                    y < h,
                    w == data.width,
                    h == data.height,
                    data.well_formed(),
                    vertices@ == terrain_vertices_prefix(*data, y * w + x),
                decreases w - x,
            {
                let sample = data.pixel_data[y][x];
                vertices.push(
                    Vertex {
                        position: sample.position,
                        normal: [ZERO, ZERO, ZERO],
                        tex_coords: sample.tex_coords,
                        color: [ONE, ONE, ONE],
                    },
                );
                proof {
                    lemma_sample_number(w as int, x as int, y as int);
                    assert(y * w >= 0) by (nonlinear_arith)
                        requires
                            y >= 0,
                            w >= 0,
                    ;
                    assert(vertices@ =~= terrain_vertices_prefix(*data, y * w + x + 1));
                }
                x = x + 1;
            }
            proof {
                assert(y * w + w == (y + 1) * w) by (nonlinear_arith);
            }
            y = y + 1;
        }
        let mut indices: Vec<u32> = Vec::new();
        proof {
            assert(h * w == w * h) by (nonlinear_arith);
            assert(h * w >= 0) by (nonlinear_arith)
                requires
                    h >= 0,
                    w >= 0,
            ;
            // the vertices have been built, so a machine word counts them
            assert(vertices@.len() == h * w);
            assert(vertices@.len() == vertices.len());
            lemma_terrain_index_count(w as int, h as int);
            assert(indices@ =~= cut_indices(Seq::<int>::empty()));
        }
        if w >= 2 && h >= 2 {
            let mut y: usize = 0;
            while y < h - 1
                invariant
                    y <= h - 1,
                    w >= 2,
                    h >= 2,
                    w * h <= usize::MAX,
                    indices@ == cut_indices(grid_indices(w as int, h as int, y as int)),
                decreases h - 1 - y,
            {
                let mut x: usize = 0;
                proof {
                    assert((y + 2) * w <= h * w && y * w >= 0 && (y + 2) * w == y * w + 2 * w && h
                        * w == w * h) by (nonlinear_arith)
                        requires
                            0 <= y < h - 1,
                            w >= 2,
                    ;
                    assert(indices@ =~= cut_indices(
                        grid_indices(w as int, h as int, y as int) + row_indices(
                            w as int,
                            h as int,
                            y as int,
                            0,
                        ),
                    ));
                }
                while x < w - 1
                    invariant
                        x <= w - 1,
                        y < h - 1,
                        w >= 2,
                        h >= 2,
                        w * h <= usize::MAX,
                        y * w + 2 * w <= w * h,
                        y * w >= 0,
                        indices@ == cut_indices(
                            grid_indices(w as int, h as int, y as int) + row_indices(
                                w as int,
                                h as int,
                                y as int,
                                x as int,
                            ),
                        ),
                    decreases w - 1 - x,
                {
                    let ghost earlier = grid_indices(w as int, h as int, y as int) + row_indices(
                        w as int,
                        h as int,
                        y as int,
                        x as int,
                    );
                    let ghost main = main_triangles(w as int, x as int, y as int);
                    let ghost across = if x < w - 2 {
                        column_bridge(w as int, x as int, y as int)
                    } else {
                        Seq::<int>::empty()
                    };
                    let ghost below = if y < h - 2 {
                        row_bridge(w as int, x as int, y as int)
                    } else {
                        Seq::<int>::empty()
                    };
                    proof {
                        assert((y + 1) * w == y * w + w) by (nonlinear_arith);
                    }
                    let top_left: usize = y * w + x;
                    let top_right: usize = top_left + 1;
                    let bottom_left: usize = top_left + w;
                    let bottom_right: usize = bottom_left + 1;
                    push_triangles(
                        &mut indices,
                        [top_left, bottom_left, top_right, top_right, bottom_left, bottom_right],
                        Ghost(main),
                    );
                    if x < w - 2 {
                        push_triangles(
                            &mut indices,
                            [
                                top_right,
                                bottom_right,
                                top_right + 1,
                                bottom_right,
                                bottom_right + 1,
                                top_right + 1,
                            ],
                            Ghost(across),
                        );
                    }
                    assert(indices@ == cut_indices(earlier) + cut_indices(main) + cut_indices(
                        across,
                    )) by {
                        assert(cut_indices(Seq::<int>::empty()) =~= Seq::<u32>::empty());
                        assert(cut_indices(earlier) + cut_indices(main) + Seq::<u32>::empty()
                            =~= cut_indices(earlier) + cut_indices(main));
                    }
                    if y < h - 2 {
                        proof {
                            assert((y + 3) * w <= h * w && (y + 3) * w == y * w + 3 * w && h * w
                                == w * h) by (nonlinear_arith)
                                requires
                                    0 <= y < h - 2,
                                    w >= 2,
                            ;
                        }
                        push_triangles(
                            &mut indices,
                            [
                                bottom_left,
                                bottom_left + w,
                                bottom_right,
                                bottom_right,
                                bottom_left + w,
                                bottom_right + w,
                            ],
                            Ghost(below),
                        );
                    }
                    proof {
                        assert(cut_indices(Seq::<int>::empty()) =~= Seq::<u32>::empty());
                        assert(indices@ =~= cut_indices(earlier) + cut_indices(main)
                            + cut_indices(across) + cut_indices(below));
                        lemma_cut_indices_join(earlier, main);
                        lemma_cut_indices_join(earlier + main, across);
                        lemma_cut_indices_join(earlier + main + across, below);
                        assert(earlier + main + across + below =~= grid_indices(
                            w as int,
                            h as int,
                            y as int,
                        ) + row_indices(w as int, h as int, y as int, x + 1));
                    }
                    x = x + 1;
                }
                y = y + 1;
            }
        }
        proof {
            lemma_terrain_vertex_count(*data);
            lemma_terrain_index_count(w as int, h as int);
            lemma_terrain_indices_in_range(w as int, h as int);
            let exact = terrain_indices(w as int, h as int);
            if w * h <= u32::MAX {
                assert(as_ints(indices@) =~= exact) by {
                    assert forall|k: int| 0 <= k < exact.len() implies as_ints(indices@)[k]
                        == exact[k] by {
                        assert(0 <= exact[k] < w * h);
                        assert(indices@[k] == cut_index(exact[k]));
                    }
                }
            }
            assert forall|k: int| 0 <= k < indices@.len() implies (#[trigger] indices@[k]) < w
                * h by {
                assert(indices@[k] == cut_index(exact[k]));
                assert(0 <= exact[k] < w * h);
            }
        }
        (vertices, indices)
    }
}

/// Appends six indices, each cut down to its low 32 bits.
fn push_triangles(indices: &mut Vec<u32>, corners: [usize; 6], Ghost(exact): Ghost<Seq<int>>)
    requires
        exact == seq![
            corners[0] as int,
            corners[1] as int,
            corners[2] as int,
            corners[3] as int,
            corners[4] as int,
            corners[5] as int,
        ],
    ensures
        final(indices)@ == old(indices)@ + cut_indices(exact),
{
    indices.push(cut(corners[0]));
    indices.push(cut(corners[1]));
    indices.push(cut(corners[2]));
    indices.push(cut(corners[3]));
    indices.push(cut(corners[4]));
    indices.push(cut(corners[5]));
    assert(indices@ =~= old(indices)@ + cut_indices(exact));
}

/// Cuts an index down to its low 32 bits.
fn cut(index: usize) -> (cut: u32)
    ensures
        cut == cut_index(index as int),
{
    let wide: u64 = index as u64;
    (wide % 0x1_0000_0000) as u32
}

} // verus!
