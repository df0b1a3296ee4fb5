//! A model: the meshes of an imported asset, with the textures they show.

use vstd::prelude::*;
use crate::binding::{TextureBindGroup, TextureView};
use crate::error::FatalLoadError;
use crate::texture::Texture;
use crate::transform::Transform;
use crate::vertex::{Vertex, ONE, ZERO};

verus! {

/// What was read of one primitive of an asset. Positions are always
/// there; the other attributes and the indices may be missing. Every
/// component of an attribute is a single-precision value stored as its
/// bit pattern.
#[derive(Clone, Debug, PartialEq, Eq)]
pub struct PrimitiveData {
    pub positions: Vec<[u32; 3]>,
    pub normals: Option<Vec<[u32; 3]>>,
    pub tex_coords: Option<Vec<[u32; 2]>>,
    pub colors: Option<Vec<[u32; 3]>>,
    pub indices: Option<Vec<u32>>,
    /// The texture of the material's base color, by its index among the
    /// textures of the asset.
    pub base_color_texture: Option<usize>,
}

/// The mathematical content of a [`PrimitiveData`].
pub struct PrimitiveItems {
    pub positions: Seq<[u32; 3]>,
    pub normals: Option<Seq<[u32; 3]>>,
    pub tex_coords: Option<Seq<[u32; 2]>>,
    pub colors: Option<Seq<[u32; 3]>>,
    pub indices: Option<Seq<u32>>,
    pub base_color_texture: Option<usize>,
}

impl View for PrimitiveData {
    type V = PrimitiveItems;

    open spec fn view(&self) -> PrimitiveItems {
        PrimitiveItems {
            positions: self.positions@,
            normals: match self.normals {
                Some(items) => Some(items@),
                None => None,
            },
            tex_coords: match self.tex_coords {
                Some(items) => Some(items@),
                None => None,
            },
            colors: match self.colors {
                Some(items) => Some(items@),
                None => None,
            },
            indices: match self.indices {
                Some(items) => Some(items@),
                None => None,
            },
            base_color_texture: self.base_color_texture,
        }
    }
}

/// One drawable mesh of a model.
#[derive(Clone, Debug, PartialEq, Eq)]
pub struct Mesh {
    pub transform: Transform,
    pub vertices: Vec<Vertex>,
    pub indices: Vec<u16>,
    pub index_count: u32,
    pub texture_bind_group: TextureBindGroup,
}

/// The mathematical content of a [`Mesh`].
pub struct MeshData {
    pub transform: Transform,
    pub vertices: Seq<Vertex>,
    pub indices: Seq<u16>,
    pub index_count: u32,
    pub texture_bind_group: TextureBindGroup,
}

impl View for Mesh {
    type V = MeshData;

    open spec fn view(&self) -> MeshData {
        MeshData {
            transform: self.transform,
            vertices: self.vertices@,
            indices: self.indices@,
            index_count: self.index_count,
            texture_bind_group: self.texture_bind_group,
        }
    }
}

/// The mathematical content of a [`Texture`] of four 8-bit channels.
pub struct ImageData {
    pub data: Seq<u8>,
    pub width: u32,
    pub height: u32,
}

/// The content of a texture.
pub open spec fn image_data(texture: Texture) -> ImageData {
    ImageData { data: texture.data@, width: texture.width, height: texture.height }
}

/// The meshes of an asset, in the order in which the asset lists them, and
/// the textures of the asset, decoded to four 8-bit channels.
#[derive(Clone, Debug, PartialEq, Eq)]
pub struct Model {
    pub meshes: Vec<Mesh>,
    pub textures: Vec<Texture>,
}

/// The mathematical content of a [`Model`].
pub struct ModelData {
    pub meshes: Seq<MeshData>,
    pub textures: Seq<ImageData>,
}

impl View for Model {
    type V = ModelData;

    open spec fn view(&self) -> ModelData {
        ModelData {
            meshes: Seq::new(self.meshes@.len(), |m: int| self.meshes@[m]@),
            textures: Seq::new(self.textures@.len(), |t: int| image_data(self.textures@[t])),
        }
    }
}

/// The smaller of two numbers.
pub open spec fn least(a: int, b: int) -> int {
    if a <= b {
        a
    } else {
        b
    }
}

/// The number of items of an attribute, or `n` where it is missing and
/// stands in with one default for each position.
pub open spec fn count_or<T>(items: Option<Seq<T>>, n: int) -> int {
    match items {
        Some(items) => items.len() as int,
        None => n,
    }
}

/// The number of vertices of a primitive: that of the shortest of its
/// attributes.
pub open spec fn primitive_vertex_count(items: PrimitiveItems) -> int {
    let n = items.positions.len() as int;
    least(
        least(least(n, count_or(items.normals, n)), count_or(items.tex_coords, n)),
        count_or(items.colors, n),
    )
}

/// Vertex `k` of a primitive. A missing normal points along the depth
/// axis, a missing texture coordinate is the origin, a missing color is
/// white.
pub open spec fn primitive_vertex(items: PrimitiveItems, k: int) -> Vertex {
    Vertex {
        position: items.positions[k],
        normal: match items.normals {
            Some(normals) => normals[k],
            None => [ZERO, ZERO, ONE],
        },
        tex_coords: match items.tex_coords {
            Some(tex_coords) => tex_coords[k],
            None => [ZERO, ZERO],
        },
        color: match items.colors {
            Some(colors) => colors[k],
            None => [ONE, ONE, ONE],
        },
    }
}

/// The vertices of a primitive.
pub open spec fn primitive_vertices(items: PrimitiveItems) -> Seq<Vertex> {
    Seq::new(primitive_vertex_count(items) as nat, |k: int| primitive_vertex(items, k))
}

/// An index cut down to its low 16 bits.
pub open spec fn narrow_index(index: u32) -> u16 {
    (index % 0x1_0000) as u16
}

/// The indices of a primitive, cut down to 16 bits; none where the
/// primitive has no indices.
pub open spec fn primitive_indices(items: PrimitiveItems) -> Seq<u16> {
    match items.indices {
        Some(indices) => Seq::new(indices.len(), |k: int| narrow_index(indices[k])),
        None => Seq::empty(),
    }
}

/// The bind group of a mesh of an asset with `textures` textures. An
/// asset without textures is shaded flat over the default texture; in an
/// asset with textures a mesh samples the texture of its base color, or
/// the first texture where its material names none.
pub open spec fn primitive_binding(base_color_texture: Option<usize>, textures: int)
    -> TextureBindGroup {
    if textures > 0 {
        TextureBindGroup::textured(
            match base_color_texture {
                Some(index) => index,
                None => 0,
            },
        )
    } else {
        TextureBindGroup::flat()
    }
}

/// The mesh made of a primitive in an asset with `textures` textures, or
/// the error where the indices are too many to count in 32 bits.
pub open spec fn mesh_of(items: PrimitiveItems, textures: int) -> Result<
    MeshData,
    FatalLoadError,
> {
    if primitive_indices(items).len() > u32::MAX {
        Err(FatalLoadError::MalformedGeometry)
    } else {
        Ok(
            MeshData {
                transform: Transform::identity(),
                vertices: primitive_vertices(items),
                indices: primitive_indices(items),
                index_count: primitive_indices(items).len() as u32,
                texture_bind_group: primitive_binding(items.base_color_texture, textures),
            },
        )
    }
}

/// The content of a mesh or an error, from a result over a mesh.
pub open spec fn mesh_result_view(result: Result<Mesh, FatalLoadError>) -> Result<
    MeshData,
    FatalLoadError,
> {
    match result {
        Ok(mesh) => Ok(mesh@),
        Err(error) => Err(error),
    }
}

impl Mesh {
    /// The mesh is whole with respect to a model of `textures` textures:
    /// its index count is that of its index list, and its bind group shows
    /// either the default texture, shaded flat, or one of the model's
    /// textures, sampled.
    pub open spec fn well_formed(&self, textures: int) -> bool {
        &&& self.index_count == self.indices@.len()
        &&& (self.texture_bind_group == TextureBindGroup::flat() || exists|index: usize|
            index < textures && self.texture_bind_group == TextureBindGroup::textured(index))
    }

    /// Whether the mesh is whole with respect to a model of `textures`
    /// textures.
    pub fn is_well_formed(&self, textures: usize) -> (ok: bool)
        ensures
            ok == self.well_formed(textures as int),
    {
        if self.indices.len() > u32::MAX as usize || self.index_count != self.indices.len() as u32 {
            return false;
        }
        if self.texture_bind_group == TextureBindGroup::flat() {
            return true;
        }
        match self.texture_bind_group.view {
            TextureView::Image(index) => index < textures && self.texture_bind_group
                == TextureBindGroup::textured(index),
            _ => false,
        }
    }

    /// Builds the mesh of a primitive in an asset with `texture_count`
    /// textures: zips the attributes into vertices, as many as the
    /// shortest attribute has, with defaults for missing attributes; cuts
    /// the indices down to 16 bits; and picks the bind group.
    pub fn from_primitive(data: &PrimitiveData, texture_count: usize) -> (result: Result<
        Mesh,
        FatalLoadError,
    >)
        ensures
            mesh_result_view(result) == mesh_of(data@, texture_count as int),
            result matches Ok(mesh) ==> mesh.index_count == mesh.indices@.len(),
    {
        let ghost items = data@;
        let n: usize = data.positions.len();
        let mut count: usize = n;
        match &data.normals {
            Some(normals) => {
                if normals.len() < count {
                    count = normals.len();
                }
            },
            None => {},
        }
        match &data.tex_coords {
            Some(tex_coords) => {
                if tex_coords.len() < count {
                    count = tex_coords.len();
                }
            },
            None => {},
        }
        match &data.colors {
            Some(colors) => {
                if colors.len() < count {
                    count = colors.len();
                }
            },
            None => {},
        }
        assert(count == primitive_vertex_count(items));
        let mut vertices: Vec<Vertex> = Vec::new();
        let mut k: usize = 0;
        while k < count
            invariant
                k <= count,
                items == data@,
                count == primitive_vertex_count(items),
                vertices@.len() == k,
                forall|j: int| 0 <= j < k ==> (#[trigger] vertices@[j]) == primitive_vertex(items, j),
            decreases count - k,
        {
            let normal: [u32; 3] = match &data.normals {
                Some(normals) => normals[k],
                None => [ZERO, ZERO, ONE],
            };
            let tex_coords: [u32; 2] = match &data.tex_coords {
                Some(tex_coords) => tex_coords[k],
                None => [ZERO, ZERO],
            };
            let color: [u32; 3] = match &data.colors {
                Some(colors) => colors[k],
                None => [ONE, ONE, ONE],
            };
            vertices.push(Vertex { position: data.positions[k], normal, tex_coords, color });
            k = k + 1;
        }
        assert(vertices@ =~= primitive_vertices(items));
        let mut indices: Vec<u16> = Vec::new();
        match &data.indices {
            Some(wide) => {
                if wide.len() > u32::MAX as usize {
                    return Err(FatalLoadError::MalformedGeometry);
                }
                let mut k: usize = 0;
                while k < wide.len()
                    invariant
                        k <= wide@.len(),
                        indices@.len() == k,
                        forall|j: int|
                            0 <= j < k ==> (#[trigger] indices@[j]) == narrow_index(wide@[j]),
                    decreases wide@.len() - k,
                {
                    let index: u32 = wide[k];
                    indices.push((index % 0x1_0000) as u16);
                    k = k + 1;
                }
            },
            None => {},
        }
        assert(indices@ =~= primitive_indices(items));
        let index_count: u32 = indices.len() as u32;
        let texture_bind_group = if texture_count > 0 {
            TextureBindGroup::textured(
                match data.base_color_texture {
                    Some(index) => index,
                    None => 0,
                },
            )
        } else {
            TextureBindGroup::flat()
        };
        Ok(
            Mesh {
                transform: Transform::identity(),
                vertices,
                indices,
                index_count,
                texture_bind_group,
            },
        )
    }
}

impl Model {
    /// Every mesh of the model is whole.
    pub open spec fn well_formed(&self) -> bool {
        forall|m: int|
            0 <= m < self.meshes@.len() ==> (#[trigger] self.meshes@[m]).well_formed(
                self.textures@.len() as int,
            )
    }

    /// Whether every mesh of the model is whole.
    pub fn is_well_formed(&self) -> (ok: bool)
        ensures
            ok == self.well_formed(),
    {
        let mut m: usize = 0;
        while m < self.meshes.len()
            invariant
                m <= self.meshes@.len(),
                forall|k: int|
                    0 <= k < m ==> (#[trigger] self.meshes@[k]).well_formed(
                        self.textures@.len() as int,
                    ),
            decreases self.meshes@.len() - m,
        {
            if !self.meshes[m].is_well_formed(self.textures.len()) {
                return false;
            }
            m = m + 1;
        }
        true
    }
}

} // verus!
