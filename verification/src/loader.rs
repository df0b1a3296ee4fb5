//! Loading a model from a binary container.
//!
//! The container is split into its chunks, its scene description is
//! parsed, the images of its textures are decoded, and each primitive of
//! each mesh is read and made into a drawable mesh. Before an accessor is
//! read it is checked that it can be read as what it stands for. The
//! first thing that fails abandons the whole load.

use vstd::prelude::*;
use vstd::slice::slice_subrange;
use crate::asset::{
    accessor_component, accessor_dimensions, accessor_span, accessor_sparse, accessor_total,
    container_chunks, decode_rgba8, decoded_rgba8, document_source, is_primitive, mesh_count,
    parse_document, position_link, positions_are_linked, primitive_count, primitive_layout,
    read_colors, read_indices, read_normals, read_positions, read_tex_coords, reads_as_colors,
    reads_as_indices, reads_as_tex_coords, reads_as_vec3, scene_accessor, scene_accessor_spans,
    scene_colors, scene_indices, scene_is_linked, scene_is_valid, scene_normals, scene_parses,
    scene_positions, scene_primitives, scene_tex_coords, scene_textures, split_container,
    texture_count, texture_image, validate_document,
};
use crate::binding::TextureBindGroup;
use crate::error::FatalLoadError;
use crate::layout::{header_is_sound, header_sound, is_within, AccessorLayout, ImageLayout};
use crate::model::{
    image_data, mesh_of, mesh_result_view, ImageData, Mesh, MeshData, Model, ModelData,
    PrimitiveData, PrimitiveItems,
};
use crate::texture::Texture;

verus! {

/// Every accessor that the primitive names can be read as what it stands
/// for.
pub open spec fn primitive_is_readable(json: Seq<u8>, mesh: int, primitive: int) -> bool {
    let layout = scene_primitives(json)[mesh][primitive];
    &&& layout.positions matches Some(a) ==> reads_as_vec3(json, a as int)
    &&& layout.normals matches Some(a) ==> reads_as_vec3(json, a as int)
    &&& layout.colors matches Some(a) ==> reads_as_colors(json, a as int)
    &&& layout.tex_coords matches Some(a) ==> reads_as_tex_coords(json, a as int)
    &&& layout.indices matches Some(a) ==> reads_as_indices(json, a as int)
}

/// What is read of a primitive: an error where one of its accessors
/// cannot be read as what it stands for or where it has no positions, and
/// else what the reader yields for each attribute and for the indices.
pub open spec fn primitive_items(json: Seq<u8>, bin: Seq<u8>, mesh: int, primitive: int) -> Result<
    PrimitiveItems,
    FatalLoadError,
> {
    if !primitive_is_readable(json, mesh, primitive) {
        Err(FatalLoadError::MalformedGeometry)
    } else {
        match scene_positions(json, bin, mesh, primitive) {
            None => Err(FatalLoadError::MissingPositions),
            Some(positions) => Ok(
                PrimitiveItems {
                    positions,
                    normals: scene_normals(json, bin, mesh, primitive),
                    tex_coords: scene_tex_coords(json, bin, mesh, primitive),
                    colors: scene_colors(json, bin, mesh, primitive),
                    indices: scene_indices(json, bin, mesh, primitive),
                    base_color_texture: scene_primitives(
                        json,
                    )[mesh][primitive].base_color_texture,
                },
            ),
        }
    }
}

/// The mesh made of a primitive of the scene, or the error that
/// abandons the load.
pub open spec fn primitive_mesh(
    json: Seq<u8>,
    bin: Seq<u8>,
    mesh: int,
    primitive: int,
    textures: int,
) -> Result<MeshData, FatalLoadError> {
    match primitive_items(json, bin, mesh, primitive) {
        Err(error) => Err(error),
        Ok(items) => mesh_of(items, textures),
    }
}

/// The meshes made of all primitives of the first `mesh` meshes and of
/// the first `primitive` primitives of the next, in that order, or the
/// first error.
pub open spec fn meshes_upto(
    json: Seq<u8>,
    bin: Seq<u8>,
    mesh: int,
    primitive: int,
    textures: int,
) -> Result<Seq<MeshData>, FatalLoadError>
    decreases mesh, primitive,
{
    if primitive > 0 {
        match meshes_upto(json, bin, mesh, primitive - 1, textures) {
            Err(error) => Err(error),
            Ok(meshes) => match primitive_mesh(json, bin, mesh, primitive - 1, textures) {
                Err(error) => Err(error),
                Ok(made) => Ok(meshes.push(made)),
            },
        }
    } else if mesh > 0 {
        meshes_upto(
            json,
            bin,
            mesh - 1,
            scene_primitives(json)[mesh - 1].len() as int,
            textures,
        )
    } else {
        Ok(Seq::empty())
    }
}

/// The decoded image of a texture, or the error that abandons the load:
/// the bytes of the image must be there to be had, and must decode.
pub open spec fn image_of(layout: ImageLayout, bin: Seq<u8>) -> Result<ImageData, FatalLoadError> {
    match layout.spec_byte_range(bin.len() as int) {
        Err(error) => Err(error),
        Ok((from, to)) => match decoded_rgba8(bin.subrange(from as int, to as int)) {
            Some((data, width, height)) => Ok(ImageData { data, width, height }),
            None => Err(FatalLoadError::UndecodableImage),
        },
    }
}

/// The decoded images of the first `n` textures of the scene, or the
/// first error.
pub open spec fn images_upto(json: Seq<u8>, bin: Seq<u8>, n: int) -> Result<
    Seq<ImageData>,
    FatalLoadError,
>
    decreases n,
{
    if n <= 0 {
        Ok(Seq::empty())
    } else {
        match images_upto(json, bin, n - 1) {
            Err(error) => Err(error),
            Ok(images) => match image_of(scene_textures(json)[n - 1], bin) {
                Err(error) => Err(error),
                Ok(image) => Ok(images.push(image)),
            },
        }
    }
}

/// The model of a scene description over a binary chunk: its textures
/// are decoded first, then its meshes are made.
pub open spec fn scene_model(json: Seq<u8>, bin: Seq<u8>) -> Result<ModelData, FatalLoadError> {
    match images_upto(json, bin, scene_textures(json).len() as int) {
        Err(error) => Err(error),
        Ok(textures) => match meshes_upto(
            json,
            bin,
            scene_primitives(json).len() as int,
            0,
            textures.len() as int,
        ) {
            Err(error) => Err(error),
            Ok(meshes) => Ok(ModelData { meshes, textures }),
        },
    }
}

/// The text is a scene description that can be loaded: it parses, every
/// primitive names existing positions, and it passes validation.
pub open spec fn scene_is_sound(json: Seq<u8>) -> bool {
    &&& header_is_sound(json)
    &&& scene_parses(json)
    &&& positions_are_linked(json)
    &&& scene_is_valid(json)
}

/// The model that a container holds, or the error that abandons the
/// load.
pub open spec fn loaded_model(bytes: Seq<u8>) -> Result<ModelData, FatalLoadError> {
    if !header_is_sound(bytes) {
        Err(FatalLoadError::MalformedContainer)
    } else {
        match container_chunks(bytes) {
            None => Err(FatalLoadError::MalformedContainer),
            Some((json, bin)) => {
                if !scene_is_sound(json) {
                    Err(FatalLoadError::InvalidScene)
                } else {
                    match bin {
                        None => Err(FatalLoadError::MissingBinaryChunk),
                        Some(bin) => scene_model(json, bin),
                    }
                }
            },
        }
    }
}

/// The content of a model or an error, from a result over a model.
pub open spec fn model_result_view(result: Result<Model, FatalLoadError>) -> Result<
    ModelData,
    FatalLoadError,
> {
    match result {
        Ok(model) => Ok(model@),
        Err(error) => Err(error),
    }
}

/// The content of what was read of a primitive or an error.
pub open spec fn primitive_result_view(result: Result<PrimitiveData, FatalLoadError>) -> Result<
    PrimitiveItems,
    FatalLoadError,
> {
    match result {
        Ok(data) => Ok(data@),
        Err(error) => Err(error),
    }
}

/// The contents of a list of meshes.
pub open spec fn meshes_view(meshes: Seq<Mesh>) -> Seq<MeshData> {
    Seq::new(meshes.len(), |m: int| meshes[m]@)
}

/// The contents of a list of textures.
pub open spec fn images_view(textures: Seq<Texture>) -> Seq<ImageData> {
    Seq::new(textures.len(), |t: int| image_data(textures[t]))
}

/// Once a texture has failed, the failure stands for every longer run of
/// textures.
pub proof fn lemma_image_error_stands(json: Seq<u8>, bin: Seq<u8>, n: int, later: int)
    requires
        n <= later,
        images_upto(json, bin, n) is Err,
    ensures
        images_upto(json, bin, later) == images_upto(json, bin, n),
    decreases later - n,
{
    if n < later {
        lemma_image_error_stands(json, bin, n, later - 1);
    }
}

/// Once a primitive has failed, the failure stands for every later place
/// in the walk over the meshes.
pub proof fn lemma_mesh_error_stands(
    json: Seq<u8>,
    bin: Seq<u8>,
    mesh: int,
    primitive: int,
    later_mesh: int,
    later_primitive: int,
    textures: int,
)
    requires
        0 <= mesh,
        0 <= primitive <= scene_primitives(json)[mesh].len(),
        0 <= later_primitive,
        mesh < later_mesh || (mesh == later_mesh && primitive <= later_primitive),
        meshes_upto(json, bin, mesh, primitive, textures) is Err,
    ensures
        meshes_upto(json, bin, later_mesh, later_primitive, textures) == meshes_upto(
            json,
            bin,
            mesh,
            primitive,
            textures,
        ),
    decreases later_mesh, later_primitive,
{
    if mesh == later_mesh && primitive == later_primitive {
    } else if later_primitive > 0 {
        lemma_mesh_error_stands(
            json,
            bin,
            mesh,
            primitive,
            later_mesh,
            later_primitive - 1,
            textures,
        );
    } else {
        lemma_mesh_error_stands(
            json,
            bin,
            mesh,
            primitive,
            later_mesh - 1,
            scene_primitives(json)[later_mesh - 1].len() as int,
            textures,
        );
    }
}

/// The bind group is that of a mesh of an asset with `textures`
/// textures: the default texture shaded flat where the asset has no
/// texture, and else one of the asset's textures, sampled.
pub open spec fn binding_fits(group: TextureBindGroup, textures: int) -> bool {
    if textures > 0 {
        exists|index: usize| group == TextureBindGroup::textured(index)
    } else {
        group == TextureBindGroup::flat()
    }
}

/// Every mesh made on the walk over the meshes of a scene has a bind
/// group that fits the number of textures of the asset.
pub proof fn lemma_meshes_bindings(
    json: Seq<u8>,
    bin: Seq<u8>,
    mesh: int,
    primitive: int,
    textures: int,
)
    requires
        meshes_upto(json, bin, mesh, primitive, textures) is Ok,
    ensures
        forall|k: int|
            0 <= k < meshes_upto(json, bin, mesh, primitive, textures)->Ok_0.len()
                ==> binding_fits(
                (#[trigger] meshes_upto(
                    json,
                    bin,
                    mesh,
                    primitive,
                    textures,
                )->Ok_0[k]).texture_bind_group,
                textures,
            ),
    decreases mesh, primitive,
{
    if primitive > 0 {
        lemma_meshes_bindings(json, bin, mesh, primitive - 1, textures);
        let made = primitive_mesh(json, bin, mesh, primitive - 1, textures)->Ok_0;
        let items = primitive_items(json, bin, mesh, primitive - 1)->Ok_0;
        if textures > 0 {
            let index: usize = match items.base_color_texture {
                Some(index) => index,
                None => 0,
            };
            assert(made.texture_bind_group == TextureBindGroup::textured(index));
        }
        assert(binding_fits(made.texture_bind_group, textures));
    } else if mesh > 0 {
        lemma_meshes_bindings(
            json,
            bin,
            mesh - 1,
            scene_primitives(json)[mesh - 1].len() as int,
            textures,
        );
    }
}

/// A model that was loaded from a container without textures has meshes
/// that show the default texture, shaded flat; a model that was loaded
/// from a container with textures has meshes that sample one of them.
pub proof fn lemma_loaded_model_bindings(bytes: Seq<u8>)
    ensures
        loaded_model(bytes) matches Ok(model) ==> forall|k: int|
            0 <= k < model.meshes.len() ==> binding_fits(
                (#[trigger] model.meshes[k]).texture_bind_group,
                model.textures.len() as int,
            ),
{
    if loaded_model(bytes) is Ok {
        let (json, bin) = container_chunks(bytes)->Some_0;
        let bin = bin->Some_0;
        let textures = images_upto(json, bin, scene_textures(json).len() as int)->Ok_0;
        lemma_meshes_bindings(
            json,
            bin,
            scene_primitives(json).len() as int,
            0,
            textures.len() as int,
        );
    }
}

/// Accessor `accessor` of a checked scene.
fn accessor_layout(doc: &gltf::Gltf, accessor: usize) -> (layout: AccessorLayout)
    requires
        scene_is_valid(document_source(*doc)),
        scene_is_linked(document_source(*doc)),
        accessor < scene_accessor_spans(document_source(*doc)).len(),
    ensures
        layout == scene_accessor(document_source(*doc), accessor as int),
{
    AccessorLayout {
        component: accessor_component(doc, accessor),
        dimensions: accessor_dimensions(doc, accessor),
        span: accessor_span(doc, accessor),
        sparse: accessor_sparse(doc, accessor),
    }
}

/// Reads a primitive of the scene over the binary chunk, after checking
/// that each accessor it names can be read as what it stands for.
fn read_primitive(doc: &gltf::Gltf, bin: &[u8], mesh: usize, primitive: usize) -> (result: Result<
    PrimitiveData,
    FatalLoadError,
>)
    requires
        scene_is_valid(document_source(*doc)),
        scene_is_linked(document_source(*doc)),
        is_primitive(document_source(*doc), mesh as int, primitive as int),
    ensures
        primitive_result_view(result) == primitive_items(
            document_source(*doc),
            bin@,
            mesh as int,
            primitive as int,
        ),
{
    let layout = primitive_layout(doc, mesh, primitive);
    let positions_ok = match layout.positions {
        Some(a) => accessor_layout(doc, a).can_read_as_vec3(),
        None => true,
    };
    let normals_ok = match layout.normals {
        Some(a) => accessor_layout(doc, a).can_read_as_vec3(),
        None => true,
    };
    let colors_ok = match layout.colors {
        Some(a) => accessor_layout(doc, a).can_read_as_colors(),
        None => true,
    };
    let tex_coords_ok = match layout.tex_coords {
        Some(a) => accessor_layout(doc, a).can_read_as_tex_coords(),
        None => true,
    };
    let indices_ok = match layout.indices {
        Some(a) => accessor_layout(doc, a).can_read_as_indices(),
        None => true,
    };
    if !(positions_ok && normals_ok && colors_ok && tex_coords_ok && indices_ok) {
        return Err(FatalLoadError::MalformedGeometry);
    }
    let positions = match read_positions(doc, bin, mesh, primitive) {
        Some(positions) => positions,
        None => {
            return Err(FatalLoadError::MissingPositions);
        },
    };
    let colors = read_colors(doc, bin, mesh, primitive);
    let normals = read_normals(doc, bin, mesh, primitive);
    let tex_coords = read_tex_coords(doc, bin, mesh, primitive);
    let indices = read_indices(doc, bin, mesh, primitive);
    Ok(
        PrimitiveData {
            positions,
            normals,
            tex_coords,
            colors,
            indices,
            base_color_texture: layout.base_color_texture,
        },
    )
}

/// Decodes the image of a texture from the binary chunk.
fn load_image(layout: &ImageLayout, bin: &[u8]) -> (result: Result<Texture, FatalLoadError>)
    ensures
        match result {
            Ok(texture) => image_of(*layout, bin@) == Ok::<ImageData, FatalLoadError>(
                image_data(texture),
            ) && texture.is_complete(),
            Err(error) => image_of(*layout, bin@) == Err::<ImageData, FatalLoadError>(error),
        },
{
    let (from, to) = match layout.byte_range(bin.len()) {
        Ok(range) => range,
        Err(error) => {
            return Err(error);
        },
    };
    match decode_rgba8(slice_subrange(bin, from, to)) {
        Some(texture) => Ok(texture),
        None => Err(FatalLoadError::UndecodableImage),
    }
}

/// Whether every primitive of a parsed scene that names an accessor for
/// its positions names one that the scene has.
fn positions_linked(doc: &gltf::Gltf) -> (linked: bool)
    ensures
        linked == positions_are_linked(document_source(*doc)),
{
    let ghost json = document_source(*doc);
    let accessors: usize = accessor_total(doc);
    let mesh_total: usize = mesh_count(doc);
    let mut m: usize = 0;
    while m < mesh_total
        invariant
            m <= mesh_total,
            json == document_source(*doc),
            accessors == scene_accessor_spans(json).len(),
            mesh_total == scene_primitives(json).len(),
            forall|i: int, p: int|
                0 <= i < m && 0 <= p < scene_primitives(json)[i].len() ==> is_within(
                    (#[trigger] scene_primitives(json)[i][p]).positions,
                    accessors as int,
                ),
        decreases mesh_total - m,
    {
        let primitive_total: usize = primitive_count(doc, m);
        let mut p: usize = 0;
        while p < primitive_total
            invariant
                p <= primitive_total,
                m < mesh_total,
                json == document_source(*doc),
                accessors == scene_accessor_spans(json).len(),
                mesh_total == scene_primitives(json).len(),
                primitive_total == scene_primitives(json)[m as int].len(),
                forall|i: int, q: int|
                    0 <= i < m && 0 <= q < scene_primitives(json)[i].len() ==> is_within(
                        (#[trigger] scene_primitives(json)[i][q]).positions,
                        accessors as int,
                    ),
                forall|q: int|
                    0 <= q < p ==> is_within(
                        (#[trigger] scene_primitives(json)[m as int][q]).positions,
                        accessors as int,
                    ),
            decreases primitive_total - p,
        {
            match position_link(doc, m, p) {
                Some(a) => {
                    if a >= accessors {
                        assert(!positions_are_linked(json)) by {
                            let layout = scene_primitives(json)[m as int][p as int];
                            assert(layout.positions == Some(a));
                        }
                        return false;
                    }
                },
                None => {},
            }
            p = p + 1;
        }
        m = m + 1;
    }
    true
}

/// Decodes the images of all textures of the scene, in order.
fn load_images(doc: &gltf::Gltf, bin: &[u8]) -> (result: Result<Vec<Texture>, FatalLoadError>)
    requires
        scene_is_valid(document_source(*doc)),
    ensures
        match result {
            Ok(textures) => {
                &&& images_upto(
                    document_source(*doc),
                    bin@,
                    scene_textures(document_source(*doc)).len() as int,
                ) == Ok::<Seq<ImageData>, FatalLoadError>(images_view(textures@))
                &&& textures@.len() == scene_textures(document_source(*doc)).len()
                &&& forall|t: int| 0 <= t < textures@.len() ==> (#[trigger] textures@[t]).is_complete()
            },
            Err(error) => images_upto(
                document_source(*doc),
                bin@,
                scene_textures(document_source(*doc)).len() as int,
            ) == Err::<Seq<ImageData>, FatalLoadError>(error),
        },
{
    let ghost json = document_source(*doc);
    let count: usize = texture_count(doc);
    let mut textures: Vec<Texture> = Vec::new();
    let mut t: usize = 0;
    assert(images_view(textures@) =~= Seq::<ImageData>::empty());
    while t < count
        invariant
            t <= count,
            json == document_source(*doc),
            scene_is_valid(json),
            count == scene_textures(json).len(),
            textures@.len() == t,
            images_upto(json, bin@, t as int) == Ok::<Seq<ImageData>, FatalLoadError>(
                images_view(textures@),
            ),
            forall|k: int| 0 <= k < textures@.len() ==> (#[trigger] textures@[k]).is_complete(),
        decreases count - t,
    {
        let layout = texture_image(doc, t);
        match load_image(&layout, bin) {
            Ok(texture) => {
                let ghost earlier = images_view(textures@);
                textures.push(texture);
                assert(images_view(textures@) =~= earlier.push(image_data(texture)));
            },
            Err(error) => {
                proof {
                    lemma_image_error_stands(json, bin@, t + 1, count as int);
                }
                return Err(error);
            },
        }
        t = t + 1;
    }
    Ok(textures)
}

/// Makes the meshes of all primitives of the scene, mesh by mesh.
fn load_meshes(doc: &gltf::Gltf, bin: &[u8], textures: usize) -> (result: Result<
    Vec<Mesh>,
    FatalLoadError,
>)
    requires
        scene_is_valid(document_source(*doc)),
        scene_is_linked(document_source(*doc)),
        textures == scene_textures(document_source(*doc)).len(),
    ensures
        match result {
            Ok(meshes) => {
                &&& meshes_upto(
                    document_source(*doc),
                    bin@,
                    scene_primitives(document_source(*doc)).len() as int,
                    0,
                    textures as int,
                ) == Ok::<Seq<MeshData>, FatalLoadError>(meshes_view(meshes@))
                &&& forall|m: int|
                    0 <= m < meshes@.len() ==> (#[trigger] meshes@[m]).well_formed(textures as int)
            },
            Err(error) => meshes_upto(
                document_source(*doc),
                bin@,
                scene_primitives(document_source(*doc)).len() as int,
                0,
                textures as int,
            ) == Err::<Seq<MeshData>, FatalLoadError>(error),
        },
{
    let ghost json = document_source(*doc);
    let mesh_total: usize = mesh_count(doc);
    let mut meshes: Vec<Mesh> = Vec::new();
    let mut m: usize = 0;
    assert(meshes_view(meshes@) =~= Seq::<MeshData>::empty());
    while m < mesh_total
        invariant
            m <= mesh_total,
            json == document_source(*doc),
            scene_is_valid(json),
            scene_is_linked(json),
            textures == scene_textures(json).len(),
            mesh_total == scene_primitives(json).len(),
            meshes_upto(json, bin@, m as int, 0, textures as int) == Ok::<
                Seq<MeshData>,
                FatalLoadError,
            >(meshes_view(meshes@)),
            forall|k: int|
                0 <= k < meshes@.len() ==> (#[trigger] meshes@[k]).well_formed(textures as int),
        decreases mesh_total - m,
    {
        let primitive_total: usize = primitive_count(doc, m);
        let mut p: usize = 0;
        while p < primitive_total
            invariant
                p <= primitive_total,
                m < mesh_total,
                json == document_source(*doc),
                scene_is_valid(json),
                scene_is_linked(json),
                textures == scene_textures(json).len(),
                mesh_total == scene_primitives(json).len(),
                primitive_total == scene_primitives(json)[m as int].len(),
                meshes_upto(json, bin@, m as int, p as int, textures as int) == Ok::<
                    Seq<MeshData>,
                    FatalLoadError,
                >(meshes_view(meshes@)),
                forall|k: int|
                    0 <= k < meshes@.len() ==> (#[trigger] meshes@[k]).well_formed(
                        textures as int,
                    ),
            decreases primitive_total - p,
        {
            let made = match read_primitive(doc, bin, m, p) {
                Ok(data) => Mesh::from_primitive(&data, textures),
                Err(error) => Err(error),
            };
            assert(mesh_result_view(made) == primitive_mesh(
                json,
                bin@,
                m as int,
                p as int,
                textures as int,
            ));
            match made {
                Ok(mesh) => {
                    let ghost earlier = meshes_view(meshes@);
                    proof {
                        let layout = scene_primitives(json)[m as int][p as int];
                        if textures > 0 {
                            let index: usize = match layout.base_color_texture {
                                Some(index) => index,
                                None => 0,
                            };
                            assert(index < textures);
                            assert(mesh.texture_bind_group
                                == TextureBindGroup::textured(index));
                        }
                        assert(mesh.well_formed(textures as int));
                    }
                    meshes.push(mesh);
                    assert(meshes_view(meshes@) =~= earlier.push(mesh@));
                },
                Err(error) => {
                    proof {
                        lemma_mesh_error_stands(
                            json,
                            bin@,
                            m as int,
                            p + 1,
                            mesh_total as int,
                            0,
                            textures as int,
                        );
                    }
                    return Err(error);
                },
            }
            p = p + 1;
        }
        m = m + 1;
    }
    Ok(meshes)
}

impl Model {
    /// Loads a model from a binary container: splits it into its chunks,
    /// parses the scene description, decodes the images of the textures
    /// and makes a mesh of each primitive of each mesh. A container that
    /// is malformed, a scene that does not parse, a missing binary chunk,
    /// an image that cannot be had, or a primitive that has no positions
    /// or cannot be read abandons the load.
    pub fn from_glb(bytes: &Vec<u8>) -> (result: Result<Model, FatalLoadError>)
        ensures
            model_result_view(result) == loaded_model(bytes@),
            result matches Ok(model) ==> model.well_formed() && forall|t: int|
                0 <= t < model.textures@.len() ==> (#[trigger] model.textures@[t]).is_complete(),
    {
        if !header_sound(bytes.as_slice()) {
            return Err(FatalLoadError::MalformedContainer);
        }
        let (json, bin) = match split_container(bytes.as_slice()) {
            Ok(chunks) => chunks,
            Err(_) => {
                return Err(FatalLoadError::MalformedContainer);
            },
        };
        if !header_sound(json.as_slice()) {
            return Err(FatalLoadError::InvalidScene);
        }
        let doc = match parse_document(json.as_slice()) {
            Ok(doc) => doc,
            Err(_) => {
                return Err(FatalLoadError::InvalidScene);
            },
        };
        if !positions_linked(&doc) {
            return Err(FatalLoadError::InvalidScene);
        }
        let doc = match validate_document(doc) {
            Ok(doc) => doc,
            Err(_) => {
                return Err(FatalLoadError::InvalidScene);
            },
        };
        let bin = match bin {
            Some(bin) => bin,
            None => {
                return Err(FatalLoadError::MissingBinaryChunk);
            },
        };
        let textures = match load_images(&doc, bin.as_slice()) {
            Ok(textures) => textures,
            Err(error) => {
                return Err(error);
            },
        };
        let meshes = match load_meshes(&doc, bin.as_slice(), textures.len()) {
            Ok(meshes) => meshes,
            Err(error) => {
                return Err(error);
            },
        };
        let model = Model { meshes, textures };
        assert(model@.meshes =~= meshes_view(model.meshes@));
        assert(model@.textures =~= images_view(model.textures@));
        Ok(model)
    }
}

} // verus!
