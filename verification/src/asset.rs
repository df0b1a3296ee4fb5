//! The scene description of a binary model container, read through the
//! `gltf` crate, and the decoding of embedded images through `image`.
//!
//! Verus does not look into these crates. Each function below that calls
//! one of them is believed, not proved: its doc comment says what is
//! claimed. What a call returns is a function of the bytes handed in and
//! is given a name, so that the loader's contract can speak of it.

use vstd::prelude::*;
use crate::layout::{
    header_is_sound, is_within, AccessorLayout, AccessorSpan, ComponentKind, Dimensions,
    ImageLayout, PrimitiveLayout, SparseLayout, ViewLayout,
};
use crate::texture::{Texture, TextureFormat};

verus! {

/// The JSON chunk and the binary chunk into which `Glb::from_slice`
/// splits a container, or nothing where it turns the bytes down.
pub uninterp spec fn container_chunks(bytes: Seq<u8>) -> Option<(Seq<u8>, Option<Seq<u8>>)>;

/// Whether `Gltf::from_slice_without_validation` can parse the text as a
/// scene description.
pub uninterp spec fn scene_parses(json: Seq<u8>) -> bool;

/// Whether the scene description that the text parses to passes the
/// validation of `Document::from_json`.
pub uninterp spec fn scene_is_valid(json: Seq<u8>) -> bool;

/// The text that a parsed scene description was parsed from.
pub uninterp spec fn document_source(doc: gltf::Gltf) -> Seq<u8>;

/// The image of each texture of the scene that the text describes.
pub uninterp spec fn scene_textures(json: Seq<u8>) -> Seq<ImageLayout>;

/// The primitives of each mesh of the scene that the text describes.
pub uninterp spec fn scene_primitives(json: Seq<u8>) -> Seq<Seq<PrimitiveLayout>>;

/// The component type of each accessor of the scene.
pub uninterp spec fn scene_accessor_components(json: Seq<u8>) -> Seq<ComponentKind>;

/// The item shape of each accessor of the scene.
pub uninterp spec fn scene_accessor_dimensions(json: Seq<u8>) -> Seq<Dimensions>;

/// Where the items of each accessor of the scene lie.
pub uninterp spec fn scene_accessor_spans(json: Seq<u8>) -> Seq<AccessorSpan>;

/// The sparse list of each accessor of the scene, where it has one.
pub uninterp spec fn scene_accessor_sparse(json: Seq<u8>) -> Seq<Option<SparseLayout>>;

/// The positions that the reader of a primitive yields over the binary
/// chunk, each component as its bit pattern.
pub uninterp spec fn scene_positions(json: Seq<u8>, bin: Seq<u8>, mesh: int, primitive: int) -> Option<
    Seq<[u32; 3]>,
>;

/// The normals that the reader of a primitive yields.
pub uninterp spec fn scene_normals(json: Seq<u8>, bin: Seq<u8>, mesh: int, primitive: int) -> Option<
    Seq<[u32; 3]>,
>;

/// The colors of set 0 that the reader of a primitive yields, as three
/// single-precision channels.
pub uninterp spec fn scene_colors(json: Seq<u8>, bin: Seq<u8>, mesh: int, primitive: int) -> Option<
    Seq<[u32; 3]>,
>;

/// The texture coordinates of set 0 that the reader of a primitive
/// yields, as single-precision pairs.
pub uninterp spec fn scene_tex_coords(json: Seq<u8>, bin: Seq<u8>, mesh: int, primitive: int) -> Option<
    Seq<[u32; 2]>,
>;

/// The indices that the reader of a primitive yields, widened to 32 bits.
pub uninterp spec fn scene_indices(json: Seq<u8>, bin: Seq<u8>, mesh: int, primitive: int) -> Option<
    Seq<u32>,
>;

/// The texels, width and height to which
/// `image::load_from_memory_with_format` and `DynamicImage::to_rgba8`
/// decode the bytes, in the format that `image::guess_format` finds by the
/// signature at their start, or nothing where the signature is none that
/// is known or the bytes are no image of that format that can be decoded.
pub uninterp spec fn decoded_rgba8(bytes: Seq<u8>) -> Option<(Seq<u8>, u32, u32)>;

#[verifier::external_type_specification]
#[verifier::external_body]
pub struct ExGltf(gltf::Gltf);

#[verifier::external_type_specification]
#[verifier::external_body]
pub struct ExGltfError(gltf::Error);

/// Every primitive of the scene names accessors and a texture that the
/// scene has.
pub open spec fn scene_is_linked(json: Seq<u8>) -> bool {
    let accessors = scene_accessor_spans(json).len();
    let textures = scene_textures(json).len();
    &&& scene_accessor_components(json).len() == accessors
    &&& scene_accessor_dimensions(json).len() == accessors
    &&& scene_accessor_sparse(json).len() == accessors
    &&& forall|m: int, p: int|
        0 <= m < scene_primitives(json).len() && 0 <= p < scene_primitives(json)[m].len() ==> {
            let layout = #[trigger] scene_primitives(json)[m][p];
            &&& is_within(layout.positions, accessors as int)
            &&& is_within(layout.normals, accessors as int)
            &&& is_within(layout.colors, accessors as int)
            &&& is_within(layout.tex_coords, accessors as int)
            &&& is_within(layout.indices, accessors as int)
            &&& is_within(layout.base_color_texture, textures as int)
        }
}

/// Calls `gltf::Glb::from_slice`, which splits a binary container into
/// its JSON chunk and its optional binary chunk. The result is named
/// [`container_chunks`]. The call subtracts the header's size from the
/// length that the header states, so bytes with a header that states less
/// are left out.
#[verifier::external_body]
pub(crate) fn split_container(bytes: &[u8]) -> (result: Result<
    (Vec<u8>, Option<Vec<u8>>),
    gltf::Error,
>)
    requires
        header_is_sound(bytes@),
    ensures
        match result {
            Ok((json, bin)) => container_chunks(bytes@) == Some(
                (
                    json@,
                    match bin {
                        Some(bin) => Some(bin@),
                        None => None,
                    },
                ),
            ),
            Err(_) => container_chunks(bytes@) is None,
        },
{
    let glb = gltf::Glb::from_slice(bytes)?;
    Ok((glb.json.into_owned(), glb.bin.map(|bin| bin.into_owned())))
}

/// Every primitive of the scene that names an accessor for its positions
/// names one that the scene has.
pub open spec fn positions_are_linked(json: Seq<u8>) -> bool {
    forall|m: int, p: int|
        0 <= m < scene_primitives(json).len() && 0 <= p < scene_primitives(json)[m].len()
            ==> is_within(
            (#[trigger] scene_primitives(json)[m][p]).positions,
            scene_accessor_spans(json).len() as int,
        )
}

/// Calls `gltf::Gltf::from_slice_without_validation`, which parses a
/// scene description and checks nothing beyond its form. It succeeds
/// exactly on the texts for which [`scene_parses`] holds. Text that
/// begins with the container's magic is handed to `Glb::from_slice`, so
/// the same headers are left out.
#[verifier::external_body]
pub(crate) fn parse_document(json: &[u8]) -> (result: Result<gltf::Gltf, gltf::Error>)
    requires
        header_is_sound(json@),
    ensures
        match result {
            Ok(doc) => scene_parses(json@) && document_source(doc) == json@,
            Err(_) => !scene_parses(json@),
        },
{
    gltf::Gltf::from_slice_without_validation(json)
}

/// Calls `gltf::Document::from_json` on a parsed scene, which validates
/// it: among other things every index in it must name an item that the
/// scene has. It succeeds exactly on the scenes for which
/// [`scene_is_valid`] holds and hands the scene back. The validation
/// looks up the accessor of each primitive's positions without a check,
/// so scenes in which one is out of range are left out.
#[verifier::external_body]
pub(crate) fn validate_document(doc: gltf::Gltf) -> (result: Result<gltf::Gltf, gltf::Error>)
    requires
        positions_are_linked(document_source(doc)),
    ensures
        match result {
            Ok(checked) => {
                &&& scene_is_valid(document_source(doc))
                &&& document_source(checked) == document_source(doc)
                &&& scene_is_linked(document_source(doc))
            },
            Err(_) => !scene_is_valid(document_source(doc)),
        },
{
    let gltf::Gltf { document, blob } = doc;
    let document = gltf::Document::from_json(document.into_json())?;
    Ok(gltf::Gltf { document, blob })
}

/// The number of accessors of the scene, from the fields of the parsed
/// scene (`Document::as_json`).
#[verifier::external_body]
pub(crate) fn accessor_total(doc: &gltf::Gltf) -> (count: usize)
    ensures
        count == scene_accessor_spans(document_source(*doc)).len(),
{
    doc.as_json().accessors.len()
}

/// The accessor that primitive `primitive` of mesh `mesh` names for its
/// positions, from the fields of the parsed scene (`Document::as_json`).
#[verifier::external_body]
pub(crate) fn position_link(doc: &gltf::Gltf, mesh: usize, primitive: usize) -> (link: Option<usize>)
    requires
        is_primitive(document_source(*doc), mesh as int, primitive as int),
    ensures
        link == scene_primitives(document_source(*doc))[mesh as int][primitive as int].positions,
{
    let key = gltf::json::validation::Checked::Valid(gltf::Semantic::Positions);
    doc.as_json().meshes[mesh].primitives[primitive].attributes.get(&key).map(|a| a.value())
}

/// The number of textures of the scene, from `Document::textures`.
#[verifier::external_body]
pub(crate) fn texture_count(doc: &gltf::Gltf) -> (count: usize)
    ensures
        count == scene_textures(document_source(*doc)).len(),
{
    doc.textures().len()
}

/// The image behind texture `texture`, read from the fields of the parsed
/// scene (`Document::as_json`): its buffer view, where it has one, and
/// whether it states a URI and a media type.
#[verifier::external_body]
pub(crate) fn texture_image(doc: &gltf::Gltf, texture: usize) -> (image: ImageLayout)
    requires
        scene_is_valid(document_source(*doc)),
        texture < scene_textures(document_source(*doc)).len(),
    ensures
        image == scene_textures(document_source(*doc))[texture as int],
{
    let root = doc.as_json();
    let image = &root.images[root.textures[texture].source.value()];
    ImageLayout {
        view: image.buffer_view.map(|index| {
            let view = doc.views().nth(index.value()).unwrap();
            ViewLayout { offset: view.offset(), length: view.length(), stride: view.stride() }
        }),
        has_uri: image.uri.is_some(),
        has_mime_type: image.mime_type.is_some(),
    }
}

/// The number of meshes of the scene, from `Document::meshes`.
#[verifier::external_body]
pub(crate) fn mesh_count(doc: &gltf::Gltf) -> (count: usize)
    ensures
        count == scene_primitives(document_source(*doc)).len(),
{
    doc.meshes().len()
}

/// The number of primitives of mesh `mesh`, from `Mesh::primitives`.
#[verifier::external_body]
pub(crate) fn primitive_count(doc: &gltf::Gltf, mesh: usize) -> (count: usize)
    requires
        mesh < scene_primitives(document_source(*doc)).len(),
    ensures
        count == scene_primitives(document_source(*doc))[mesh as int].len(),
{
    doc.meshes().nth(mesh).unwrap().primitives().len()
}

/// What primitive `primitive` of mesh `mesh` names: the accessors that
/// `Primitive::get` and `Primitive::indices` give for its positions,
/// normals, colors and texture coordinates of set 0 and its indices, and
/// the texture of its material's base color.
#[verifier::external_body]
pub(crate) fn primitive_layout(doc: &gltf::Gltf, mesh: usize, primitive: usize) -> (layout:
    PrimitiveLayout)
    requires
        scene_is_valid(document_source(*doc)),
        mesh < scene_primitives(document_source(*doc)).len(),
        primitive < scene_primitives(document_source(*doc))[mesh as int].len(),
    ensures
        layout == scene_primitives(document_source(*doc))[mesh as int][primitive as int],
{
    let p = doc.meshes().nth(mesh).unwrap().primitives().nth(primitive).unwrap();
    PrimitiveLayout {
        positions: p.get(&gltf::Semantic::Positions).map(|a| a.index()),
        normals: p.get(&gltf::Semantic::Normals).map(|a| a.index()),
        colors: p.get(&gltf::Semantic::Colors(0)).map(|a| a.index()),
        tex_coords: p.get(&gltf::Semantic::TexCoords(0)).map(|a| a.index()),
        indices: p.indices().map(|a| a.index()),
        base_color_texture: p.material().pbr_metallic_roughness().base_color_texture().map(
            |info| info.texture().index(),
        ),
    }
}

/// The component type of accessor `accessor`, from `Accessor::data_type`.
#[verifier::external_body]
pub(crate) fn accessor_component(doc: &gltf::Gltf, accessor: usize) -> (kind: ComponentKind)
    requires
        scene_is_valid(document_source(*doc)),
        accessor < scene_accessor_components(document_source(*doc)).len(),
    ensures
        kind == scene_accessor_components(document_source(*doc))[accessor as int],
{
    match doc.accessors().nth(accessor).unwrap().data_type() {
        gltf::accessor::DataType::I8 => ComponentKind::I8,
        gltf::accessor::DataType::U8 => ComponentKind::U8,
        gltf::accessor::DataType::I16 => ComponentKind::I16,
        gltf::accessor::DataType::U16 => ComponentKind::U16,
        gltf::accessor::DataType::U32 => ComponentKind::U32,
        gltf::accessor::DataType::F32 => ComponentKind::F32,
    }
}

/// The item shape of accessor `accessor`, from `Accessor::dimensions`.
#[verifier::external_body]
pub(crate) fn accessor_dimensions(doc: &gltf::Gltf, accessor: usize) -> (shape: Dimensions)
    requires
        scene_is_valid(document_source(*doc)),
        accessor < scene_accessor_dimensions(document_source(*doc)).len(),
    ensures
        shape == scene_accessor_dimensions(document_source(*doc))[accessor as int],
{
    match doc.accessors().nth(accessor).unwrap().dimensions() {
        gltf::accessor::Dimensions::Scalar => Dimensions::Scalar,
        gltf::accessor::Dimensions::Vec2 => Dimensions::Vec2,
        gltf::accessor::Dimensions::Vec3 => Dimensions::Vec3,
        gltf::accessor::Dimensions::Vec4 => Dimensions::Vec4,
        gltf::accessor::Dimensions::Mat2 => Dimensions::Mat2,
        gltf::accessor::Dimensions::Mat3 => Dimensions::Mat3,
        gltf::accessor::Dimensions::Mat4 => Dimensions::Mat4,
    }
}

/// Where the items of accessor `accessor` lie: its count, its offset and
/// its buffer view, from the methods of `Accessor` and `buffer::View` of
/// those names.
#[verifier::external_body]
pub(crate) fn accessor_span(doc: &gltf::Gltf, accessor: usize) -> (span: AccessorSpan)
    requires
        scene_is_valid(document_source(*doc)),
        accessor < scene_accessor_spans(document_source(*doc)).len(),
    ensures
        span == scene_accessor_spans(document_source(*doc))[accessor as int],
{
    let a = doc.accessors().nth(accessor).unwrap();
    AccessorSpan {
        count: a.count(),
        offset: a.offset(),
        view: a.view().map(|view| {
            ViewLayout { offset: view.offset(), length: view.length(), stride: view.stride() }
        }),
    }
}

/// The sparse list of accessor `accessor`, where it has one: the count of
/// the list, the size of its index type, and the views and offsets of its
/// places and of its items, from `Accessor::sparse` and the methods of
/// `sparse::Sparse`, `sparse::Indices` and `sparse::Values`.
#[verifier::external_body]
pub(crate) fn accessor_sparse(doc: &gltf::Gltf, accessor: usize) -> (sparse: Option<SparseLayout>)
    requires
        scene_is_valid(document_source(*doc)),
        accessor < scene_accessor_sparse(document_source(*doc)).len(),
    ensures
        sparse == scene_accessor_sparse(document_source(*doc))[accessor as int],
{
    let list = doc.accessors().nth(accessor).unwrap().sparse()?;
    let (places, items) = (list.indices(), list.values());
    let (from, to) = (places.view(), items.view());
    Some(SparseLayout {
        count: list.count(),
        index_size: places.index_type().size(),
        indices_view: ViewLayout { offset: from.offset(), length: from.length(), stride: from.stride() },
        indices_offset: places.offset(),
        values_view: ViewLayout { offset: to.offset(), length: to.length(), stride: to.stride() },
        values_offset: items.offset(),
    })
}

/// Accessor `accessor` of the scene.
pub open spec fn scene_accessor(json: Seq<u8>, accessor: int) -> AccessorLayout {
    AccessorLayout {
        component: scene_accessor_components(json)[accessor],
        dimensions: scene_accessor_dimensions(json)[accessor],
        span: scene_accessor_spans(json)[accessor],
        sparse: scene_accessor_sparse(json)[accessor],
    }
}

/// Accessor `accessor` of the scene can be read as items of three
/// single-precision components.
pub open spec fn reads_as_vec3(json: Seq<u8>, accessor: int) -> bool {
    &&& 0 <= accessor < scene_accessor_spans(json).len()
    &&& scene_accessor(json, accessor).reads_as_vec3()
}

/// Accessor `accessor` of the scene can be read as colors.
pub open spec fn reads_as_colors(json: Seq<u8>, accessor: int) -> bool {
    &&& 0 <= accessor < scene_accessor_spans(json).len()
    &&& scene_accessor(json, accessor).reads_as_colors()
}

/// Accessor `accessor` of the scene can be read as texture coordinates.
pub open spec fn reads_as_tex_coords(json: Seq<u8>, accessor: int) -> bool {
    &&& 0 <= accessor < scene_accessor_spans(json).len()
    &&& scene_accessor(json, accessor).reads_as_tex_coords()
}

/// Accessor `accessor` of the scene can be read as indices.
pub open spec fn reads_as_indices(json: Seq<u8>, accessor: int) -> bool {
    &&& 0 <= accessor < scene_accessor_spans(json).len()
    &&& scene_accessor(json, accessor).reads_as_indices()
}

/// `(mesh, primitive)` names a primitive of the scene.
pub open spec fn is_primitive(json: Seq<u8>, mesh: int, primitive: int) -> bool {
    &&& 0 <= mesh < scene_primitives(json).len()
    &&& 0 <= primitive < scene_primitives(json)[mesh].len()
}

/// Calls `Reader::read_positions` and collects what its iterator yields,
/// each component kept as its bit pattern (`bytemuck::cast`). The result
/// is named [`scene_positions`]. The iterator takes the accessor's items
/// to be twelve bytes, walks them, and the places and items of a sparse
/// list, in strides of at least an item's size, and computes where each
/// run ends, so accessors that cannot be walked so are left out.
#[verifier::external_body]
pub(crate) fn read_positions(doc: &gltf::Gltf, bin: &[u8], mesh: usize, primitive: usize) -> (items:
    Option<Vec<[u32; 3]>>)
    requires
        scene_is_valid(document_source(*doc)),
        is_primitive(document_source(*doc), mesh as int, primitive as int),
        scene_primitives(document_source(*doc))[mesh as int][primitive as int].positions matches Some(
            a,
        ) ==> reads_as_vec3(document_source(*doc), a as int),
    ensures
        match items {
            Some(items) => scene_positions(
                document_source(*doc),
                bin@,
                mesh as int,
                primitive as int,
            ) == Some(items@),
            None => scene_positions(document_source(*doc), bin@, mesh as int, primitive as int)
                is None,
        },
{
    let p = doc.meshes().nth(mesh).unwrap().primitives().nth(primitive).unwrap();
    let items = p.reader(|_| Some(bin)).read_positions()?;
    Some(items.map(bytemuck::cast).collect())
}

/// Calls `Reader::read_normals` and collects what its iterator yields,
/// each component kept as its bit pattern. The result is named
/// [`scene_normals`]. The accessor is walked as that of the positions is.
#[verifier::external_body]
pub(crate) fn read_normals(doc: &gltf::Gltf, bin: &[u8], mesh: usize, primitive: usize) -> (items:
    Option<Vec<[u32; 3]>>)
    requires
        scene_is_valid(document_source(*doc)),
        is_primitive(document_source(*doc), mesh as int, primitive as int),
        scene_primitives(document_source(*doc))[mesh as int][primitive as int].normals matches Some(
            a,
        ) ==> reads_as_vec3(document_source(*doc), a as int),
    ensures
        match items {
            Some(items) => scene_normals(
                document_source(*doc),
                bin@,
                mesh as int,
                primitive as int,
            ) == Some(items@),
            None => scene_normals(document_source(*doc), bin@, mesh as int, primitive as int)
                is None,
        },
{
    let p = doc.meshes().nth(mesh).unwrap().primitives().nth(primitive).unwrap();
    let items = p.reader(|_| Some(bin)).read_normals()?;
    Some(items.map(bytemuck::cast).collect())
}

/// Calls `Reader::read_colors` for set 0 and collects what
/// `ReadColors::into_rgb_f32` yields, each channel kept as its bit
/// pattern. The result is named [`scene_colors`]. The reader knows three
/// component types and two shapes and walks the accessor in items of the
/// size they give, so other accessors are left out.
#[verifier::external_body]
pub(crate) fn read_colors(doc: &gltf::Gltf, bin: &[u8], mesh: usize, primitive: usize) -> (items:
    Option<Vec<[u32; 3]>>)
    requires
        scene_is_valid(document_source(*doc)),
        is_primitive(document_source(*doc), mesh as int, primitive as int),
        scene_primitives(document_source(*doc))[mesh as int][primitive as int].colors matches Some(
            a,
        ) ==> reads_as_colors(document_source(*doc), a as int),
    ensures
        match items {
            Some(items) => scene_colors(
                document_source(*doc),
                bin@,
                mesh as int,
                primitive as int,
            ) == Some(items@),
            None => scene_colors(document_source(*doc), bin@, mesh as int, primitive as int)
                is None,
        },
{
    let p = doc.meshes().nth(mesh).unwrap().primitives().nth(primitive).unwrap();
    let items = p.reader(|_| Some(bin)).read_colors(0)?;
    Some(items.into_rgb_f32().map(bytemuck::cast).collect())
}

/// Calls `Reader::read_tex_coords` for set 0 and collects what
/// `ReadTexCoords::into_f32` yields, each component kept as its bit
/// pattern. The result is named [`scene_tex_coords`]. The reader knows
/// three component types and walks the accessor in pairs of them, so
/// other accessors are left out.
#[verifier::external_body]
pub(crate) fn read_tex_coords(doc: &gltf::Gltf, bin: &[u8], mesh: usize, primitive: usize) -> (items:
    Option<Vec<[u32; 2]>>)
    requires
        scene_is_valid(document_source(*doc)),
        is_primitive(document_source(*doc), mesh as int, primitive as int),
        scene_primitives(
            document_source(*doc),
        )[mesh as int][primitive as int].tex_coords matches Some(a) ==> reads_as_tex_coords(
            document_source(*doc),
            a as int,
        ),
    ensures
        match items {
            Some(items) => scene_tex_coords(
                document_source(*doc),
                bin@,
                mesh as int,
                primitive as int,
            ) == Some(items@),
            None => scene_tex_coords(document_source(*doc), bin@, mesh as int, primitive as int)
                is None,
        },
{
    let p = doc.meshes().nth(mesh).unwrap().primitives().nth(primitive).unwrap();
    let items = p.reader(|_| Some(bin)).read_tex_coords(0)?;
    Some(items.into_f32().map(bytemuck::cast).collect())
}

/// Calls `Reader::read_indices` and collects what
/// `ReadIndices::into_u32` yields. The result is named
/// [`scene_indices`]. The reader knows three component types and walks
/// the accessor in single components, so other accessors are left out.
#[verifier::external_body]
pub(crate) fn read_indices(doc: &gltf::Gltf, bin: &[u8], mesh: usize, primitive: usize) -> (items:
    Option<Vec<u32>>)
    requires
        scene_is_valid(document_source(*doc)),
        is_primitive(document_source(*doc), mesh as int, primitive as int),
        scene_primitives(document_source(*doc))[mesh as int][primitive as int].indices matches Some(
            a,
        ) ==> reads_as_indices(document_source(*doc), a as int),
    ensures
        match items {
            Some(items) => scene_indices(
                document_source(*doc),
                bin@,
                mesh as int,
                primitive as int,
            ) == Some(items@),
            None => scene_indices(document_source(*doc), bin@, mesh as int, primitive as int)
                is None,
        },
{
    let p = doc.meshes().nth(mesh).unwrap().primitives().nth(primitive).unwrap();
    let items = p.reader(|_| Some(bin)).read_indices()?;
    Some(items.into_u32().collect())
}

/// Calls `image::guess_format`, which tells the format by the signature
/// at the start of the bytes, then `image::load_from_memory_with_format`
/// for that format and `DynamicImage::to_rgba8`. All three read the bytes
/// and nothing else. The result is named [`decoded_rgba8`]; the buffer
/// that comes back holds four bytes for each texel.
#[verifier::external_body]
pub(crate) fn decode_rgba8(bytes: &[u8]) -> (result: Option<Texture>)
    ensures
        match result {
            Some(texture) => {
                &&& decoded_rgba8(bytes@) == Some((texture.data@, texture.width, texture.height))
                &&& texture.format == TextureFormat::Rgba8UnormSrgb
                &&& texture.is_complete()
            },
            None => decoded_rgba8(bytes@) is None,
        },
{
    let format = image::guess_format(bytes).ok()?;
    let image = image::load_from_memory_with_format(bytes, format).ok()?.to_rgba8();
    let (width, height) = image.dimensions();
    Some(Texture { data: image.into_raw(), width, height, format: TextureFormat::Rgba8UnormSrgb })
}

} // verus!
