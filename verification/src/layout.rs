//! How the data of an asset is laid out in its binary chunk, as the scene
//! description states it, and what the loader demands of a layout before
//! it reads anything through it.

use vstd::prelude::*;
use crate::error::FatalLoadError;

verus! {

/// The type of the components of an accessor's items.
#[derive(Clone, Copy, Debug, PartialEq, Eq, Structural)]
pub enum ComponentKind {
    I8,
    U8,
    I16,
    U16,
    U32,
    F32,
}

/// The shape of an accessor's items.
#[derive(Clone, Copy, Debug, PartialEq, Eq, Structural)]
pub enum Dimensions {
    Scalar,
    Vec2,
    Vec3,
    Vec4,
    Mat2,
    Mat3,
    Mat4,
}

/// A window into the binary chunk.
#[derive(Clone, Copy, Debug, PartialEq, Eq, Structural)]
pub struct ViewLayout {
    pub offset: usize,
    pub length: usize,
    /// The distance between the starts of two items, where the scene
    /// states one other than zero.
    pub stride: Option<usize>,
}

/// Where the items of an accessor lie.
#[derive(Clone, Copy, Debug, PartialEq, Eq, Structural)]
pub struct AccessorSpan {
    pub count: usize,
    pub offset: usize,
    pub view: Option<ViewLayout>,
}

/// The sparse list of an accessor: `count` items that replace the items
/// at as many places. The places are numbers of `index_size` bytes.
#[derive(Clone, Copy, Debug, PartialEq, Eq, Structural)]
pub struct SparseLayout {
    pub count: usize,
    pub index_size: usize,
    pub indices_view: ViewLayout,
    pub indices_offset: usize,
    pub values_view: ViewLayout,
    pub values_offset: usize,
}

/// An accessor of the scene: what its items are and where they lie.
#[derive(Clone, Copy, Debug, PartialEq, Eq, Structural)]
pub struct AccessorLayout {
    pub component: ComponentKind,
    pub dimensions: Dimensions,
    pub span: AccessorSpan,
    pub sparse: Option<SparseLayout>,
}

/// The image behind a texture, as the scene describes it.
#[derive(Clone, Copy, Debug, PartialEq, Eq, Structural)]
pub struct ImageLayout {
    pub view: Option<ViewLayout>,
    pub has_uri: bool,
    pub has_mime_type: bool,
}

/// What a primitive names: the accessors of its attributes and of its
/// indices, and the texture of its material's base color, each by its
/// index in the scene.
#[derive(Clone, Copy, Debug, PartialEq, Eq, Structural)]
pub struct PrimitiveLayout {
    pub positions: Option<usize>,
    pub normals: Option<usize>,
    pub colors: Option<usize>,
    pub tex_coords: Option<usize>,
    pub indices: Option<usize>,
    pub base_color_texture: Option<usize>,
}

/// The index, where there is one, is below `count`.
pub open spec fn is_within(index: Option<usize>, count: int) -> bool {
    match index {
        Some(index) => index < count,
        None => true,
    }
}

/// The 32-bit little-endian number in the four bytes from `at` on.
pub open spec fn le_u32(bytes: Seq<u8>, at: int) -> int {
    bytes[at] + 0x100 * bytes[at + 1] + 0x1_0000 * bytes[at + 2] + 0x100_0000 * bytes[at + 3]
}

/// The bytes begin with the container's magic, `glTF`.
pub open spec fn has_container_magic(bytes: Seq<u8>) -> bool {
    &&& bytes.len() >= 4
    &&& bytes[0] == 0x67
    &&& bytes[1] == 0x6C
    &&& bytes[2] == 0x54
    &&& bytes[3] == 0x46
}

/// The bytes do not begin with a container header that states a total
/// length shorter than the header itself.
pub open spec fn header_is_sound(bytes: Seq<u8>) -> bool {
    !(bytes.len() >= 12 && has_container_magic(bytes) && le_u32(bytes, 8) < 12)
}

/// Whether the bytes do not begin with a container header that states a
/// total length shorter than the header itself.
pub fn header_sound(bytes: &[u8]) -> (sound: bool)
    ensures
        sound == header_is_sound(bytes@),
{
    if bytes.len() < 12 {
        return true;
    }
    if bytes[0] != 0x67 || bytes[1] != 0x6C || bytes[2] != 0x54 || bytes[3] != 0x46 {
        return true;
    }
    let length: u32 = bytes[8] as u32 + 0x100 * (bytes[9] as u32) + 0x1_0000 * (bytes[10] as u32)
        + 0x100_0000 * (bytes[11] as u32);
    assert(length == le_u32(bytes@, 8));
    length >= 12
}

impl ComponentKind {
    /// The size of one component in bytes.
    pub open spec fn spec_size(self) -> int {
        match self {
            ComponentKind::I8 | ComponentKind::U8 => 1,
            ComponentKind::I16 | ComponentKind::U16 => 2,
            ComponentKind::U32 | ComponentKind::F32 => 4,
        }
    }

    /// The size of one component in bytes.
    pub fn size(self) -> (size: usize)
        ensures
            size == self.spec_size(),
    {
        match self {
            ComponentKind::I8 | ComponentKind::U8 => 1,
            ComponentKind::I16 | ComponentKind::U16 => 2,
            ComponentKind::U32 | ComponentKind::F32 => 4,
        }
    }
}

impl Dimensions {
    /// The number of components of one item.
    pub open spec fn spec_multiplicity(self) -> int {
        match self {
            Dimensions::Scalar => 1,
            Dimensions::Vec2 => 2,
            Dimensions::Vec3 => 3,
            Dimensions::Vec4 | Dimensions::Mat2 => 4,
            Dimensions::Mat3 => 9,
            Dimensions::Mat4 => 16,
        }
    }

    /// The number of components of one item.
    pub fn multiplicity(self) -> (count: usize)
        ensures
            count == self.spec_multiplicity(),
    {
        match self {
            Dimensions::Scalar => 1,
            Dimensions::Vec2 => 2,
            Dimensions::Vec3 => 3,
            Dimensions::Vec4 | Dimensions::Mat2 => 4,
            Dimensions::Mat3 => 9,
            Dimensions::Mat4 => 16,
        }
    }
}

/// A run of `count` items of `item_size` bytes from `offset` on in a view
/// can be walked: there is an item, the items do not overlap, and the
/// ends of the last item and of the view can be computed in a machine
/// word.
pub open spec fn run_is_walkable(view: ViewLayout, offset: int, count: int, item_size: int) -> bool {
    let stride = match view.stride {
        Some(stride) => stride as int,
        None => item_size,
    };
    &&& count >= 1
    &&& stride >= item_size
    &&& offset + stride * (count - 1) + item_size <= usize::MAX
    &&& view.offset + view.length <= usize::MAX
}

/// The items of an accessor can be walked as items of `item_size` bytes:
/// the run of its own items can be walked, where it has a view, and where
/// it has a sparse list, the runs of the list's places and of its items
/// can be walked too and its items can be counted in 32 bits.
pub open spec fn span_is_walkable(
    span: AccessorSpan,
    sparse: Option<SparseLayout>,
    item_size: int,
) -> bool {
    &&& span.view matches Some(view) ==> run_is_walkable(
        view,
        span.offset as int,
        span.count as int,
        item_size,
    )
    &&& sparse matches Some(list) ==> {
        &&& span.count <= u32::MAX
        &&& run_is_walkable(
            list.indices_view,
            list.indices_offset as int,
            list.count as int,
            list.index_size as int,
        )
        &&& run_is_walkable(
            list.values_view,
            list.values_offset as int,
            list.count as int,
            item_size,
        )
    }
}

/// Whether a run of `count` items of `item_size` bytes from `offset` on
/// in a view can be walked.
pub fn run_walkable(view: &ViewLayout, offset: usize, count: usize, item_size: usize) -> (walkable:
    bool)
    ensures
        walkable == run_is_walkable(*view, offset as int, count as int, item_size as int),
{
    if count < 1 {
        return false;
    }
    let stride: usize = match view.stride {
        Some(stride) => stride,
        None => item_size,
    };
    if stride < item_size {
        return false;
    }
    let steps: u128 = (count - 1) as u128;
    let wide_stride: u128 = stride as u128;
    assert(wide_stride * steps <= 0xFFFF_FFFF_FFFF_FFFF * 0xFFFF_FFFF_FFFF_FFFF)
        by (nonlinear_arith)
        requires
            0 <= wide_stride <= 0xFFFF_FFFF_FFFF_FFFF,
            0 <= steps <= 0xFFFF_FFFF_FFFF_FFFF,
    ;
    let end: u128 = offset as u128 + wide_stride * steps + item_size as u128;
    let view_end: u128 = view.offset as u128 + view.length as u128;
    end <= usize::MAX as u128 && view_end <= usize::MAX as u128
}

/// Whether the items of an accessor can be walked as items of
/// `item_size` bytes.
pub fn span_walkable(span: &AccessorSpan, sparse: &Option<SparseLayout>, item_size: usize) -> (walkable:
    bool)
    ensures
        walkable == span_is_walkable(*span, *sparse, item_size as int),
{
    let own = match &span.view {
        Some(view) => run_walkable(view, span.offset, span.count, item_size),
        None => true,
    };
    let list = match sparse {
        Some(list) => {
            span.count <= u32::MAX as usize && run_walkable(
                &list.indices_view,
                list.indices_offset,
                list.count,
                list.index_size,
            ) && run_walkable(&list.values_view, list.values_offset, list.count, item_size)
        },
        None => true,
    };
    own && list
}

impl AccessorLayout {
    /// The size of one item in bytes.
    pub open spec fn item_size(self) -> int {
        self.component.spec_size() * self.dimensions.spec_multiplicity()
    }

    /// The accessor can be read as items of three single-precision
    /// components: its items are twelve bytes and can be walked.
    pub open spec fn reads_as_vec3(self) -> bool {
        &&& self.item_size() == 12
        &&& span_is_walkable(self.span, self.sparse, 12)
    }

    /// The accessor can be read as colors: three or four channels of
    /// unsigned bytes, unsigned shorts or single precision, that can be
    /// walked.
    pub open spec fn reads_as_colors(self) -> bool {
        &&& self.component == ComponentKind::U8 || self.component == ComponentKind::U16
            || self.component == ComponentKind::F32
        &&& self.dimensions == Dimensions::Vec3 || self.dimensions == Dimensions::Vec4
        &&& span_is_walkable(self.span, self.sparse, self.item_size())
    }

    /// The accessor can be read as texture coordinates: pairs of unsigned
    /// bytes, unsigned shorts or single precision, that can be walked.
    pub open spec fn reads_as_tex_coords(self) -> bool {
        &&& self.component == ComponentKind::U8 || self.component == ComponentKind::U16
            || self.component == ComponentKind::F32
        &&& self.dimensions == Dimensions::Vec2
        &&& span_is_walkable(self.span, self.sparse, 2 * self.component.spec_size())
    }

    /// The accessor can be read as indices: single unsigned bytes, shorts
    /// or 32-bit numbers, that can be walked.
    pub open spec fn reads_as_indices(self) -> bool {
        &&& self.component == ComponentKind::U8 || self.component == ComponentKind::U16
            || self.component == ComponentKind::U32
        &&& self.dimensions == Dimensions::Scalar
        &&& span_is_walkable(self.span, self.sparse, self.component.spec_size())
    }

    /// Whether the accessor can be read as items of three
    /// single-precision components.
    pub fn can_read_as_vec3(&self) -> (readable: bool)
        ensures
            readable == self.reads_as_vec3(),
    {
        let size: usize = self.component.size() * self.dimensions.multiplicity();
        size == 12 && span_walkable(&self.span, &self.sparse, 12)
    }

    /// Whether the accessor can be read as colors.
    pub fn can_read_as_colors(&self) -> (readable: bool)
        ensures
            readable == self.reads_as_colors(),
    {
        let known_component = match self.component {
            ComponentKind::U8 | ComponentKind::U16 | ComponentKind::F32 => true,
            _ => false,
        };
        let known_shape = match self.dimensions {
            Dimensions::Vec3 | Dimensions::Vec4 => true,
            _ => false,
        };
        known_component && known_shape && span_walkable(
            &self.span,
            &self.sparse,
            self.component.size() * self.dimensions.multiplicity(),
        )
    }

    /// Whether the accessor can be read as texture coordinates.
    pub fn can_read_as_tex_coords(&self) -> (readable: bool)
        ensures
            readable == self.reads_as_tex_coords(),
    {
        let known_component = match self.component {
            ComponentKind::U8 | ComponentKind::U16 | ComponentKind::F32 => true,
            _ => false,
        };
        let pair = match self.dimensions {
            Dimensions::Vec2 => true,
            _ => false,
        };
        known_component && pair && span_walkable(
            &self.span,
            &self.sparse,
            2 * self.component.size(),
        )
    }

    /// Whether the accessor can be read as indices.
    pub fn can_read_as_indices(&self) -> (readable: bool)
        ensures
            readable == self.reads_as_indices(),
    {
        let known_component = match self.component {
            ComponentKind::U8 | ComponentKind::U16 | ComponentKind::U32 => true,
            _ => false,
        };
        let single = match self.dimensions {
            Dimensions::Scalar => true,
            _ => false,
        };
        known_component && single && span_walkable(
            &self.span,
            &self.sparse,
            self.component.size(),
        )
    }
}

impl ImageLayout {
    /// Where the bytes of the image lie in a binary chunk of `chunk`
    /// bytes, from the first byte to one past the last, or why the image
    /// cannot be had: an image in the chunk must state its media type and
    /// lie within the chunk; an image that names a URI lies outside the
    /// container; an image that names neither is no image.
    pub open spec fn spec_byte_range(self, chunk: int) -> Result<(usize, usize), FatalLoadError> {
        match self.view {
            Some(view) => {
                if !self.has_mime_type {
                    Err(FatalLoadError::InvalidScene)
                } else if view.offset + view.length > chunk {
                    Err(FatalLoadError::ImageOutOfBounds)
                } else {
                    Ok((view.offset, (view.offset + view.length) as usize))
                }
            },
            None => {
                if self.has_uri {
                    Err(FatalLoadError::ExternalImage)
                } else {
                    Err(FatalLoadError::InvalidScene)
                }
            },
        }
    }

    /// Where the bytes of the image lie in a binary chunk of `chunk`
    /// bytes, or why the image cannot be had.
    pub fn byte_range(&self, chunk: usize) -> (range: Result<(usize, usize), FatalLoadError>)
        ensures
            range == self.spec_byte_range(chunk as int),
            range matches Ok((from, to)) ==> from <= to <= chunk,
    {
        match self.view {
            Some(view) => {
                if !self.has_mime_type {
                    Err(FatalLoadError::InvalidScene)
                } else if view.offset > chunk || view.length > chunk - view.offset {
                    Err(FatalLoadError::ImageOutOfBounds)
                } else {
                    Ok((view.offset, view.offset + view.length))
                }
            },
            None => {
                if self.has_uri {
                    Err(FatalLoadError::ExternalImage)
                } else {
                    Err(FatalLoadError::InvalidScene)
                }
            },
        }
    }
}

} // verus!
