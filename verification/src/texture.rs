//! Image data on its way to the GPU.

use vstd::prelude::*;

verus! {

/// The texel format of a texture.
#[derive(Clone, Copy, Debug, PartialEq, Eq, Structural)]
pub enum TextureFormat {
    /// Four 8-bit channels, red first, in the sRGB color space.
    Rgba8UnormSrgb,
}

/// The extent of a texture.
#[derive(Clone, Copy, Debug, PartialEq, Eq, Structural)]
pub struct Extent3d {
    pub width: u32,
    pub height: u32,
    pub depth_or_array_layers: u32,
}

/// How the bytes of an image are laid out for a write to a texture.
#[derive(Clone, Copy, Debug, PartialEq, Eq, Structural)]
pub struct ImageDataLayout {
    pub offset: u64,
    pub bytes_per_row: u32,
    pub rows_per_image: u32,
}

/// The layout of `bytes` bytes of texels written as an image of the given
/// width and height: rows of four bytes for each texel, one image of
/// `height` rows, from the first byte on. There is none where the bytes
/// are not exactly the texels of such an image, or where a row is too
/// long for 32 bits.
pub open spec fn spec_write_layout(bytes: int, width: u32, height: u32) -> Option<ImageDataLayout> {
    if bytes == 4 * width * height && 4 * width <= u32::MAX {
        Some(
            ImageDataLayout {
                offset: 0,
                bytes_per_row: (4 * width) as u32,
                rows_per_image: height,
            },
        )
    } else {
        None
    }
}

/// The layout of `bytes` bytes of texels written as an image of the given
/// width and height, where there is one.
pub fn write_layout(bytes: usize, width: u32, height: u32) -> (layout: Option<ImageDataLayout>)
    ensures
        layout == spec_write_layout(bytes as int, width, height),
{
    let wide_width: u128 = width as u128;
    let wide_height: u128 = height as u128;
    assert(4 * wide_width * wide_height <= 4 * 0xFFFF_FFFF * 0xFFFF_FFFF) by (nonlinear_arith)
        requires
            wide_width <= 0xFFFF_FFFF,
            wide_height <= 0xFFFF_FFFF,
    ;
    if bytes as u128 == 4 * wide_width * wide_height && width <= u32::MAX / 4 {
        Some(ImageDataLayout { offset: 0, bytes_per_row: 4 * width, rows_per_image: height })
    } else {
        None
    }
}

/// An image held as raw bytes, row by row, four bytes to a texel.
#[derive(Clone, Debug, PartialEq, Eq)]
pub struct Texture {
    pub data: Vec<u8>,
    pub width: u32,
    pub height: u32,
    pub format: TextureFormat,
}

impl Texture {
    /// The extent of this image: its width and height, one layer deep.
    pub open spec fn spec_size(&self) -> Extent3d {
        Extent3d { width: self.width, height: self.height, depth_or_array_layers: 1 }
    }

    /// The data holds exactly four bytes for each texel.
    pub open spec fn spec_is_complete(&self) -> bool {
        self.data@.len() == 4 * self.width * self.height
    }

    /// An image of the given size over the given bytes.
    pub fn new(data: Vec<u8>, width: u32, height: u32) -> (texture: Self)
        ensures
            texture.data == data,
            texture.width == width,
            texture.height == height,
            texture.format == TextureFormat::Rgba8UnormSrgb,
    {
        Self { data, width, height, format: TextureFormat::Rgba8UnormSrgb }
    }

    /// The extent of this image: its width and height, one layer deep.
    #[verifier::when_used_as_spec(spec_size)]
    pub fn size(&self) -> (extent: Extent3d)
        ensures
            extent == self.spec_size(),
    {
        Extent3d { width: self.width, height: self.height, depth_or_array_layers: 1 }
    }

    /// Whether the data holds exactly four bytes for each texel.
    #[verifier::when_used_as_spec(spec_is_complete)]
    pub fn is_complete(&self) -> (complete: bool)
        ensures
            complete == self.spec_is_complete(),
    {
        let width: u128 = self.width as u128;
        let height: u128 = self.height as u128;
        assert(4 * width * height <= 4 * 0xFFFF_FFFF * 0xFFFF_FFFF) by (nonlinear_arith)
            requires
                width <= 0xFFFF_FFFF,
                height <= 0xFFFF_FFFF,
        ;
        let texels: u128 = 4 * width * height;
        self.data.len() as u128 == texels
    }
}

} // verus!
