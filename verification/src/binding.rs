//! What a draw call binds for texturing: a texture view, a sampler and the
//! render-mode flag that tells the shader how to shade.

use vstd::prelude::*;
use crate::texture::Extent3d;

verus! {

/// How the shader colors a fragment.
#[derive(Clone, Copy, Debug, PartialEq, Eq, Structural)]
pub enum RenderMode {
    /// Flat shading from the vertex colors.
    Color,
    /// Shading sampled from the bound texture.
    Texture,
}

impl RenderMode {
    /// The value of the flag as the shader reads it.
    pub open spec fn spec_flag(self) -> i32 {
        match self {
            RenderMode::Color => 0,
            RenderMode::Texture => 1,
        }
    }

    /// The value of the flag as the shader reads it.
    #[verifier::when_used_as_spec(spec_flag)]
    pub fn flag(self) -> (value: i32)
        ensures
            value == self.spec_flag(),
    {
        match self {
            RenderMode::Color => 0,
            RenderMode::Texture => 1,
        }
    }
}

/// How a sampler picks between texels.
#[derive(Clone, Copy, Debug, PartialEq, Eq, Structural)]
pub enum FilterMode {
    Nearest,
    Linear,
}

/// How a sampler treats coordinates outside the texture.
#[derive(Clone, Copy, Debug, PartialEq, Eq, Structural)]
pub enum AddressMode {
    /// The texel at the nearest edge is taken.
    ClampToEdge,
}

/// A sampler. Every sampler of the scene clamps to the edge along all
/// three axes; they differ in their filters.
#[derive(Clone, Copy, Debug, PartialEq, Eq, Structural)]
pub struct Sampler {
    pub address_mode: AddressMode,
    pub mag_filter: FilterMode,
    pub min_filter: FilterMode,
    pub mipmap_filter: FilterMode,
}

impl Sampler {
    /// The sampler of a device's defaults: nearest texel throughout.
    pub open spec fn spec_nearest() -> Sampler {
        Sampler {
            address_mode: AddressMode::ClampToEdge,
            mag_filter: FilterMode::Nearest,
            min_filter: FilterMode::Nearest,
            mipmap_filter: FilterMode::Nearest,
        }
    }

    /// The sampler shared by models and grids: linear within a level,
    /// nearest between levels.
    pub open spec fn spec_linear() -> Sampler {
        Sampler {
            address_mode: AddressMode::ClampToEdge,
            mag_filter: FilterMode::Linear,
            min_filter: FilterMode::Linear,
            mipmap_filter: FilterMode::Nearest,
        }
    }

    /// The sampler of a device's defaults: nearest texel throughout.
    #[verifier::when_used_as_spec(spec_nearest)]
    pub fn nearest() -> (sampler: Sampler)
        ensures
            sampler == Sampler::spec_nearest(),
    {
        Sampler {
            address_mode: AddressMode::ClampToEdge,
            mag_filter: FilterMode::Nearest,
            min_filter: FilterMode::Nearest,
            mipmap_filter: FilterMode::Nearest,
        }
    }

    /// The sampler shared by models and grids.
    #[verifier::when_used_as_spec(spec_linear)]
    pub fn linear() -> (sampler: Sampler)
        ensures
            sampler == Sampler::spec_linear(),
    {
        Sampler {
            address_mode: AddressMode::ClampToEdge,
            mag_filter: FilterMode::Linear,
            min_filter: FilterMode::Linear,
            mipmap_filter: FilterMode::Nearest,
        }
    }
}

/// The texture that a bind group shows to the shader.
#[derive(Clone, Copy, Debug, PartialEq, Eq, Structural)]
pub enum TextureView {
    /// The shared default texture of one texel.
    Default,
    /// The texture of a model with the given index among the model's
    /// textures.
    Image(usize),
    /// The layers of a landscape's texture array of the given extent.
    LayerArray(Extent3d),
}

/// The resources bound for texturing one draw call.
#[derive(Clone, Copy, Debug, PartialEq, Eq, Structural)]
pub struct TextureBindGroup {
    pub view: TextureView,
    pub sampler: Sampler,
    pub render_mode: RenderMode,
}

impl TextureBindGroup {
    /// The bind group of an entity without a texture of its own: the
    /// default texture, shaded flat from the vertex colors.
    pub open spec fn spec_flat() -> TextureBindGroup {
        TextureBindGroup {
            view: TextureView::Default,
            sampler: Sampler::spec_linear(),
            render_mode: RenderMode::Color,
        }
    }

    /// The bind group that samples texture `index` of a model.
    pub open spec fn spec_textured(index: usize) -> TextureBindGroup {
        TextureBindGroup {
            view: TextureView::Image(index),
            sampler: Sampler::spec_linear(),
            render_mode: RenderMode::Texture,
        }
    }

    /// The bind group that samples the layers of a landscape's texture
    /// array of the given extent.
    pub open spec fn spec_layered(extent: Extent3d) -> TextureBindGroup {
        TextureBindGroup {
            view: TextureView::LayerArray(extent),
            sampler: Sampler::spec_nearest(),
            render_mode: RenderMode::Texture,
        }
    }

    /// The bind group of an entity without a texture of its own.
    #[verifier::when_used_as_spec(spec_flat)]
    pub fn flat() -> (group: TextureBindGroup)
        ensures
            group == TextureBindGroup::spec_flat(),
    {
        TextureBindGroup {
            view: TextureView::Default,
            sampler: Sampler::linear(),
            render_mode: RenderMode::Color,
        }
    }

    /// The bind group that samples texture `index` of a model.
    #[verifier::when_used_as_spec(spec_textured)]
    pub fn textured(index: usize) -> (group: TextureBindGroup)
        ensures
            group == TextureBindGroup::spec_textured(index),
    {
        TextureBindGroup {
            view: TextureView::Image(index),
            sampler: Sampler::linear(),
            render_mode: RenderMode::Texture,
        }
    }

    /// The bind group that samples the layers of a landscape's texture
    /// array of the given extent.
    #[verifier::when_used_as_spec(spec_layered)]
    pub fn layered(extent: Extent3d) -> (group: TextureBindGroup)
        ensures
            group == TextureBindGroup::spec_layered(extent),
    {
        TextureBindGroup {
            view: TextureView::LayerArray(extent),
            sampler: Sampler::nearest(),
            render_mode: RenderMode::Texture,
        }
    }
}

} // verus!
