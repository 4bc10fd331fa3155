//! Descriptions of the textures that the renderer creates: the policy that
//! picks format, sample count and usage for each kind of render target.

use vstd::prelude::*;
use crate::gpu::{
    AddressMode, CompareFunction, FilterMode, SamplerDesc, TextureFormat, TextureUsages,
};

verus! {

/// Size of the presentation surface. Its texel format is
/// `TextureFormat::Surface`.
#[derive(Clone, Copy, Debug, PartialEq, Eq, Structural)]
pub struct SurfaceConfiguration {
    pub width: u32,
    pub height: u32,
}

/// Description of a two-dimensional texture with one mip level and one layer.
#[derive(Clone, Copy, Debug, PartialEq, Eq, Structural)]
pub struct TextureDesc {
    pub width: u32,
    pub height: u32,
    pub sample_count: u32,
    pub format: TextureFormat,
    pub usage: TextureUsages,
}

/// A texture dimension that is never zero: `n`, or 1 where `n` is 0.
pub open spec fn at_least_one(n: u32) -> u32 {
    if n == 0 {
        1
    } else {
        n
    }
}

/// The format of every color target: the high dynamic range format when
/// that is enabled, the format of the presentation surface otherwise.
pub open spec fn color_format(is_hdr: bool) -> TextureFormat {
    if is_hdr {
        TextureFormat::Rgba16Float
    } else {
        TextureFormat::Surface
    }
}

/// The usage of a render target by its sample count. A single-sampled target
/// is read by later passes, so it can be sampled; a multisampled target is
/// only the source of a resolve.
pub open spec fn target_usage(sample_count: u32) -> TextureUsages {
    if sample_count == 1 {
        TextureUsages::attachment_and_binding()
    } else {
        TextureUsages::attachment_only()
    }
}

/// The format of the depth-only target.
pub const DEPTH_FORMAT: TextureFormat = TextureFormat::Depth32Float;

/// The format of the combined depth and stencil target.
pub const DEPTH_STENCIL_FORMAT: TextureFormat = TextureFormat::Depth24PlusStencil8;

/// The format of the normal targets.
pub const NORMAL_FORMAT: TextureFormat = TextureFormat::Rgba16Float;

fn clamp_dimension(n: u32) -> (r: u32)
    ensures
        r == at_least_one(n),
{
    if n == 0 {
        1
    } else {
        n
    }
}

fn usage_for(sample_count: u32) -> (r: TextureUsages)
    ensures
        r == target_usage(sample_count),
{
    TextureUsages { copy_dst: false, texture_binding: sample_count == 1, render_attachment: true }
}

/// Picks the format of a color target.
pub fn color_format_for(is_hdr: bool) -> (r: TextureFormat)
    ensures
        r == color_format(is_hdr),
{
    if is_hdr {
        TextureFormat::Rgba16Float
    } else {
        TextureFormat::Surface
    }
}

/// A texture together with the sampler it is read through.
#[derive(Clone, Copy, Debug, PartialEq, Eq, Structural)]
pub struct Texture {
    pub texture: TextureDesc,
    pub sampler: SamplerDesc,
}

impl Texture {
    /// The sampler of the depth-only target: linear, comparing with
    /// less-or-equal.
    pub open spec fn depth_sampler() -> SamplerDesc {
        SamplerDesc {
            address_mode: AddressMode::ClampToEdge,
            mag_filter: FilterMode::Linear,
            min_filter: FilterMode::Linear,
            mipmap_filter: FilterMode::Nearest,
            lod_min_clamp: 0,
            lod_max_clamp: 100,
            compare: Some(CompareFunction::LessEqual),
            anisotropy_clamp: 1,
        }
    }

    /// The sampler of the normal targets: nearest texel, so that edges stay
    /// hard.
    pub open spec fn normal_sampler() -> SamplerDesc {
        SamplerDesc {
            address_mode: AddressMode::ClampToEdge,
            mag_filter: FilterMode::Nearest,
            min_filter: FilterMode::Nearest,
            mipmap_filter: FilterMode::Nearest,
            lod_min_clamp: 0,
            lod_max_clamp: 32,
            compare: None,
            anisotropy_clamp: 1,
        }
    }

    /// The sampler of a texture decoded from an image: linear when
    /// magnified, nearest when minified.
    pub open spec fn image_sampler() -> SamplerDesc {
        SamplerDesc {
            address_mode: AddressMode::ClampToEdge,
            mag_filter: FilterMode::Linear,
            min_filter: FilterMode::Nearest,
            mipmap_filter: FilterMode::Nearest,
            lod_min_clamp: 0,
            lod_max_clamp: 32,
            compare: None,
            anisotropy_clamp: 1,
        }
    }

    /// Describes the texture that holds a decoded image of the given size:
    /// single-sampled sRGB texels that are copied in once and then sampled.
    pub fn get_texture_from_image(width: u32, height: u32) -> (t: Texture)
        ensures
            t.texture.width == width,
            t.texture.height == height,
            t.texture.sample_count == 1,
            t.texture.format == TextureFormat::Rgba8UnormSrgb,
            t.texture.usage == TextureUsages::binding_and_copy_dst(),
            t.sampler == Self::image_sampler(),
    {
        Texture {
            texture: TextureDesc {
                width,
                height,
                sample_count: 1,
                format: TextureFormat::Rgba8UnormSrgb,
                usage: TextureUsages {
                    copy_dst: true,
                    texture_binding: true,
                    render_attachment: false,
                },
            },
            sampler: SamplerDesc {
                address_mode: AddressMode::ClampToEdge,
                mag_filter: FilterMode::Linear,
                min_filter: FilterMode::Nearest,
                mipmap_filter: FilterMode::Nearest,
                lod_min_clamp: 0,
                lod_max_clamp: 32,
                compare: None,
                anisotropy_clamp: 1,
            },
        }
    }

    /// Describes the depth-only target of the prepass for a surface of the
    /// given size. It is single-sampled and later sampled by the edge
    /// detection.
    pub fn create_depth_texture(config: &SurfaceConfiguration) -> (t: Texture)
        ensures
            t.texture.width == at_least_one(config.width),
            t.texture.height == at_least_one(config.height),
            t.texture.sample_count == 1,
            t.texture.format == DEPTH_FORMAT,
            t.texture.usage == TextureUsages::attachment_and_binding(),
            t.sampler == Self::depth_sampler(),
    {
        Texture {
            texture: TextureDesc {
                width: clamp_dimension(config.width),
                height: clamp_dimension(config.height),
                sample_count: 1,
                format: DEPTH_FORMAT,
                usage: usage_for(1),
            },
            sampler: SamplerDesc {
                address_mode: AddressMode::ClampToEdge,
                mag_filter: FilterMode::Linear,
                min_filter: FilterMode::Linear,
                mipmap_filter: FilterMode::Nearest,
                lod_min_clamp: 0,
                lod_max_clamp: 100,
                compare: Some(CompareFunction::LessEqual),
                anisotropy_clamp: 1,
            },
        }
    }

    /// Describes a normal target for a surface of the given size: high
    /// precision texels, sampled only where it is single-sampled.
    pub fn create_normal_texture(config: &SurfaceConfiguration, sample_count: u32) -> (t: Texture)
        ensures
            t.texture.width == at_least_one(config.width),
            t.texture.height == at_least_one(config.height),
            t.texture.sample_count == sample_count,
            t.texture.format == NORMAL_FORMAT,
            t.texture.usage == target_usage(sample_count),
            t.sampler == Self::normal_sampler(),
    {
        Texture {
            texture: TextureDesc {
                width: clamp_dimension(config.width),
                height: clamp_dimension(config.height),
                sample_count,
                format: NORMAL_FORMAT,
                usage: usage_for(sample_count),
            },
            sampler: SamplerDesc {
                address_mode: AddressMode::ClampToEdge,
                mag_filter: FilterMode::Nearest,
                min_filter: FilterMode::Nearest,
                mipmap_filter: FilterMode::Nearest,
                lod_min_clamp: 0,
                lod_max_clamp: 32,
                compare: None,
                anisotropy_clamp: 1,
            },
        }
    }
}

/// Describes a multisampled attachment in the sRGB format of a desktop
/// surface, for a surface of the given size. It is never sampled.
pub fn create_multisampled_view(config: &SurfaceConfiguration, sample_count: u32) -> (t:
    TextureDesc)
    ensures
        t.width == at_least_one(config.width),
        t.height == at_least_one(config.height),
        t.sample_count == sample_count,
        t.format == TextureFormat::Bgra8UnormSrgb,
        t.usage == TextureUsages::attachment_only(),
{
    TextureDesc {
        width: clamp_dimension(config.width),
        height: clamp_dimension(config.height),
        sample_count,
        format: TextureFormat::Bgra8UnormSrgb,
        usage: TextureUsages { copy_dst: false, texture_binding: false, render_attachment: true },
    }
}

/// An offscreen color target.
#[derive(Clone, Copy, Debug, PartialEq, Eq, Structural)]
pub struct ColorTexture {
    pub texture: TextureDesc,
}

impl ColorTexture {
    /// Describes a color target of exactly the size of the surface.
    pub fn create_color_texture(
        config: &SurfaceConfiguration,
        sample_count: u32,
        is_hdr: bool,
    ) -> (t: ColorTexture)
        ensures
            t.texture.width == config.width,
            t.texture.height == config.height,
            t.texture.sample_count == sample_count,
            t.texture.format == color_format(is_hdr),
            t.texture.usage == target_usage(sample_count),
    {
        ColorTexture {
            texture: TextureDesc {
                width: config.width,
                height: config.height,
                sample_count,
                format: color_format_for(is_hdr),
                usage: usage_for(sample_count),
            },
        }
    }
}

} // verus!
