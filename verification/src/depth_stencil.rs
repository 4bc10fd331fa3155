//! The combined depth and stencil target that the mask, main and outline
//! passes share.

use vstd::prelude::*;
use crate::gpu::{TextureAspect, TextureUsages, TextureViewDesc};
use crate::texture::{at_least_one, SurfaceConfiguration, TextureDesc, DEPTH_STENCIL_FORMAT};

verus! {

/// The combined depth and stencil target.
#[derive(Clone, Copy, Debug, PartialEq, Eq, Structural)]
pub struct StencilTexture {
    pub texture: TextureDesc,
}

impl StencilTexture {
    /// Describes the depth and stencil target for a surface of the given
    /// size, with as many samples as the color targets it is used with.
    pub fn create_stencil_texture(config: &SurfaceConfiguration, sample_count: u32) -> (t:
        StencilTexture)
        ensures
            t.texture.width == at_least_one(config.width),
            t.texture.height == at_least_one(config.height),
            t.texture.sample_count == sample_count,
            t.texture.format == DEPTH_STENCIL_FORMAT,
            t.texture.usage == TextureUsages::attachment_and_binding(),
    {
        StencilTexture {
            texture: TextureDesc {
                width: if config.width == 0 {
                    1
                } else {
                    config.width
                },
                height: if config.height == 0 {
                    1
                } else {
                    config.height
                },
                sample_count,
                format: DEPTH_STENCIL_FORMAT,
                usage: TextureUsages {
                    copy_dst: false,
                    texture_binding: true,
                    render_attachment: true,
                },
            },
        }
    }

    /// Describes a view of the target that exposes its depth values alone:
    /// every mip level and layer, the format of the texture.
    pub fn create_depth_only_view(&self) -> (v: TextureViewDesc)
        ensures
            v == (TextureViewDesc {
                format: None,
                aspect: TextureAspect::DepthOnly,
                base_mip_level: 0,
                mip_level_count: None,
                base_array_layer: 0,
                array_layer_count: None,
            }),
    {
        TextureViewDesc {
            format: None,
            aspect: TextureAspect::DepthOnly,
            base_mip_level: 0,
            mip_level_count: None,
            base_array_layer: 0,
            array_layer_count: None,
        }
    }
}

} // verus!
