//! What the fixed-function state of a pipeline does to one pixel: a model
//! of the stencil test, the depth test and the blending of a fragment, and
//! what follows from it for the mask, the main and the outline pass.
//!
//! Colors are integers in units of `1 / one`, where `one` stands for the
//! channel value 1. Stencil values have eight bits.

use vstd::prelude::*;
use vstd::arithmetic::div_mod::lemma_div_multiples_vanish;
use crate::gpu::{
    BlendComponent, BlendFactor, BlendOperation, BlendState, ColorTargetState, CompareFunction,
    Face, StencilOperation,
};
use crate::pipeline::{pipeline_desc, Pipeline, PipelineKind, STENCIL_MASK_VALUE};

verus! {

/// A color with alpha.
pub struct Rgba {
    pub r: int,
    pub g: int,
    pub b: int,
    pub a: int,
}

/// What the attachments of a pass hold at one pixel.
pub struct Pixel {
    pub color: Rgba,
    pub depth: int,
    pub stencil: u32,
}

/// What a pipeline makes of a primitive at one pixel, before the tests.
pub struct Fragment {
    pub color: Rgba,
    /// The depth, with the bias of the pipeline applied.
    pub depth: int,
    pub front_facing: bool,
}

/// Whether `new` passes the comparison against `stored`.
pub open spec fn compares(function: CompareFunction, new: int, stored: int) -> bool {
    match function {
        CompareFunction::Never => false,
        CompareFunction::Less => new < stored,
        CompareFunction::Equal => new == stored,
        CompareFunction::LessEqual => new <= stored,
        CompareFunction::Greater => new > stored,
        CompareFunction::NotEqual => new != stored,
        CompareFunction::GreaterEqual => new >= stored,
        CompareFunction::Always => true,
    }
}

/// The value that a stencil operation makes of the stored value.
pub open spec fn stencil_result(op: StencilOperation, reference: u32, stored: u32) -> u32 {
    match op {
        StencilOperation::Keep => stored,
        StencilOperation::Zero => 0,
        StencilOperation::Replace => reference & 0xFF,
        StencilOperation::Invert => !stored & 0xFF,
        StencilOperation::IncrementClamp => if stored >= 0xFF {
            0xFF
        } else {
            (stored + 1) as u32
        },
        StencilOperation::DecrementClamp => if stored == 0 {
            0
        } else {
            (stored - 1) as u32
        },
        StencilOperation::IncrementWrap => if stored >= 0xFF {
            0
        } else {
            (stored + 1) as u32
        },
        StencilOperation::DecrementWrap => if stored == 0 {
            0xFF
        } else {
            (stored - 1) as u32
        },
    }
}

/// The stored stencil value after a write of `result` through
/// `write_mask`: the masked bits come from the result, the others stay.
pub open spec fn written_stencil(stored: u32, result: u32, write_mask: u32) -> u32 {
    (stored & !write_mask) | (result & write_mask)
}

/// The weight that a blend factor stands for.
pub open spec fn weight(factor: BlendFactor, src: Rgba, dst: Rgba, one: int) -> int {
    match factor {
        BlendFactor::Zero => 0,
        BlendFactor::One => one,
        BlendFactor::SrcAlpha => src.a,
        BlendFactor::OneMinusSrcAlpha => one - src.a,
        BlendFactor::DstAlpha => dst.a,
        BlendFactor::OneMinusDstAlpha => one - dst.a,
    }
}

/// One channel after blending the source value `s` over the stored value
/// `d`.
pub open spec fn blend_channel(
    component: BlendComponent,
    s: int,
    d: int,
    src: Rgba,
    dst: Rgba,
    one: int,
) -> int {
    let ws = weight(component.src_factor, src, dst, one);
    let wd = weight(component.dst_factor, src, dst, one);
    match component.operation {
        BlendOperation::Add => (s * ws + d * wd) / one,
        BlendOperation::Subtract => (s * ws - d * wd) / one,
        BlendOperation::ReverseSubtract => (d * wd - s * ws) / one,
        BlendOperation::Min => if s <= d {
            s
        } else {
            d
        },
        BlendOperation::Max => if s >= d {
            s
        } else {
            d
        },
    }
}

/// The color after blending `src` over `dst`.
pub open spec fn blend(state: BlendState, src: Rgba, dst: Rgba, one: int) -> Rgba {
    Rgba {
        r: blend_channel(state.color, src.r, dst.r, src, dst, one),
        g: blend_channel(state.color, src.g, dst.g, src, dst, one),
        b: blend_channel(state.color, src.b, dst.b, src, dst, one),
        a: blend_channel(state.alpha, src.a, dst.a, src, dst, one),
    }
}

/// The color that a target holds after a fragment that passed the tests.
/// A pipeline without a color target leaves the color alone; one without
/// blending overwrites it. Every target of this crate writes all channels.
pub open spec fn written_color(target: Option<ColorTargetState>, src: Rgba, dst: Rgba, one: int)
    -> Rgba {
    match target {
        None => dst,
        Some(t) => match t.blend {
            None => src,
            Some(state) => blend(state, src, dst, one),
        },
    }
}

/// Whether the pipeline discards a fragment for the facing of its
/// primitive.
pub open spec fn culled(pipeline: Pipeline, fragment: Fragment) -> bool {
    match pipeline.primitive.cull_mode {
        None => false,
        Some(Face::Front) => fragment.front_facing,
        Some(Face::Back) => !fragment.front_facing,
    }
}

/// The pixel after a fragment of a primitive drawn with `pipeline` and the
/// stencil reference `reference`.
pub open spec fn merge(
    pipeline: Pipeline,
    reference: u32,
    one: int,
    pixel: Pixel,
    fragment: Fragment,
) -> Pixel {
    if culled(pipeline, fragment) {
        pixel
    } else {
        match pipeline.depth_stencil {
            None => Pixel {
                color: written_color(pipeline.color_target, fragment.color, pixel.color, one),
                ..pixel
            },
            Some(state) => {
                let face = if fragment.front_facing {
                    state.stencil.front
                } else {
                    state.stencil.back
                };
                let stencil_passes = compares(
                    face.compare,
                    (reference & state.stencil.read_mask) as int,
                    (pixel.stencil & state.stencil.read_mask) as int,
                );
                let depth_passes = compares(state.depth_compare, fragment.depth, pixel.depth);
                let op = if !stencil_passes {
                    face.fail_op
                } else if !depth_passes {
                    face.depth_fail_op
                } else {
                    face.pass_op
                };
                let stencil = written_stencil(
                    pixel.stencil,
                    stencil_result(op, reference, pixel.stencil),
                    state.stencil.write_mask,
                );
                if stencil_passes && depth_passes {
                    Pixel {
                        color: written_color(
                            pipeline.color_target,
                            fragment.color,
                            pixel.color,
                            one,
                        ),
                        depth: if state.depth_write_enabled {
                            fragment.depth
                        } else {
                            pixel.depth
                        },
                        stencil,
                    }
                } else {
                    Pixel { stencil, ..pixel }
                }
            },
        }
    }
}

proof fn lemma_stencil_bits(stored: u32)
    ensures
        STENCIL_MASK_VALUE & 0xFF == STENCIL_MASK_VALUE,
        stored <= 0xFF ==> stored & 0xFF == stored,
        written_stencil(stored, stored, 0) == stored,
        stored <= 0xFF ==> written_stencil(stored, STENCIL_MASK_VALUE & 0xFF, 0xFF)
            == STENCIL_MASK_VALUE,
{
    assert(1u32 & 0xFF == 1u32) by (bit_vector);
    assert(stored <= 0xFF ==> stored & 0xFF == stored) by (bit_vector);
    assert((stored & !0u32) | (stored & 0u32) == stored) by (bit_vector);
    assert(stored <= 0xFF ==> (stored & !0xFFu32) | ((1u32 & 0xFF) & 0xFF) == 1u32)
        by (bit_vector);
}

/// The mask pass marks what it covers: a front-facing fragment, at
/// whatever depth, sets the stencil value to the mask value and changes
/// neither color nor depth.
pub proof fn lemma_mask_marks(
    sample_count: u32,
    is_hdr: bool,
    one: int,
    pixel: Pixel,
    fragment: Fragment,
)
    requires
        pixel.stencil <= 0xFF,
        fragment.front_facing,
    ensures
        merge(
            pipeline_desc(PipelineKind::Mask, sample_count, is_hdr),
            STENCIL_MASK_VALUE,
            one,
            pixel,
            fragment,
        ) == (Pixel { stencil: STENCIL_MASK_VALUE, ..pixel }),
{
    lemma_stencil_bits(pixel.stencil);
}

/// The main pass draws inside the mask alone: a pixel whose stencil value
/// is not the mask value is left as it is, whatever the fragment.
pub proof fn lemma_main_spares_outside(
    sample_count: u32,
    is_hdr: bool,
    one: int,
    pixel: Pixel,
    fragment: Fragment,
)
    requires
        pixel.stencil <= 0xFF,
        pixel.stencil != STENCIL_MASK_VALUE,
    ensures
        merge(
            pipeline_desc(PipelineKind::Scene, sample_count, is_hdr),
            STENCIL_MASK_VALUE,
            one,
            pixel,
            fragment,
        ) == pixel,
{
    lemma_stencil_bits(pixel.stencil);
}

/// Inside the mask the main pass replaces color and depth by those of a
/// front-facing fragment that is nearer than the stored depth, and keeps
/// the stencil value.
pub proof fn lemma_main_replaces_inside(
    sample_count: u32,
    is_hdr: bool,
    one: int,
    pixel: Pixel,
    fragment: Fragment,
)
    requires
        one > 0,
        pixel.stencil == STENCIL_MASK_VALUE,
        fragment.front_facing,
        fragment.depth < pixel.depth,
    ensures
        merge(
            pipeline_desc(PipelineKind::Scene, sample_count, is_hdr),
            STENCIL_MASK_VALUE,
            one,
            pixel,
            fragment,
        ) == (Pixel { color: fragment.color, depth: fragment.depth, stencil: pixel.stencil }),
{
    lemma_stencil_bits(pixel.stencil);
    let src = fragment.color;
    let dst = pixel.color;
    assert forall|s: int, d: int|
        blend_channel(BlendComponent::replace(), s, d, src, dst, one) == s by {
        assert(s * one + d * 0 == one * s) by (nonlinear_arith);
        lemma_div_multiples_vanish(s, one);
    }
}

/// The outline pass leaves the silhouette alone: at a pixel whose stencil
/// value is the mask value it changes nothing, neither color nor depth
/// nor stencil, whatever the fragment.
pub proof fn lemma_outline_spares_mask(
    sample_count: u32,
    is_hdr: bool,
    one: int,
    pixel: Pixel,
    fragment: Fragment,
)
    requires
        pixel.stencil == STENCIL_MASK_VALUE,
    ensures
        merge(
            pipeline_desc(PipelineKind::Outline, sample_count, is_hdr),
            STENCIL_MASK_VALUE,
            one,
            pixel,
            fragment,
        ) == pixel,
{
    lemma_stencil_bits(pixel.stencil);
}

/// Outside the silhouette the outline is blended over what the target held:
/// each color channel becomes source times alpha plus destination times one
/// minus alpha, depth and stencil stay, and as long as the alpha of the
/// source is below one the weight of what the target held is positive.
pub proof fn lemma_outline_blends_over(
    sample_count: u32,
    is_hdr: bool,
    one: int,
    pixel: Pixel,
    fragment: Fragment,
)
    requires
        one > 0,
        pixel.stencil <= 0xFF,
        pixel.stencil != STENCIL_MASK_VALUE,
        fragment.front_facing,
        fragment.depth <= pixel.depth,
    ensures
        ({
            let after = merge(
                pipeline_desc(PipelineKind::Outline, sample_count, is_hdr),
                STENCIL_MASK_VALUE,
                one,
                pixel,
                fragment,
            );
            let src = fragment.color;
            let dst = pixel.color;
            &&& after.color.r == (src.r * src.a + dst.r * (one - src.a)) / one
            &&& after.color.g == (src.g * src.a + dst.g * (one - src.a)) / one
            &&& after.color.b == (src.b * src.a + dst.b * (one - src.a)) / one
            &&& after.color.a == (src.a * one + dst.a * (one - src.a)) / one
            &&& after.depth == pixel.depth
            &&& after.stencil == pixel.stencil
            &&& src.a < one ==> weight(BlendState::source_over().color.dst_factor, src, dst, one)
                > 0
            &&& src.a < one ==> weight(BlendState::source_over().alpha.dst_factor, src, dst, one)
                > 0
        }),
{
    lemma_stencil_bits(pixel.stencil);
}

} // verus!
