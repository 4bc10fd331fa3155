//! What holds of the frame graph as a whole: every pass fits its pipeline,
//! every texture that a pass reads was written earlier in the frame, and no
//! pass samples a multisampled target.

use vstd::prelude::*;
use crate::frame::{
    frame_pass, frame_passes, pass_at, AttachmentView, BindGroupRef, ColorAttachment, Draw,
    PassKind, RenderPass, Slot, PASS_COUNT,
};
use crate::gpu::{
    BindingType, CompareFunction, StencilLoad, StencilOperation, StencilState, TextureFormat,
    TextureSampleType,
};
use crate::pipeline::{pipeline_desc, Pipeline, VertexInput};
use crate::state::{frame_bind_group, supported_sample_count, target_desc};
use crate::texture::{SurfaceConfiguration, TextureDesc};

verus! {

/// The description of what a color attachment is a view of. The image of
/// the surface is single-sampled and has the format of the surface.
pub open spec fn view_desc(
    view: AttachmentView,
    config: SurfaceConfiguration,
    sample_count: u32,
    is_hdr: bool,
) -> TextureDesc {
    match view {
        AttachmentView::Target(slot) => target_desc(slot, config, sample_count, is_hdr),
        AttachmentView::Surface => TextureDesc {
            width: config.width,
            height: config.height,
            sample_count: 1,
            format: TextureFormat::Surface,
            usage: crate::gpu::TextureUsages::attachment_only(),
        },
    }
}

/// Whether a color attachment can be written by a pipeline with the given
/// target state and sample count: an attachment goes with a target, it can
/// be attached, its format is that of the target and its sample count that
/// of the pipeline; a resolve target, if there is one, is single-sampled,
/// can be attached, has the same format, and the attachment itself is
/// multisampled.
pub open spec fn color_fits(
    attachment: Option<ColorAttachment>,
    target: Option<crate::gpu::ColorTargetState>,
    samples: u32,
    config: SurfaceConfiguration,
    sample_count: u32,
    is_hdr: bool,
) -> bool {
    match (attachment, target) {
        (None, None) => true,
        (Some(a), Some(t)) => {
            let desc = view_desc(a.view, config, sample_count, is_hdr);
            &&& desc.usage.render_attachment
            &&& desc.format == t.format
            &&& desc.format.is_color()
            &&& desc.sample_count == samples
            &&& a.resolve_target matches Some(slot) ==> {
                let resolved = target_desc(slot, config, sample_count, is_hdr);
                &&& desc.sample_count > 1
                &&& resolved.sample_count == 1
                &&& resolved.format == desc.format
                &&& resolved.usage.render_attachment
                &&& resolved.width == desc.width
                &&& resolved.height == desc.height
            }
        },
        _ => false,
    }
}

/// Whether the stencil state of a pipeline reads or writes the reference.
pub open spec fn needs_reference(stencil: StencilState) -> bool {
    let face = stencil.front;
    ||| (face.compare != CompareFunction::Always && face.compare != CompareFunction::Never)
    ||| face.fail_op == StencilOperation::Replace
    ||| face.depth_fail_op == StencilOperation::Replace
    ||| face.pass_op == StencilOperation::Replace
}

/// Whether a pass can be recorded with a pipeline: the attachments fit the
/// targets of the pipeline in number, format and sample count; the depth
/// and stencil attachment has the format of the pipeline, with depth
/// operations always and stencil operations exactly where the format
/// holds a stencil value; a stencil reference is set exactly where the
/// pipeline uses one; the bind groups have the layouts that the pipeline
/// declares; and a fullscreen triangle is drawn exactly by the pipelines
/// without vertex buffers.
pub open spec fn pass_fits(
    pass: RenderPass,
    pipeline: Pipeline,
    config: SurfaceConfiguration,
    sample_count: u32,
    is_hdr: bool,
) -> bool {
    let samples = pipeline.multisample.count;
    &&& color_fits(pass.color, pipeline.color_target, samples, config, sample_count, is_hdr)
    &&& color_fits(pass.normal, pipeline.normal_target, samples, config, sample_count, is_hdr)
    &&& match (pass.depth_stencil, pipeline.depth_stencil) {
        (None, None) => pass.stencil_reference is None,
        (Some(a), Some(s)) => {
            let desc = target_desc(a.view, config, sample_count, is_hdr);
            &&& desc.usage.render_attachment
            &&& desc.format == s.format
            &&& desc.sample_count == samples
            &&& a.depth_ops is Some
            &&& a.stencil_ops is Some == desc.format.has_stencil()
            &&& pass.stencil_reference is Some == needs_reference(s.stencil)
        },
        _ => false,
    }
    &&& match pass.group0 {
        Some(g) => pipeline.group0 == Some(g.layout()),
        None => pipeline.group0 is None,
    }
    &&& match pass.group1 {
        Some(g) => pipeline.group1 == Some(g.layout()),
        None => pipeline.group1 is None,
    }
    &&& match pass.group2 {
        Some(g) => pipeline.group2 == Some(g.layout()),
        None => pipeline.group2 is None,
    }
    &&& (pass.draw == Draw::FullscreenTriangle) == (pipeline.vertex_input
        == VertexInput::Fullscreen)
}

/// Every pass of a frame can be recorded with its pipeline, for both
/// sample counts and with or without high dynamic range.
pub proof fn lemma_passes_fit_pipelines(
    kind: PassKind,
    config: SurfaceConfiguration,
    sample_count: u32,
    is_hdr: bool,
)
    requires
        supported_sample_count(sample_count),
    ensures
        pass_fits(
            frame_pass(kind, sample_count),
            pipeline_desc(frame_pass(kind, sample_count).pipeline, sample_count, is_hdr),
            config,
            sample_count,
            is_hdr,
        ),
{
}

/// Both directions of the blur run with one pipeline; they differ in the
/// texture they read, the target they write and the direction alone.
pub proof fn lemma_blur_passes_share_pipeline(sample_count: u32)
    ensures
        frame_pass(PassKind::BlurHorizontal, sample_count).pipeline == frame_pass(
            PassKind::BlurVertical,
            sample_count,
        ).pipeline,
        frame_pass(PassKind::BlurHorizontal, sample_count).blur_params == Some(
            crate::extra::BlurParams::horizontal(),
        ),
        frame_pass(PassKind::BlurVertical, sample_count).blur_params == Some(
            crate::extra::BlurParams::vertical(),
        ),
{
}

/// Whether a pass sets the bind group `group`.
pub open spec fn pass_sets(pass: RenderPass, group: BindGroupRef) -> bool {
    pass.group0 == Some(group) || pass.group1 == Some(group) || pass.group2 == Some(group)
}

/// Whether a pass samples the target in `slot`: whether one of its bind
/// groups binds a view of it.
pub open spec fn pass_reads(pass: RenderPass, slot: Slot) -> bool {
    exists|group: BindGroupRef| #[trigger]
        pass_sets(pass, group) && frame_bind_group(group, 0).reads(slot)
}

/// Whether a color attachment leaves its result in `slot`: in the resolve
/// target if it has one, else in the target it is a view of.
pub open spec fn attachment_fills(attachment: Option<ColorAttachment>, slot: Slot) -> bool {
    attachment matches Some(a) && match a.resolve_target {
        Some(resolved) => resolved == slot,
        None => a.view == AttachmentView::Target(slot),
    }
}

/// Whether a pass leaves a result in `slot` for later passes to sample.
pub open spec fn pass_fills(pass: RenderPass, slot: Slot) -> bool {
    ||| attachment_fills(pass.color, slot)
    ||| attachment_fills(pass.normal, slot)
    ||| (pass.depth_stencil matches Some(a) && a.view == slot)
}

/// The place in the frame of the pass that fills `slot` first, for the
/// slots that some pass samples.
pub open spec fn first_filled_at(slot: Slot) -> int {
    match slot {
        Slot::ParallelDepth => 0,
        Slot::DepthStencil => 1,
        Slot::Resolve => 2,
        Slot::NormalResolve => 2,
        Slot::BlurIntermediate => 4,
        Slot::OutlineBloom => 5,
        Slot::Edge => 6,
        Slot::Composite => 7,
        // Never sampled: the multisampled targets.
        Slot::Color => 2,
        Slot::Normal => 2,
    }
}

/// The targets that each bind group of a frame binds.
proof fn lemma_reads(group: BindGroupRef, slot: Slot)
    ensures
        frame_bind_group(group, 0).reads(slot) <==> match group {
            BindGroupRef::BlurOutlineResolved => slot == Slot::Resolve,
            BindGroupRef::BlurInter => slot == Slot::BlurIntermediate,
            BindGroupRef::Edge => slot == Slot::Resolve || slot == Slot::ParallelDepth || slot
                == Slot::NormalResolve,
            BindGroupRef::Composite => slot == Slot::Edge || slot == Slot::Resolve || slot
                == Slot::OutlineBloom,
            BindGroupRef::ToneMap => slot == Slot::Composite,
            _ => false,
        },
{
    let g = frame_bind_group(group, 0);
    let t = g.targets();
    match group {
        BindGroupRef::BlurOutlineResolved => {
            assert(t[0].slot == Slot::Resolve);
        },
        BindGroupRef::BlurInter => {
            assert(t[0].slot == Slot::BlurIntermediate);
        },
        BindGroupRef::Edge => {
            assert(t[0].slot == Slot::Resolve);
            assert(t[1].slot == Slot::ParallelDepth);
            assert(t[2].slot == Slot::NormalResolve);
        },
        BindGroupRef::Composite => {
            assert(t[0].slot == Slot::Edge);
            assert(t[1].slot == Slot::Resolve);
            assert(t[2].slot == Slot::OutlineBloom);
        },
        BindGroupRef::ToneMap => {
            assert(t[0].slot == Slot::Composite);
        },
        _ => {
            assert(t.len() == 0);
        },
    }
}

/// Every texture that a pass samples was filled by a pass that comes
/// strictly before it in the same frame.
pub proof fn lemma_reads_follow_writes(sample_count: u32, i: int, slot: Slot)
    requires
        0 <= i < PASS_COUNT,
        pass_reads(frame_passes(sample_count)[i], slot),
    ensures
        0 <= first_filled_at(slot) < i,
        pass_fills(frame_passes(sample_count)[first_filled_at(slot)], slot),
{
    let pass = frame_passes(sample_count)[i];
    let group = choose|group: BindGroupRef| #[trigger]
        pass_sets(pass, group) && frame_bind_group(group, 0).reads(slot);
    lemma_reads(group, slot);
    assert(pass == frame_pass(pass_at(i), sample_count));
    let j = first_filled_at(slot);
    assert(frame_passes(sample_count)[j] == frame_pass(pass_at(j), sample_count));
}

/// No pass samples a multisampled target: every view that a bind group of
/// a frame binds is that of a single-sampled target that can be sampled,
/// and the layout declares the binding as a single-sampled texture of the
/// kind of its format.
pub proof fn lemma_sampled_targets_are_single(
    group: BindGroupRef,
    generation: u64,
    i: int,
    config: SurfaceConfiguration,
    sample_count: u32,
    is_hdr: bool,
)
    requires
        0 <= i < frame_bind_group(group, generation).targets().len(),
    ensures
        ({
            let slot = frame_bind_group(group, generation).targets()[i].slot;
            let desc = target_desc(slot, config, sample_count, is_hdr);
            &&& desc.sample_count == 1
            &&& desc.usage.texture_binding
            &&& slot != Slot::Color
            &&& slot != Slot::Normal
        }),
{
}

/// The binding of a layout at which a bind group binds its `i`-th target
/// view declares a single-sampled texture, of depth where the target holds
/// depth and of filterable float where it holds color.
pub proof fn lemma_bound_views_match_layout(
    group: BindGroupRef,
    generation: u64,
    i: int,
    config: SurfaceConfiguration,
    sample_count: u32,
    is_hdr: bool,
)
    requires
        0 <= i < frame_bind_group(group, generation).spec_entries().len(),
        frame_bind_group(group, generation).spec_entries()[i].resource is TargetView,
    ensures
        ({
            let g = frame_bind_group(group, generation);
            let target = g.spec_entries()[i].resource->TargetView_0;
            let desc = target_desc(target.slot, config, sample_count, is_hdr);
            let declared = crate::extra::layout_entries(g.spec_layout())[i];
            &&& target.generation == generation
            &&& declared.binding == g.spec_entries()[i].binding
            &&& declared.ty matches BindingType::Texture { sample_type, multisampled }
            &&& !multisampled
            &&& desc.sample_count == 1
            &&& (sample_type == TextureSampleType::Depth) == desc.format.has_depth()
        }),
{
}

/// With one sample the multisampled targets are left out altogether: no
/// attachment of any pass is a view of one, and nothing is resolved.
pub proof fn lemma_single_sample_skips_multisampled(kind: PassKind)
    ensures
        ({
            let pass = frame_pass(kind, 1);
            &&& pass.color matches Some(a) ==> a.resolve_target is None && a.view
                != AttachmentView::Target(Slot::Color)
            &&& pass.normal matches Some(a) ==> a.resolve_target is None && a.view
                != AttachmentView::Target(Slot::Normal)
        }),
{
}

/// With more than one sample every color attachment that is a view of a
/// multisampled target is resolved into its single-sampled pair, and that
/// pair is what later passes can sample.
pub proof fn lemma_multisampled_writes_are_resolved(
    kind: PassKind,
    config: SurfaceConfiguration,
    sample_count: u32,
    is_hdr: bool,
)
    requires
        sample_count > 1,
    ensures
        ({
            let pass = frame_pass(kind, sample_count);
            &&& pass.color matches Some(a) ==> (view_desc(
                a.view,
                config,
                sample_count,
                is_hdr,
            ).sample_count > 1 ==> a.view == AttachmentView::Target(Slot::Color)
                && a.resolve_target == Some(Slot::Resolve))
            &&& pass.normal matches Some(a) ==> (view_desc(
                a.view,
                config,
                sample_count,
                is_hdr,
            ).sample_count > 1 ==> a.view == AttachmentView::Target(Slot::Normal)
                && a.resolve_target == Some(Slot::NormalResolve))
            &&& target_desc(Slot::Resolve, config, sample_count, is_hdr).usage.texture_binding
            &&& target_desc(Slot::NormalResolve, config, sample_count, is_hdr).usage.texture_binding
        }),
{
}

/// The stencil values that the mask pass writes reach the passes that test
/// them: the mask pass starts from stencil 0 and marks with the reference;
/// the main and the outline pass load the stencil values of the same
/// target, test against the same reference, and their pipelines never
/// write the stencil buffer.
pub proof fn lemma_mask_reaches_its_readers(sample_count: u32, is_hdr: bool)
    ensures
        ({
            let mask = frame_pass(PassKind::StencilMask, sample_count);
            let main = frame_pass(PassKind::MainShade, sample_count);
            let outline = frame_pass(PassKind::Outline, sample_count);
            let written = pipeline_desc(mask.pipeline, sample_count, is_hdr).depth_stencil->0;
            let main_state = pipeline_desc(main.pipeline, sample_count, is_hdr).depth_stencil->0;
            let outline_state = pipeline_desc(
                outline.pipeline,
                sample_count,
                is_hdr,
            ).depth_stencil->0;
            &&& mask.depth_stencil->0.stencil_ops->0.load == StencilLoad::Clear(0)
            &&& written.stencil.front.pass_op == StencilOperation::Replace
            &&& written.stencil.write_mask == 0xFF
            &&& main.depth_stencil->0.view == mask.depth_stencil->0.view
            &&& outline.depth_stencil->0.view == mask.depth_stencil->0.view
            &&& main.depth_stencil->0.stencil_ops->0.load == StencilLoad::Load
            &&& outline.depth_stencil->0.stencil_ops->0.load == StencilLoad::Load
            &&& main.stencil_reference == mask.stencil_reference
            &&& outline.stencil_reference == mask.stencil_reference
            &&& main_state.stencil.write_mask == 0
            &&& outline_state.stencil.write_mask == 0
            &&& main_state.stencil.front.compare == CompareFunction::Equal
            &&& outline_state.stencil.front.compare == CompareFunction::NotEqual
        }),
{
}

/// The main pass loads the depth that the mask pass left, and the outline
/// pass starts from the far plane again while it keeps the color of the
/// main pass.
pub proof fn lemma_load_discipline(sample_count: u32)
    ensures
        ({
            let main = frame_pass(PassKind::MainShade, sample_count);
            let outline = frame_pass(PassKind::Outline, sample_count);
            &&& main.depth_stencil->0.depth_ops->0.load == crate::gpu::DepthLoad::Load
            &&& outline.depth_stencil->0.depth_ops->0.load == crate::gpu::DepthLoad::ClearFar
            &&& outline.color->0.load == crate::gpu::ColorLoad::Load
            &&& outline.color->0.view == main.color->0.view
            &&& outline.color->0.resolve_target == main.color->0.resolve_target
        }),
{
}

} // verus!
