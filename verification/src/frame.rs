//! The passes of a frame: which targets each pass writes, which bind groups
//! it reads, and with which load and store operations.

use vstd::prelude::*;
use crate::extra::{BlurParams, LayoutKind};
use crate::gpu::{ClearColor, ColorLoad, DepthLoad, StencilLoad, StoreOp};
use crate::pipeline::{PipelineKind, STENCIL_MASK_VALUE};

verus! {

/// The render targets that follow the size of the surface.
#[derive(Clone, Copy, Debug, PartialEq, Eq, Structural)]
pub enum Slot {
    /// Combined depth and stencil of the mask, main and outline passes.
    DepthStencil,
    /// Normals, with the sample count of the mesh passes.
    Normal,
    /// Normals, single-sampled: what later passes read.
    NormalResolve,
    /// Depth of the prepass.
    ParallelDepth,
    /// Scene color, with the sample count of the mesh passes.
    Color,
    /// Scene color, single-sampled: what later passes read.
    Resolve,
    /// Output of the horizontal blur.
    BlurIntermediate,
    /// Output of the vertical blur: the glow.
    OutlineBloom,
    /// Output of the edge detection.
    Edge,
    /// Output of the composite.
    Composite,
}

/// The view of a render target, as the target was created in one resize.
#[derive(Clone, Copy, Debug, PartialEq, Eq, Structural)]
pub struct TargetRef {
    pub slot: Slot,
    /// The number of the resize that created the target.
    pub generation: u64,
}

/// The passes of a frame.
#[derive(Clone, Copy, Debug, PartialEq, Eq, Structural)]
pub enum PassKind {
    DepthPrepass,
    StencilMask,
    MainShade,
    Outline,
    BlurHorizontal,
    BlurVertical,
    EdgeDetect,
    Composite,
    ToneMap,
}

/// The states that a frame runs through.
#[derive(Clone, Copy, Debug, PartialEq, Eq, Structural)]
pub enum FrameStage {
    Idle,
    Prepass,
    StencilMask,
    MainShade,
    Outline,
    BlurH,
    BlurV,
    EdgeDetect,
    Composite,
    ToneMap,
    Present,
}

impl FrameStage {
    /// The state that follows: the passes in their fixed order, then the
    /// presentation, then idle again.
    pub open spec fn spec_next(self) -> FrameStage {
        match self {
            FrameStage::Idle => FrameStage::Prepass,
            FrameStage::Prepass => FrameStage::StencilMask,
            FrameStage::StencilMask => FrameStage::MainShade,
            FrameStage::MainShade => FrameStage::Outline,
            FrameStage::Outline => FrameStage::BlurH,
            FrameStage::BlurH => FrameStage::BlurV,
            FrameStage::BlurV => FrameStage::EdgeDetect,
            FrameStage::EdgeDetect => FrameStage::Composite,
            FrameStage::Composite => FrameStage::ToneMap,
            FrameStage::ToneMap => FrameStage::Present,
            FrameStage::Present => FrameStage::Idle,
        }
    }

    /// The pass that the state records; idle and presentation record none.
    pub open spec fn spec_pass(self) -> Option<PassKind> {
        match self {
            FrameStage::Idle => None,
            FrameStage::Prepass => Some(PassKind::DepthPrepass),
            FrameStage::StencilMask => Some(PassKind::StencilMask),
            FrameStage::MainShade => Some(PassKind::MainShade),
            FrameStage::Outline => Some(PassKind::Outline),
            FrameStage::BlurH => Some(PassKind::BlurHorizontal),
            FrameStage::BlurV => Some(PassKind::BlurVertical),
            FrameStage::EdgeDetect => Some(PassKind::EdgeDetect),
            FrameStage::Composite => Some(PassKind::Composite),
            FrameStage::ToneMap => Some(PassKind::ToneMap),
            FrameStage::Present => None,
        }
    }

    /// The state after `steps` transitions.
    pub open spec fn after(self, steps: nat) -> FrameStage
        decreases steps,
    {
        if steps == 0 {
            self
        } else {
            self.after((steps - 1) as nat).spec_next()
        }
    }

    /// The state that follows.
    pub fn next(self) -> (s: FrameStage)
        ensures
            s == self.spec_next(),
    {
        match self {
            FrameStage::Idle => FrameStage::Prepass,
            FrameStage::Prepass => FrameStage::StencilMask,
            FrameStage::StencilMask => FrameStage::MainShade,
            FrameStage::MainShade => FrameStage::Outline,
            FrameStage::Outline => FrameStage::BlurH,
            FrameStage::BlurH => FrameStage::BlurV,
            FrameStage::BlurV => FrameStage::EdgeDetect,
            FrameStage::EdgeDetect => FrameStage::Composite,
            FrameStage::Composite => FrameStage::ToneMap,
            FrameStage::ToneMap => FrameStage::Present,
            FrameStage::Present => FrameStage::Idle,
        }
    }

    /// The pass that the state records, if it records one.
    pub fn pass(self) -> (p: Option<PassKind>)
        ensures
            p == self.spec_pass(),
    {
        match self {
            FrameStage::Idle => None,
            FrameStage::Prepass => Some(PassKind::DepthPrepass),
            FrameStage::StencilMask => Some(PassKind::StencilMask),
            FrameStage::MainShade => Some(PassKind::MainShade),
            FrameStage::Outline => Some(PassKind::Outline),
            FrameStage::BlurH => Some(PassKind::BlurHorizontal),
            FrameStage::BlurV => Some(PassKind::BlurVertical),
            FrameStage::EdgeDetect => Some(PassKind::EdgeDetect),
            FrameStage::Composite => Some(PassKind::Composite),
            FrameStage::ToneMap => Some(PassKind::ToneMap),
            FrameStage::Present => None,
        }
    }
}

/// What a color attachment is a view of.
#[derive(Clone, Copy, Debug, PartialEq, Eq, Structural)]
pub enum AttachmentView {
    /// A render target of the renderer.
    Target(Slot),
    /// The image of the surface that was acquired for the frame.
    Surface,
}

/// A color attachment of a pass.
#[derive(Clone, Copy, Debug, PartialEq, Eq, Structural)]
pub struct ColorAttachment {
    pub view: AttachmentView,
    /// The single-sampled target that receives the resolved samples when
    /// the pass ends.
    pub resolve_target: Option<Slot>,
    pub load: ColorLoad,
    pub store: StoreOp,
}

/// What a pass does with the depth values of its attachment.
#[derive(Clone, Copy, Debug, PartialEq, Eq, Structural)]
pub struct DepthOps {
    pub load: DepthLoad,
    pub store: StoreOp,
}

/// What a pass does with the stencil values of its attachment.
#[derive(Clone, Copy, Debug, PartialEq, Eq, Structural)]
pub struct StencilOps {
    pub load: StencilLoad,
    pub store: StoreOp,
}

/// The depth and stencil attachment of a pass.
#[derive(Clone, Copy, Debug, PartialEq, Eq, Structural)]
pub struct DepthStencilAttachment {
    pub view: Slot,
    pub depth_ops: Option<DepthOps>,
    pub stencil_ops: Option<StencilOps>,
}

/// The bind groups that passes set.
#[derive(Clone, Copy, Debug, PartialEq, Eq, Structural)]
pub enum BindGroupRef {
    /// The bind group of the material of the mesh that is drawn.
    Material,
    Camera,
    Spin,
    /// Input of the horizontal blur: the resolved scene color.
    BlurOutlineResolved,
    /// Input of the vertical blur: the output of the horizontal blur.
    BlurInter,
    Edge,
    Composite,
    ToneMap,
}

impl BindGroupRef {
    /// The layout of the bind group.
    pub open spec fn layout(self) -> LayoutKind {
        match self {
            BindGroupRef::Material => LayoutKind::Texture,
            BindGroupRef::Camera => LayoutKind::Camera,
            BindGroupRef::Spin => LayoutKind::Spin,
            BindGroupRef::BlurOutlineResolved => LayoutKind::Blur,
            BindGroupRef::BlurInter => LayoutKind::Blur,
            BindGroupRef::Edge => LayoutKind::Edge,
            BindGroupRef::Composite => LayoutKind::Composite,
            BindGroupRef::ToneMap => LayoutKind::ToneMap,
        }
    }
}

/// What a pass draws.
#[derive(Clone, Copy, Debug, PartialEq, Eq, Structural)]
pub enum Draw {
    /// The first mesh of the model, every instance.
    FirstMesh,
    /// Every mesh of the model, every instance.
    AllMeshes,
    /// Every mesh of the model, every instance, each with the bind group
    /// of its material in group 0.
    AllMeshesWithMaterials,
    /// Three vertices without a vertex buffer, one instance.
    FullscreenTriangle,
}

/// One render pass of a frame.
#[derive(Clone, Copy, Debug, PartialEq, Eq, Structural)]
pub struct RenderPass {
    pub kind: PassKind,
    pub pipeline: PipelineKind,
    /// First color attachment.
    pub color: Option<ColorAttachment>,
    /// Second color attachment, which receives the normals.
    pub normal: Option<ColorAttachment>,
    pub depth_stencil: Option<DepthStencilAttachment>,
    /// The stencil reference that is set for the pass.
    pub stencil_reference: Option<u32>,
    /// The direction that is written to the blur uniform for the pass.
    pub blur_params: Option<BlurParams>,
    /// Bind group 0; for `Draw::AllMeshesWithMaterials` it is set per mesh.
    pub group0: Option<BindGroupRef>,
    /// Bind group 1.
    pub group1: Option<BindGroupRef>,
    /// Bind group 2.
    pub group2: Option<BindGroupRef>,
    pub draw: Draw,
}

/// A color attachment that starts from `color` and is stored.
pub open spec fn cleared(slot: Slot, color: ClearColor) -> ColorAttachment {
    ColorAttachment {
        view: AttachmentView::Target(slot),
        resolve_target: None,
        load: ColorLoad::Clear(color),
        store: StoreOp::Store,
    }
}

/// The color attachment of a mesh pass that writes the pair of a
/// multisampled target and its single-sampled target. With one sample the
/// pass writes the single-sampled target and the other is left out; with
/// more it writes the multisampled target and resolves into the single one.
pub open spec fn paired(multisampled: Slot, single: Slot, sample_count: u32, load: ColorLoad)
    -> ColorAttachment {
    if sample_count == 1 {
        ColorAttachment {
            view: AttachmentView::Target(single),
            resolve_target: None,
            load,
            store: StoreOp::Store,
        }
    } else {
        ColorAttachment {
            view: AttachmentView::Target(multisampled),
            resolve_target: Some(single),
            load,
            store: StoreOp::Store,
        }
    }
}

/// The attachment of the shared depth and stencil target.
pub open spec fn shared_depth_stencil(depth: DepthLoad, stencil: StencilLoad)
    -> DepthStencilAttachment {
    DepthStencilAttachment {
        view: Slot::DepthStencil,
        depth_ops: Some(DepthOps { load: depth, store: StoreOp::Store }),
        stencil_ops: Some(StencilOps { load: stencil, store: StoreOp::Store }),
    }
}

/// A pass that draws a triangle over the whole of one color attachment,
/// which it clears to black, reading one bind group.
pub open spec fn fullscreen_pass(
    kind: PassKind,
    pipeline: PipelineKind,
    target: AttachmentView,
    input: BindGroupRef,
    blur_params: Option<BlurParams>,
) -> RenderPass {
    RenderPass {
        kind,
        pipeline,
        color: Some(
            ColorAttachment {
                view: target,
                resolve_target: None,
                load: ColorLoad::Clear(ClearColor::Black),
                store: StoreOp::Store,
            },
        ),
        normal: None,
        depth_stencil: None,
        stencil_reference: None,
        blur_params,
        group0: Some(input),
        group1: None,
        group2: None,
        draw: Draw::FullscreenTriangle,
    }
}

/// The color that the main pass clears the scene to.
pub open spec fn scene_clear(sample_count: u32) -> ClearColor {
    if sample_count == 1 {
        ClearColor::Background
    } else {
        ClearColor::Black
    }
}

/// Each pass of a frame, for the sample count of the mesh passes.
pub open spec fn frame_pass(kind: PassKind, sample_count: u32) -> RenderPass {
    match kind {
        PassKind::DepthPrepass => RenderPass {
            kind,
            pipeline: PipelineKind::ParallelDepth,
            color: None,
            normal: None,
            depth_stencil: Some(
                DepthStencilAttachment {
                    view: Slot::ParallelDepth,
                    depth_ops: Some(DepthOps { load: DepthLoad::ClearFar, store: StoreOp::Store }),
                    stencil_ops: None,
                },
            ),
            stencil_reference: None,
            blur_params: None,
            group0: Some(BindGroupRef::Camera),
            group1: Some(BindGroupRef::Spin),
            group2: None,
            draw: Draw::FirstMesh,
        },
        PassKind::StencilMask => RenderPass {
            kind,
            pipeline: PipelineKind::Mask,
            color: None,
            normal: None,
            depth_stencil: Some(shared_depth_stencil(DepthLoad::ClearFar, StencilLoad::Clear(0))),
            stencil_reference: Some(STENCIL_MASK_VALUE),
            blur_params: None,
            group0: Some(BindGroupRef::Camera),
            group1: Some(BindGroupRef::Spin),
            group2: None,
            draw: Draw::AllMeshes,
        },
        PassKind::MainShade => RenderPass {
            kind,
            pipeline: PipelineKind::Scene,
            color: Some(
                paired(
                    Slot::Color,
                    Slot::Resolve,
                    sample_count,
                    ColorLoad::Clear(scene_clear(sample_count)),
                ),
            ),
            normal: Some(
                paired(
                    Slot::Normal,
                    Slot::NormalResolve,
                    sample_count,
                    ColorLoad::Clear(ClearColor::Red),
                ),
            ),
            depth_stencil: Some(shared_depth_stencil(DepthLoad::Load, StencilLoad::Load)),
            stencil_reference: Some(STENCIL_MASK_VALUE),
            blur_params: None,
            group0: Some(BindGroupRef::Material),
            group1: Some(BindGroupRef::Camera),
            group2: Some(BindGroupRef::Spin),
            draw: Draw::AllMeshesWithMaterials,
        },
        PassKind::Outline => RenderPass {
            kind,
            pipeline: PipelineKind::Outline,
            color: Some(paired(Slot::Color, Slot::Resolve, sample_count, ColorLoad::Load)),
            normal: None,
            depth_stencil: Some(shared_depth_stencil(DepthLoad::ClearFar, StencilLoad::Load)),
            stencil_reference: Some(STENCIL_MASK_VALUE),
            blur_params: None,
            group0: Some(BindGroupRef::Camera),
            group1: Some(BindGroupRef::Spin),
            group2: None,
            draw: Draw::AllMeshes,
        },
        PassKind::BlurHorizontal => fullscreen_pass(
            kind,
            PipelineKind::Blur,
            AttachmentView::Target(Slot::BlurIntermediate),
            BindGroupRef::BlurOutlineResolved,
            Some(BlurParams::horizontal()),
        ),
        PassKind::BlurVertical => fullscreen_pass(
            kind,
            PipelineKind::Blur,
            AttachmentView::Target(Slot::OutlineBloom),
            BindGroupRef::BlurInter,
            Some(BlurParams::vertical()),
        ),
        PassKind::EdgeDetect => fullscreen_pass(
            kind,
            PipelineKind::Edge,
            AttachmentView::Target(Slot::Edge),
            BindGroupRef::Edge,
            None,
        ),
        PassKind::Composite => fullscreen_pass(
            kind,
            PipelineKind::Composite,
            AttachmentView::Target(Slot::Composite),
            BindGroupRef::Composite,
            None,
        ),
        PassKind::ToneMap => fullscreen_pass(
            kind,
            PipelineKind::ToneMap,
            AttachmentView::Surface,
            BindGroupRef::ToneMap,
            None,
        ),
    }
}

/// The kind of the pass at each place of a frame.
pub open spec fn pass_at(index: int) -> PassKind {
    if index == 0 {
        PassKind::DepthPrepass
    } else if index == 1 {
        PassKind::StencilMask
    } else if index == 2 {
        PassKind::MainShade
    } else if index == 3 {
        PassKind::Outline
    } else if index == 4 {
        PassKind::BlurHorizontal
    } else if index == 5 {
        PassKind::BlurVertical
    } else if index == 6 {
        PassKind::EdgeDetect
    } else if index == 7 {
        PassKind::Composite
    } else {
        PassKind::ToneMap
    }
}

/// The number of passes of a frame.
pub const PASS_COUNT: usize = 9;

/// The passes of a frame, in the order in which they are recorded.
pub open spec fn frame_passes(sample_count: u32) -> Seq<RenderPass> {
    Seq::new(PASS_COUNT as nat, |i: int| frame_pass(pass_at(i), sample_count))
}

fn pair(multisampled: Slot, single: Slot, sample_count: u32, load: ColorLoad) -> (a:
    ColorAttachment)
    ensures
        a == paired(multisampled, single, sample_count, load),
{
    if sample_count == 1 {
        ColorAttachment {
            view: AttachmentView::Target(single),
            resolve_target: None,
            load,
            store: StoreOp::Store,
        }
    } else {
        ColorAttachment {
            view: AttachmentView::Target(multisampled),
            resolve_target: Some(single),
            load,
            store: StoreOp::Store,
        }
    }
}

fn depth_stencil(depth: DepthLoad, stencil: StencilLoad) -> (a: DepthStencilAttachment)
    ensures
        a == shared_depth_stencil(depth, stencil),
{
    DepthStencilAttachment {
        view: Slot::DepthStencil,
        depth_ops: Some(DepthOps { load: depth, store: StoreOp::Store }),
        stencil_ops: Some(StencilOps { load: stencil, store: StoreOp::Store }),
    }
}

/// A pass that draws the mesh with the camera and spin uniforms.
fn mesh_pass(
    kind: PassKind,
    pipeline: PipelineKind,
    color: Option<ColorAttachment>,
    depth_stencil: DepthStencilAttachment,
    stencil_reference: Option<u32>,
    draw: Draw,
) -> (p: RenderPass)
    ensures
        p == (RenderPass {
            kind,
            pipeline,
            color,
            normal: None,
            depth_stencil: Some(depth_stencil),
            stencil_reference,
            blur_params: None,
            group0: Some(BindGroupRef::Camera),
            group1: Some(BindGroupRef::Spin),
            group2: None,
            draw,
        }),
{
    RenderPass {
        kind,
        pipeline,
        color,
        normal: None,
        depth_stencil: Some(depth_stencil),
        stencil_reference,
        blur_params: None,
        group0: Some(BindGroupRef::Camera),
        group1: Some(BindGroupRef::Spin),
        group2: None,
        draw,
    }
}

/// A separable filter or another fullscreen pass: one input, one output.
fn screen_pass(
    kind: PassKind,
    pipeline: PipelineKind,
    target: AttachmentView,
    input: BindGroupRef,
    blur_params: Option<BlurParams>,
) -> (p: RenderPass)
    ensures
        p == fullscreen_pass(kind, pipeline, target, input, blur_params),
{
    RenderPass {
        kind,
        pipeline,
        color: Some(
            ColorAttachment {
                view: target,
                resolve_target: None,
                load: ColorLoad::Clear(ClearColor::Black),
                store: StoreOp::Store,
            },
        ),
        normal: None,
        depth_stencil: None,
        stencil_reference: None,
        blur_params,
        group0: Some(input),
        group1: None,
        group2: None,
        draw: Draw::FullscreenTriangle,
    }
}

/// Plans one pass of a frame.
pub fn plan_pass(kind: PassKind, sample_count: u32) -> (p: RenderPass)
    ensures
        p == frame_pass(kind, sample_count),
{
    match kind {
        PassKind::DepthPrepass => mesh_pass(
            kind,
            PipelineKind::ParallelDepth,
            None,
            DepthStencilAttachment {
                view: Slot::ParallelDepth,
                depth_ops: Some(DepthOps { load: DepthLoad::ClearFar, store: StoreOp::Store }),
                stencil_ops: None,
            },
            None,
            Draw::FirstMesh,
        ),
        PassKind::StencilMask => mesh_pass(
            kind,
            PipelineKind::Mask,
            None,
            depth_stencil(DepthLoad::ClearFar, StencilLoad::Clear(0)),
            Some(STENCIL_MASK_VALUE),
            Draw::AllMeshes,
        ),
        PassKind::MainShade => {
            let background = if sample_count == 1 {
                ClearColor::Background
            } else {
                ClearColor::Black
            };
            RenderPass {
                kind,
                pipeline: PipelineKind::Scene,
                color: Some(
                    pair(Slot::Color, Slot::Resolve, sample_count, ColorLoad::Clear(background)),
                ),
                normal: Some(
                    pair(
                        Slot::Normal,
                        Slot::NormalResolve,
                        sample_count,
                        ColorLoad::Clear(ClearColor::Red),
                    ),
                ),
                depth_stencil: Some(depth_stencil(DepthLoad::Load, StencilLoad::Load)),
                stencil_reference: Some(STENCIL_MASK_VALUE),
                blur_params: None,
                group0: Some(BindGroupRef::Material),
                group1: Some(BindGroupRef::Camera),
                group2: Some(BindGroupRef::Spin),
                draw: Draw::AllMeshesWithMaterials,
            }
        },
        PassKind::Outline => mesh_pass(
            kind,
            PipelineKind::Outline,
            Some(pair(Slot::Color, Slot::Resolve, sample_count, ColorLoad::Load)),
            depth_stencil(DepthLoad::ClearFar, StencilLoad::Load),
            Some(STENCIL_MASK_VALUE),
            Draw::AllMeshes,
        ),
        PassKind::BlurHorizontal => screen_pass(
            kind,
            PipelineKind::Blur,
            AttachmentView::Target(Slot::BlurIntermediate),
            BindGroupRef::BlurOutlineResolved,
            Some(BlurParams::new(1, 0)),
        ),
        PassKind::BlurVertical => screen_pass(
            kind,
            PipelineKind::Blur,
            AttachmentView::Target(Slot::OutlineBloom),
            BindGroupRef::BlurInter,
            Some(BlurParams::new(0, 1)),
        ),
        PassKind::EdgeDetect => screen_pass(
            kind,
            PipelineKind::Edge,
            AttachmentView::Target(Slot::Edge),
            BindGroupRef::Edge,
            None,
        ),
        PassKind::Composite => screen_pass(
            kind,
            PipelineKind::Composite,
            AttachmentView::Target(Slot::Composite),
            BindGroupRef::Composite,
            None,
        ),
        PassKind::ToneMap => screen_pass(
            kind,
            PipelineKind::ToneMap,
            AttachmentView::Surface,
            BindGroupRef::ToneMap,
            None,
        ),
    }
}

/// The passes of a frame follow the states of the frame: the pass at place
/// `i` is the one that the state after `i + 1` transitions from idle
/// records, the state after the last pass is the presentation, and the one
/// after that is idle.
pub proof fn lemma_passes_follow_stages(sample_count: u32)
    ensures
        frame_passes(sample_count).len() == PASS_COUNT,
        forall|i: int|
            0 <= i < PASS_COUNT ==> FrameStage::Idle.after((i + 1) as nat).spec_pass() == Some(
                (#[trigger] frame_passes(sample_count)[i]).kind,
            ),
        FrameStage::Idle.after(PASS_COUNT as nat + 1) == FrameStage::Present,
        FrameStage::Idle.after(PASS_COUNT as nat + 2) == FrameStage::Idle,
{
    reveal_with_fuel(FrameStage::after, 12);
    assert forall|i: int| 0 <= i < PASS_COUNT implies FrameStage::Idle.after(
        (i + 1) as nat,
    ).spec_pass() == Some((#[trigger] frame_passes(sample_count)[i]).kind) by {
        if i == 0 {
        } else if i == 1 {
        } else if i == 2 {
        } else if i == 3 {
        } else if i == 4 {
        } else if i == 5 {
        } else if i == 6 {
        } else if i == 7 {
        } else {
            assert(i == 8);
        }
    }
}

} // verus!
