//! The frame orchestrator: the state of a session, the resources that follow
//! the size of the surface, and the decisions of every tick and frame.

use vstd::prelude::*;
use crate::depth_stencil::StencilTexture;
use crate::extra::{
    create_blur_bind_group, create_composite_bind_group, create_edge_bind_group,
    create_tone_map_bind_group, lemma_accumulation, lemma_advanced, total, BindGroup, Spin,
    SpinUniform, TAU,
};
use crate::frame::{
    frame_passes, plan_pass, BindGroupRef, Draw, FrameStage, RenderPass, Slot, TargetRef,
    PASS_COUNT,
};
use crate::gpu::TextureUsages;
use crate::pipeline::{pipeline_desc, Pipeline, PipelineKind};
use crate::resources::{Mesh, Model};
use crate::texture::{
    at_least_one, color_format, target_usage, ColorTexture, SurfaceConfiguration, Texture,
    TextureDesc, DEPTH_FORMAT, DEPTH_STENCIL_FORMAT, NORMAL_FORMAT,
};

verus! {

/// The longest step that one tick advances the rotation by, in nanoseconds:
/// a tenth of a second. A longer pause between two ticks counts as this.
pub const MAX_STEP_NANOS: u64 = 100_000_000;

/// The sample counts that the mesh passes can run with.
pub open spec fn supported_sample_count(sample_count: u32) -> bool {
    sample_count == 1 || sample_count == 4
}

/// The description of the target in each slot, for a surface of the given
/// size, the sample count of the mesh passes and the choice of high dynamic
/// range.
pub open spec fn target_desc(
    slot: Slot,
    config: SurfaceConfiguration,
    sample_count: u32,
    is_hdr: bool,
) -> TextureDesc {
    match slot {
        Slot::DepthStencil => TextureDesc {
            width: at_least_one(config.width),
            height: at_least_one(config.height),
            sample_count,
            format: DEPTH_STENCIL_FORMAT,
            usage: TextureUsages::attachment_and_binding(),
        },
        Slot::Normal => TextureDesc {
            width: at_least_one(config.width),
            height: at_least_one(config.height),
            sample_count,
            format: NORMAL_FORMAT,
            usage: target_usage(sample_count),
        },
        Slot::NormalResolve => TextureDesc {
            width: at_least_one(config.width),
            height: at_least_one(config.height),
            sample_count: 1,
            format: NORMAL_FORMAT,
            usage: target_usage(1),
        },
        Slot::ParallelDepth => TextureDesc {
            width: at_least_one(config.width),
            height: at_least_one(config.height),
            sample_count: 1,
            format: DEPTH_FORMAT,
            usage: TextureUsages::attachment_and_binding(),
        },
        Slot::Color => TextureDesc {
            width: config.width,
            height: config.height,
            sample_count,
            format: color_format(is_hdr),
            usage: target_usage(sample_count),
        },
        _ => TextureDesc {
            width: config.width,
            height: config.height,
            sample_count: 1,
            format: color_format(is_hdr),
            usage: target_usage(1),
        },
    }
}

/// What each bind group of a frame binds, for targets created in the
/// resize numbered `generation`. Every view is that of a single-sampled
/// target.
pub open spec fn frame_bind_group(group: BindGroupRef, generation: u64) -> BindGroup {
    match group {
        BindGroupRef::Material => BindGroup::Texture,
        BindGroupRef::Camera => BindGroup::Camera,
        BindGroupRef::Spin => BindGroup::Spin,
        BindGroupRef::BlurOutlineResolved => BindGroup::Blur {
            source: TargetRef { slot: Slot::Resolve, generation },
        },
        BindGroupRef::BlurInter => BindGroup::Blur {
            source: TargetRef { slot: Slot::BlurIntermediate, generation },
        },
        BindGroupRef::Edge => BindGroup::Edge {
            scene: TargetRef { slot: Slot::Resolve, generation },
            depth: TargetRef { slot: Slot::ParallelDepth, generation },
            normal: TargetRef { slot: Slot::NormalResolve, generation },
        },
        BindGroupRef::Composite => BindGroup::Composite {
            edge: TargetRef { slot: Slot::Edge, generation },
            outline: TargetRef { slot: Slot::Resolve, generation },
            bloom: TargetRef { slot: Slot::OutlineBloom, generation },
        },
        BindGroupRef::ToneMap => BindGroup::ToneMap {
            composed: TargetRef { slot: Slot::Composite, generation },
        },
    }
}

/// Everything that is created anew whenever the surface changes its size:
/// the render targets, and the bind groups that bind views of them.
#[derive(Clone, Copy, Debug, PartialEq, Eq, Structural)]
pub struct FrameResources {
    /// The number of the resize that created all of this.
    pub generation: u64,
    pub depth_stencil: StencilTexture,
    pub normal_texture: Texture,
    pub normal_resolve_texture: Texture,
    pub parallel_depth_texture: Texture,
    pub color_texture: ColorTexture,
    pub resolve_texture: ColorTexture,
    pub blur_intermediate_texture: ColorTexture,
    pub outline_bloom_texture: ColorTexture,
    pub edge_texture: ColorTexture,
    pub composite_texture: ColorTexture,
    pub blur_outline_resolved_bind_group: BindGroup,
    pub blur_inter_bind_group: BindGroup,
    pub edge_bind_group: BindGroup,
    pub composite_bind_group: BindGroup,
    pub tone_map_bind_group: BindGroup,
}

impl FrameResources {
    /// The description of the target in `slot`.
    pub open spec fn spec_texture(self, slot: Slot) -> TextureDesc {
        match slot {
            Slot::DepthStencil => self.depth_stencil.texture,
            Slot::Normal => self.normal_texture.texture,
            Slot::NormalResolve => self.normal_resolve_texture.texture,
            Slot::ParallelDepth => self.parallel_depth_texture.texture,
            Slot::Color => self.color_texture.texture,
            Slot::Resolve => self.resolve_texture.texture,
            Slot::BlurIntermediate => self.blur_intermediate_texture.texture,
            Slot::OutlineBloom => self.outline_bloom_texture.texture,
            Slot::Edge => self.edge_texture.texture,
            Slot::Composite => self.composite_texture.texture,
        }
    }

    /// The bind group that a pass means by `group`.
    pub open spec fn spec_bind_group(self, group: BindGroupRef) -> BindGroup {
        match group {
            BindGroupRef::Material => BindGroup::Texture,
            BindGroupRef::Camera => BindGroup::Camera,
            BindGroupRef::Spin => BindGroup::Spin,
            BindGroupRef::BlurOutlineResolved => self.blur_outline_resolved_bind_group,
            BindGroupRef::BlurInter => self.blur_inter_bind_group,
            BindGroupRef::Edge => self.edge_bind_group,
            BindGroupRef::Composite => self.composite_bind_group,
            BindGroupRef::ToneMap => self.tone_map_bind_group,
        }
    }

    /// No bind group is stale: every view that a bind group binds is that
    /// of a target of this very generation.
    pub open spec fn current(self) -> bool {
        forall|group: BindGroupRef, i: int|
            0 <= i < self.spec_bind_group(group).targets().len() ==> (
            #[trigger] self.spec_bind_group(group).targets()[i]).generation == self.generation
    }

    /// The resources are those of a surface of the given size: every
    /// target is described as its slot asks, the normal and depth targets
    /// have their samplers, and every bind group binds what a frame reads,
    /// in this generation.
    pub open spec fn describes(
        self,
        config: SurfaceConfiguration,
        sample_count: u32,
        is_hdr: bool,
    ) -> bool {
        &&& forall|slot: Slot| #[trigger]
            self.spec_texture(slot) == target_desc(slot, config, sample_count, is_hdr)
        &&& forall|group: BindGroupRef| #[trigger]
            self.spec_bind_group(group) == frame_bind_group(group, self.generation)
        &&& self.normal_texture.sampler == Texture::normal_sampler()
        &&& self.normal_resolve_texture.sampler == Texture::normal_sampler()
        &&& self.parallel_depth_texture.sampler == Texture::depth_sampler()
    }

    /// Describes all targets for a surface of the given size, then all bind
    /// groups that bind their views: the targets first, because a bind
    /// group cannot be made before the target that it reads.
    pub fn create(
        config: &SurfaceConfiguration,
        sample_count: u32,
        is_hdr: bool,
        generation: u64,
    ) -> (r: FrameResources)
        ensures
            r == resources_for(*config, sample_count, is_hdr, generation),
            r.generation == generation,
            r.describes(*config, sample_count, is_hdr),
            r.current(),
    {
        let depth_stencil = StencilTexture::create_stencil_texture(config, sample_count);
        let normal_texture = Texture::create_normal_texture(config, sample_count);
        let normal_resolve_texture = Texture::create_normal_texture(config, 1);
        let parallel_depth_texture = Texture::create_depth_texture(config);
        let color_texture = ColorTexture::create_color_texture(config, sample_count, is_hdr);
        let resolve_texture = ColorTexture::create_color_texture(config, 1, is_hdr);
        let blur_intermediate_texture = ColorTexture::create_color_texture(config, 1, is_hdr);
        let outline_bloom_texture = ColorTexture::create_color_texture(config, 1, is_hdr);
        let edge_texture = ColorTexture::create_color_texture(config, 1, is_hdr);
        let composite_texture = ColorTexture::create_color_texture(config, 1, is_hdr);
        let resolved = TargetRef { slot: Slot::Resolve, generation };
        let r = FrameResources {
            generation,
            depth_stencil,
            normal_texture,
            normal_resolve_texture,
            parallel_depth_texture,
            color_texture,
            resolve_texture,
            blur_intermediate_texture,
            outline_bloom_texture,
            edge_texture,
            composite_texture,
            blur_outline_resolved_bind_group: create_blur_bind_group(resolved),
            blur_inter_bind_group: create_blur_bind_group(
                TargetRef { slot: Slot::BlurIntermediate, generation },
            ),
            edge_bind_group: create_edge_bind_group(
                resolved,
                TargetRef { slot: Slot::ParallelDepth, generation },
                TargetRef { slot: Slot::NormalResolve, generation },
            ),
            composite_bind_group: create_composite_bind_group(
                TargetRef { slot: Slot::Edge, generation },
                TargetRef { slot: Slot::OutlineBloom, generation },
                resolved,
            ),
            tone_map_bind_group: create_tone_map_bind_group(
                TargetRef { slot: Slot::Composite, generation },
            ),
        };
        proof {
            lemma_resources_for(*config, sample_count, is_hdr, generation);
        }
        r
    }

    /// The description of the target in `slot`.
    pub fn texture(&self, slot: Slot) -> (t: TextureDesc)
        ensures
            t == self.spec_texture(slot),
    {
        match slot {
            Slot::DepthStencil => self.depth_stencil.texture,
            Slot::Normal => self.normal_texture.texture,
            Slot::NormalResolve => self.normal_resolve_texture.texture,
            Slot::ParallelDepth => self.parallel_depth_texture.texture,
            Slot::Color => self.color_texture.texture,
            Slot::Resolve => self.resolve_texture.texture,
            Slot::BlurIntermediate => self.blur_intermediate_texture.texture,
            Slot::OutlineBloom => self.outline_bloom_texture.texture,
            Slot::Edge => self.edge_texture.texture,
            Slot::Composite => self.composite_texture.texture,
        }
    }

    /// The bind group that a pass means by `group`.
    pub fn bind_group(&self, group: BindGroupRef) -> (g: BindGroup)
        ensures
            g == self.spec_bind_group(group),
    {
        match group {
            BindGroupRef::Material => BindGroup::Texture,
            BindGroupRef::Camera => BindGroup::Camera,
            BindGroupRef::Spin => BindGroup::Spin,
            BindGroupRef::BlurOutlineResolved => self.blur_outline_resolved_bind_group,
            BindGroupRef::BlurInter => self.blur_inter_bind_group,
            BindGroupRef::Edge => self.edge_bind_group,
            BindGroupRef::Composite => self.composite_bind_group,
            BindGroupRef::ToneMap => self.tone_map_bind_group,
        }
    }
}

/// The resources of a surface of the given size, created in the resize
/// numbered `generation`.
pub open spec fn resources_for(
    config: SurfaceConfiguration,
    sample_count: u32,
    is_hdr: bool,
    generation: u64,
) -> FrameResources {
    FrameResources {
        generation,
        depth_stencil: StencilTexture {
            texture: target_desc(Slot::DepthStencil, config, sample_count, is_hdr),
        },
        normal_texture: Texture {
            texture: target_desc(Slot::Normal, config, sample_count, is_hdr),
            sampler: Texture::normal_sampler(),
        },
        normal_resolve_texture: Texture {
            texture: target_desc(Slot::NormalResolve, config, sample_count, is_hdr),
            sampler: Texture::normal_sampler(),
        },
        parallel_depth_texture: Texture {
            texture: target_desc(Slot::ParallelDepth, config, sample_count, is_hdr),
            sampler: Texture::depth_sampler(),
        },
        color_texture: ColorTexture {
            texture: target_desc(Slot::Color, config, sample_count, is_hdr),
        },
        resolve_texture: ColorTexture {
            texture: target_desc(Slot::Resolve, config, sample_count, is_hdr),
        },
        blur_intermediate_texture: ColorTexture {
            texture: target_desc(Slot::BlurIntermediate, config, sample_count, is_hdr),
        },
        outline_bloom_texture: ColorTexture {
            texture: target_desc(Slot::OutlineBloom, config, sample_count, is_hdr),
        },
        edge_texture: ColorTexture {
            texture: target_desc(Slot::Edge, config, sample_count, is_hdr),
        },
        composite_texture: ColorTexture {
            texture: target_desc(Slot::Composite, config, sample_count, is_hdr),
        },
        blur_outline_resolved_bind_group: frame_bind_group(
            BindGroupRef::BlurOutlineResolved,
            generation,
        ),
        blur_inter_bind_group: frame_bind_group(BindGroupRef::BlurInter, generation),
        edge_bind_group: frame_bind_group(BindGroupRef::Edge, generation),
        composite_bind_group: frame_bind_group(BindGroupRef::Composite, generation),
        tone_map_bind_group: frame_bind_group(BindGroupRef::ToneMap, generation),
    }
}

/// The resources of a surface describe that surface, and none of their
/// bind groups is stale.
pub proof fn lemma_resources_for(
    config: SurfaceConfiguration,
    sample_count: u32,
    is_hdr: bool,
    generation: u64,
)
    ensures
        resources_for(config, sample_count, is_hdr, generation).describes(
            config,
            sample_count,
            is_hdr,
        ),
        resources_for(config, sample_count, is_hdr, generation).current(),
{
    let r = resources_for(config, sample_count, is_hdr, generation);
    assert forall|slot: Slot| #[trigger]
        r.spec_texture(slot) == target_desc(slot, config, sample_count, is_hdr) by {
        match slot {
            Slot::DepthStencil => {},
            Slot::Normal => {},
            Slot::NormalResolve => {},
            Slot::ParallelDepth => {},
            Slot::Color => {},
            Slot::Resolve => {},
            Slot::BlurIntermediate => {},
            Slot::OutlineBloom => {},
            Slot::Edge => {},
            Slot::Composite => {},
        }
    }
    assert forall|group: BindGroupRef| #[trigger]
        r.spec_bind_group(group) == frame_bind_group(group, generation) by {
        match group {
            BindGroupRef::Material => {},
            BindGroupRef::Camera => {},
            BindGroupRef::Spin => {},
            BindGroupRef::BlurOutlineResolved => {},
            BindGroupRef::BlurInter => {},
            BindGroupRef::Edge => {},
            BindGroupRef::Composite => {},
            BindGroupRef::ToneMap => {},
        }
    }
    assert forall|group: BindGroupRef, i: int|
        0 <= i < r.spec_bind_group(group).targets().len() implies (
    #[trigger] r.spec_bind_group(group).targets()[i]).generation == r.generation by {
        match group {
            BindGroupRef::Material => {},
            BindGroupRef::Camera => {},
            BindGroupRef::Spin => {},
            BindGroupRef::BlurOutlineResolved => {},
            BindGroupRef::BlurInter => {},
            BindGroupRef::Edge => {},
            BindGroupRef::Composite => {},
            BindGroupRef::ToneMap => {},
        }
    }
}

/// One step of making the resources of a surface.
#[derive(Clone, Copy, Debug, PartialEq, Eq, Structural)]
pub enum ResourceStep {
    /// Create the target in the slot, with its view.
    CreateTarget(Slot),
    /// Create the bind group.
    CreateBindGroup(BindGroupRef),
}

/// The order in which the resources of a surface are made, at the first
/// resize as at every later one.
pub open spec fn creation_order() -> Seq<ResourceStep> {
    seq![
        ResourceStep::CreateTarget(Slot::DepthStencil),
        ResourceStep::CreateTarget(Slot::Normal),
        ResourceStep::CreateTarget(Slot::NormalResolve),
        ResourceStep::CreateTarget(Slot::ParallelDepth),
        ResourceStep::CreateTarget(Slot::Color),
        ResourceStep::CreateTarget(Slot::Resolve),
        ResourceStep::CreateTarget(Slot::BlurIntermediate),
        ResourceStep::CreateTarget(Slot::OutlineBloom),
        ResourceStep::CreateBindGroup(BindGroupRef::BlurOutlineResolved),
        ResourceStep::CreateBindGroup(BindGroupRef::BlurInter),
        ResourceStep::CreateTarget(Slot::Edge),
        ResourceStep::CreateBindGroup(BindGroupRef::Edge),
        ResourceStep::CreateBindGroup(BindGroupRef::Composite),
        ResourceStep::CreateTarget(Slot::Composite),
        ResourceStep::CreateBindGroup(BindGroupRef::ToneMap),
    ]
}

/// The place of the step that creates the target in `slot`.
pub open spec fn created_at(slot: Slot) -> int {
    match slot {
        Slot::DepthStencil => 0,
        Slot::Normal => 1,
        Slot::NormalResolve => 2,
        Slot::ParallelDepth => 3,
        Slot::Color => 4,
        Slot::Resolve => 5,
        Slot::BlurIntermediate => 6,
        Slot::OutlineBloom => 7,
        Slot::Edge => 10,
        Slot::Composite => 13,
    }
}

/// The steps of making the resources of a surface, in their order.
pub fn resource_steps() -> (steps: Vec<ResourceStep>)
    ensures
        steps@ == creation_order(),
{
    let mut steps: Vec<ResourceStep> = Vec::new();
    steps.push(ResourceStep::CreateTarget(Slot::DepthStencil));
    steps.push(ResourceStep::CreateTarget(Slot::Normal));
    steps.push(ResourceStep::CreateTarget(Slot::NormalResolve));
    steps.push(ResourceStep::CreateTarget(Slot::ParallelDepth));
    steps.push(ResourceStep::CreateTarget(Slot::Color));
    steps.push(ResourceStep::CreateTarget(Slot::Resolve));
    steps.push(ResourceStep::CreateTarget(Slot::BlurIntermediate));
    steps.push(ResourceStep::CreateTarget(Slot::OutlineBloom));
    steps.push(ResourceStep::CreateBindGroup(BindGroupRef::BlurOutlineResolved));
    steps.push(ResourceStep::CreateBindGroup(BindGroupRef::BlurInter));
    steps.push(ResourceStep::CreateTarget(Slot::Edge));
    steps.push(ResourceStep::CreateBindGroup(BindGroupRef::Edge));
    steps.push(ResourceStep::CreateBindGroup(BindGroupRef::Composite));
    steps.push(ResourceStep::CreateTarget(Slot::Composite));
    steps.push(ResourceStep::CreateBindGroup(BindGroupRef::ToneMap));
    steps
}

/// The resources are made in the order of their dependencies: every target
/// is created exactly at its place, and every bind group is created after
/// each of the targets whose views it binds.
pub proof fn lemma_creation_follows_dependencies(step: int, generation: u64, i: int)
    requires
        0 <= step < creation_order().len(),
        creation_order()[step] is CreateBindGroup,
        0 <= i < frame_bind_group(
            creation_order()[step]->CreateBindGroup_0,
            generation,
        ).targets().len(),
    ensures
        ({
            let group = creation_order()[step]->CreateBindGroup_0;
            let slot = frame_bind_group(group, generation).targets()[i].slot;
            &&& 0 <= created_at(slot) < step
            &&& creation_order()[created_at(slot)] == ResourceStep::CreateTarget(slot)
        }),
{
}

/// Every target has its step in the order of creation.
pub proof fn lemma_every_target_is_created(slot: Slot)
    ensures
        0 <= created_at(slot) < creation_order().len(),
        creation_order()[created_at(slot)] == ResourceStep::CreateTarget(slot),
{
}

/// Why a session cannot start.
#[derive(Clone, Copy, Debug, PartialEq, Eq, Structural)]
pub enum StateError {
    /// The mesh passes run with one sample or with four.
    UnsupportedSampleCount,
    /// The model has no mesh, or a mesh names a material that is not there.
    ModelNotDrawable,
}

/// Why no image of the surface could be acquired for a frame.
#[derive(Clone, Copy, Debug, PartialEq, Eq, Structural)]
pub enum SurfaceError {
    Timeout,
    Outdated,
    Lost,
    OutOfMemory,
    Other,
}

/// The keys that the session reacts to.
#[derive(Clone, Copy, Debug, PartialEq, Eq, Structural)]
pub enum Key {
    Space,
    Escape,
    KeyW,
    KeyA,
    KeyS,
    KeyD,
    ArrowUp,
    ArrowLeft,
    ArrowDown,
    ArrowRight,
    /// Any other key.
    Other,
}

/// What the caller does after a key event.
#[derive(Clone, Copy, Debug, PartialEq, Eq, Structural)]
pub enum KeyAction {
    /// The pause was switched. The session has taken the reading of the
    /// clock as the time of the last tick, so that nothing of the time
    /// before counts for the next one.
    PauseToggled,
    /// Hand the event to the camera controller.
    Camera,
    /// Leave the event loop.
    Exit,
    /// Nothing.
    Ignored,
}

/// One draw of a pass.
#[derive(Clone, Copy, Debug, PartialEq, Eq, Structural)]
pub enum DrawCall {
    /// The indices `0..index_count` of the mesh at place `mesh`, for the
    /// instances `0..instances`, after setting bind group 0 to that of the
    /// material at place `material`, if one is given.
    Mesh { mesh: usize, material: Option<usize>, index_count: u32, instances: u32 },
    /// Three vertices, one instance.
    Fullscreen,
}

/// The draw of the mesh at place `i`.
pub open spec fn mesh_draw(meshes: Seq<Mesh>, i: int, with_material: bool, instances: u32)
    -> DrawCall {
    DrawCall::Mesh {
        mesh: i as usize,
        material: if with_material {
            Some(meshes[i].material)
        } else {
            None
        },
        index_count: meshes[i].num_elements,
        instances,
    }
}

/// The draws of a pass, in their order.
pub open spec fn draw_calls(draw: Draw, meshes: Seq<Mesh>, instances: u32) -> Seq<DrawCall> {
    match draw {
        Draw::FirstMesh => seq![mesh_draw(meshes, 0, false, instances)],
        Draw::AllMeshes => Seq::new(meshes.len(), |i: int| mesh_draw(meshes, i, false, instances)),
        Draw::AllMeshesWithMaterials => Seq::new(
            meshes.len(),
            |i: int| mesh_draw(meshes, i, true, instances),
        ),
        Draw::FullscreenTriangle => seq![DrawCall::Fullscreen],
    }
}

/// The number of the resize after the one numbered `generation`. It wraps,
/// so that it always differs from `generation`.
pub open spec fn next_generation(generation: u64) -> u64 {
    if generation == u64::MAX {
        0
    } else {
        (generation + 1) as u64
    }
}

/// The step that a tick advances the rotation by when `elapsed`
/// nanoseconds have passed since the tick before.
pub open spec fn clamped_step(elapsed: u64) -> u64 {
    if elapsed > MAX_STEP_NANOS {
        MAX_STEP_NANOS
    } else {
        elapsed
    }
}

/// The time from the reading `last` of the clock to the reading `now`, in
/// nanoseconds; none if the clock has gone back.
pub open spec fn elapsed_since(last: u64, now: u64) -> u64 {
    if now >= last {
        (now - last) as u64
    } else {
        0
    }
}

/// What the caller does after an event of `key`.
pub open spec fn key_action(key: Key, is_pressed: bool) -> KeyAction {
    match key {
        Key::Space => if is_pressed {
            KeyAction::PauseToggled
        } else {
            KeyAction::Ignored
        },
        Key::Escape => if is_pressed {
            KeyAction::Exit
        } else {
            KeyAction::Ignored
        },
        Key::Other => KeyAction::Ignored,
        _ => KeyAction::Camera,
    }
}

/// The state of a session.
#[derive(Debug)]
pub struct State {
    /// Size of the surface, as of the last resize.
    pub config: SurfaceConfiguration,
    pub is_paused: bool,
    /// Sample count of the mesh passes, fixed when the session starts.
    pub sample_count: u32,
    /// Whether color targets have the high dynamic range format, fixed when
    /// the session starts.
    pub is_hdr: bool,
    pub lib_model: Model,
    /// Number of instances that every draw of a mesh covers.
    pub instances: u32,
    pub spin: Spin,
    /// What the spin uniform on the device holds.
    pub spin_uniform: SpinUniform,
    /// Reading of the clock at the last tick or, if that came later, at
    /// the last switch of the pause: nanoseconds since the session started.
    pub last_frame: u64,
    /// Number of the last resize.
    pub generation: u64,
    /// The targets and bind groups of the last resize; none before the
    /// first, when the surface is not configured yet.
    pub resources: Option<FrameResources>,
    pub render_pipeline: Pipeline,
    pub stencil_pipeline: Pipeline,
    pub outline_pipeline: Pipeline,
    pub blur_pipeline: Pipeline,
    pub edge_pipeline: Pipeline,
    pub composite_pipeline: Pipeline,
    pub tone_map_pipeline: Pipeline,
    pub parallel_pass_pipeline: Pipeline,
}

impl State {
    /// Whether the surface was configured: whether a resize to a size that
    /// is not empty has happened.
    pub open spec fn configured(&self) -> bool {
        self.resources is Some
    }

    /// The pipeline of the given kind.
    pub open spec fn spec_pipeline(&self, kind: PipelineKind) -> Pipeline {
        match kind {
            PipelineKind::Scene => self.render_pipeline,
            PipelineKind::Mask => self.stencil_pipeline,
            PipelineKind::Outline => self.outline_pipeline,
            PipelineKind::Blur => self.blur_pipeline,
            PipelineKind::Edge => self.edge_pipeline,
            PipelineKind::Composite => self.composite_pipeline,
            PipelineKind::ToneMap => self.tone_map_pipeline,
            PipelineKind::ParallelDepth => self.parallel_pass_pipeline,
        }
    }

    /// Every pipeline is the one of its kind for the configuration of the
    /// session.
    pub open spec fn pipelines_built(&self) -> bool {
        let n = self.sample_count;
        let hdr = self.is_hdr;
        &&& self.render_pipeline == pipeline_desc(PipelineKind::Scene, n, hdr)
        &&& self.stencil_pipeline == pipeline_desc(PipelineKind::Mask, n, hdr)
        &&& self.outline_pipeline == pipeline_desc(PipelineKind::Outline, n, hdr)
        &&& self.blur_pipeline == pipeline_desc(PipelineKind::Blur, n, hdr)
        &&& self.edge_pipeline == pipeline_desc(PipelineKind::Edge, n, hdr)
        &&& self.composite_pipeline == pipeline_desc(PipelineKind::Composite, n, hdr)
        &&& self.tone_map_pipeline == pipeline_desc(PipelineKind::ToneMap, n, hdr)
        &&& self.parallel_pass_pipeline == pipeline_desc(PipelineKind::ParallelDepth, n, hdr)
    }

    /// The invariant of a session: a supported sample count, a model that
    /// can be drawn, an angle below a full turn, the pipelines of the
    /// configuration, and, once the surface is configured, a surface that
    /// is not empty with the resources of exactly its size, made in the
    /// last resize.
    pub open spec fn wf(&self) -> bool {
        &&& supported_sample_count(self.sample_count)
        &&& self.lib_model.wf()
        &&& self.spin.wf()
        &&& self.pipelines_built()
        &&& self.resources matches Some(r) ==> {
            &&& self.config.width > 0
            &&& self.config.height > 0
            &&& r == resources_for(self.config, self.sample_count, self.is_hdr, self.generation)
        }
    }

    /// The state after a resize to `width` by `height`: an empty size
    /// changes nothing; any other becomes the size of the surface, and every
    /// target and every bind group is made anew for it, in a new
    /// generation.
    pub open spec fn resized(self, width: u32, height: u32) -> State {
        if width > 0 && height > 0 {
            let config = SurfaceConfiguration { width, height };
            let generation = next_generation(self.generation);
            State {
                config,
                generation,
                resources: Some(resources_for(config, self.sample_count, self.is_hdr, generation)),
                ..self
            }
        } else {
            self
        }
    }

    /// The state after a tick that comes `elapsed` nanoseconds after the
    /// tick before: paused, nothing changes; else the rotation advances by
    /// the clamped step and the uniform takes the new angle.
    pub open spec fn updated(self, elapsed: u64) -> State {
        if self.is_paused {
            self
        } else {
            let spin = self.spin.advanced(clamped_step(elapsed));
            State { spin, spin_uniform: SpinUniform { angle: spin.spec_angle() }, ..self }
        }
    }

    /// The state after the ticks of `elapsed`, one after the other.
    pub open spec fn updated_by(self, elapsed: Seq<u64>) -> State
        decreases elapsed.len(),
    {
        if elapsed.len() == 0 {
            self
        } else {
            self.updated_by(elapsed.drop_last()).updated(elapsed.last())
        }
    }

    /// The state after a tick at the reading `now` of the clock: the time
    /// since the reading before goes into the rotation as `updated` says,
    /// and `now` is the reading that the next tick counts from, paused or
    /// not.
    pub open spec fn ticked(self, now: u64) -> State {
        State { last_frame: now, ..self.updated(elapsed_since(self.last_frame, now)) }
    }

    /// The state after ticks at the readings of `readings`, one after the
    /// other.
    pub open spec fn ticked_by(self, readings: Seq<u64>) -> State
        decreases readings.len(),
    {
        if readings.len() == 0 {
            self
        } else {
            self.ticked_by(readings.drop_last()).ticked(readings.last())
        }
    }

    /// The state after an event of `key` at the reading `now` of the
    /// clock: a press of the space bar switches the pause and makes `now`
    /// the reading that the next tick counts from; nothing else changes
    /// anything.
    pub open spec fn keyed(self, key: Key, is_pressed: bool, now: u64) -> State {
        if key == Key::Space && is_pressed {
            State { is_paused: !self.is_paused, last_frame: now, ..self }
        } else {
            self
        }
    }

    /// Starts a session for a surface of the given size, which is not
    /// configured yet: the rotation stands at angle 0, the uniform holds
    /// the identity, nothing is paused, the clock reads 0, and the
    /// pipelines are built. No
    /// target exists before the first resize.
    pub fn new(
        config: SurfaceConfiguration,
        sample_count: u32,
        is_hdr: bool,
        lib_model: Model,
        instances: u32,
        speed: i64,
    ) -> (r: Result<State, StateError>)
        ensures
            !supported_sample_count(sample_count) ==> r == Err::<State, StateError>(
                StateError::UnsupportedSampleCount,
            ),
            supported_sample_count(sample_count) && !lib_model.wf() ==> r == Err::<
                State,
                StateError,
            >(StateError::ModelNotDrawable),
            supported_sample_count(sample_count) && lib_model.wf() ==> r is Ok,
            r matches Ok(s) ==> {
                &&& s.wf()
                &&& s.config == config
                &&& s.sample_count == sample_count
                &&& s.is_hdr == is_hdr
                &&& s.lib_model == lib_model
                &&& s.instances == instances
                &&& !s.is_paused
                &&& !s.configured()
                &&& s.generation == 0
                &&& s.last_frame == 0
                &&& s.spin.spec_angle() == 0
                &&& s.spin.spec_speed() == speed
                &&& s.spin_uniform.angle == 0
            },
    {
        if sample_count != 1 && sample_count != 4 {
            return Err(StateError::UnsupportedSampleCount);
        }
        if !lib_model.is_drawable() {
            return Err(StateError::ModelNotDrawable);
        }
        let s = State {
            config,
            is_paused: false,
            sample_count,
            is_hdr,
            lib_model,
            instances,
            spin: Spin::new(speed),
            spin_uniform: SpinUniform::new(),
            last_frame: 0,
            generation: 0,
            resources: None,
            render_pipeline: Pipeline::build_render_pipeline(sample_count, is_hdr),
            stencil_pipeline: Pipeline::mask_render_pipeline(sample_count),
            outline_pipeline: Pipeline::outline_pipeline(sample_count, is_hdr),
            blur_pipeline: Pipeline::blur_pipeline(is_hdr),
            edge_pipeline: Pipeline::edge_pipeline(is_hdr),
            composite_pipeline: Pipeline::composite_pipeline(is_hdr),
            tone_map_pipeline: Pipeline::tone_map_pipeline(),
            parallel_pass_pipeline: Pipeline::parallel_depth_pipeline(),
        };
        Ok(s)
    }

    /// Tells whether the invariant of a session holds. Every function of
    /// a session keeps it; the fields are open, so that a caller who has
    /// written to them can ask.
    pub fn is_valid(&self) -> (b: bool)
        ensures
            b == self.wf(),
    {
        let n = self.sample_count;
        let hdr = self.is_hdr;
        if n != 1 && n != 4 {
            return false;
        }
        if !self.lib_model.is_drawable() || self.spin.angle() >= TAU {
            return false;
        }
        let built = self.render_pipeline == Pipeline::build_render_pipeline(n, hdr)
            && self.stencil_pipeline == Pipeline::mask_render_pipeline(n) && self.outline_pipeline
            == Pipeline::outline_pipeline(n, hdr) && self.blur_pipeline == Pipeline::blur_pipeline(
            hdr,
        ) && self.edge_pipeline == Pipeline::edge_pipeline(hdr) && self.composite_pipeline
            == Pipeline::composite_pipeline(hdr) && self.tone_map_pipeline
            == Pipeline::tone_map_pipeline() && self.parallel_pass_pipeline
            == Pipeline::parallel_depth_pipeline();
        if !built {
            return false;
        }
        match self.resources {
            None => true,
            Some(r) => self.config.width > 0 && self.config.height > 0 && r
                == FrameResources::create(&self.config, n, hdr, self.generation),
        }
    }

    /// Whether the surface was configured.
    pub fn is_surface_configured(&self) -> (b: bool)
        ensures
            b == self.configured(),
    {
        self.resources.is_some()
    }

    /// The pipeline of the given kind.
    pub fn pipeline(&self, kind: PipelineKind) -> (p: Pipeline)
        ensures
            p == self.spec_pipeline(kind),
            self.wf() ==> p == pipeline_desc(kind, self.sample_count, self.is_hdr),
    {
        match kind {
            PipelineKind::Scene => self.render_pipeline,
            PipelineKind::Mask => self.stencil_pipeline,
            PipelineKind::Outline => self.outline_pipeline,
            PipelineKind::Blur => self.blur_pipeline,
            PipelineKind::Edge => self.edge_pipeline,
            PipelineKind::Composite => self.composite_pipeline,
            PipelineKind::ToneMap => self.tone_map_pipeline,
            PipelineKind::ParallelDepth => self.parallel_pass_pipeline,
        }
    }

    /// Takes a new size of the surface. An empty size is ignored. For any
    /// other, the surface counts as configured from now on, every target
    /// has the new size, and every bind group binds the new targets: the
    /// whole of the resources is replaced at once, nothing of the
    /// generation before stays.
    pub fn resize(&mut self, width: u32, height: u32)
        ensures
            *final(self) == old(self).resized(width, height),
            old(self).wf() ==> final(self).wf(),
            width == 0 || height == 0 ==> *final(self) == *old(self),
            width > 0 && height > 0 ==> {
                &&& final(self).config == (SurfaceConfiguration { width, height })
                &&& final(self).generation != old(self).generation
                &&& final(self).resources matches Some(r)
                &&& r.generation == final(self).generation
                &&& r.current()
                &&& forall|slot: Slot|
                    (#[trigger] r.spec_texture(slot)).width == width && r.spec_texture(slot).height
                        == height
            },
    {
        if width > 0 && height > 0 {
            let config = SurfaceConfiguration { width, height };
            let generation = if self.generation == u64::MAX {
                0
            } else {
                self.generation + 1
            };
            let resources = FrameResources::create(
                &config,
                self.sample_count,
                self.is_hdr,
                generation,
            );
            proof {
                lemma_targets_have_surface_size(config, self.sample_count, self.is_hdr, generation);
            }
            self.config = config;
            self.generation = generation;
            self.resources = Some(resources);
        }
    }

    /// One tick, `elapsed` nanoseconds after the tick before. The step is
    /// `elapsed` clamped to a tenth of a second. While the session is not
    /// paused the rotation advances by the step and the uniform takes the
    /// new angle; the result tells whether the uniform has to be uploaded.
    /// While it is paused nothing changes.
    pub fn update(&mut self, elapsed: u64) -> (upload: bool)
        ensures
            *final(self) == old(self).updated(elapsed),
            old(self).wf() ==> final(self).wf(),
            upload == !old(self).is_paused,
            old(self).is_paused ==> *final(self) == *old(self),
            !old(self).is_paused ==> final(self).spin_uniform.angle
                == final(self).spin.spec_angle(),
            !old(self).is_paused ==> final(self).spin.spec_angle() == (old(self).spin.spec_angle()
                + old(self).spin.spec_speed() * clamped_step(elapsed)) % (TAU as int),
            final(self).spin.spec_speed() == old(self).spin.spec_speed(),
    {
        let dt = if elapsed > MAX_STEP_NANOS {
            MAX_STEP_NANOS
        } else {
            elapsed
        };
        if !self.is_paused {
            self.spin.update(dt);
            self.spin_uniform.update_from_angle(self.spin.angle());
            true
        } else {
            false
        }
    }

    /// One tick at the reading `now` of the clock, in nanoseconds since
    /// the session started. The time since the reading before, none if the
    /// clock has gone back, goes into `update`; `now` becomes the reading
    /// that the next tick counts from, whether the session is paused or
    /// not. The result tells whether the uniform has to be uploaded.
    pub fn tick(&mut self, now: u64) -> (upload: bool)
        ensures
            *final(self) == old(self).ticked(now),
            final(self).last_frame == now,
            old(self).wf() ==> final(self).wf(),
            upload == !old(self).is_paused,
            old(self).is_paused ==> *final(self) == (State { last_frame: now, ..*old(self) }),
            !old(self).is_paused ==> final(self).spin_uniform.angle
                == final(self).spin.spec_angle(),
            !old(self).is_paused ==> final(self).spin.spec_angle() == (old(self).spin.spec_angle()
                + old(self).spin.spec_speed() * clamped_step(
                elapsed_since(old(self).last_frame, now),
            )) % (TAU as int),
            final(self).spin.spec_speed() == old(self).spin.spec_speed(),
    {
        let elapsed = if now >= self.last_frame {
            now - self.last_frame
        } else {
            0
        };
        self.last_frame = now;
        self.update(elapsed)
    }

    /// The draws of a pass, in their order.
    pub fn draws(&self, draw: Draw) -> (calls: Vec<DrawCall>)
        requires
            self.lib_model.wf(),
        ensures
            calls@ == draw_calls(draw, self.lib_model.meshes@, self.instances),
    {
        let mut calls: Vec<DrawCall> = Vec::new();
        match draw {
            Draw::FirstMesh => {
                calls.push(
                    DrawCall::Mesh {
                        mesh: 0,
                        material: None,
                        index_count: self.lib_model.meshes[0].num_elements,
                        instances: self.instances,
                    },
                );
            },
            Draw::AllMeshes => {
                calls = self.mesh_draws(false);
            },
            Draw::AllMeshesWithMaterials => {
                calls = self.mesh_draws(true);
            },
            Draw::FullscreenTriangle => {
                calls.push(DrawCall::Fullscreen);
            },
        }
        calls
    }

    fn mesh_draws(&self, with_material: bool) -> (calls: Vec<DrawCall>)
        ensures
            calls@ == Seq::new(
                self.lib_model.meshes@.len(),
                |i: int| mesh_draw(self.lib_model.meshes@, i, with_material, self.instances),
            ),
    {
        let mut calls: Vec<DrawCall> = Vec::new();
        let mut i: usize = 0;
        while i < self.lib_model.meshes.len()
            invariant
                i <= self.lib_model.meshes.len(),
                calls@.len() == i,
                forall|j: int|
                    0 <= j < i ==> #[trigger] calls@[j] == mesh_draw(
                        self.lib_model.meshes@,
                        j,
                        with_material,
                        self.instances,
                    ),
            decreases self.lib_model.meshes.len() - i,
        {
            let mesh = self.lib_model.meshes[i];
            calls.push(
                DrawCall::Mesh {
                    mesh: i,
                    material: if with_material {
                        Some(mesh.material)
                    } else {
                        None
                    },
                    index_count: mesh.num_elements,
                    instances: self.instances,
                },
            );
            i += 1;
        }
        calls
    }

    /// Plans a frame. `surface` is the outcome of acquiring the image of
    /// the surface. Before the surface is configured there is nothing to
    /// draw and the outcome does not matter: the plan is empty and nothing
    /// is presented. When no image could be acquired the frame is given up
    /// with the error. Else the plan holds the passes of the frame in the
    /// order in which they are recorded; the image is presented after the
    /// last.
    pub fn render(&self, surface: Result<(), SurfaceError>) -> (r: Result<
        Vec<RenderPass>,
        SurfaceError,
    >)
        ensures
            !self.configured() ==> (r matches Ok(passes) && passes@.len() == 0),
            self.configured() ==> match surface {
                Err(e) => r == Err::<Vec<RenderPass>, SurfaceError>(e),
                Ok(_) => (r matches Ok(passes) && passes@ == frame_passes(self.sample_count)),
            },
    {
        let mut passes: Vec<RenderPass> = Vec::new();
        if self.resources.is_none() {
            return Ok(passes);
        }
        match surface {
            Err(e) => {
                return Err(e);
            },
            Ok(_) => {},
        }
        let mut stage = FrameStage::Idle.next();
        let ghost mut index: int = 0;
        proof {
            reveal_with_fuel(FrameStage::after, 2);
        }
        loop
            invariant
                0 <= index <= PASS_COUNT,
                passes@.len() == index,
                stage == FrameStage::Idle.after((index + 1) as nat),
                forall|j: int|
                    0 <= j < index ==> #[trigger] passes@[j] == frame_passes(self.sample_count)[j],
            ensures
                index == PASS_COUNT,
            decreases PASS_COUNT - index,
        {
            proof {
                crate::frame::lemma_passes_follow_stages(self.sample_count);
            }
            match stage.pass() {
                Some(kind) => {
                    proof {
                        assert(index < PASS_COUNT);
                        assert(frame_passes(self.sample_count)[index].kind == kind);
                    }
                    passes.push(plan_pass(kind, self.sample_count));
                    stage = stage.next();
                    proof {
                        index = index + 1;
                        reveal_with_fuel(FrameStage::after, 2);
                    }
                },
                None => {
                    proof {
                        if index < PASS_COUNT {
                            assert(FrameStage::Idle.after((index + 1) as nat).spec_pass() == Some(
                                frame_passes(self.sample_count)[index].kind,
                            ));
                        }
                    }
                    break ;
                },
            }
        }
        assert(passes@ =~= frame_passes(self.sample_count));
        Ok(passes)
    }

    /// Takes a key event that comes at the reading `now` of the clock. A
    /// press of the space bar switches the pause and makes `now` the
    /// reading that the next tick counts from; the movement keys go to the
    /// camera; a press of escape ends the session.
    pub fn handle_key(&mut self, key: Key, is_pressed: bool, now: u64) -> (action: KeyAction)
        ensures
            *final(self) == old(self).keyed(key, is_pressed, now),
            action == key_action(key, is_pressed),
            old(self).wf() ==> final(self).wf(),
    {
        match (key, is_pressed) {
            (Key::Space, true) => {
                self.is_paused = !self.is_paused;
                self.last_frame = now;
                KeyAction::PauseToggled
            },
            (Key::Space, false) => KeyAction::Ignored,
            (Key::Escape, true) => KeyAction::Exit,
            (Key::Escape, false) => KeyAction::Ignored,
            (Key::Other, _) => KeyAction::Ignored,
            _ => KeyAction::Camera,
        }
    }
}

/// Every target of a surface that is not empty has exactly the size of the
/// surface.
pub proof fn lemma_targets_have_surface_size(
    config: SurfaceConfiguration,
    sample_count: u32,
    is_hdr: bool,
    generation: u64,
)
    requires
        config.width >= 1,
        config.height >= 1,
    ensures
        forall|slot: Slot|
            (#[trigger] resources_for(config, sample_count, is_hdr, generation).spec_texture(
                slot,
            )).width == config.width && resources_for(
                config,
                sample_count,
                is_hdr,
                generation,
            ).spec_texture(slot).height == config.height,
{
    lemma_resources_for(config, sample_count, is_hdr, generation);
}

/// After a resize to a size that is not empty, for either sample count,
/// the session is well formed and configured, every target has exactly the
/// new size, every bind group binds views of the targets of the new
/// generation, and the next frame is planned in full.
pub proof fn lemma_resize_fits(s: State, width: u32, height: u32)
    requires
        s.wf(),
        width >= 1,
        height >= 1,
    ensures
        s.resized(width, height).wf(),
        s.resized(width, height).configured(),
        ({
            let after = s.resized(width, height);
            let r = after.resources->0;
            &&& r.generation == after.generation
            &&& r.describes(after.config, after.sample_count, after.is_hdr)
            &&& r.current()
            &&& forall|slot: Slot|
                (#[trigger] r.spec_texture(slot)).width == width && r.spec_texture(slot).height
                    == height
        }),
{
    let config = SurfaceConfiguration { width, height };
    let generation = next_generation(s.generation);
    lemma_resources_for(config, s.sample_count, s.is_hdr, generation);
    lemma_targets_have_surface_size(config, s.sample_count, s.is_hdr, generation);
}

/// Whether two sets of resources differ in nothing but the number of their
/// generation: the targets are described alike, the samplers are the same,
/// and every bind group has the same layout and binds the targets of the
/// same slots in the same order.
pub open spec fn same_resources(a: FrameResources, b: FrameResources) -> bool {
    &&& forall|slot: Slot| #[trigger] a.spec_texture(slot) == b.spec_texture(slot)
    &&& a.normal_texture.sampler == b.normal_texture.sampler
    &&& a.normal_resolve_texture.sampler == b.normal_resolve_texture.sampler
    &&& a.parallel_depth_texture.sampler == b.parallel_depth_texture.sampler
    &&& forall|group: BindGroupRef|
        (#[trigger] a.spec_bind_group(group)).spec_layout() == b.spec_bind_group(
            group,
        ).spec_layout() && a.spec_bind_group(group).targets().len() == b.spec_bind_group(
            group,
        ).targets().len()
    &&& forall|group: BindGroupRef, i: int|
        0 <= i < a.spec_bind_group(group).targets().len() ==> (#[trigger] a.spec_bind_group(
            group,
        ).targets()[i]).slot == b.spec_bind_group(group).targets()[i].slot
}

/// Whether two sessions draw the same picture: they agree in everything
/// that a frame depends on, and their resources differ at most in the
/// number of their generation.
pub open spec fn same_picture(a: State, b: State) -> bool {
    &&& a.config == b.config
    &&& a.is_paused == b.is_paused
    &&& a.last_frame == b.last_frame
    &&& a.sample_count == b.sample_count
    &&& a.is_hdr == b.is_hdr
    &&& a.lib_model == b.lib_model
    &&& a.instances == b.instances
    &&& a.spin == b.spin
    &&& a.spin_uniform == b.spin_uniform
    &&& forall|kind: PipelineKind| #[trigger] a.spec_pipeline(kind) == b.spec_pipeline(kind)
    &&& frame_passes(a.sample_count) == frame_passes(b.sample_count)
    &&& match (a.resources, b.resources) {
        (None, None) => true,
        (Some(ra), Some(rb)) => same_resources(ra, rb),
        _ => false,
    }
}

/// A second resize to the same size changes nothing that can be seen: the
/// session draws the same picture as after the first, with resources that
/// are new but described alike.
pub proof fn lemma_resize_idempotent(s: State, width: u32, height: u32)
    requires
        s.wf(),
    ensures
        same_picture(s.resized(width, height), s.resized(width, height).resized(width, height)),
        s.resized(width, height).resized(width, height).wf(),
{
    let a = s.resized(width, height);
    let b = a.resized(width, height);
    if width > 0 && height > 0 {
        let config = SurfaceConfiguration { width, height };
        let ra = a.resources->0;
        let rb = b.resources->0;
        lemma_resources_for(config, s.sample_count, s.is_hdr, ra.generation);
        lemma_resources_for(config, s.sample_count, s.is_hdr, rb.generation);
        assert forall|group: BindGroupRef|
            (#[trigger] ra.spec_bind_group(group)).spec_layout() == rb.spec_bind_group(
                group,
            ).spec_layout() && ra.spec_bind_group(group).targets().len() == rb.spec_bind_group(
                group,
            ).targets().len() by {
            assert(rb.spec_bind_group(group) == frame_bind_group(group, rb.generation));
        }
        assert forall|group: BindGroupRef, i: int|
            0 <= i < ra.spec_bind_group(group).targets().len() implies (
        #[trigger] ra.spec_bind_group(group).targets()[i]).slot == rb.spec_bind_group(
            group,
        ).targets()[i].slot by {
            assert(rb.spec_bind_group(group) == frame_bind_group(group, rb.generation));
        }
        assert forall|slot: Slot| #[trigger] ra.spec_texture(slot) == rb.spec_texture(slot) by {
            assert(rb.spec_texture(slot) == target_desc(slot, config, s.sample_count, s.is_hdr));
        }
    } else {
        match a.resources {
            None => {},
            Some(r) => {
                lemma_resources_for(a.config, a.sample_count, a.is_hdr, a.generation);
            },
        }
    }
}

/// While the session is paused, ticks change nothing, however many there
/// are and however long they take: neither the rotation nor what the
/// uniform holds.
pub proof fn lemma_paused_ticks_change_nothing(s: State, elapsed: Seq<u64>)
    requires
        s.is_paused,
    ensures
        s.updated_by(elapsed) == s,
    decreases elapsed.len(),
{
    if elapsed.len() > 0 {
        lemma_paused_ticks_change_nothing(s, elapsed.drop_last());
    }
}

/// When the pause ends, the rotation goes on from the angle at which it
/// was paused: nothing of the time that passed during the pause is added.
pub proof fn lemma_resume_continues(s: State, during_pause: Seq<u64>, now: u64, elapsed: u64)
    requires
        s.is_paused,
    ensures
        s.updated_by(during_pause).keyed(Key::Space, true, now).updated(elapsed).spin
            == s.spin.advanced(clamped_step(elapsed)),
        s.updated_by(during_pause).keyed(Key::Space, true, now).updated(
            elapsed,
        ).spin_uniform.angle == s.spin.advanced(clamped_step(elapsed)).spec_angle(),
{
    lemma_paused_ticks_change_nothing(s, during_pause);
}

/// Every tick, paused or not, is what the next tick counts from: after a
/// tick at the reading `now` a tick at the reading `next` advances the
/// rotation by the time from `now` to `next`, clamped, and by nothing
/// that passed before `now`.
pub proof fn lemma_tick_is_the_next_reference(s: State, now: u64, next: u64)
    ensures
        s.ticked(now).last_frame == now,
        s.ticked(now).is_paused == s.is_paused,
        s.ticked(now).ticked(next).last_frame == next,
        s.ticked(now).ticked(next) == (State { last_frame: next, ..s.ticked(now).updated(
            elapsed_since(now, next),
        ) }),
{
}

/// While the session is paused, ticks move the clock and nothing else: the
/// rotation and the uniform stay, and the reading of the last tick is the
/// one that counts.
pub proof fn lemma_paused_ticks_move_the_clock_alone(s: State, readings: Seq<u64>)
    requires
        s.is_paused,
    ensures
        s.ticked_by(readings) == (State {
            last_frame: if readings.len() == 0 {
                s.last_frame
            } else {
                readings.last()
            },
            ..s
        }),
    decreases readings.len(),
{
    if readings.len() > 0 {
        lemma_paused_ticks_move_the_clock_alone(s, readings.drop_last());
    }
}

/// The time of a pause is not counted. A session is paused, ticks at
/// any readings, is resumed by a press of the space bar at the reading
/// `resumed`, and ticks at the reading `next`: the rotation has advanced
/// from the angle at which it was paused by the time from `resumed` to
/// `next`, clamped, and by nothing else.
pub proof fn lemma_pause_time_is_not_counted(
    s: State,
    during_pause: Seq<u64>,
    resumed: u64,
    next: u64,
)
    requires
        s.is_paused,
    ensures
        ({
            let after = s.ticked_by(during_pause).keyed(Key::Space, true, resumed).ticked(next);
            let step = clamped_step(elapsed_since(resumed, next));
            &&& !after.is_paused
            &&& after.last_frame == next
            &&& after.spin == s.spin.advanced(step)
            &&& after.spin_uniform.angle == s.spin.advanced(step).spec_angle()
            &&& after.spin.spec_angle() == (s.spin.spec_angle() + s.spin.spec_speed() * step) % (
            TAU as int)
        }),
{
    lemma_paused_ticks_move_the_clock_alone(s, during_pause);
    lemma_advanced(s.spin, clamped_step(elapsed_since(resumed, next)));
}

/// A tick never advances the rotation by more than a tenth of a second,
/// however long ago the tick before was: every stall of that length or
/// longer counts the same.
pub proof fn lemma_step_is_clamped(s: State, elapsed: u64)
    requires
        !s.is_paused,
    ensures
        clamped_step(elapsed) <= MAX_STEP_NANOS,
        clamped_step(elapsed) <= elapsed,
        s.updated(elapsed).spin.spec_angle() == (s.spin.spec_angle() + s.spin.spec_speed()
            * clamped_step(elapsed)) % (TAU as int),
        s.updated(elapsed).spin.spec_speed() == s.spin.spec_speed(),
        elapsed >= MAX_STEP_NANOS ==> s.updated(elapsed) == s.updated(MAX_STEP_NANOS),
{
    lemma_advanced(s.spin, clamped_step(elapsed));
}

/// While the session runs and no tick is longer than a tenth of a second,
/// the angle after any run of ticks is the angle at the start plus speed
/// times the summed time, modulo a full turn, however the time was split
/// into ticks; and the uniform holds that angle after the last tick.
pub proof fn lemma_ticks_accumulate(s: State, elapsed: Seq<u64>)
    requires
        s.spin.wf(),
        !s.is_paused,
        forall|i: int| 0 <= i < elapsed.len() ==> #[trigger] elapsed[i] <= MAX_STEP_NANOS,
    ensures
        s.updated_by(elapsed).spin == s.spin.advanced_by(elapsed),
        s.updated_by(elapsed).spin.spec_angle() == (s.spin.spec_angle() + s.spin.spec_speed()
            * total(elapsed)) % (TAU as int),
        !s.updated_by(elapsed).is_paused,
        elapsed.len() > 0 ==> s.updated_by(elapsed).spin_uniform.angle == s.updated_by(
            elapsed,
        ).spin.spec_angle(),
    decreases elapsed.len(),
{
    lemma_accumulation(s.spin, elapsed);
    if elapsed.len() > 0 {
        let head = elapsed.drop_last();
        assert forall|i: int| 0 <= i < head.len() implies #[trigger] head[i] <= MAX_STEP_NANOS by {
            assert(head[i] == elapsed[i]);
        }
        lemma_ticks_accumulate(s, head);
    }
}

} // verus!
