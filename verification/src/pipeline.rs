//! The pipeline library: the fixed-function state of every pass.

use vstd::prelude::*;
use crate::extra::LayoutKind;
use crate::gpu::{
    BlendComponent, BlendFactor, BlendOperation, BlendState, ColorTargetState, CompareFunction,
    DepthBiasState, DepthStencilState, Face, FrontFace, MultisampleState, PrimitiveState,
    PrimitiveTopology, StencilFaceState, StencilOperation, StencilState, TextureFormat,
    COLOR_WRITES_ALL, SAMPLE_MASK_ALL,
};
use crate::texture::{
    color_format, color_format_for, DEPTH_FORMAT, DEPTH_STENCIL_FORMAT, NORMAL_FORMAT,
};

verus! {

/// The stencil value that marks the pixels that the mesh covers.
pub const STENCIL_MASK_VALUE: u32 = 1;

/// The shader programs, one per pipeline. Each has a vertex entry point;
/// those of pipelines with color targets have a fragment entry point too.
#[derive(Clone, Copy, Debug, PartialEq, Eq, Structural)]
pub enum Shader {
    Scene,
    Stencil,
    Expand,
    Blur,
    NormalDepthEdges,
    Composite,
    ToneMap,
    DepthOnly,
}

/// The vertex buffers that a pipeline reads.
#[derive(Clone, Copy, Debug, PartialEq, Eq, Structural)]
pub enum VertexInput {
    /// Position, texture coordinate and normal per vertex, and a transform
    /// per instance.
    MeshInstanced,
    /// No vertex buffer: the vertex shader makes the three corners of a
    /// triangle that covers the screen.
    Fullscreen,
}

/// The pipelines of the renderer.
#[derive(Clone, Copy, Debug, PartialEq, Eq, Structural)]
pub enum PipelineKind {
    /// Shades the mesh into the color and normal targets.
    Scene,
    /// Marks the pixels of the mesh in the stencil buffer.
    Mask,
    /// Draws the expanded mesh outside the marked pixels.
    Outline,
    /// One direction of the separable blur.
    Blur,
    /// Finds edges in normals and depth.
    Edge,
    /// Composes scene, edges and bloom.
    Composite,
    /// Maps the composed image to the surface.
    ToneMap,
    /// Writes the depth of the mesh, nothing else.
    ParallelDepth,
}

/// The description of a render pipeline.
#[derive(Clone, Copy, Debug, PartialEq, Eq, Structural)]
pub struct Pipeline {
    pub shader: Shader,
    /// Layout of bind group 0.
    pub group0: Option<LayoutKind>,
    /// Layout of bind group 1.
    pub group1: Option<LayoutKind>,
    /// Layout of bind group 2.
    pub group2: Option<LayoutKind>,
    pub vertex_input: VertexInput,
    /// First color target; a pipeline without one has no fragment stage.
    pub color_target: Option<ColorTargetState>,
    /// Second color target, which receives the normals.
    pub normal_target: Option<ColorTargetState>,
    pub primitive: PrimitiveState,
    pub depth_stencil: Option<DepthStencilState>,
    pub multisample: MultisampleState,
}

/// A color target that the pipeline overwrites without blending.
pub open spec fn plain_target(format: TextureFormat) -> ColorTargetState {
    ColorTargetState { format, blend: None, write_mask: COLOR_WRITES_ALL }
}

/// The stencil state of a pipeline that tests front faces against the
/// reference with `compare` and never writes the stencil buffer.
pub open spec fn stencil_test_only(compare: CompareFunction) -> StencilState {
    StencilState {
        front: StencilFaceState {
            compare,
            fail_op: StencilOperation::Keep,
            depth_fail_op: StencilOperation::Keep,
            pass_op: StencilOperation::Keep,
        },
        back: StencilFaceState::ignore(),
        read_mask: 0xFF,
        write_mask: 0x00,
    }
}

/// The stencil state of the mask pipeline: front faces always pass and
/// replace the stored value by the reference.
pub open spec fn stencil_mark() -> StencilState {
    StencilState {
        front: StencilFaceState {
            compare: CompareFunction::Always,
            fail_op: StencilOperation::Keep,
            depth_fail_op: StencilOperation::Keep,
            pass_op: StencilOperation::Replace,
        },
        back: StencilFaceState::ignore(),
        read_mask: 0xFF,
        write_mask: 0xFF,
    }
}

/// The depth bias of the outline pipeline, which keeps the outline from
/// fighting with the surface it is drawn around.
pub open spec fn outline_bias() -> DepthBiasState {
    DepthBiasState { constant: 1, slope_scale: 1, clamp: 0 }
}

/// A fullscreen pipeline: one bind group, one color target that is
/// overwritten, no depth or stencil test, one sample.
pub open spec fn fullscreen_pipeline(shader: Shader, layout: LayoutKind, format: TextureFormat)
    -> Pipeline {
    Pipeline {
        shader,
        group0: Some(layout),
        group1: None,
        group2: None,
        vertex_input: VertexInput::Fullscreen,
        color_target: Some(plain_target(format)),
        normal_target: None,
        primitive: PrimitiveState::standard(),
        depth_stencil: None,
        multisample: MultisampleState::with_count(1),
    }
}

/// The state of each pipeline, for the sample count of the mesh passes and
/// the choice of high dynamic range.
pub open spec fn pipeline_desc(kind: PipelineKind, sample_count: u32, is_hdr: bool) -> Pipeline {
    match kind {
        PipelineKind::Scene => Pipeline {
            shader: Shader::Scene,
            group0: Some(LayoutKind::Texture),
            group1: Some(LayoutKind::Camera),
            group2: Some(LayoutKind::Spin),
            vertex_input: VertexInput::MeshInstanced,
            color_target: Some(
                ColorTargetState {
                    format: color_format(is_hdr),
                    blend: Some(BlendState::replace()),
                    write_mask: COLOR_WRITES_ALL,
                },
            ),
            normal_target: Some(plain_target(NORMAL_FORMAT)),
            primitive: PrimitiveState {
                topology: PrimitiveTopology::TriangleList,
                front_face: FrontFace::Ccw,
                cull_mode: Some(Face::Back),
            },
            depth_stencil: Some(
                DepthStencilState {
                    format: DEPTH_STENCIL_FORMAT,
                    depth_write_enabled: true,
                    depth_compare: CompareFunction::Less,
                    stencil: stencil_test_only(CompareFunction::Equal),
                    bias: DepthBiasState::zero(),
                },
            ),
            multisample: MultisampleState::with_count(sample_count),
        },
        PipelineKind::Mask => Pipeline {
            shader: Shader::Stencil,
            group0: Some(LayoutKind::Camera),
            group1: Some(LayoutKind::Spin),
            group2: None,
            vertex_input: VertexInput::MeshInstanced,
            color_target: None,
            normal_target: None,
            primitive: PrimitiveState::standard(),
            depth_stencil: Some(
                DepthStencilState {
                    format: DEPTH_STENCIL_FORMAT,
                    depth_write_enabled: false,
                    depth_compare: CompareFunction::Always,
                    stencil: stencil_mark(),
                    bias: DepthBiasState::zero(),
                },
            ),
            multisample: MultisampleState::with_count(sample_count),
        },
        PipelineKind::Outline => Pipeline {
            shader: Shader::Expand,
            group0: Some(LayoutKind::Camera),
            group1: Some(LayoutKind::Spin),
            group2: None,
            vertex_input: VertexInput::MeshInstanced,
            color_target: Some(
                ColorTargetState {
                    format: color_format(is_hdr),
                    blend: Some(BlendState::source_over()),
                    write_mask: COLOR_WRITES_ALL,
                },
            ),
            normal_target: None,
            primitive: PrimitiveState {
                topology: PrimitiveTopology::TriangleList,
                front_face: FrontFace::Ccw,
                cull_mode: Some(Face::Back),
            },
            depth_stencil: Some(
                DepthStencilState {
                    format: DEPTH_STENCIL_FORMAT,
                    depth_write_enabled: false,
                    depth_compare: CompareFunction::LessEqual,
                    stencil: stencil_test_only(CompareFunction::NotEqual),
                    bias: outline_bias(),
                },
            ),
            multisample: MultisampleState::with_count(sample_count),
        },
        PipelineKind::Blur => fullscreen_pipeline(
            Shader::Blur,
            LayoutKind::Blur,
            color_format(is_hdr),
        ),
        PipelineKind::Edge => fullscreen_pipeline(
            Shader::NormalDepthEdges,
            LayoutKind::Edge,
            color_format(is_hdr),
        ),
        PipelineKind::Composite => fullscreen_pipeline(
            Shader::Composite,
            LayoutKind::Composite,
            color_format(is_hdr),
        ),
        PipelineKind::ToneMap => fullscreen_pipeline(
            Shader::ToneMap,
            LayoutKind::ToneMap,
            TextureFormat::Surface,
        ),
        PipelineKind::ParallelDepth => Pipeline {
            shader: Shader::DepthOnly,
            group0: Some(LayoutKind::Camera),
            group1: Some(LayoutKind::Spin),
            group2: None,
            vertex_input: VertexInput::MeshInstanced,
            color_target: None,
            normal_target: None,
            primitive: PrimitiveState::standard(),
            depth_stencil: Some(
                DepthStencilState {
                    format: DEPTH_FORMAT,
                    depth_write_enabled: true,
                    depth_compare: CompareFunction::LessEqual,
                    stencil: StencilState::disabled(),
                    bias: DepthBiasState::zero(),
                },
            ),
            multisample: MultisampleState::with_count(1),
        },
    }
}

fn keep_all(compare: CompareFunction) -> (f: StencilFaceState)
    ensures
        f.compare == compare,
        f.is_read_only(),
{
    StencilFaceState {
        compare,
        fail_op: StencilOperation::Keep,
        depth_fail_op: StencilOperation::Keep,
        pass_op: StencilOperation::Keep,
    }
}

fn test_only(compare: CompareFunction) -> (s: StencilState)
    ensures
        s == stencil_test_only(compare),
{
    StencilState {
        front: keep_all(compare),
        back: keep_all(CompareFunction::Always),
        read_mask: 0xFF,
        write_mask: 0x00,
    }
}

fn samples(count: u32) -> (m: MultisampleState)
    ensures
        m == MultisampleState::with_count(count),
{
    MultisampleState { count, mask: SAMPLE_MASK_ALL, alpha_to_coverage_enabled: false }
}

fn triangles(cull_mode: Option<Face>) -> (p: PrimitiveState)
    ensures
        p == (PrimitiveState { cull_mode, ..PrimitiveState::standard() }),
{
    PrimitiveState { topology: PrimitiveTopology::TriangleList, front_face: FrontFace::Ccw, cull_mode }
}

fn no_bias() -> (b: DepthBiasState)
    ensures
        b == DepthBiasState::zero(),
{
    DepthBiasState { constant: 0, slope_scale: 0, clamp: 0 }
}

fn overwrite(format: TextureFormat) -> (t: ColorTargetState)
    ensures
        t == plain_target(format),
{
    ColorTargetState { format, blend: None, write_mask: COLOR_WRITES_ALL }
}

fn fullscreen(shader: Shader, layout: LayoutKind, format: TextureFormat) -> (p: Pipeline)
    ensures
        p == fullscreen_pipeline(shader, layout, format),
{
    Pipeline {
        shader,
        group0: Some(layout),
        group1: None,
        group2: None,
        vertex_input: VertexInput::Fullscreen,
        color_target: Some(overwrite(format)),
        normal_target: None,
        primitive: triangles(None),
        depth_stencil: None,
        multisample: samples(1),
    }
}

/// A pipeline that draws the instanced mesh with the camera and spin
/// uniforms and writes no color.
fn depth_only_mesh(shader: Shader, depth_stencil: DepthStencilState, sample_count: u32) -> (p:
    Pipeline)
    ensures
        p == (Pipeline {
            shader,
            group0: Some(LayoutKind::Camera),
            group1: Some(LayoutKind::Spin),
            group2: None,
            vertex_input: VertexInput::MeshInstanced,
            color_target: None,
            normal_target: None,
            primitive: PrimitiveState::standard(),
            depth_stencil: Some(depth_stencil),
            multisample: MultisampleState::with_count(sample_count),
        }),
{
    Pipeline {
        shader,
        group0: Some(LayoutKind::Camera),
        group1: Some(LayoutKind::Spin),
        group2: None,
        vertex_input: VertexInput::MeshInstanced,
        color_target: None,
        normal_target: None,
        primitive: triangles(None),
        depth_stencil: Some(depth_stencil),
        multisample: samples(sample_count),
    }
}

impl Pipeline {
    /// The pipeline of the main pass: depth test less with writes, stencil
    /// equal to the reference and kept, the color target replaced, the
    /// normals written beside it.
    pub fn build_render_pipeline(sample_count: u32, is_hdr: bool) -> (p: Pipeline)
        ensures
            p == pipeline_desc(PipelineKind::Scene, sample_count, is_hdr),
    {
        Pipeline {
            shader: Shader::Scene,
            group0: Some(LayoutKind::Texture),
            group1: Some(LayoutKind::Camera),
            group2: Some(LayoutKind::Spin),
            vertex_input: VertexInput::MeshInstanced,
            color_target: Some(
                ColorTargetState {
                    format: color_format_for(is_hdr),
                    blend: Some(
                        BlendState {
                            color: BlendComponent {
                                src_factor: BlendFactor::One,
                                dst_factor: BlendFactor::Zero,
                                operation: BlendOperation::Add,
                            },
                            alpha: BlendComponent {
                                src_factor: BlendFactor::One,
                                dst_factor: BlendFactor::Zero,
                                operation: BlendOperation::Add,
                            },
                        },
                    ),
                    write_mask: COLOR_WRITES_ALL,
                },
            ),
            normal_target: Some(overwrite(NORMAL_FORMAT)),
            primitive: triangles(Some(Face::Back)),
            depth_stencil: Some(
                DepthStencilState {
                    format: DEPTH_STENCIL_FORMAT,
                    depth_write_enabled: true,
                    depth_compare: CompareFunction::Less,
                    stencil: test_only(CompareFunction::Equal),
                    bias: no_bias(),
                },
            ),
            multisample: samples(sample_count),
        }
    }

    /// The pipeline of the stencil mask pass: no color, no depth test and
    /// no depth writes, every front face replaces the stencil value by the
    /// reference.
    pub fn mask_render_pipeline(sample_count: u32) -> (p: Pipeline)
        ensures
            p == pipeline_desc(PipelineKind::Mask, sample_count, false),
            p == pipeline_desc(PipelineKind::Mask, sample_count, true),
    {
        depth_only_mesh(
            Shader::Stencil,
            DepthStencilState {
                format: DEPTH_STENCIL_FORMAT,
                depth_write_enabled: false,
                depth_compare: CompareFunction::Always,
                stencil: StencilState {
                    front: StencilFaceState {
                        compare: CompareFunction::Always,
                        fail_op: StencilOperation::Keep,
                        depth_fail_op: StencilOperation::Keep,
                        pass_op: StencilOperation::Replace,
                    },
                    back: keep_all(CompareFunction::Always),
                    read_mask: 0xFF,
                    write_mask: 0xFF,
                },
                bias: no_bias(),
            },
            sample_count,
        )
    }

    /// The pipeline of the outline pass: read-only depth test less-or-equal
    /// with a bias, stencil not equal to the reference and kept, the color
    /// blended over the target with straight alpha.
    pub fn outline_pipeline(sample_count: u32, is_hdr: bool) -> (p: Pipeline)
        ensures
            p == pipeline_desc(PipelineKind::Outline, sample_count, is_hdr),
    {
        Pipeline {
            shader: Shader::Expand,
            group0: Some(LayoutKind::Camera),
            group1: Some(LayoutKind::Spin),
            group2: None,
            vertex_input: VertexInput::MeshInstanced,
            color_target: Some(
                ColorTargetState {
                    format: color_format_for(is_hdr),
                    blend: Some(
                        BlendState {
                            color: BlendComponent {
                                src_factor: BlendFactor::SrcAlpha,
                                dst_factor: BlendFactor::OneMinusSrcAlpha,
                                operation: BlendOperation::Add,
                            },
                            alpha: BlendComponent {
                                src_factor: BlendFactor::One,
                                dst_factor: BlendFactor::OneMinusSrcAlpha,
                                operation: BlendOperation::Add,
                            },
                        },
                    ),
                    write_mask: COLOR_WRITES_ALL,
                },
            ),
            normal_target: None,
            primitive: triangles(Some(Face::Back)),
            depth_stencil: Some(
                DepthStencilState {
                    format: DEPTH_STENCIL_FORMAT,
                    depth_write_enabled: false,
                    depth_compare: CompareFunction::LessEqual,
                    stencil: test_only(CompareFunction::NotEqual),
                    bias: DepthBiasState { constant: 1, slope_scale: 1, clamp: 0 },
                },
            ),
            multisample: samples(sample_count),
        }
    }

    /// The pipeline of both blur passes.
    pub fn blur_pipeline(is_hdr: bool) -> (p: Pipeline)
        ensures
            p == pipeline_desc(PipelineKind::Blur, 1, is_hdr),
            forall|sample_count: u32|
                p == #[trigger] pipeline_desc(PipelineKind::Blur, sample_count, is_hdr),
    {
        fullscreen(Shader::Blur, LayoutKind::Blur, color_format_for(is_hdr))
    }

    /// The pipeline of the edge detection.
    pub fn edge_pipeline(is_hdr: bool) -> (p: Pipeline)
        ensures
            p == pipeline_desc(PipelineKind::Edge, 1, is_hdr),
            forall|sample_count: u32|
                p == #[trigger] pipeline_desc(PipelineKind::Edge, sample_count, is_hdr),
    {
        fullscreen(Shader::NormalDepthEdges, LayoutKind::Edge, color_format_for(is_hdr))
    }

    /// The pipeline of the composite.
    pub fn composite_pipeline(is_hdr: bool) -> (p: Pipeline)
        ensures
            p == pipeline_desc(PipelineKind::Composite, 1, is_hdr),
            forall|sample_count: u32|
                p == #[trigger] pipeline_desc(PipelineKind::Composite, sample_count, is_hdr),
    {
        fullscreen(Shader::Composite, LayoutKind::Composite, color_format_for(is_hdr))
    }

    /// The pipeline of the tone mapping, which writes the format of the
    /// surface.
    pub fn tone_map_pipeline() -> (p: Pipeline)
        ensures
            p == pipeline_desc(PipelineKind::ToneMap, 1, false),
            forall|sample_count: u32, is_hdr: bool|
                p == #[trigger] pipeline_desc(PipelineKind::ToneMap, sample_count, is_hdr),
    {
        fullscreen(Shader::ToneMap, LayoutKind::ToneMap, TextureFormat::Surface)
    }

    /// The pipeline of the depth prepass: depth test less-or-equal with
    /// writes, no stencil, one sample.
    pub fn parallel_depth_pipeline() -> (p: Pipeline)
        ensures
            p == pipeline_desc(PipelineKind::ParallelDepth, 1, false),
            forall|sample_count: u32, is_hdr: bool|
                p == #[trigger] pipeline_desc(PipelineKind::ParallelDepth, sample_count, is_hdr),
    {
        depth_only_mesh(
            Shader::DepthOnly,
            DepthStencilState {
                format: DEPTH_FORMAT,
                depth_write_enabled: true,
                depth_compare: CompareFunction::LessEqual,
                stencil: StencilState {
                    front: keep_all(CompareFunction::Always),
                    back: keep_all(CompareFunction::Always),
                    read_mask: 0,
                    write_mask: 0,
                },
                bias: no_bias(),
            },
            1,
        )
    }

    /// The pipeline of the given kind.
    pub fn build(kind: PipelineKind, sample_count: u32, is_hdr: bool) -> (p: Pipeline)
        ensures
            p == pipeline_desc(kind, sample_count, is_hdr),
    {
        match kind {
            PipelineKind::Scene => Pipeline::build_render_pipeline(sample_count, is_hdr),
            PipelineKind::Mask => Pipeline::mask_render_pipeline(sample_count),
            PipelineKind::Outline => Pipeline::outline_pipeline(sample_count, is_hdr),
            PipelineKind::Blur => Pipeline::blur_pipeline(is_hdr),
            PipelineKind::Edge => Pipeline::edge_pipeline(is_hdr),
            PipelineKind::Composite => Pipeline::composite_pipeline(is_hdr),
            PipelineKind::ToneMap => Pipeline::tone_map_pipeline(),
            PipelineKind::ParallelDepth => Pipeline::parallel_depth_pipeline(),
        }
    }
}

} // verus!
