use framegraph::extra::LayoutKind;
use framegraph::gpu::{
    BlendFactor, BlendOperation, CompareFunction, Face, FrontFace, PrimitiveTopology,
    StencilOperation, TextureFormat, COLOR_WRITES_ALL, SAMPLE_MASK_ALL,
};
use framegraph::pipeline::{Pipeline, PipelineKind, Shader, VertexInput, STENCIL_MASK_VALUE};
use framegraph::vertex::{
    instance_layout, mesh_vertex_layout, pack, vertex_buffers, VertexAttribute, VertexFormat,
    VertexStepMode,
};

#[test]
fn stencil_mask_value_is_one() {
    assert_eq!(STENCIL_MASK_VALUE, 1);
}

#[test]
fn main_pipeline_tests_stencil_equal_and_replaces_color() {
    let p = Pipeline::build_render_pipeline(4, true);
    assert_eq!(p.shader, Shader::Scene);
    assert_eq!(p.group0, Some(LayoutKind::Texture));
    assert_eq!(p.group1, Some(LayoutKind::Camera));
    assert_eq!(p.group2, Some(LayoutKind::Spin));
    assert_eq!(p.vertex_input, VertexInput::MeshInstanced);
    let color = p.color_target.unwrap();
    assert_eq!(color.format, TextureFormat::Rgba16Float);
    assert_eq!(color.write_mask, COLOR_WRITES_ALL);
    let blend = color.blend.unwrap();
    assert_eq!(blend.color.src_factor, BlendFactor::One);
    assert_eq!(blend.color.dst_factor, BlendFactor::Zero);
    assert_eq!(blend.color.operation, BlendOperation::Add);
    assert_eq!(blend.alpha, blend.color);
    let normal = p.normal_target.unwrap();
    assert_eq!(normal.format, TextureFormat::Rgba16Float);
    assert_eq!(normal.blend, None);
    assert_eq!(p.primitive.topology, PrimitiveTopology::TriangleList);
    assert_eq!(p.primitive.front_face, FrontFace::Ccw);
    assert_eq!(p.primitive.cull_mode, Some(Face::Back));
    let ds = p.depth_stencil.unwrap();
    assert_eq!(ds.format, TextureFormat::Depth24PlusStencil8);
    assert!(ds.depth_write_enabled);
    assert_eq!(ds.depth_compare, CompareFunction::Less);
    assert_eq!(ds.stencil.front.compare, CompareFunction::Equal);
    assert_eq!(ds.stencil.front.pass_op, StencilOperation::Keep);
    assert_eq!(ds.stencil.front.fail_op, StencilOperation::Keep);
    assert_eq!(ds.stencil.front.depth_fail_op, StencilOperation::Keep);
    assert_eq!(ds.stencil.back.compare, CompareFunction::Always);
    assert_eq!(ds.stencil.read_mask, 0xFF);
    assert_eq!(ds.stencil.write_mask, 0);
    assert_eq!((ds.bias.constant, ds.bias.slope_scale, ds.bias.clamp), (0, 0, 0));
    assert_eq!(p.multisample.count, 4);
    assert_eq!(p.multisample.mask, SAMPLE_MASK_ALL);
    assert!(!p.multisample.alpha_to_coverage_enabled);
}

#[test]
fn main_pipeline_without_hdr_writes_surface_format() {
    let p = Pipeline::build_render_pipeline(1, false);
    assert_eq!(p.color_target.unwrap().format, TextureFormat::Surface);
    assert_eq!(p.normal_target.unwrap().format, TextureFormat::Rgba16Float);
    assert_eq!(p.multisample.count, 1);
}

#[test]
fn mask_pipeline_replaces_stencil_and_writes_nothing_else() {
    let p = Pipeline::mask_render_pipeline(4);
    assert_eq!(p.shader, Shader::Stencil);
    assert_eq!(p.color_target, None);
    assert_eq!(p.normal_target, None);
    assert_eq!(p.group0, Some(LayoutKind::Camera));
    assert_eq!(p.group1, Some(LayoutKind::Spin));
    assert_eq!(p.group2, None);
    assert_eq!(p.primitive.cull_mode, None);
    let ds = p.depth_stencil.unwrap();
    assert_eq!(ds.format, TextureFormat::Depth24PlusStencil8);
    assert!(!ds.depth_write_enabled);
    assert_eq!(ds.depth_compare, CompareFunction::Always);
    assert_eq!(ds.stencil.front.compare, CompareFunction::Always);
    assert_eq!(ds.stencil.front.pass_op, StencilOperation::Replace);
    assert_eq!(ds.stencil.front.fail_op, StencilOperation::Keep);
    assert_eq!(ds.stencil.read_mask, 0xFF);
    assert_eq!(ds.stencil.write_mask, 0xFF);
    assert_eq!(p.multisample.count, 4);
}

#[test]
fn outline_pipeline_tests_not_equal_and_blends_over() {
    let p = Pipeline::outline_pipeline(4, true);
    assert_eq!(p.shader, Shader::Expand);
    let target = p.color_target.unwrap();
    assert_eq!(target.format, TextureFormat::Rgba16Float);
    let blend = target.blend.unwrap();
    assert_eq!(blend.color.src_factor, BlendFactor::SrcAlpha);
    assert_eq!(blend.color.dst_factor, BlendFactor::OneMinusSrcAlpha);
    assert_eq!(blend.color.operation, BlendOperation::Add);
    assert_eq!(blend.alpha.src_factor, BlendFactor::One);
    assert_eq!(blend.alpha.dst_factor, BlendFactor::OneMinusSrcAlpha);
    assert_eq!(blend.alpha.operation, BlendOperation::Add);
    assert_eq!(p.normal_target, None);
    assert_eq!(p.primitive.cull_mode, Some(Face::Back));
    let ds = p.depth_stencil.unwrap();
    assert!(!ds.depth_write_enabled);
    assert_eq!(ds.depth_compare, CompareFunction::LessEqual);
    assert_eq!(ds.stencil.front.compare, CompareFunction::NotEqual);
    assert_eq!(ds.stencil.front.pass_op, StencilOperation::Keep);
    assert_eq!(ds.stencil.write_mask, 0);
    assert_eq!(ds.stencil.read_mask, 0xFF);
    assert_eq!((ds.bias.constant, ds.bias.slope_scale, ds.bias.clamp), (1, 1, 0));
    assert_eq!(p.multisample.count, 4);
}

#[test]
fn fullscreen_pipelines_have_no_depth_and_one_sample() {
    let pipelines = vec![
        (Pipeline::blur_pipeline(true), Shader::Blur, LayoutKind::Blur),
        (Pipeline::edge_pipeline(true), Shader::NormalDepthEdges, LayoutKind::Edge),
        (Pipeline::composite_pipeline(true), Shader::Composite, LayoutKind::Composite),
    ];
    for (p, shader, layout) in pipelines {
        assert_eq!(p.shader, shader);
        assert_eq!(p.group0, Some(layout));
        assert_eq!(p.group1, None);
        assert_eq!(p.group2, None);
        assert_eq!(p.vertex_input, VertexInput::Fullscreen);
        assert_eq!(p.depth_stencil, None);
        assert_eq!(p.multisample.count, 1);
        let target = p.color_target.unwrap();
        assert_eq!(target.format, TextureFormat::Rgba16Float);
        assert_eq!(target.blend, None);
        assert_eq!(p.normal_target, None);
        assert_eq!(p.primitive.cull_mode, None);
    }
    assert_eq!(
        Pipeline::blur_pipeline(false).color_target.unwrap().format,
        TextureFormat::Surface
    );
}

#[test]
fn tone_map_pipeline_writes_surface_format() {
    let p = Pipeline::tone_map_pipeline();
    assert_eq!(p.shader, Shader::ToneMap);
    assert_eq!(p.group0, Some(LayoutKind::ToneMap));
    assert_eq!(p.color_target.unwrap().format, TextureFormat::Surface);
    assert_eq!(p.color_target.unwrap().blend, None);
    assert_eq!(p.depth_stencil, None);
    assert_eq!(p.multisample.count, 1);
}

#[test]
fn depth_prepass_pipeline_writes_depth_only() {
    let p = Pipeline::parallel_depth_pipeline();
    assert_eq!(p.shader, Shader::DepthOnly);
    assert_eq!(p.color_target, None);
    let ds = p.depth_stencil.unwrap();
    assert_eq!(ds.format, TextureFormat::Depth32Float);
    assert!(ds.depth_write_enabled);
    assert_eq!(ds.depth_compare, CompareFunction::LessEqual);
    assert_eq!(ds.stencil.read_mask, 0);
    assert_eq!(ds.stencil.write_mask, 0);
    assert_eq!(ds.stencil.front.compare, CompareFunction::Always);
    assert_eq!(p.multisample.count, 1);
}

#[test]
fn build_gives_the_pipeline_of_each_kind() {
    assert_eq!(
        Pipeline::build(PipelineKind::Scene, 4, true),
        Pipeline::build_render_pipeline(4, true)
    );
    assert_eq!(Pipeline::build(PipelineKind::Mask, 1, false), Pipeline::mask_render_pipeline(1));
    assert_eq!(
        Pipeline::build(PipelineKind::Outline, 4, false),
        Pipeline::outline_pipeline(4, false)
    );
    assert_eq!(Pipeline::build(PipelineKind::Blur, 4, true), Pipeline::blur_pipeline(true));
    assert_eq!(Pipeline::build(PipelineKind::Edge, 4, true), Pipeline::edge_pipeline(true));
    assert_eq!(
        Pipeline::build(PipelineKind::Composite, 4, false),
        Pipeline::composite_pipeline(false)
    );
    assert_eq!(Pipeline::build(PipelineKind::ToneMap, 4, true), Pipeline::tone_map_pipeline());
    assert_eq!(
        Pipeline::build(PipelineKind::ParallelDepth, 4, true),
        Pipeline::parallel_depth_pipeline()
    );
}

#[test]
fn mesh_vertex_layout_packs_position_uv_normal() {
    let l = mesh_vertex_layout();
    assert_eq!(l.array_stride, 32);
    assert_eq!(l.step_mode, VertexStepMode::Vertex);
    assert_eq!(
        l.attributes,
        vec![
            VertexAttribute { format: VertexFormat::Float32x3, offset: 0, shader_location: 0 },
            VertexAttribute { format: VertexFormat::Float32x2, offset: 12, shader_location: 1 },
            VertexAttribute { format: VertexFormat::Float32x3, offset: 20, shader_location: 2 },
        ]
    );
}

#[test]
fn instance_layout_packs_the_columns_of_a_transform() {
    let l = instance_layout();
    assert_eq!(l.array_stride, 64);
    assert_eq!(l.step_mode, VertexStepMode::Instance);
    assert_eq!(
        l.attributes,
        vec![
            VertexAttribute { format: VertexFormat::Float32x4, offset: 0, shader_location: 5 },
            VertexAttribute { format: VertexFormat::Float32x4, offset: 16, shader_location: 6 },
            VertexAttribute { format: VertexFormat::Float32x4, offset: 32, shader_location: 7 },
            VertexAttribute { format: VertexFormat::Float32x4, offset: 48, shader_location: 8 },
        ]
    );
}

#[test]
fn pack_lays_out_without_gaps() {
    let empty = pack(&vec![], VertexStepMode::Vertex, 3).unwrap();
    assert_eq!(empty.array_stride, 0);
    assert_eq!(empty.attributes, vec![]);
    let l = pack(
        &vec![VertexFormat::Float32x2, VertexFormat::Float32x4, VertexFormat::Float32x3],
        VertexStepMode::Instance,
        9,
    )
    .unwrap();
    assert_eq!(l.array_stride, 36);
    assert_eq!(l.step_mode, VertexStepMode::Instance);
    assert_eq!(
        l.attributes,
        vec![
            VertexAttribute { format: VertexFormat::Float32x2, offset: 0, shader_location: 9 },
            VertexAttribute { format: VertexFormat::Float32x4, offset: 8, shader_location: 10 },
            VertexAttribute { format: VertexFormat::Float32x3, offset: 24, shader_location: 11 },
        ]
    );
    assert_eq!(VertexFormat::Float32x2.size(), 8);
    assert_eq!(VertexFormat::Float32x3.size(), 12);
    assert_eq!(VertexFormat::Float32x4.size(), 16);
}

#[test]
fn pack_gives_up_when_shader_locations_run_out() {
    let formats = vec![VertexFormat::Float32x2, VertexFormat::Float32x2];
    assert_eq!(pack(&formats, VertexStepMode::Vertex, u32::MAX - 1), None);
    assert_eq!(pack(&formats, VertexStepMode::Vertex, u32::MAX), None);
    let last = pack(&formats, VertexStepMode::Vertex, u32::MAX - 2).unwrap();
    assert_eq!(last.attributes[1].shader_location, u32::MAX - 1);
    assert!(pack(&vec![], VertexStepMode::Vertex, u32::MAX).is_some());
}

#[test]
fn vertex_buffers_follow_the_input_of_the_pipeline() {
    assert_eq!(vertex_buffers(VertexInput::Fullscreen), vec![]);
    assert_eq!(
        vertex_buffers(VertexInput::MeshInstanced),
        vec![mesh_vertex_layout(), instance_layout()]
    );
}
