use framegraph::extra::{BindGroup, LayoutKind, TAU};
use framegraph::frame::{
    plan_pass, AttachmentView, BindGroupRef, Draw, PassKind, Slot, TargetRef, PASS_COUNT,
};
use framegraph::gpu::TextureFormat;
use framegraph::pipeline::{Pipeline, PipelineKind};
use framegraph::resources::{Mesh, Model, ModelFile};
use framegraph::state::{
    resource_steps, DrawCall, FrameResources, Key, KeyAction, ResourceStep, State, StateError,
    SurfaceError, MAX_STEP_NANOS,
};
use framegraph::texture::SurfaceConfiguration;

const SECOND: u64 = 1_000_000_000;

fn all_slots() -> Vec<Slot> {
    vec![
        Slot::DepthStencil,
        Slot::Normal,
        Slot::NormalResolve,
        Slot::ParallelDepth,
        Slot::Color,
        Slot::Resolve,
        Slot::BlurIntermediate,
        Slot::OutlineBloom,
        Slot::Edge,
        Slot::Composite,
    ]
}

fn frame_groups() -> Vec<BindGroupRef> {
    vec![
        BindGroupRef::BlurOutlineResolved,
        BindGroupRef::BlurInter,
        BindGroupRef::Edge,
        BindGroupRef::Composite,
        BindGroupRef::ToneMap,
    ]
}

fn model() -> Model {
    Model::new(
        vec![
            Mesh { num_elements: 36, material: 1 },
            Mesh { num_elements: 6, material: 0 },
            Mesh { num_elements: 300, material: 1 },
        ],
        2,
    )
    .unwrap()
}

fn session(sample_count: u32, is_hdr: bool) -> State {
    State::new(SurfaceConfiguration { width: 0, height: 0 }, sample_count, is_hdr, model(), 10, 1_500_000)
        .unwrap()
}

fn targets_of(group: BindGroup) -> Vec<TargetRef> {
    match group {
        BindGroup::Normal { normal } => vec![normal],
        BindGroup::Blur { source } => vec![source],
        BindGroup::Edge { scene, depth, normal } => vec![scene, depth, normal],
        BindGroup::Composite { edge, outline, bloom } => vec![edge, outline, bloom],
        BindGroup::ToneMap { composed } => vec![composed],
        _ => vec![],
    }
}

#[test]
fn model_file_names_its_file() {
    assert_eq!(ModelFile::Obj("models/cube.obj").file_name(), "models/cube.obj");
    assert_eq!(ModelFile::Gltf("models/craft.gltf").file_name(), "models/craft.gltf");
}

#[test]
fn model_needs_a_mesh_and_known_materials() {
    assert_eq!(Model::new(vec![], 3), None);
    assert_eq!(Model::new(vec![Mesh { num_elements: 3, material: 0 }], 0), None);
    assert_eq!(
        Model::new(
            vec![Mesh { num_elements: 3, material: 0 }, Mesh { num_elements: 3, material: 2 }],
            2
        ),
        None
    );
    let m = Model::new(vec![Mesh { num_elements: 3, material: 1 }], 2).unwrap();
    assert_eq!(m.meshes, vec![Mesh { num_elements: 3, material: 1 }]);
    assert_eq!(m.material_count, 2);
    assert!(m.is_drawable());
    assert!(!Model { meshes: vec![], material_count: 1 }.is_drawable());
}

#[test]
fn session_starts_unconfigured_and_running() {
    let s = session(4, true);
    assert_eq!(s.config, SurfaceConfiguration { width: 0, height: 0 });
    assert_eq!(s.sample_count, 4);
    assert!(s.is_hdr);
    assert!(!s.is_paused);
    assert!(!s.is_surface_configured());
    assert_eq!(s.resources, None);
    assert_eq!(s.generation, 0);
    assert_eq!(s.last_frame, 0);
    assert_eq!(s.instances, 10);
    assert_eq!(s.spin.angle(), 0);
    assert_eq!(s.spin.speed(), 1_500_000);
    assert_eq!(s.spin_uniform.angle, 0);
    assert_eq!(s.lib_model, model());
}

#[test]
fn session_builds_its_pipelines_once() {
    let s = session(4, true);
    assert_eq!(s.render_pipeline, Pipeline::build_render_pipeline(4, true));
    assert_eq!(s.stencil_pipeline, Pipeline::mask_render_pipeline(4));
    assert_eq!(s.outline_pipeline, Pipeline::outline_pipeline(4, true));
    assert_eq!(s.blur_pipeline, Pipeline::blur_pipeline(true));
    assert_eq!(s.edge_pipeline, Pipeline::edge_pipeline(true));
    assert_eq!(s.composite_pipeline, Pipeline::composite_pipeline(true));
    assert_eq!(s.tone_map_pipeline, Pipeline::tone_map_pipeline());
    assert_eq!(s.parallel_pass_pipeline, Pipeline::parallel_depth_pipeline());
    assert_eq!(s.pipeline(PipelineKind::Outline), s.outline_pipeline);
    assert_eq!(s.pipeline(PipelineKind::Blur), s.blur_pipeline);
}

#[test]
fn session_rejects_other_sample_counts() {
    for n in [0, 2, 3, 8, 16] {
        let r = State::new(SurfaceConfiguration { width: 1, height: 1 }, n, true, model(), 1, 1);
        assert_eq!(r.err(), Some(StateError::UnsupportedSampleCount));
    }
}

#[test]
fn session_rejects_a_model_that_cannot_be_drawn() {
    let empty = Model { meshes: vec![], material_count: 1 };
    let r = State::new(SurfaceConfiguration { width: 1, height: 1 }, 4, true, empty, 1, 1);
    assert_eq!(r.err(), Some(StateError::ModelNotDrawable));
    let dangling = Model { meshes: vec![Mesh { num_elements: 3, material: 5 }], material_count: 5 };
    let r = State::new(SurfaceConfiguration { width: 1, height: 1 }, 1, false, dangling, 1, 1);
    assert_eq!(r.err(), Some(StateError::ModelNotDrawable));
    let both = Model { meshes: vec![], material_count: 0 };
    let r = State::new(SurfaceConfiguration { width: 1, height: 1 }, 3, false, both, 1, 1);
    assert_eq!(r.err(), Some(StateError::UnsupportedSampleCount));
}

#[test]
fn resize_gives_every_target_the_new_size() {
    for n in [1, 4] {
        for (w, h) in [(1, 1), (800, 600), (1, 4096), (u32::MAX, u32::MAX)] {
            let mut s = session(n, true);
            s.resize(w, h);
            assert!(s.is_surface_configured());
            assert_eq!(s.config, SurfaceConfiguration { width: w, height: h });
            let r = s.resources.unwrap();
            for slot in all_slots() {
                let t = r.texture(slot);
                assert_eq!((t.width, t.height), (w, h));
            }
        }
    }
}

#[test]
fn resize_rebuilds_every_bind_group_for_the_new_targets() {
    for n in [1, 4] {
        let mut s = session(n, true);
        s.resize(800, 600);
        s.resize(1024, 768);
        s.resize(640, 480);
        assert_eq!(s.generation, 3);
        let r = s.resources.unwrap();
        assert_eq!(r.generation, 3);
        for group in frame_groups() {
            let targets = targets_of(r.bind_group(group));
            assert!(!targets.is_empty());
            for target in targets {
                assert_eq!(target.generation, 3);
                let t = r.texture(target.slot);
                assert_eq!(t.sample_count, 1);
                assert!(t.usage.texture_binding);
                assert_eq!((t.width, t.height), (640, 480));
            }
        }
    }
}

#[test]
fn resize_describes_targets_by_sample_count_and_hdr() {
    let mut s = session(4, true);
    s.resize(800, 600);
    let r = s.resources.unwrap();
    assert_eq!(r.depth_stencil.texture.sample_count, 4);
    assert_eq!(r.depth_stencil.texture.format, TextureFormat::Depth24PlusStencil8);
    assert_eq!(r.normal_texture.texture.sample_count, 4);
    assert!(!r.normal_texture.texture.usage.texture_binding);
    assert_eq!(r.normal_resolve_texture.texture.sample_count, 1);
    assert_eq!(r.normal_resolve_texture.texture.format, TextureFormat::Rgba16Float);
    assert_eq!(r.parallel_depth_texture.texture.sample_count, 1);
    assert_eq!(r.parallel_depth_texture.texture.format, TextureFormat::Depth32Float);
    assert_eq!(r.color_texture.texture.sample_count, 4);
    assert!(!r.color_texture.texture.usage.texture_binding);
    for t in [
        r.resolve_texture,
        r.blur_intermediate_texture,
        r.outline_bloom_texture,
        r.edge_texture,
        r.composite_texture,
    ] {
        assert_eq!(t.texture.sample_count, 1);
        assert_eq!(t.texture.format, TextureFormat::Rgba16Float);
        assert!(t.texture.usage.texture_binding);
        assert!(t.texture.usage.render_attachment);
    }
    let mut s = session(1, false);
    s.resize(800, 600);
    let r = s.resources.unwrap();
    assert_eq!(r.color_texture.texture.format, TextureFormat::Surface);
    assert_eq!(r.color_texture.texture.sample_count, 1);
    assert_eq!(r.resolve_texture.texture.format, TextureFormat::Surface);
    assert_eq!(r.normal_texture.texture.format, TextureFormat::Rgba16Float);
    assert_eq!(r.depth_stencil.texture.sample_count, 1);
}

#[test]
fn resize_wires_the_bind_groups() {
    let mut s = session(4, true);
    s.resize(800, 600);
    let r = s.resources.unwrap();
    let at = |slot| TargetRef { slot, generation: 1 };
    assert_eq!(r.blur_outline_resolved_bind_group, BindGroup::Blur { source: at(Slot::Resolve) });
    assert_eq!(r.blur_inter_bind_group, BindGroup::Blur { source: at(Slot::BlurIntermediate) });
    assert_eq!(
        r.edge_bind_group,
        BindGroup::Edge {
            scene: at(Slot::Resolve),
            depth: at(Slot::ParallelDepth),
            normal: at(Slot::NormalResolve),
        }
    );
    assert_eq!(
        r.composite_bind_group,
        BindGroup::Composite {
            edge: at(Slot::Edge),
            outline: at(Slot::Resolve),
            bloom: at(Slot::OutlineBloom),
        }
    );
    assert_eq!(r.tone_map_bind_group, BindGroup::ToneMap { composed: at(Slot::Composite) });
    assert_eq!(r.bind_group(BindGroupRef::Material), BindGroup::Texture);
    assert_eq!(r.bind_group(BindGroupRef::Camera), BindGroup::Camera);
    assert_eq!(r.bind_group(BindGroupRef::Spin), BindGroup::Spin);
    assert_eq!(r.bind_group(BindGroupRef::Edge), r.edge_bind_group);
    assert_eq!(r.bind_group(BindGroupRef::Edge).layout(), LayoutKind::Edge);
}

#[test]
fn resize_to_an_empty_size_is_ignored() {
    for (w, h) in [(0, 0), (0, 600), (800, 0)] {
        let mut s = session(4, true);
        s.resize(w, h);
        assert!(!s.is_surface_configured());
        assert_eq!(s.generation, 0);
        assert_eq!(s.config, SurfaceConfiguration { width: 0, height: 0 });
        s.resize(800, 600);
        let before = s.resources;
        s.resize(w, h);
        assert!(s.is_surface_configured());
        assert_eq!(s.config, SurfaceConfiguration { width: 800, height: 600 });
        assert_eq!(s.resources, before);
        assert_eq!(s.generation, 1);
    }
}

#[test]
fn resize_twice_to_the_same_size_draws_the_same() {
    for n in [1, 4] {
        let mut s = session(n, true);
        s.resize(800, 600);
        let first = s.resources.unwrap();
        let first_passes = s.render(Ok(())).unwrap();
        s.resize(800, 600);
        let second = s.resources.unwrap();
        let second_passes = s.render(Ok(())).unwrap();
        assert_eq!(first_passes, second_passes);
        assert_ne!(first.generation, second.generation);
        for slot in all_slots() {
            assert_eq!(first.texture(slot), second.texture(slot));
        }
        for group in frame_groups() {
            let a = targets_of(first.bind_group(group));
            let b = targets_of(second.bind_group(group));
            assert_eq!(a.len(), b.len());
            for (x, y) in a.iter().zip(b.iter()) {
                assert_eq!(x.slot, y.slot);
                assert_eq!(y.generation, second.generation);
            }
        }
        assert_eq!(FrameResources::create(&s.config, n, true, first.generation), first);
    }
}

#[test]
fn generation_wraps_and_still_changes() {
    let mut s = session(4, true);
    s.generation = u64::MAX;
    s.resize(10, 10);
    assert_eq!(s.generation, 0);
    assert_eq!(s.resources.unwrap().generation, 0);
}

#[test]
fn render_before_the_first_resize_draws_nothing() {
    let s = session(4, true);
    assert_eq!(s.render(Ok(())), Ok(vec![]));
    assert_eq!(s.render(Err(SurfaceError::Lost)), Ok(vec![]));
}

#[test]
fn render_gives_up_the_frame_when_no_image_was_acquired() {
    let mut s = session(4, true);
    s.resize(800, 600);
    for e in [
        SurfaceError::Timeout,
        SurfaceError::Outdated,
        SurfaceError::Lost,
        SurfaceError::OutOfMemory,
        SurfaceError::Other,
    ] {
        assert_eq!(s.render(Err(e)), Err(e));
    }
}

#[test]
fn render_plans_the_nine_passes_in_order() {
    for n in [1, 4] {
        let mut s = session(n, true);
        s.resize(800, 600);
        let passes = s.render(Ok(())).unwrap();
        assert_eq!(passes.len(), PASS_COUNT);
        assert_eq!(passes.len(), 9);
        let kinds: Vec<PassKind> = passes.iter().map(|p| p.kind).collect();
        assert_eq!(
            kinds,
            vec![
                PassKind::DepthPrepass,
                PassKind::StencilMask,
                PassKind::MainShade,
                PassKind::Outline,
                PassKind::BlurHorizontal,
                PassKind::BlurVertical,
                PassKind::EdgeDetect,
                PassKind::Composite,
                PassKind::ToneMap,
            ]
        );
        for p in passes.iter() {
            assert_eq!(*p, plan_pass(p.kind, n));
        }
        assert_eq!(passes[8].color.unwrap().view, AttachmentView::Surface);
    }
}

#[test]
fn every_sampled_target_is_written_earlier_in_the_frame() {
    for n in [1, 4] {
        let mut s = session(n, true);
        s.resize(320, 200);
        let r = s.resources.unwrap();
        let passes = s.render(Ok(())).unwrap();
        let mut filled: Vec<Slot> = Vec::new();
        for p in passes.iter() {
            for group in [p.group0, p.group1, p.group2].into_iter().flatten() {
                for target in targets_of(r.bind_group(group)) {
                    assert!(filled.contains(&target.slot));
                }
            }
            for a in [p.color, p.normal].into_iter().flatten() {
                match (a.resolve_target, a.view) {
                    (Some(slot), _) => filled.push(slot),
                    (None, AttachmentView::Target(slot)) => filled.push(slot),
                    (None, AttachmentView::Surface) => {}
                }
            }
            if let Some(a) = p.depth_stencil {
                filled.push(a.view);
            }
        }
    }
}

#[test]
fn every_pass_matches_the_sample_count_of_its_pipeline() {
    for n in [1, 4] {
        for hdr in [false, true] {
            let mut s = session(n, hdr);
            s.resize(320, 200);
            let r = s.resources.unwrap();
            for p in s.render(Ok(())).unwrap() {
                let pipeline = s.pipeline(p.pipeline);
                for (a, target) in [(p.color, pipeline.color_target), (p.normal, pipeline.normal_target)] {
                    assert_eq!(a.is_some(), target.is_some());
                    if let (Some(a), Some(target)) = (a, target) {
                        match a.view {
                            AttachmentView::Target(slot) => {
                                let t = r.texture(slot);
                                assert_eq!(t.sample_count, pipeline.multisample.count);
                                assert_eq!(t.format, target.format);
                                assert!(t.usage.render_attachment);
                            }
                            AttachmentView::Surface => {
                                assert_eq!(pipeline.multisample.count, 1);
                                assert_eq!(target.format, TextureFormat::Surface);
                            }
                        }
                        if let Some(slot) = a.resolve_target {
                            assert_eq!(r.texture(slot).sample_count, 1);
                            assert_eq!(r.texture(slot).format, target.format);
                        }
                    }
                }
                assert_eq!(p.depth_stencil.is_some(), pipeline.depth_stencil.is_some());
                if let (Some(a), Some(state)) = (p.depth_stencil, pipeline.depth_stencil) {
                    assert_eq!(r.texture(a.view).format, state.format);
                    assert_eq!(r.texture(a.view).sample_count, pipeline.multisample.count);
                }
                let layouts = [p.group0, p.group1, p.group2].map(|g| g.map(|g| r.bind_group(g).layout()));
                assert_eq!(layouts, [pipeline.group0, pipeline.group1, pipeline.group2]);
            }
        }
    }
}

#[test]
fn draws_cover_the_meshes_of_the_model() {
    let s = session(4, true);
    assert_eq!(
        s.draws(Draw::FirstMesh),
        vec![DrawCall::Mesh { mesh: 0, material: None, index_count: 36, instances: 10 }]
    );
    assert_eq!(
        s.draws(Draw::AllMeshes),
        vec![
            DrawCall::Mesh { mesh: 0, material: None, index_count: 36, instances: 10 },
            DrawCall::Mesh { mesh: 1, material: None, index_count: 6, instances: 10 },
            DrawCall::Mesh { mesh: 2, material: None, index_count: 300, instances: 10 },
        ]
    );
    assert_eq!(
        s.draws(Draw::AllMeshesWithMaterials),
        vec![
            DrawCall::Mesh { mesh: 0, material: Some(1), index_count: 36, instances: 10 },
            DrawCall::Mesh { mesh: 1, material: Some(0), index_count: 6, instances: 10 },
            DrawCall::Mesh { mesh: 2, material: Some(1), index_count: 300, instances: 10 },
        ]
    );
    assert_eq!(s.draws(Draw::FullscreenTriangle), vec![DrawCall::Fullscreen]);
}

#[test]
fn update_advances_the_rotation_and_the_uniform() {
    let mut s = session(4, true);
    assert!(s.update(50_000_000));
    assert_eq!(s.spin.angle(), 75_000_000_000_000);
    assert_eq!(s.spin_uniform.angle, 75_000_000_000_000);
    assert!(s.update(0));
    assert_eq!(s.spin.angle(), 75_000_000_000_000);
}

#[test]
fn update_clamps_a_stall_to_a_tenth_of_a_second() {
    assert_eq!(MAX_STEP_NANOS, 100_000_000);
    let mut stalled = session(4, true);
    assert!(stalled.update(5 * SECOND));
    assert_eq!(stalled.spin.angle(), 150_000_000_000_000);
    let mut longest = session(4, true);
    longest.update(u64::MAX);
    let mut exact = session(4, true);
    exact.update(MAX_STEP_NANOS);
    let mut above = session(4, true);
    above.update(MAX_STEP_NANOS + 1);
    let mut below = session(4, true);
    below.update(MAX_STEP_NANOS - 1);
    assert_eq!(longest.spin, stalled.spin);
    assert_eq!(exact.spin, stalled.spin);
    assert_eq!(above.spin, stalled.spin);
    assert_eq!(below.spin.angle(), 149_999_998_500_000);
}

#[test]
fn ticks_of_the_same_total_give_the_same_angle() {
    let mut a = session(4, true);
    for _ in 0..100 {
        a.update(MAX_STEP_NANOS);
    }
    let mut b = session(4, true);
    for _ in 0..400 {
        b.update(25_000_000);
    }
    let mut c = session(4, true);
    for i in 0..200 {
        c.update(if i % 2 == 0 { 30_000_000 } else { 70_000_000 });
    }
    assert_eq!(a.spin.angle(), 15_000_000_000_000_000 % TAU);
    assert_eq!(a.spin.angle(), 2_433_629_385_640_828);
    assert_eq!(a.spin, b.spin);
    assert_eq!(a.spin, c.spin);
    assert_eq!(a.spin_uniform, c.spin_uniform);
}

#[test]
fn paused_updates_change_nothing() {
    let mut s = session(4, true);
    s.update(40_000_000);
    let angle = s.spin.angle();
    assert_eq!(s.handle_key(Key::Space, true, 0), KeyAction::PauseToggled);
    assert!(s.is_paused);
    for elapsed in [0, 1, 16_000_000, MAX_STEP_NANOS, 5 * SECOND, u64::MAX] {
        assert!(!s.update(elapsed));
        assert_eq!(s.spin.angle(), angle);
        assert_eq!(s.spin_uniform.angle, angle);
    }
    assert_eq!(s.handle_key(Key::Space, true, 0), KeyAction::PauseToggled);
    assert!(!s.is_paused);
    assert!(s.update(10_000_000));
    assert_eq!(s.spin.angle(), angle + 15_000_000_000_000);
    assert_eq!(s.spin_uniform.angle, s.spin.angle());
}

#[test]
fn keys_map_to_actions() {
    let mut s = session(4, true);
    assert_eq!(s.handle_key(Key::Space, false, 5), KeyAction::Ignored);
    assert!(!s.is_paused);
    assert_eq!(s.handle_key(Key::Escape, true, 6), KeyAction::Exit);
    assert_eq!(s.handle_key(Key::Escape, false, 7), KeyAction::Ignored);
    assert_eq!(s.handle_key(Key::Other, true, 8), KeyAction::Ignored);
    assert_eq!(s.handle_key(Key::Other, false, 9), KeyAction::Ignored);
    for key in [
        Key::KeyW,
        Key::KeyA,
        Key::KeyS,
        Key::KeyD,
        Key::ArrowUp,
        Key::ArrowLeft,
        Key::ArrowDown,
        Key::ArrowRight,
    ] {
        assert_eq!(s.handle_key(key, true, 10), KeyAction::Camera);
        assert_eq!(s.handle_key(key, false, 11), KeyAction::Camera);
    }
    assert!(!s.is_paused);
    assert_eq!(s.spin.angle(), 0);
    assert_eq!(s.last_frame, 0);
}

#[test]
fn resources_are_created_in_the_order_of_their_dependencies() {
    let steps = resource_steps();
    assert_eq!(steps.len(), 15);
    let r = FrameResources::create(&SurfaceConfiguration { width: 4, height: 4 }, 4, true, 1);
    let mut created: Vec<Slot> = Vec::new();
    let mut groups: Vec<BindGroupRef> = Vec::new();
    for step in steps {
        match step {
            ResourceStep::CreateTarget(slot) => {
                assert!(!created.contains(&slot));
                created.push(slot);
            }
            ResourceStep::CreateBindGroup(group) => {
                for target in targets_of(r.bind_group(group)) {
                    assert!(created.contains(&target.slot));
                }
                groups.push(group);
            }
        }
    }
    assert_eq!(created.len(), 10);
    for slot in all_slots() {
        assert!(created.contains(&slot));
    }
    assert_eq!(groups, frame_groups());
}

#[test]
fn tick_counts_from_the_reading_before() {
    let mut s = session(4, true);
    assert!(s.tick(20_000_000));
    assert_eq!(s.last_frame, 20_000_000);
    assert_eq!(s.spin.angle(), 30_000_000_000_000);
    assert!(s.tick(50_000_000));
    assert_eq!(s.last_frame, 50_000_000);
    assert_eq!(s.spin.angle(), 75_000_000_000_000);
    assert_eq!(s.spin_uniform.angle, 75_000_000_000_000);
    assert!(s.tick(50_000_000));
    assert_eq!(s.spin.angle(), 75_000_000_000_000);
}

#[test]
fn tick_clamps_a_stall_and_still_takes_the_reading() {
    let mut s = session(4, true);
    s.tick(SECOND);
    assert_eq!(s.spin.angle(), 150_000_000_000_000);
    assert_eq!(s.last_frame, SECOND);
    s.tick(6 * SECOND);
    assert_eq!(s.spin.angle(), 300_000_000_000_000);
    assert_eq!(s.last_frame, 6 * SECOND);
    s.tick(6 * SECOND + 10_000_000);
    assert_eq!(s.spin.angle(), 315_000_000_000_000);
    s.tick(u64::MAX);
    assert_eq!(s.spin.angle(), 465_000_000_000_000);
    assert_eq!(s.last_frame, u64::MAX);
}

#[test]
fn tick_counts_nothing_when_the_clock_goes_back() {
    let mut s = session(4, true);
    s.tick(80_000_000);
    let angle = s.spin.angle();
    assert!(s.tick(30_000_000));
    assert_eq!(s.spin.angle(), angle);
    assert_eq!(s.last_frame, 30_000_000);
    s.tick(40_000_000);
    assert_eq!(s.spin.angle(), angle + 15_000_000_000_000);
}

#[test]
fn every_tick_is_the_reference_of_the_next_even_when_paused() {
    let mut s = session(4, true);
    s.tick(10_000_000);
    let angle = s.spin.angle();
    assert_eq!(s.handle_key(Key::Space, true, 12_000_000), KeyAction::PauseToggled);
    assert_eq!(s.last_frame, 12_000_000);
    for reading in [20_000_000, 30_000_000, 3 * SECOND, 3 * SECOND + 1] {
        assert!(!s.tick(reading));
        assert_eq!(s.last_frame, reading);
        assert_eq!(s.spin.angle(), angle);
        assert_eq!(s.spin_uniform.angle, angle);
    }
}

#[test]
fn the_time_of_a_pause_is_not_counted() {
    let mut s = session(4, true);
    s.tick(10_000_000);
    let angle = s.spin.angle();
    s.handle_key(Key::Space, true, 15_000_000);
    s.tick(2 * SECOND);
    assert_eq!(s.handle_key(Key::Space, true, 7 * SECOND), KeyAction::PauseToggled);
    assert!(!s.is_paused);
    assert_eq!(s.last_frame, 7 * SECOND);
    assert_eq!(s.spin.angle(), angle);
    assert!(s.tick(7 * SECOND + 20_000_000));
    assert_eq!(s.spin.angle(), angle + 30_000_000_000_000);
    assert_eq!(s.spin_uniform.angle, s.spin.angle());
    assert_eq!(s.last_frame, 7 * SECOND + 20_000_000);
}

#[test]
fn a_session_can_turn_backwards() {
    let mut s = State::new(
        SurfaceConfiguration { width: 0, height: 0 },
        4,
        true,
        model(),
        10,
        -1_500_000,
    )
    .unwrap();
    assert!(s.is_valid());
    assert!(s.tick(10_000_000));
    assert_eq!(s.spin.angle(), TAU - 15_000_000_000_000);
    assert_eq!(s.spin_uniform.angle, TAU - 15_000_000_000_000);
    assert!(s.is_valid());
}
