use framegraph::extra::BlurParams;
use framegraph::frame::{
    plan_pass, AttachmentView, BindGroupRef, ColorAttachment, DepthOps, Draw, FrameStage, PassKind,
    Slot, StencilOps, PASS_COUNT,
};
use framegraph::gpu::{ClearColor, ColorLoad, DepthLoad, StencilLoad, StoreOp};
use framegraph::pipeline::PipelineKind;

fn all_kinds() -> Vec<PassKind> {
    vec![
        PassKind::DepthPrepass,
        PassKind::StencilMask,
        PassKind::MainShade,
        PassKind::Outline,
        PassKind::BlurHorizontal,
        PassKind::BlurVertical,
        PassKind::EdgeDetect,
        PassKind::Composite,
        PassKind::ToneMap,
    ]
}

#[test]
fn stages_run_in_a_fixed_cycle() {
    let expected = vec![
        FrameStage::Prepass,
        FrameStage::StencilMask,
        FrameStage::MainShade,
        FrameStage::Outline,
        FrameStage::BlurH,
        FrameStage::BlurV,
        FrameStage::EdgeDetect,
        FrameStage::Composite,
        FrameStage::ToneMap,
        FrameStage::Present,
        FrameStage::Idle,
    ];
    let mut stage = FrameStage::Idle;
    for next in expected {
        stage = stage.next();
        assert_eq!(stage, next);
    }
}

#[test]
fn each_stage_records_its_pass() {
    assert_eq!(FrameStage::Idle.pass(), None);
    assert_eq!(FrameStage::Present.pass(), None);
    let mut stage = FrameStage::Idle.next();
    let mut kinds = Vec::new();
    while let Some(kind) = stage.pass() {
        kinds.push(kind);
        stage = stage.next();
    }
    assert_eq!(stage, FrameStage::Present);
    assert_eq!(kinds, all_kinds());
    assert_eq!(kinds.len(), PASS_COUNT);
}

#[test]
fn depth_prepass_clears_its_own_depth_target() {
    for n in [1, 4] {
        let p = plan_pass(PassKind::DepthPrepass, n);
        assert_eq!(p.kind, PassKind::DepthPrepass);
        assert_eq!(p.pipeline, PipelineKind::ParallelDepth);
        assert_eq!(p.color, None);
        assert_eq!(p.normal, None);
        let ds = p.depth_stencil.unwrap();
        assert_eq!(ds.view, Slot::ParallelDepth);
        assert_eq!(ds.depth_ops, Some(DepthOps { load: DepthLoad::ClearFar, store: StoreOp::Store }));
        assert_eq!(ds.stencil_ops, None);
        assert_eq!(p.stencil_reference, None);
        assert_eq!(p.group0, Some(BindGroupRef::Camera));
        assert_eq!(p.group1, Some(BindGroupRef::Spin));
        assert_eq!(p.group2, None);
        assert_eq!(p.draw, Draw::FirstMesh);
    }
}

#[test]
fn stencil_mask_clears_depth_and_stencil() {
    let p = plan_pass(PassKind::StencilMask, 4);
    assert_eq!(p.pipeline, PipelineKind::Mask);
    assert_eq!(p.color, None);
    let ds = p.depth_stencil.unwrap();
    assert_eq!(ds.view, Slot::DepthStencil);
    assert_eq!(ds.depth_ops, Some(DepthOps { load: DepthLoad::ClearFar, store: StoreOp::Store }));
    assert_eq!(
        ds.stencil_ops,
        Some(StencilOps { load: StencilLoad::Clear(0), store: StoreOp::Store })
    );
    assert_eq!(p.stencil_reference, Some(1));
    assert_eq!(p.draw, Draw::AllMeshes);
}

#[test]
fn main_pass_with_four_samples_resolves_color_and_normals() {
    let p = plan_pass(PassKind::MainShade, 4);
    assert_eq!(p.pipeline, PipelineKind::Scene);
    assert_eq!(
        p.color,
        Some(ColorAttachment {
            view: AttachmentView::Target(Slot::Color),
            resolve_target: Some(Slot::Resolve),
            load: ColorLoad::Clear(ClearColor::Black),
            store: StoreOp::Store,
        })
    );
    assert_eq!(
        p.normal,
        Some(ColorAttachment {
            view: AttachmentView::Target(Slot::Normal),
            resolve_target: Some(Slot::NormalResolve),
            load: ColorLoad::Clear(ClearColor::Red),
            store: StoreOp::Store,
        })
    );
    let ds = p.depth_stencil.unwrap();
    assert_eq!(ds.view, Slot::DepthStencil);
    assert_eq!(ds.depth_ops, Some(DepthOps { load: DepthLoad::Load, store: StoreOp::Store }));
    assert_eq!(ds.stencil_ops, Some(StencilOps { load: StencilLoad::Load, store: StoreOp::Store }));
    assert_eq!(p.stencil_reference, Some(1));
    assert_eq!(p.group0, Some(BindGroupRef::Material));
    assert_eq!(p.group1, Some(BindGroupRef::Camera));
    assert_eq!(p.group2, Some(BindGroupRef::Spin));
    assert_eq!(p.draw, Draw::AllMeshesWithMaterials);
}

#[test]
fn main_pass_with_one_sample_writes_the_single_targets() {
    let p = plan_pass(PassKind::MainShade, 1);
    assert_eq!(
        p.color,
        Some(ColorAttachment {
            view: AttachmentView::Target(Slot::Resolve),
            resolve_target: None,
            load: ColorLoad::Clear(ClearColor::Background),
            store: StoreOp::Store,
        })
    );
    assert_eq!(
        p.normal,
        Some(ColorAttachment {
            view: AttachmentView::Target(Slot::NormalResolve),
            resolve_target: None,
            load: ColorLoad::Clear(ClearColor::Red),
            store: StoreOp::Store,
        })
    );
}

#[test]
fn outline_pass_loads_color_and_stencil_and_clears_depth() {
    let p = plan_pass(PassKind::Outline, 4);
    assert_eq!(p.pipeline, PipelineKind::Outline);
    assert_eq!(
        p.color,
        Some(ColorAttachment {
            view: AttachmentView::Target(Slot::Color),
            resolve_target: Some(Slot::Resolve),
            load: ColorLoad::Load,
            store: StoreOp::Store,
        })
    );
    assert_eq!(p.normal, None);
    let ds = p.depth_stencil.unwrap();
    assert_eq!(ds.view, Slot::DepthStencil);
    assert_eq!(ds.depth_ops, Some(DepthOps { load: DepthLoad::ClearFar, store: StoreOp::Store }));
    assert_eq!(ds.stencil_ops, Some(StencilOps { load: StencilLoad::Load, store: StoreOp::Store }));
    assert_eq!(p.stencil_reference, Some(1));
    assert_eq!(p.draw, Draw::AllMeshes);
    let single = plan_pass(PassKind::Outline, 1);
    assert_eq!(
        single.color,
        Some(ColorAttachment {
            view: AttachmentView::Target(Slot::Resolve),
            resolve_target: None,
            load: ColorLoad::Load,
            store: StoreOp::Store,
        })
    );
}

#[test]
fn outline_pass_draws_into_the_target_of_the_main_pass() {
    for n in [1, 4] {
        let main = plan_pass(PassKind::MainShade, n).color.unwrap();
        let outline = plan_pass(PassKind::Outline, n).color.unwrap();
        assert_eq!(main.view, outline.view);
        assert_eq!(main.resolve_target, outline.resolve_target);
        assert_eq!(main.store, StoreOp::Store);
    }
}

#[test]
fn blur_passes_share_a_pipeline_and_differ_in_direction() {
    let h = plan_pass(PassKind::BlurHorizontal, 4);
    let v = plan_pass(PassKind::BlurVertical, 4);
    assert_eq!(h.pipeline, PipelineKind::Blur);
    assert_eq!(v.pipeline, PipelineKind::Blur);
    assert_eq!(h.blur_params, Some(BlurParams { x: 1, y: 0 }));
    assert_eq!(v.blur_params, Some(BlurParams { x: 0, y: 1 }));
    assert_eq!(h.group0, Some(BindGroupRef::BlurOutlineResolved));
    assert_eq!(v.group0, Some(BindGroupRef::BlurInter));
    assert_eq!(h.color.unwrap().view, AttachmentView::Target(Slot::BlurIntermediate));
    assert_eq!(v.color.unwrap().view, AttachmentView::Target(Slot::OutlineBloom));
}

#[test]
fn fullscreen_passes_clear_to_black_and_draw_a_triangle() {
    let expected = vec![
        (PassKind::BlurHorizontal, AttachmentView::Target(Slot::BlurIntermediate)),
        (PassKind::BlurVertical, AttachmentView::Target(Slot::OutlineBloom)),
        (PassKind::EdgeDetect, AttachmentView::Target(Slot::Edge)),
        (PassKind::Composite, AttachmentView::Target(Slot::Composite)),
        (PassKind::ToneMap, AttachmentView::Surface),
    ];
    for n in [1, 4] {
        for (kind, view) in expected.iter() {
            let p = plan_pass(*kind, n);
            assert_eq!(p.kind, *kind);
            assert_eq!(
                p.color,
                Some(ColorAttachment {
                    view: *view,
                    resolve_target: None,
                    load: ColorLoad::Clear(ClearColor::Black),
                    store: StoreOp::Store,
                })
            );
            assert_eq!(p.normal, None);
            assert_eq!(p.depth_stencil, None);
            assert_eq!(p.stencil_reference, None);
            assert_eq!(p.group1, None);
            assert_eq!(p.group2, None);
            assert_eq!(p.draw, Draw::FullscreenTriangle);
        }
    }
    assert_eq!(plan_pass(PassKind::EdgeDetect, 4).pipeline, PipelineKind::Edge);
    assert_eq!(plan_pass(PassKind::EdgeDetect, 4).group0, Some(BindGroupRef::Edge));
    assert_eq!(plan_pass(PassKind::Composite, 4).pipeline, PipelineKind::Composite);
    assert_eq!(plan_pass(PassKind::Composite, 4).group0, Some(BindGroupRef::Composite));
    assert_eq!(plan_pass(PassKind::ToneMap, 4).pipeline, PipelineKind::ToneMap);
    assert_eq!(plan_pass(PassKind::ToneMap, 4).group0, Some(BindGroupRef::ToneMap));
    assert_eq!(plan_pass(PassKind::EdgeDetect, 4).blur_params, None);
}

#[test]
fn single_sample_path_never_touches_multisampled_targets() {
    for kind in all_kinds() {
        let p = plan_pass(kind, 1);
        for attachment in [p.color, p.normal].into_iter().flatten() {
            assert_eq!(attachment.resolve_target, None);
            assert_ne!(attachment.view, AttachmentView::Target(Slot::Color));
            assert_ne!(attachment.view, AttachmentView::Target(Slot::Normal));
        }
    }
}
