use starglow::bloom::{BlendMode, BloomPass, LoadOp};
use starglow::chain::{BindSetHandle, ViewHandle};
use starglow::frame::{
    classify_acquire_error, classify_error, AcquireError, AcquireResponse, ErrorClass, FrameError
        as E, FrameStep, Orchestrator, ResizeAction,
};
use starglow::present::CompositeDraw;

#[test]
fn acquire_errors_split_recoverable_from_fatal() {
    assert_eq!(
        classify_acquire_error(AcquireError::Outdated),
        AcquireResponse::AbandonAndReconfigure
    );
    assert_eq!(classify_acquire_error(AcquireError::Lost), AcquireResponse::AbandonAndReconfigure);
    assert_eq!(classify_acquire_error(AcquireError::Timeout), AcquireResponse::Fatal);
    assert_eq!(classify_acquire_error(AcquireError::OutOfMemory), AcquireResponse::Fatal);
}

#[test]
fn error_taxonomy_has_three_classes() {
    assert_eq!(classify_error(E::DeviceLost), ErrorClass::FatalBackend);
    assert_eq!(classify_error(E::OutOfMemory), ErrorClass::FatalBackend);
    assert_eq!(classify_error(E::PipelineCreation), ErrorClass::FatalBackend);
    assert_eq!(classify_error(E::SurfaceOutdated), ErrorClass::RecoverablePresentation);
    assert_eq!(classify_error(E::SurfaceLost), ErrorClass::RecoverablePresentation);
    assert_eq!(classify_error(E::TimestampMapFailed), ErrorClass::BestEffortTelemetry);
}

#[test]
fn zero_dimension_resize_is_guarded_out() {
    // minimize to 0×0: no reconfiguration, no recreation
    let mut o = Orchestrator::new(7, 800, 600, 1000);
    let actions = o.resize(0, 0);
    assert!(actions.is_empty());
    assert_eq!(o.chain.instance, 0);
    assert_eq!(o.surface_width, 800);
    assert_eq!(o.surface_height, 600);
    let actions = o.resize(800, 0);
    assert!(actions.is_empty());
    assert_eq!(o.chain.instance, 0);
    // restoring the window restores a valid chain
    let actions = o.resize(800, 600);
    assert_eq!(actions.len(), 3);
    assert_eq!(o.chain.instance, 1);
    assert_eq!(o.chain.level_width(4), 50);
    assert_eq!(o.chain.level_height(4), 38);
}

#[test]
fn resize_actions_come_in_dependency_order() {
    let mut o = Orchestrator::new(7, 800, 600, 1000);
    let actions = o.resize(1024, 768);
    assert_eq!(
        actions,
        vec![
            ResizeAction::ReconfigureSurface { width: 1024, height: 768 },
            ResizeAction::RecreateChain { width: 1024, height: 768 },
            ResizeAction::RebindCompositor,
        ]
    );
}

#[test]
fn compositor_reads_the_current_chain_after_resizes() {
    let mut o = Orchestrator::new(7, 800, 600, 1000);
    for k in 0..3u32 {
        o.resize(800 + k, 600 + k);
    }
    assert_eq!(o.chain.instance, 3);
    assert_eq!(o.present.bind_instance, 3);
    let plan = o.plan_frame();
    match plan[10] {
        FrameStep::Composite { draw, .. } => {
            assert_eq!(draw.source.chain_instance, 3);
            assert_eq!(draw.source.level, 0);
        }
        ref other => panic!("step 10 should composite, got {:?}", other),
    }
}

#[test]
fn frame_plan_runs_in_strict_program_order() {
    let o = Orchestrator::new(7, 800, 600, 1500);
    let plan = o.plan_frame();
    let bloom = |src: usize, dst: usize, load: LoadOp, blend: BlendMode| FrameStep::Bloom {
        pass: BloomPass { src_level: src, dst_level: dst, load, blend },
        source: BindSetHandle { chain_instance: 0, level: src },
        target: ViewHandle { chain_instance: 0, level: dst },
    };
    let expected = vec![
        FrameStep::Scene {
            target: ViewHandle { chain_instance: 0, level: 0 },
            load: LoadOp::ClearBlack,
            ts_begin: 0,
            ts_end: 1,
        },
        bloom(0, 1, LoadOp::ClearBlack, BlendMode::Replace),
        bloom(1, 2, LoadOp::ClearBlack, BlendMode::Replace),
        bloom(2, 3, LoadOp::ClearBlack, BlendMode::Replace),
        bloom(3, 4, LoadOp::ClearBlack, BlendMode::Replace),
        FrameStep::UploadFilterSettings { radius_micro: 1500 },
        bloom(4, 3, LoadOp::LoadExisting, BlendMode::AdditiveOneOne),
        bloom(3, 2, LoadOp::LoadExisting, BlendMode::AdditiveOneOne),
        bloom(2, 1, LoadOp::LoadExisting, BlendMode::AdditiveOneOne),
        bloom(1, 0, LoadOp::LoadExisting, BlendMode::AdditiveOneOne),
        FrameStep::Composite {
            draw: CompositeDraw {
                source: BindSetHandle { chain_instance: 0, level: 0 },
                vertex_count: 6,
            },
            ts_begin: 2,
            ts_end: 3,
        },
        FrameStep::Ui { load: LoadOp::LoadExisting },
        FrameStep::ResolveTimestamps,
    ];
    assert_eq!(plan, expected);
}

#[test]
fn fresh_chain_is_cleared_before_any_bloom_read() {
    // immediately after a recreation, before anything was drawn: the frame
    // still starts by clearing level 0, ahead of every pass that samples it
    let mut o = Orchestrator::new(7, 640, 480, 0);
    o.resize(320, 240);
    let plan = o.plan_frame();
    match plan[0] {
        FrameStep::Scene { target, load, .. } => {
            assert_eq!(load, LoadOp::ClearBlack);
            assert_eq!(target, ViewHandle { chain_instance: 1, level: 0 });
        }
        ref other => panic!("frames must start with the scene pass, got {:?}", other),
    }
    for step in plan.iter().skip(1) {
        assert!(!matches!(step, FrameStep::Scene { .. }));
    }
}

#[test]
fn filter_radius_uploads_once_before_upsampling() {
    let mut o = Orchestrator::new(7, 800, 600, 250);
    o.set_filter_radius(2750);
    let plan = o.plan_frame();
    let uploads: Vec<usize> = plan
        .iter()
        .enumerate()
        .filter(|(_, s)| matches!(s, FrameStep::UploadFilterSettings { .. }))
        .map(|(i, _)| i)
        .collect();
    assert_eq!(uploads, vec![5]);
    assert_eq!(plan[5], FrameStep::UploadFilterSettings { radius_micro: 2750 });
    // every additive upsample draw comes after the upload
    for (i, step) in plan.iter().enumerate() {
        if let FrameStep::Bloom { pass, .. } = step {
            if pass.blend == BlendMode::AdditiveOneOne {
                assert!(i > 5);
            }
        }
    }
}
