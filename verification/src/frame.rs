//! The frame orchestrator. It owns the shared output chain and the
//! compositor binding, sequences one frame's passes in strict program order
//! (scene → downsample → upsample → composite → UI → profiler resolve), and
//! runs the out-of-band resize protocol: reconfigure the surface, recreate
//! the mip chain, rebind the compositor — in that exact order, because the
//! compositor's bind set depends on the chain and the chain's resolution
//! depends on the new surface size. A resize to a zero dimension (minimized
//! window) is guarded out and changes nothing.
//!
//! Errors are classified here: device loss, exhausted memory and pipeline
//! creation failures are fatal to the process; a lost or outdated surface at
//! acquire time abandons the frame and reconfigures; a failed timestamp
//! mapping is contained inside the profiler and never surfaces.

use vstd::prelude::*;
use crate::bloom::{downsample_plan, upsample_plan, BloomPass, LoadOp, BlendMode};
use crate::chain::{BindSetHandle, MipChain, ViewHandle, MIP_LEVELS};
use crate::present::{CompositeDraw, Present, COMPOSITE_VERTEX_COUNT};
use crate::timestamps::{TS_SCENE_BEGIN, TS_SCENE_END, TS_COMPOSITE_BEGIN, TS_COMPOSITE_END};

verus! {

/// Why acquiring the surface image failed.
#[derive(PartialEq, Eq, Structural, Clone, Copy, Debug)]
pub enum AcquireError {
    /// The surface no longer matches the window (e.g. it was resized).
    Outdated,
    /// The surface was lost and must be recreated.
    Lost,
    /// The backend did not deliver an image in time.
    Timeout,
    /// The backend ran out of memory.
    OutOfMemory,
}

/// What the render loop must do about a failed acquire.
#[derive(PartialEq, Eq, Structural, Clone, Copy, Debug)]
pub enum AcquireResponse {
    /// Abandon this frame without submitting anything, reconfigure the
    /// surface, and retry on the next loop iteration.
    AbandonAndReconfigure,
    /// No recovery path exists; terminate with a diagnostic.
    Fatal,
}

/// A lost or outdated surface is the only recoverable acquire failure; every
/// other acquisition error is fatal.
pub fn classify_acquire_error(e: AcquireError) -> (r: AcquireResponse)
    ensures
        r == AcquireResponse::AbandonAndReconfigure <==> (e == AcquireError::Outdated || e
            == AcquireError::Lost),
{
    match e {
        AcquireError::Outdated => AcquireResponse::AbandonAndReconfigure,
        AcquireError::Lost => AcquireResponse::AbandonAndReconfigure,
        AcquireError::Timeout => AcquireResponse::Fatal,
        AcquireError::OutOfMemory => AcquireResponse::Fatal,
    }
}

/// Everything that can go wrong during a frame.
#[derive(PartialEq, Eq, Structural, Clone, Copy, Debug)]
pub enum FrameError {
    /// The graphics device was lost.
    DeviceLost,
    /// A resource allocation exhausted memory (no partial mip chain is
    /// usable; the whole frame is abandoned).
    OutOfMemory,
    /// A shader or pipeline failed to build.
    PipelineCreation,
    /// The surface image was outdated at acquire time.
    SurfaceOutdated,
    /// The surface was lost at acquire time.
    SurfaceLost,
    /// Mapping a timestamp readback buffer failed.
    TimestampMapFailed,
}

/// The three severities of the error taxonomy.
#[derive(PartialEq, Eq, Structural, Clone, Copy, Debug)]
pub enum ErrorClass {
    /// Abort the frame and terminate the process with a diagnostic.
    FatalBackend,
    /// Drop the current frame, reconfigure, retry next loop iteration.
    RecoverablePresentation,
    /// Retain the stale value; never propagates to the frame loop.
    BestEffortTelemetry,
}

/// Classify a frame error: backend failures are fatal, presentation
/// failures at acquire are recoverable, telemetry failures stay contained.
pub fn classify_error(e: FrameError) -> (c: ErrorClass)
    ensures
        c == ErrorClass::FatalBackend <==> (e == FrameError::DeviceLost || e
            == FrameError::OutOfMemory || e == FrameError::PipelineCreation),
        c == ErrorClass::RecoverablePresentation <==> (e == FrameError::SurfaceOutdated || e
            == FrameError::SurfaceLost),
        c == ErrorClass::BestEffortTelemetry <==> e == FrameError::TimestampMapFailed,
{
    match e {
        FrameError::DeviceLost => ErrorClass::FatalBackend,
        FrameError::OutOfMemory => ErrorClass::FatalBackend,
        FrameError::PipelineCreation => ErrorClass::FatalBackend,
        FrameError::SurfaceOutdated => ErrorClass::RecoverablePresentation,
        FrameError::SurfaceLost => ErrorClass::RecoverablePresentation,
        FrameError::TimestampMapFailed => ErrorClass::BestEffortTelemetry,
    }
}

/// One recorded step of a frame, in submission order.
#[derive(PartialEq, Eq, Structural, Clone, Copy, Debug)]
pub enum FrameStep {
    /// The scene renderer draws star radiance into level 0 of the chain,
    /// clearing it first, between the frame's first pair of timestamps.
    Scene { target: ViewHandle, load: LoadOp, ts_begin: u32, ts_end: u32 },
    /// Upload the tent-filter radius to the settings buffer; exactly once
    /// per frame, before the first upsample draw.
    UploadFilterSettings { radius_micro: u32 },
    /// One bloom filter draw, sampling `source` and writing `target`.
    Bloom { pass: BloomPass, source: BindSetHandle, target: ViewHandle },
    /// Composite the processed level 0 into the surface image, between the
    /// frame's second pair of timestamps.
    Composite { draw: CompositeDraw, ts_begin: u32, ts_end: u32 },
    /// The UI overlay draws over the surface image, loading its contents.
    Ui { load: LoadOp },
    /// Resolve this frame's timestamp queries into the readback path.
    ResolveTimestamps,
}

/// One step of the out-of-band resize protocol.
#[derive(PartialEq, Eq, Structural, Clone, Copy, Debug)]
pub enum ResizeAction {
    /// Reconfigure the swapchain surface for the new pixel size.
    ReconfigureSurface { width: u32, height: u32 },
    /// Recreate the whole mip chain (and all its views and bind sets).
    RecreateChain { width: u32, height: u32 },
    /// Rebuild the compositor's input bind set against the new chain.
    RebindCompositor,
}

/// The ghost model of the orchestrator: surface size, current chain
/// instance, and the chain instance the compositor is bound to.
pub struct FrameModel {
    pub surface_width: nat,
    pub surface_height: nat,
    pub chain_instance: nat,
    pub bound_instance: nat,
}

/// The resize protocol on the model: a zero dimension changes nothing;
/// otherwise the surface takes the new size, the chain is recreated as the
/// next instance, and the compositor is rebound to that same instance.
pub open spec fn spec_resize(m: FrameModel, width: nat, height: nat) -> FrameModel {
    if width == 0 || height == 0 {
        m
    } else {
        FrameModel {
            surface_width: width,
            surface_height: height,
            chain_instance: m.chain_instance + 1,
            bound_instance: m.chain_instance + 1,
        }
    }
}

/// Fold a whole sequence of resize notifications over the model.
pub open spec fn apply_resizes(m: FrameModel, events: Seq<(nat, nat)>) -> FrameModel
    decreases events.len(),
{
    if events.len() == 0 {
        m
    } else {
        apply_resizes(spec_resize(m, events[0].0, events[0].1), events.drop_first())
    }
}

/// The compositor's bind set is always derived from the current chain
/// instance: starting bound, after any sequence of resize notifications the
/// orchestrator is still bound to the instance it currently owns, never to a
/// stale one.
pub proof fn lemma_resizes_never_leave_stale_binding(m: FrameModel, events: Seq<(nat, nat)>)
    requires
        m.bound_instance == m.chain_instance,
    ensures
        apply_resizes(m, events).bound_instance == apply_resizes(m, events).chain_instance,
    decreases events.len(),
{
    if events.len() > 0 {
        lemma_resizes_never_leave_stale_binding(
            spec_resize(m, events[0].0, events[0].1),
            events.drop_first(),
        );
    }
}

/// After `N` consecutive effective resizes (no zero dimensions), the frame
/// reads chain instance `N` past the starting one.
pub proof fn lemma_effective_resizes_count_instances(m: FrameModel, events: Seq<(nat, nat)>)
    requires
        forall|i: int| 0 <= i < events.len() ==> (#[trigger] events[i]).0 > 0 && events[i].1 > 0,
    ensures
        apply_resizes(m, events).chain_instance == m.chain_instance + events.len(),
    decreases events.len(),
{
    if events.len() > 0 {
        assert(forall|i: int|
            0 <= i < events.drop_first().len() ==> (#[trigger] events.drop_first()[i]) == events[i
                + 1]);
        lemma_effective_resizes_count_instances(
            spec_resize(m, events[0].0, events[0].1),
            events.drop_first(),
        );
    }
}

/// The frame orchestrator: owner of the shared output chain, the compositor
/// binding, and the per-frame upsample filter setting (mutated only here).
pub struct Orchestrator {
    pub surface_width: u32,
    pub surface_height: u32,
    pub chain: MipChain,
    pub present: Present,
    /// Tent-filter radius in millionths of a texture coordinate, uploaded
    /// once per frame before the upsample sequence.
    pub filter_radius_micro: u32,
}

impl View for Orchestrator {
    type V = FrameModel;

    open spec fn view(&self) -> FrameModel {
        FrameModel {
            surface_width: self.surface_width as nat,
            surface_height: self.surface_height as nat,
            chain_instance: self.chain.instance as nat,
            bound_instance: self.present.bind_instance as nat,
        }
    }
}

impl Orchestrator {
    /// Well-formed orchestrator: the chain matches the surface resolution
    /// and the compositor is bound to the current chain instance.
    pub open spec fn wf(self) -> bool {
        &&& self.chain.wf()
        &&& self.chain.width == self.surface_width
        &&& self.chain.height == self.surface_height
        &&& self.present.bound_to(self.chain)
    }

    /// Set up the frame pipeline for a surface of the given size.
    pub fn new(format: u32, width: u32, height: u32, filter_radius_micro: u32) -> (o: Orchestrator)
        requires
            width > 0,
            height > 0,
        ensures
            o.wf(),
            o.surface_width == width,
            o.surface_height == height,
            o.chain.format == format,
            o.chain.instance == 0,
            o.filter_radius_micro == filter_radius_micro,
    {
        let chain = MipChain::create(format, width, height);
        let present = Present::new(&chain);
        Orchestrator { surface_width: width, surface_height: height, chain, present, filter_radius_micro }
    }

    /// Adjust the upsample filter radius for subsequent frames (live UI
    /// tunable); takes effect at the next frame's settings upload.
    pub fn set_filter_radius(&mut self, radius_micro: u32)
        ensures
            *final(self) == (Orchestrator { filter_radius_micro: radius_micro, ..*old(self) }),
    {
        self.filter_radius_micro = radius_micro;
    }

    /// Handle a resize notification, out of band of the frame pipeline.
    /// A zero dimension (minimized window) changes nothing and demands no
    /// backend work. Otherwise the returned actions must be performed in
    /// order: reconfigure the surface, recreate the chain, rebind the
    /// compositor — the chain's size depends on the new surface and the
    /// compositor's bind set depends on the new chain.
    pub fn resize(&mut self, width: u32, height: u32) -> (actions: Vec<ResizeAction>)
        requires
            old(self).wf(),
            old(self).chain.instance < u64::MAX,
        ensures
            final(self).wf(),
            final(self)@ == spec_resize(old(self)@, width as nat, height as nat),
            final(self).chain.format == old(self).chain.format,
            final(self).filter_radius_micro == old(self).filter_radius_micro,
            (width == 0 || height == 0) ==> {
                &&& *final(self) == *old(self)
                &&& actions@.len() == 0
            },
            (width > 0 && height > 0) ==> {
                &&& final(self).surface_width == width
                &&& final(self).surface_height == height
                &&& final(self).chain.instance == old(self).chain.instance + 1
                &&& actions@.len() == 3
                &&& actions@[0] == (ResizeAction::ReconfigureSurface { width, height })
                &&& actions@[1] == (ResizeAction::RecreateChain { width, height })
                &&& actions@[2] == ResizeAction::RebindCompositor
            },
    {
        let mut actions: Vec<ResizeAction> = Vec::new();
        if width > 0 && height > 0 {
            self.surface_width = width;
            self.surface_height = height;
            actions.push(ResizeAction::ReconfigureSurface { width, height });
            self.chain.recreate(width, height);
            actions.push(ResizeAction::RecreateChain { width, height });
            self.present.recreate_bind_set(&self.chain);
            actions.push(ResizeAction::RebindCompositor);
        }
        actions
    }

    /// Record one frame's steps, in strict program order: the scene pass
    /// clears and fills level 0 (so the chain never contributes
    /// uninitialized memory, even on the first frame after a recreation),
    /// the downsample passes walk down the chain, the filter radius is
    /// uploaded exactly once, the upsample passes walk back up to level 0,
    /// the compositor samples level 0 of the *current* chain instance, the
    /// UI overlay loads the surface image, and the timestamp queries are
    /// resolved last. Timestamps bracket the scene and composite passes.
    #[verifier::rlimit(100)]
    #[verifier::spinoff_prover]
    pub fn plan_frame(&self) -> (plan: Vec<FrameStep>)
        requires
            self.wf(),
        ensures
            plan@.len() == 2 * MIP_LEVELS + 3,
            plan@[0] == (FrameStep::Scene {
                target: ViewHandle { chain_instance: self.chain.instance, level: 0 },
                load: LoadOp::ClearBlack,
                ts_begin: TS_SCENE_BEGIN,
                ts_end: TS_SCENE_END,
            }),
            forall|i: int|
                0 <= i < MIP_LEVELS - 1 ==> #[trigger] plan@[1 + i] == (FrameStep::Bloom {
                    pass: BloomPass {
                        src_level: i as usize,
                        dst_level: (i + 1) as usize,
                        load: LoadOp::ClearBlack,
                        blend: BlendMode::Replace,
                    },
                    source: BindSetHandle {
                        chain_instance: self.chain.instance,
                        level: i as usize,
                    },
                    target: ViewHandle {
                        chain_instance: self.chain.instance,
                        level: (i + 1) as usize,
                    },
                }),
            plan@[MIP_LEVELS as int] == (FrameStep::UploadFilterSettings {
                radius_micro: self.filter_radius_micro,
            }),
            forall|j: int|
                0 <= j < MIP_LEVELS - 1 ==> #[trigger] plan@[MIP_LEVELS + 1 + j] == (FrameStep::Bloom {
                    pass: BloomPass {
                        src_level: (MIP_LEVELS - 1 - j) as usize,
                        dst_level: (MIP_LEVELS - 2 - j) as usize,
                        load: LoadOp::LoadExisting,
                        blend: BlendMode::AdditiveOneOne,
                    },
                    source: BindSetHandle {
                        chain_instance: self.chain.instance,
                        level: (MIP_LEVELS - 1 - j) as usize,
                    },
                    target: ViewHandle {
                        chain_instance: self.chain.instance,
                        level: (MIP_LEVELS - 2 - j) as usize,
                    },
                }),
            plan@[2 * MIP_LEVELS as int] == (FrameStep::Composite {
                draw: CompositeDraw {
                    source: BindSetHandle { chain_instance: self.chain.instance, level: 0 },
                    vertex_count: COMPOSITE_VERTEX_COUNT,
                },
                ts_begin: TS_COMPOSITE_BEGIN,
                ts_end: TS_COMPOSITE_END,
            }),
            plan@[2 * MIP_LEVELS + 1] == (FrameStep::Ui { load: LoadOp::LoadExisting }),
            plan@[2 * MIP_LEVELS + 2] == FrameStep::ResolveTimestamps,
            // the settings upload happens exactly once, before every upsample draw
            forall|i: int|
                0 <= i < plan@.len() ==> ((#[trigger] plan@[i]) is UploadFilterSettings <==> i
                    == MIP_LEVELS),
            // nothing draws into the chain before the scene pass has cleared level 0
            forall|i: int| 1 <= i < plan@.len() ==> !((#[trigger] plan@[i]) is Scene),
    {
        let instance = self.chain.instance;
        let mut plan: Vec<FrameStep> = Vec::new();
        plan.push(
            FrameStep::Scene {
                target: self.chain.view(0),
                load: LoadOp::ClearBlack,
                ts_begin: TS_SCENE_BEGIN,
                ts_end: TS_SCENE_END,
            },
        );
        let down = downsample_plan(MIP_LEVELS);
        let mut i: usize = 0;
        while i < down.len()
            invariant
                self.wf(),
                instance == self.chain.instance,
                down@.len() == MIP_LEVELS - 1,
                forall|k: int|
                    0 <= k < down@.len() ==> {
                        &&& (#[trigger] down@[k]).src_level == k
                        &&& down@[k].dst_level == k + 1
                        &&& down@[k].load == LoadOp::ClearBlack
                        &&& down@[k].blend == BlendMode::Replace
                    },
                i <= down@.len(),
                plan@.len() == 1 + i,
                plan@[0] == (FrameStep::Scene {
                    target: ViewHandle { chain_instance: instance, level: 0 },
                    load: LoadOp::ClearBlack,
                    ts_begin: TS_SCENE_BEGIN,
                    ts_end: TS_SCENE_END,
                }),
                forall|k: int|
                    0 <= k < i ==> #[trigger] plan@[1 + k] == (FrameStep::Bloom {
                        pass: BloomPass {
                            src_level: k as usize,
                            dst_level: (k + 1) as usize,
                            load: LoadOp::ClearBlack,
                            blend: BlendMode::Replace,
                        },
                        source: BindSetHandle { chain_instance: instance, level: k as usize },
                        target: ViewHandle { chain_instance: instance, level: (k + 1) as usize },
                    }),
            decreases down@.len() - i,
        {
            let pass = down[i];
            plan.push(
                FrameStep::Bloom {
                    pass,
                    source: self.chain.sampling_bind_set(pass.src_level),
                    target: self.chain.view(pass.dst_level),
                },
            );
            i = i + 1;
        }
        plan.push(FrameStep::UploadFilterSettings { radius_micro: self.filter_radius_micro });
        let up = upsample_plan(MIP_LEVELS);
        let mut j: usize = 0;
        while j < up.len()
            invariant
                self.wf(),
                instance == self.chain.instance,
                up@.len() == MIP_LEVELS - 1,
                forall|k: int|
                    0 <= k < up@.len() ==> {
                        &&& (#[trigger] up@[k]).src_level == MIP_LEVELS - 1 - k
                        &&& up@[k].dst_level == MIP_LEVELS - 2 - k
                        &&& up@[k].load == LoadOp::LoadExisting
                        &&& up@[k].blend == BlendMode::AdditiveOneOne
                    },
                j <= up@.len(),
                plan@.len() == MIP_LEVELS + 1 + j,
                plan@[0] == (FrameStep::Scene {
                    target: ViewHandle { chain_instance: instance, level: 0 },
                    load: LoadOp::ClearBlack,
                    ts_begin: TS_SCENE_BEGIN,
                    ts_end: TS_SCENE_END,
                }),
                forall|k: int|
                    0 <= k < MIP_LEVELS - 1 ==> #[trigger] plan@[1 + k] == (FrameStep::Bloom {
                        pass: BloomPass {
                            src_level: k as usize,
                            dst_level: (k + 1) as usize,
                            load: LoadOp::ClearBlack,
                            blend: BlendMode::Replace,
                        },
                        source: BindSetHandle { chain_instance: instance, level: k as usize },
                        target: ViewHandle { chain_instance: instance, level: (k + 1) as usize },
                    }),
                plan@[MIP_LEVELS as int] == (FrameStep::UploadFilterSettings {
                    radius_micro: self.filter_radius_micro,
                }),
                forall|k: int|
                    0 <= k < j ==> #[trigger] plan@[MIP_LEVELS + 1 + k] == (FrameStep::Bloom {
                        pass: BloomPass {
                            src_level: (MIP_LEVELS - 1 - k) as usize,
                            dst_level: (MIP_LEVELS - 2 - k) as usize,
                            load: LoadOp::LoadExisting,
                            blend: BlendMode::AdditiveOneOne,
                        },
                        source: BindSetHandle {
                            chain_instance: instance,
                            level: (MIP_LEVELS - 1 - k) as usize,
                        },
                        target: ViewHandle {
                            chain_instance: instance,
                            level: (MIP_LEVELS - 2 - k) as usize,
                        },
                    }),
            decreases up@.len() - j,
        {
            let pass = up[j];
            plan.push(
                FrameStep::Bloom {
                    pass,
                    source: self.chain.sampling_bind_set(pass.src_level),
                    target: self.chain.view(pass.dst_level),
                },
            );
            j = j + 1;
        }
        let draw = self.present.render(&self.chain);
        plan.push(
            FrameStep::Composite { draw, ts_begin: TS_COMPOSITE_BEGIN, ts_end: TS_COMPOSITE_END },
        );
        plan.push(FrameStep::Ui { load: LoadOp::LoadExisting });
        plan.push(FrameStep::ResolveTimestamps);
        proof {
            assert forall|i: int| 0 <= i < plan@.len() implies ((#[trigger] plan@[i])
                is UploadFilterSettings <==> i == MIP_LEVELS) by {
                if 1 <= i && i < MIP_LEVELS {
                    assert(plan@[1 + (i - 1)] is Bloom);
                } else if MIP_LEVELS + 1 <= i && i < 2 * MIP_LEVELS {
                    assert(plan@[MIP_LEVELS + 1 + (i - MIP_LEVELS - 1)] is Bloom);
                }
            }
            assert forall|i: int| 1 <= i < plan@.len() implies !((#[trigger] plan@[i]) is Scene) by {
                if 1 <= i && i < MIP_LEVELS {
                    assert(plan@[1 + (i - 1)] is Bloom);
                } else if MIP_LEVELS + 1 <= i && i < 2 * MIP_LEVELS {
                    assert(plan@[MIP_LEVELS + 1 + (i - MIP_LEVELS - 1)] is Bloom);
                }
            }
        }
        plan
    }
}

} // verus!
