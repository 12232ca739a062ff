//! The readiness and lifecycle orchestrator: the steps the driver takes
//! between stretches of event dispatch, each gated on a milestone that
//! every output must reach.

use vstd::prelude::*;
use crate::types::{CapKind, Dims, FatalError, FrameState, OutputRecord, Phase, MAX_DIM};
use crate::event::Action;
use crate::model::{
    all_pre_capture, count_frames_ready, count_geometry_ready, count_presented, frame_pred,
    geometry_pred, lemma_all_pre_overlay_update, lemma_count_update, lemma_records_wf_update,
    pool_bytes, pre_capture, presented_pred, StateModel,
};
use crate::state::FreezeState;

verus! {

/// The capture requests for the first `n` outputs: for each, a backing
/// pool of exactly its physical byte size, then the capture job itself.
pub open spec fn capture_plan(outs: Seq<OutputRecord>, n: int, include_cursor: bool) -> Seq<Action>
    decreases n,
{
    if n <= 0 {
        Seq::empty()
    } else {
        capture_plan(outs, n - 1, include_cursor) + seq![
            Action::CreatePool {
                index: (n - 1) as usize,
                size: pool_bytes(outs[n - 1].phys->0) as u64,
            },
            Action::CaptureOutput { index: (n - 1) as usize, include_cursor },
        ]
    }
}

/// The overlay surfaces for the first `n` outputs, one per output.
pub open spec fn overlay_create_plan(n: int) -> Seq<Action>
    decreases n,
{
    if n <= 0 {
        Seq::empty()
    } else {
        overlay_create_plan(n - 1) + seq![Action::CreateLayerSurface { index: (n - 1) as usize }]
    }
}

/// The per-surface setup after every overlay exists: the bare commit that
/// solicits the configure, the viewport, and the scale subscription.
pub open spec fn overlay_setup_plan(n: int) -> Seq<Action>
    decreases n,
{
    if n <= 0 {
        Seq::empty()
    } else {
        overlay_setup_plan(n - 1) + seq![
            Action::CommitSurface { index: (n - 1) as usize },
            Action::CreateViewport { index: (n - 1) as usize },
            Action::SubscribeScale { index: (n - 1) as usize },
        ]
    }
}

/// The exact byte size of the backing pool for an output of physical
/// size `d`.
pub fn pool_size(d: Dims) -> (r: u64)
    requires
        d.width <= MAX_DIM,
        d.height <= MAX_DIM,
    ensures
        r == pool_bytes(d),
{
    proof {
        assert((d.width as int) * (d.height as int) * 4 <= 0x7fff_ffff * 0x7fff_ffff * 4)
            by (nonlinear_arith)
            requires
                d.width as int <= 0x7fff_ffff,
                d.height as int <= 0x7fff_ffff,
        ;
    }
    (d.width as u64) * (d.height as u64) * 4
}

impl FreezeState {
    /// Closes discovery after the initial round-trip: fixes the output
    /// count and enters the geometry wait, or fails the run when no
    /// output was discovered.
    pub fn session_begin(&mut self) -> (r: Result<usize, FatalError>)
        requires
            old(self).wf(),
            old(self).phase is Registry,
        ensures
            final(self).wf(),
            final(self).options == old(self).options,
            match r {
                Ok(n) => {
                    &&& old(self).outputs@.len() > 0
                    &&& n == old(self).outputs@.len()
                    &&& final(self)@ == (StateModel {
                        output_count: n,
                        phase: Phase::AwaitGeometry,
                        ..old(self)@
                    })
                },
                Err(e) => {
                    &&& e is NoOutputs
                    &&& old(self).outputs@.len() == 0
                    &&& *final(self) == *old(self)
                },
            },
    {
        let n = self.outputs.len();
        if n == 0 {
            return Err(FatalError::NoOutputs);
        }
        self.output_count = n;
        self.phase = Phase::AwaitGeometry;
        Ok(n)
    }

    /// Whether every discovered output has reported its logical geometry.
    pub fn geometry_complete(&self) -> (b: bool)
        requires
            self.wf(),
        ensures
            b == (count_geometry_ready(self.outputs@) == self.output_count),
    {
        self.geometry_ready == self.output_count
    }

    /// Whether every discovered output has a captured frame.
    pub fn frames_complete(&self) -> (b: bool)
        requires
            self.wf(),
        ensures
            b == (count_frames_ready(self.outputs@) == self.output_count),
    {
        self.frames_ready == self.output_count
    }

    /// Whether every overlay surface carries its buffer.
    pub fn overlay_complete(&self) -> (b: bool)
        requires
            self.wf(),
        ensures
            b == (count_presented(self.outputs@) == self.output_count),
    {
        self.surfaces_configured == self.output_count
    }

    /// Whether the terminal loop must end the process now.
    pub fn should_exit(&self) -> (b: bool)
        ensures
            b == self.exit,
    {
        self.exit
    }

    /// Whether a before-freeze command is configured to run.
    pub fn run_before_command(&self) -> (b: bool)
        ensures
            b == (self.options.before_cmd is Some),
    {
        self.options.before_cmd.is_some()
    }

    /// Whether an after-freeze command is configured to run.
    pub fn run_after_command(&self) -> (b: bool)
        ensures
            b == (self.options.after_cmd is Some),
    {
        self.options.after_cmd.is_some()
    }

    /// Plans the capture of every output once geometry is in: for each, a
    /// pool sized from its physical dimensions and a capture job, cursor
    /// inclusion following the run options.  Fails without touching the
    /// state when a required capability or an output's physical mode is
    /// missing.
    #[verifier::loop_isolation(false)]
    pub fn plan_capture(&mut self) -> (r: Result<Vec<Action>, FatalError>)
        requires
            old(self).wf(),
            old(self).phase is AwaitGeometry,
        ensures
            final(self).wf(),
            final(self).options == old(self).options,
            match r {
                Ok(acts) => {
                    &&& old(self).caps.shm is Some
                    &&& old(self).caps.screencopy is Some
                    &&& forall|i: int|
                        0 <= i < old(self).outputs@.len() ==> (#[trigger] old(
                            self,
                        ).outputs@[i]).phys is Some
                    &&& acts@ == capture_plan(
                        old(self).outputs@,
                        old(self).outputs@.len() as int,
                        !old(self).options.hide_cursor,
                    )
                    &&& final(self).outputs@.len() == old(self).outputs@.len()
                    &&& forall|i: int|
                        0 <= i < old(self).outputs@.len() ==> #[trigger] final(self).outputs@[i]
                            == (OutputRecord {
                            frame: FrameState::Requested,
                            pool_created: true,
                            ..old(self).outputs@[i]
                        })
                    &&& final(self).caps == old(self).caps
                    &&& final(self).phase is AwaitFrames
                    &&& final(self).exit == old(self).exit
                    &&& final(self).output_count == old(self).output_count
                },
                Err(e) => {
                    &&& *final(self) == *old(self)
                    &&& match e {
                        FatalError::CapabilityMissing(k) => {
                            ||| k is Shm && old(self).caps.shm is None
                            ||| k is ScreencopyManager && old(self).caps.shm is Some && old(
                                self,
                            ).caps.screencopy is None
                        },
                        FatalError::OutputIncomplete(i) => {
                            &&& old(self).caps.shm is Some
                            &&& old(self).caps.screencopy is Some
                            &&& i < old(self).outputs@.len()
                            &&& old(self).outputs@[i as int].phys is None
                            &&& forall|j: int|
                                0 <= j < i ==> (#[trigger] old(self).outputs@[j]).phys is Some
                        },
                        _ => false,
                    }
                },
            },
    {
        if self.caps.shm.is_none() {
            return Err(FatalError::CapabilityMissing(CapKind::Shm));
        }
        if self.caps.screencopy.is_none() {
            return Err(FatalError::CapabilityMissing(CapKind::ScreencopyManager));
        }
        let n = self.outputs.len();
        let mut i: usize = 0;
        while i < n
            invariant
                i <= n,
                *self == *old(self),
                n == self.outputs@.len(),
                forall|j: int| 0 <= j < i ==> (#[trigger] self.outputs@[j]).phys is Some,
            decreases n - i,
        {
            if self.outputs[i].phys.is_none() {
                return Err(FatalError::OutputIncomplete(i));
            }
            i = i + 1;
        }
        self.phase = Phase::AwaitFrames;
        let ghost pre = *old(self);
        let mut acts: Vec<Action> = Vec::new();
        let mut i: usize = 0;
        while i < n
            invariant
                i <= n,
                n == self.outputs@.len(),
                n == pre.outputs@.len(),
                self.wf(),
                self.phase is AwaitFrames,
                self.caps == pre.caps,
                self.exit == pre.exit,
                self.output_count == pre.output_count,
                self.geometry_ready == pre.geometry_ready,
                self.frames_ready == pre.frames_ready,
                self.surfaces_configured == pre.surfaces_configured,
                self.options == pre.options,
                all_pre_capture(pre.outputs@),
                forall|j: int| 0 <= j < n ==> (#[trigger] pre.outputs@[j]).phys is Some,
                forall|j: int|
                    0 <= j < i ==> #[trigger] self.outputs@[j] == (OutputRecord {
                        frame: FrameState::Requested,
                        pool_created: true,
                        ..pre.outputs@[j]
                    }),
                forall|j: int| i <= j < n ==> #[trigger] self.outputs@[j] == pre.outputs@[j],
                acts@ == capture_plan(pre.outputs@, i as int, !pre.options.hide_cursor),
            decreases n - i,
        {
            let r = self.outputs[i];
            proof {
                assert(self.outputs@[i as int].wf());
                assert(pre_capture(pre.outputs@[i as int]));
            }
            let d = r.phys.unwrap();
            let size = pool_size(d);
            acts.push(Action::CreatePool { index: i, size });
            acts.push(
                Action::CaptureOutput { index: i, include_cursor: !self.options.hide_cursor },
            );
            let r2 = OutputRecord { frame: FrameState::Requested, pool_created: true, ..r };
            proof {
                lemma_count_update(self.outputs@, geometry_pred(), i as int, r2);
                lemma_count_update(self.outputs@, frame_pred(), i as int, r2);
                lemma_count_update(self.outputs@, presented_pred(), i as int, r2);
                lemma_records_wf_update(self.outputs@, i as int, r2);
                lemma_all_pre_overlay_update(self.outputs@, i as int, r2);
            }
            self.outputs.set(i, r2);
            i = i + 1;
            proof {
                assert(acts@ =~= capture_plan(pre.outputs@, i as int, !pre.options.hide_cursor));
            }
        }
        Ok(acts)
    }

    /// Plans the overlay for every output once all frames are captured:
    /// every overlay surface is created first, then each presentation
    /// surface is committed bare to solicit its configure and given its
    /// viewport and scale subscription.  Fails without touching the state
    /// when a required capability or an output's surface is missing.
    #[verifier::loop_isolation(false)]
    pub fn plan_overlays(&mut self) -> (r: Result<Vec<Action>, FatalError>)
        requires
            old(self).wf(),
            old(self).phase is AwaitFrames,
        ensures
            final(self).wf(),
            final(self).options == old(self).options,
            match r {
                Ok(acts) => {
                    &&& old(self).caps.layer_shell is Some
                    &&& old(self).caps.viewporter is Some
                    &&& old(self).caps.fractional_scale is Some
                    &&& forall|i: int|
                        0 <= i < old(self).outputs@.len() ==> (#[trigger] old(
                            self,
                        ).outputs@[i]).surface_created
                    &&& acts@ == overlay_create_plan(old(self).outputs@.len() as int)
                        + overlay_setup_plan(old(self).outputs@.len() as int)
                    &&& final(self).outputs@.len() == old(self).outputs@.len()
                    &&& forall|i: int|
                        0 <= i < old(self).outputs@.len() ==> #[trigger] final(self).outputs@[i]
                            == (OutputRecord {
                            layer_created: true,
                            viewport_created: true,
                            ..old(self).outputs@[i]
                        })
                    &&& final(self).caps == old(self).caps
                    &&& final(self).phase is AwaitConfigure
                    &&& final(self).exit == old(self).exit
                    &&& final(self).output_count == old(self).output_count
                },
                Err(e) => {
                    &&& *final(self) == *old(self)
                    &&& match e {
                        FatalError::CapabilityMissing(k) => {
                            ||| k is LayerShell && old(self).caps.layer_shell is None
                            ||| k is Viewporter && old(self).caps.layer_shell is Some && old(
                                self,
                            ).caps.viewporter is None
                            ||| k is FractionalScaleManager && old(self).caps.layer_shell is Some
                                && old(self).caps.viewporter is Some && old(
                                self,
                            ).caps.fractional_scale is None
                        },
                        FatalError::OutputIncomplete(i) => {
                            &&& old(self).caps.layer_shell is Some
                            &&& old(self).caps.viewporter is Some
                            &&& old(self).caps.fractional_scale is Some
                            &&& i < old(self).outputs@.len()
                            &&& !old(self).outputs@[i as int].surface_created
                            &&& forall|j: int|
                                0 <= j < i ==> (#[trigger] old(self).outputs@[j]).surface_created
                        },
                        _ => false,
                    }
                },
            },
    {
        if self.caps.layer_shell.is_none() {
            return Err(FatalError::CapabilityMissing(CapKind::LayerShell));
        }
        if self.caps.viewporter.is_none() {
            return Err(FatalError::CapabilityMissing(CapKind::Viewporter));
        }
        if self.caps.fractional_scale.is_none() {
            return Err(FatalError::CapabilityMissing(CapKind::FractionalScaleManager));
        }
        let n = self.outputs.len();
        let mut i: usize = 0;
        while i < n
            invariant
                i <= n,
                *self == *old(self),
                n == self.outputs@.len(),
                forall|j: int| 0 <= j < i ==> (#[trigger] self.outputs@[j]).surface_created,
            decreases n - i,
        {
            if !self.outputs[i].surface_created {
                return Err(FatalError::OutputIncomplete(i));
            }
            i = i + 1;
        }
        self.phase = Phase::AwaitConfigure;
        let ghost pre = *old(self);
        let mut acts: Vec<Action> = Vec::new();
        let mut i: usize = 0;
        while i < n
            invariant
                i <= n,
                n == self.outputs@.len(),
                n == pre.outputs@.len(),
                self.wf(),
                self.phase is AwaitConfigure,
                self.caps == pre.caps,
                self.exit == pre.exit,
                self.output_count == pre.output_count,
                self.geometry_ready == pre.geometry_ready,
                self.frames_ready == pre.frames_ready,
                self.surfaces_configured == pre.surfaces_configured,
                self.options == pre.options,
                forall|j: int|
                    0 <= j < i ==> #[trigger] self.outputs@[j] == (OutputRecord {
                        layer_created: true,
                        viewport_created: true,
                        ..pre.outputs@[j]
                    }),
                forall|j: int| i <= j < n ==> #[trigger] self.outputs@[j] == pre.outputs@[j],
                acts@ == overlay_create_plan(i as int),
            decreases n - i,
        {
            let r = self.outputs[i];
            proof {
                assert(self.outputs@[i as int].wf());
            }
            acts.push(Action::CreateLayerSurface { index: i });
            let r2 = OutputRecord { layer_created: true, viewport_created: true, ..r };
            proof {
                lemma_count_update(self.outputs@, geometry_pred(), i as int, r2);
                lemma_count_update(self.outputs@, frame_pred(), i as int, r2);
                lemma_count_update(self.outputs@, presented_pred(), i as int, r2);
                lemma_records_wf_update(self.outputs@, i as int, r2);
            }
            self.outputs.set(i, r2);
            i = i + 1;
            proof {
                assert(acts@ =~= overlay_create_plan(i as int));
            }
        }
        let mut i: usize = 0;
        while i < n
            invariant
                i <= n,
                acts@ == overlay_create_plan(n as int) + overlay_setup_plan(i as int),
            decreases n - i,
        {
            acts.push(Action::CommitSurface { index: i });
            acts.push(Action::CreateViewport { index: i });
            acts.push(Action::SubscribeScale { index: i });
            i = i + 1;
            proof {
                assert(acts@ =~= overlay_create_plan(n as int) + overlay_setup_plan(i as int));
            }
        }
        Ok(acts)
    }
}

} // verus!
