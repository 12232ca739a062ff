//! The executable client state and its event dispatcher.  Every handler
//! is proved equal to the model's transition function, and the cached
//! readiness counters are proved equal to the counts the model derives.

use vstd::prelude::*;
use crate::types::{CapKind, CapSlots, Dims, FrameState, Options, OutputRecord, Phase, Transform, MAX_DIM};
use crate::event::{Action, Event, GlobalKind, KEYSYM_ESCAPE};
use crate::model::{
    all_pre_capture, all_pre_overlay, buffer_bytes, count_frames_ready, count_geometry_ready,
    count_presented, frame_pred, geometry_pred, lemma_all_pre_capture_push,
    lemma_all_pre_overlay_push, lemma_count_le_len, lemma_count_push, lemma_records_wf_push,
    lemma_state_update, presented_pred, records_wf, step, step_buffer_done, step_capture_buffer,
    step_capture_failed, step_capture_ready, step_closed, step_configure, step_global,
    step_global_remove, step_key, step_keymap, step_logical, step_mode, step_pointer, step_scale,
    step_transform, StateModel,
};

verus! {

/// The whole client state: capability slots, per-output records in
/// discovery order, the cached readiness counters, and the run options.
pub struct FreezeState {
    /// Bound capability identities.
    pub caps: CapSlots,
    /// One record per discovered output.
    pub outputs: Vec<OutputRecord>,
    /// The output total fixed when the session began.
    pub output_count: usize,
    /// Where the orchestrator stands.
    pub phase: Phase,
    /// Set by an exit trigger or a capture failure; read by the final loop.
    pub exit: bool,
    /// Outputs whose logical geometry is known.
    pub geometry_ready: usize,
    /// Outputs whose captured frame is complete.
    pub frames_ready: usize,
    /// Outputs whose overlay surface carries its buffer.
    pub surfaces_configured: usize,
    /// Run-wide options, fixed at startup.
    pub options: Options,
}

impl View for FreezeState {
    type V = StateModel;

    open spec fn view(&self) -> StateModel {
        StateModel {
            caps: self.caps,
            outputs: self.outputs@,
            output_count: self.output_count,
            phase: self.phase,
            exit: self.exit,
        }
    }
}

impl FreezeState {
    /// The counters cache exactly the counts the model derives, and the
    /// model keeps its record invariants.
    pub open spec fn wf(&self) -> bool {
        &&& self.geometry_ready == count_geometry_ready(self.outputs@)
        &&& self.frames_ready == count_frames_ready(self.outputs@)
        &&& self.surfaces_configured == count_presented(self.outputs@)
        &&& records_wf(self.outputs@)
        &&& (self.phase is Registry || self.phase is AwaitGeometry) ==> all_pre_capture(
            self.outputs@,
        )
        &&& self.phase is AwaitFrames ==> all_pre_overlay(self.outputs@)
    }

    /// A fresh client with nothing discovered.
    pub fn new(options: Options) -> (r: FreezeState)
        ensures
            r.wf(),
            r@ == StateModel::init(),
            r.options == options,
    {
        let r = FreezeState {
            caps: CapSlots::new(),
            outputs: Vec::new(),
            output_count: 0,
            phase: Phase::Registry,
            exit: false,
            geometry_ready: 0,
            frames_ready: 0,
            surfaces_configured: 0,
            options,
        };
        proof {
            assert(r.outputs@ =~= Seq::<OutputRecord>::empty());
        }
        r
    }

    /// Dispatches one decoded event and returns the requests to issue,
    /// exactly as the model's transition function says.
    pub fn handle_event(&mut self, e: Event) -> (acts: Vec<Action>)
        requires
            old(self).wf(),
            e.wf(),
        ensures
            final(self).wf(),
            final(self)@ == step(old(self)@, e).0,
            acts@ == step(old(self)@, e).1,
            final(self).options == old(self).options,
    {
        match e {
            Event::Global { name, kind } => self.on_global(name, kind),
            Event::GlobalRemove { name } => self.on_global_remove(name),
            Event::OutputMode { index, width, height } => self.on_mode(index, width, height),
            Event::OutputTransform { index, transform } => self.on_transform(index, transform),
            Event::LogicalSize { index, width, height } => self.on_logical(index, width, height),
            Event::CaptureBuffer { index, width, height, stride, format_ok } => self
                .on_capture_buffer(index, width, height, stride, format_ok),
            Event::CaptureBufferDone { index } => self.on_buffer_done(index),
            Event::CaptureReady { index } => self.on_capture_ready(index),
            Event::CaptureFailed { index } => self.on_capture_failed(index),
            Event::SurfaceConfigure { index, serial } => self.on_configure(index, serial),
            Event::SurfaceClosed { index } => self.on_closed(index),
            Event::PreferredScale { index, scale } => self.on_scale(index, scale),
            Event::Keymap { format_ok } => self.on_keymap(format_ok),
            Event::Key { sym, pressed } => self.on_key(sym, pressed),
            Event::PointerButton { released } => self.on_pointer(released),
        }
    }

    /// Binds an advertised global: an output always, a capability only
    /// into an empty slot, a seat with its input devices.
    fn on_global(&mut self, name: u32, kind: GlobalKind) -> (acts: Vec<Action>)
        requires
            old(self).wf(),
        ensures
            final(self).wf(),
            final(self)@ == step_global(old(self)@, name, kind).0,
            acts@ == step_global(old(self)@, name, kind).1,
            final(self).options == old(self).options,
    {
        let mut acts: Vec<Action> = Vec::new();
        match kind {
            GlobalKind::Output => {
                let index = self.outputs.len();
                let rec = OutputRecord::new(name);
                proof {
                    lemma_count_push(self.outputs@, geometry_pred(), rec);
                    lemma_count_push(self.outputs@, frame_pred(), rec);
                    lemma_count_push(self.outputs@, presented_pred(), rec);
                    lemma_records_wf_push(self.outputs@, rec);
                    if self.phase is Registry || self.phase is AwaitGeometry {
                        lemma_all_pre_capture_push(self.outputs@, rec);
                    }
                    if self.phase is AwaitFrames {
                        lemma_all_pre_overlay_push(self.outputs@, rec);
                    }
                }
                self.outputs.push(rec);
                acts.push(Action::BindOutput { name, index });
                proof {
                    assert(acts@ =~= step_global(old(self)@, name, kind).1);
                }
            },
            GlobalKind::Capability(k) => {
                let slot_empty = match k {
                    CapKind::Compositor => self.caps.compositor.is_none(),
                    CapKind::Seat => self.caps.seat.is_none(),
                    CapKind::Shm => self.caps.shm.is_none(),
                    CapKind::FractionalScaleManager => self
                        .caps
                        .fractional_scale
                        .is_none(),
                    CapKind::Viewporter => self.caps.viewporter.is_none(),
                    CapKind::XdgOutputManager => self.caps.xdg_output.is_none(),
                    CapKind::ScreencopyManager => self.caps.screencopy.is_none(),
                    CapKind::LayerShell => self.caps.layer_shell.is_none(),
                };
                if slot_empty {
                    match k {
                        CapKind::Compositor => {
                            self.caps.compositor = Some(name);
                        },
                        CapKind::Seat => {
                            self.caps.seat = Some(name);
                        },
                        CapKind::Shm => {
                            self.caps.shm = Some(name);
                        },
                        CapKind::FractionalScaleManager => {
                            self.caps.fractional_scale = Some(name);
                        },
                        CapKind::Viewporter => {
                            self.caps.viewporter = Some(name);
                        },
                        CapKind::XdgOutputManager => {
                            self.caps.xdg_output = Some(name);
                        },
                        CapKind::ScreencopyManager => {
                            self.caps.screencopy = Some(name);
                        },
                        CapKind::LayerShell => {
                            self.caps.layer_shell = Some(name);
                        },
                    }
                    acts.push(Action::BindCapability { kind: k, name });
                    if matches!(k, CapKind::Seat) {
                        acts.push(Action::GetPointer);
                        acts.push(Action::GetKeyboard);
                    }
                }
                proof {
                    assert(acts@ =~= step_global(old(self)@, name, kind).1);
                }
            },
            GlobalKind::Other => {
                proof {
                    assert(acts@ =~= step_global(old(self)@, name, kind).1);
                }
            },
        }
        acts
    }

    /// Clears whichever capability slot holds the revoked identity.
    fn on_global_remove(&mut self, name: u32) -> (acts: Vec<Action>)
        requires
            old(self).wf(),
        ensures
            final(self).wf(),
            final(self)@ == step_global_remove(old(self)@, name).0,
            acts@ == step_global_remove(old(self)@, name).1,
            final(self).options == old(self).options,
    {
        if self.caps.compositor == Some(name) {
            self.caps.compositor = None;
        }
        if self.caps.seat == Some(name) {
            self.caps.seat = None;
        }
        if self.caps.shm == Some(name) {
            self.caps.shm = None;
        }
        if self.caps.fractional_scale == Some(name) {
            self.caps.fractional_scale = None;
        }
        if self.caps.viewporter == Some(name) {
            self.caps.viewporter = None;
        }
        if self.caps.xdg_output == Some(name) {
            self.caps.xdg_output = None;
        }
        if self.caps.screencopy == Some(name) {
            self.caps.screencopy = None;
        }
        if self.caps.layer_shell == Some(name) {
            self.caps.layer_shell = None;
        }
        let acts: Vec<Action> = Vec::new();
        proof {
            assert(acts@ =~= Seq::<Action>::empty());
        }
        acts
    }

    /// Records an output's physical mode.
    fn on_mode(&mut self, index: usize, width: u32, height: u32) -> (acts: Vec<Action>)
        requires
            old(self).wf(),
            width <= MAX_DIM,
            height <= MAX_DIM,
        ensures
            final(self).wf(),
            final(self)@ == step_mode(old(self)@, index, width, height).0,
            acts@ == step_mode(old(self)@, index, width, height).1,
            final(self).options == old(self).options,
    {
        if index < self.outputs.len() {
            let r = self.outputs[index];
            let r2 = OutputRecord { phys: Some(Dims { width, height }), ..r };
            proof {
                assert(self.outputs@[index as int].wf());
                lemma_state_update(self.outputs@, index as int, r2, self.phase);
            }
            self.outputs.set(index, r2);
        }
        let acts: Vec<Action> = Vec::new();
        proof {
            assert(acts@ =~= Seq::<Action>::empty());
        }
        acts
    }

    /// Records an output's transform; the first time round, issues the
    /// logical-geometry query and creates the presentation surface.
    fn on_transform(&mut self, index: usize, transform: Transform) -> (acts: Vec<
        Action,
    >)
        requires
            old(self).wf(),
        ensures
            final(self).wf(),
            final(self)@ == step_transform(old(self)@, index, transform).0,
            acts@ == step_transform(old(self)@, index, transform).1,
            final(self).options == old(self).options,
    {
        let mut acts: Vec<Action> = Vec::new();
        if index < self.outputs.len() {
            let r = self.outputs[index];
            let want_xdg = !r.xdg_requested && self.caps.xdg_output.is_some();
            let want_surface = !r.surface_created && self.caps.compositor.is_some();
            let r2 = OutputRecord {
                transform: Some(transform),
                xdg_requested: r.xdg_requested || want_xdg,
                surface_created: r.surface_created || want_surface,
                ..r
            };
            proof {
                assert(self.outputs@[index as int].wf());
                lemma_state_update(self.outputs@, index as int, r2, self.phase);
            }
            self.outputs.set(index, r2);
            if want_xdg {
                acts.push(Action::GetXdgOutput { index });
            }
            if want_surface {
                acts.push(Action::CreateSurface { index });
            }
        }
        proof {
            assert(acts@ =~= step_transform(old(self)@, index, transform).1);
        }
        acts
    }

    /// Records an output's logical geometry; the first response moves the
    /// geometry milestone.
    fn on_logical(&mut self, index: usize, width: u32, height: u32) -> (acts: Vec<Action>)
        requires
            old(self).wf(),
            width <= MAX_DIM,
            height <= MAX_DIM,
        ensures
            final(self).wf(),
            final(self)@ == step_logical(old(self)@, index, width, height).0,
            acts@ == step_logical(old(self)@, index, width, height).1,
            final(self).options == old(self).options,
    {
        if index < self.outputs.len() {
            let r = self.outputs[index];
            let r2 = OutputRecord { logical: Some(Dims { width, height }), ..r };
            proof {
                assert(self.outputs@[index as int].wf());
                lemma_state_update(self.outputs@, index as int, r2, self.phase);
                lemma_count_le_len(self.outputs@.update(index as int, r2), geometry_pred());
            }
            self.outputs.set(index, r2);
            if r.logical.is_none() {
                self.geometry_ready = self.geometry_ready + 1;
            }
        }
        let acts: Vec<Action> = Vec::new();
        proof {
            assert(acts@ =~= Seq::<Action>::empty());
        }
        acts
    }

    /// Carves a buffer matching the server-reported parameters, or fails
    /// the run on an unrecognized pixel format.
    fn on_capture_buffer(
        &mut self,
        index: usize,
        width: u32,
        height: u32,
        stride: u32,
        format_ok: bool,
    ) -> (acts: Vec<Action>)
        requires
            old(self).wf(),
        ensures
            final(self).wf(),
            final(self)@ == step_capture_buffer(old(self)@, index, width, height, stride,
                format_ok).0,
            acts@ == step_capture_buffer(old(self)@, index, width, height, stride, format_ok).1,
            final(self).options == old(self).options,
    {
        let mut acts: Vec<Action> = Vec::new();
        if index < self.outputs.len() {
            let r = self.outputs[index];
            if matches!(r.frame, FrameState::Requested) && r.pool_created {
                if format_ok {
                    let declared = buffer_size(stride, height);
                    let r2 = OutputRecord {
                        frame: FrameState::BufferCreated,
                        buffer_bytes: Some(declared),
                        ..r
                    };
                    proof {
                        assert(self.outputs@[index as int].wf());
                        lemma_state_update(self.outputs@, index as int, r2, self.phase);
                    }
                    self.outputs.set(index, r2);
                    acts.push(Action::CreateBuffer { index, width, height, stride });
                } else {
                    let r2 = OutputRecord { frame: FrameState::Failed, ..r };
                    proof {
                        assert(self.outputs@[index as int].wf());
                        lemma_state_update(self.outputs@, index as int, r2, self.phase);
                    }
                    self.outputs.set(index, r2);
                    self.exit = true;
                }
            }
        }
        proof {
            assert(acts@ =~= step_capture_buffer(old(self)@, index, width, height, stride,
                format_ok).1);
        }
        acts
    }

    /// Submits the copy once all buffer parameters are in.
    fn on_buffer_done(&mut self, index: usize) -> (acts: Vec<Action>)
        requires
            old(self).wf(),
        ensures
            final(self).wf(),
            final(self)@ == step_buffer_done(old(self)@, index).0,
            acts@ == step_buffer_done(old(self)@, index).1,
            final(self).options == old(self).options,
    {
        let mut acts: Vec<Action> = Vec::new();
        if index < self.outputs.len() {
            let r = self.outputs[index];
            if matches!(r.frame, FrameState::BufferCreated) {
                let r2 = OutputRecord { frame: FrameState::CopySubmitted, ..r };
                proof {
                    assert(self.outputs@[index as int].wf());
                    lemma_state_update(self.outputs@, index as int, r2, self.phase);
                }
                self.outputs.set(index, r2);
                acts.push(Action::CopyFrame { index });
            }
        }
        proof {
            assert(acts@ =~= step_buffer_done(old(self)@, index).1);
        }
        acts
    }

    /// Marks the frame ready; if the configure was already acknowledged,
    /// runs the deferred attach-and-commit now.
    fn on_capture_ready(&mut self, index: usize) -> (acts: Vec<Action>)
        requires
            old(self).wf(),
        ensures
            final(self).wf(),
            final(self)@ == step_capture_ready(old(self)@, index).0,
            acts@ == step_capture_ready(old(self)@, index).1,
            final(self).options == old(self).options,
    {
        let mut acts: Vec<Action> = Vec::new();
        if index < self.outputs.len() {
            let r = self.outputs[index];
            if matches!(r.frame, FrameState::CopySubmitted) {
                let mut present_now = false;
                let mut t = Transform::Normal;
                if r.configured && !r.presented {
                    match r.transform {
                        Some(tr) => {
                            present_now = true;
                            t = tr;
                        },
                        None => {},
                    }
                }
                if present_now {
                    let r2 = OutputRecord { frame: FrameState::Ready, presented: true, ..r };
                    proof {
                        assert(self.outputs@[index as int].wf());
                        lemma_state_update(self.outputs@, index as int, r2, self.phase);
                        lemma_count_le_len(self.outputs@.update(index as int, r2), frame_pred());
                        lemma_count_le_len(self.outputs@.update(index as int, r2),
                            presented_pred());
                    }
                    self.outputs.set(index, r2);
                    self.frames_ready = self.frames_ready + 1;
                    self.surfaces_configured = self.surfaces_configured + 1;
                    acts.push(Action::CommitSurface { index });
                    acts.push(Action::AttachBuffer { index });
                    acts.push(Action::SetBufferScale { index, scale: 1 });
                    acts.push(Action::SetBufferTransform { index, transform: t });
                    acts.push(Action::CommitSurface { index });
                } else {
                    let r2 = OutputRecord { frame: FrameState::Ready, ..r };
                    proof {
                        assert(self.outputs@[index as int].wf());
                        lemma_state_update(self.outputs@, index as int, r2, self.phase);
                        lemma_count_le_len(self.outputs@.update(index as int, r2), frame_pred());
                    }
                    self.outputs.set(index, r2);
                    self.frames_ready = self.frames_ready + 1;
                }
            }
        }
        proof {
            assert(acts@ =~= step_capture_ready(old(self)@, index).1);
        }
        acts
    }

    /// A capture failure aborts the whole run.
    fn on_capture_failed(&mut self, index: usize) -> (acts: Vec<Action>)
        requires
            old(self).wf(),
        ensures
            final(self).wf(),
            final(self)@ == step_capture_failed(old(self)@, index).0,
            acts@ == step_capture_failed(old(self)@, index).1,
            final(self).options == old(self).options,
    {
        if index < self.outputs.len() {
            let r = self.outputs[index];
            if matches!(
                r.frame,
                FrameState::Requested | FrameState::BufferCreated | FrameState::CopySubmitted
            ) {
                let r2 = OutputRecord { frame: FrameState::Failed, ..r };
                proof {
                    assert(self.outputs@[index as int].wf());
                    lemma_state_update(self.outputs@, index as int, r2, self.phase);
                }
                self.outputs.set(index, r2);
            }
        }
        self.exit = true;
        let acts: Vec<Action> = Vec::new();
        proof {
            assert(acts@ =~= Seq::<Action>::empty());
        }
        acts
    }

    /// Acknowledges the first configure of an overlay surface and, with
    /// the frame already captured, presents the buffer; duplicates are
    /// ignored without a second acknowledgement.
    fn on_configure(&mut self, index: usize, serial: u32) -> (acts: Vec<Action>)
        requires
            old(self).wf(),
        ensures
            final(self).wf(),
            final(self)@ == step_configure(old(self)@, index, serial).0,
            acts@ == step_configure(old(self)@, index, serial).1,
            final(self).options == old(self).options,
    {
        let mut acts: Vec<Action> = Vec::new();
        if index < self.outputs.len() {
            let r = self.outputs[index];
            if r.layer_created && !r.configured {
                let mut present_now = false;
                let mut t = Transform::Normal;
                if matches!(r.frame, FrameState::Ready) && !r.presented {
                    match r.transform {
                        Some(tr) => {
                            present_now = true;
                            t = tr;
                        },
                        None => {},
                    }
                }
                if present_now {
                    let r2 = OutputRecord { configured: true, presented: true, ..r };
                    proof {
                        assert(self.outputs@[index as int].wf());
                        lemma_state_update(self.outputs@, index as int, r2, self.phase);
                        lemma_count_le_len(self.outputs@.update(index as int, r2),
                            presented_pred());
                    }
                    self.outputs.set(index, r2);
                    self.surfaces_configured = self.surfaces_configured + 1;
                    acts.push(Action::AckConfigure { index, serial });
                    acts.push(Action::CommitSurface { index });
                    acts.push(Action::AttachBuffer { index });
                    acts.push(Action::SetBufferScale { index, scale: 1 });
                    acts.push(Action::SetBufferTransform { index, transform: t });
                    acts.push(Action::CommitSurface { index });
                } else {
                    let r2 = OutputRecord { configured: true, ..r };
                    proof {
                        assert(self.outputs@[index as int].wf());
                        lemma_state_update(self.outputs@, index as int, r2, self.phase);
                    }
                    self.outputs.set(index, r2);
                    acts.push(Action::AckConfigure { index, serial });
                }
            }
        }
        proof {
            assert(acts@ =~= step_configure(old(self)@, index, serial).1);
        }
        acts
    }

    /// Destroys an overlay surface the server closed.
    fn on_closed(&mut self, index: usize) -> (acts: Vec<Action>)
        requires
            old(self).wf(),
        ensures
            final(self).wf(),
            final(self)@ == step_closed(old(self)@, index).0,
            acts@ == step_closed(old(self)@, index).1,
            final(self).options == old(self).options,
    {
        let mut acts: Vec<Action> = Vec::new();
        if index < self.outputs.len() {
            let r = self.outputs[index];
            if r.layer_created && !r.layer_closed {
                let r2 = OutputRecord { layer_closed: true, ..r };
                proof {
                    assert(self.outputs@[index as int].wf());
                    lemma_state_update(self.outputs@, index as int, r2, self.phase);
                }
                self.outputs.set(index, r2);
                acts.push(Action::DestroyLayerSurface { index });
            }
        }
        proof {
            assert(acts@ =~= step_closed(old(self)@, index).1);
        }
        acts
    }

    /// Ignores an unchanged preferred scale; a new value resizes the
    /// overlay, remaps the viewport, commits, and is recorded.
    fn on_scale(&mut self, index: usize, scale: u32) -> (acts: Vec<Action>)
        requires
            old(self).wf(),
        ensures
            final(self).wf(),
            final(self)@ == step_scale(old(self)@, index, scale).0,
            acts@ == step_scale(old(self)@, index, scale).1,
            final(self).options == old(self).options,
    {
        let mut acts: Vec<Action> = Vec::new();
        if index < self.outputs.len() {
            let r = self.outputs[index];
            if r.scale != Some(scale) {
                match r.logical {
                    Some(d) => {
                        if r.surface_created && r.layer_created && r.viewport_created {
                            let r2 = OutputRecord { scale: Some(scale), ..r };
                            proof {
                                assert(self.outputs@[index as int].wf());
                                lemma_state_update(self.outputs@, index as int, r2, self.phase);
                            }
                            self.outputs.set(index, r2);
                            acts.push(Action::SetViewport {
                                index,
                                width: d.width,
                                height: d.height,
                            });
                            acts.push(Action::SetLayerSize {
                                index,
                                width: d.width,
                                height: d.height,
                            });
                            acts.push(Action::CommitSurface { index });
                        }
                    },
                    None => {},
                }
            }
        }
        proof {
            assert(acts@ =~= step_scale(old(self)@, index, scale).1);
        }
        acts
    }

    /// Compiles a keymap in the supported format; drops the rest.
    fn on_keymap(&mut self, format_ok: bool) -> (acts: Vec<Action>)
        requires
            old(self).wf(),
        ensures
            final(self).wf(),
            final(self)@ == step_keymap(old(self)@, format_ok).0,
            acts@ == step_keymap(old(self)@, format_ok).1,
            final(self).options == old(self).options,
    {
        let mut acts: Vec<Action> = Vec::new();
        if format_ok {
            acts.push(Action::CompileKeymap);
        }
        proof {
            assert(acts@ =~= step_keymap(old(self)@, format_ok).1);
        }
        acts
    }

    /// An Escape press is the keyboard exit trigger.
    fn on_key(&mut self, sym: Option<u32>, pressed: bool) -> (acts: Vec<Action>)
        requires
            old(self).wf(),
        ensures
            final(self).wf(),
            final(self)@ == step_key(old(self)@, sym, pressed).0,
            acts@ == step_key(old(self)@, sym, pressed).1,
            final(self).options == old(self).options,
    {
        if pressed && sym == Some(KEYSYM_ESCAPE) {
            self.exit = true;
        }
        let acts: Vec<Action> = Vec::new();
        proof {
            assert(acts@ =~= Seq::<Action>::empty());
        }
        acts
    }

    /// Any pointer-button release is the pointer exit trigger.
    fn on_pointer(&mut self, released: bool) -> (acts: Vec<Action>)
        requires
            old(self).wf(),
        ensures
            final(self).wf(),
            final(self)@ == step_pointer(old(self)@, released).0,
            acts@ == step_pointer(old(self)@, released).1,
            final(self).options == old(self).options,
    {
        if released {
            self.exit = true;
        }
        let acts: Vec<Action> = Vec::new();
        proof {
            assert(acts@ =~= Seq::<Action>::empty());
        }
        acts
    }
}

/// The exact byte size a capture buffer with the server-reported
/// `stride` and `height` declares.
pub fn buffer_size(stride: u32, height: u32) -> (r: u64)
    ensures
        r == buffer_bytes(stride, height),
{
    proof {
        assert((stride as int) * (height as int) <= 0xffff_ffff * 0xffff_ffff)
            by (nonlinear_arith)
            requires
                stride as int <= 0xffff_ffff,
                height as int <= 0xffff_ffff,
        ;
    }
    (stride as u64) * (height as u64)
}

} // verus!
