//! The mathematical model of the client: an abstract state, a counting
//! scheme for the readiness milestones, and the transition function that
//! says, for every event, the successor state and the requests issued.

use vstd::prelude::*;
use crate::types::{CapKind, CapSlots, Dims, FrameState, OutputRecord, Phase, Transform};
use crate::event::{Action, Event, GlobalKind, KEYSYM_ESCAPE};

verus! {

/// The abstract state the contracts speak of.
pub struct StateModel {
    /// Bound capability identities.
    pub caps: CapSlots,
    /// One record per discovered output, in discovery order.
    pub outputs: Seq<OutputRecord>,
    /// The output total fixed when the session began.
    pub output_count: usize,
    /// Where the orchestrator stands.
    pub phase: Phase,
    /// The process-wide exit flag.
    pub exit: bool,
}

impl StateModel {
    /// The state a run starts from.
    pub open spec fn init() -> StateModel {
        StateModel {
            caps: CapSlots::init(),
            outputs: Seq::empty(),
            output_count: 0,
            phase: Phase::Registry,
            exit: false,
        }
    }

    /// Every output record keeps its structural facts.
    pub open spec fn inv(self) -> bool {
        records_wf(self.outputs)
    }
}

/// Every record of `s` keeps its structural facts.
pub open spec fn records_wf(s: Seq<OutputRecord>) -> bool {
    forall|i: int| 0 <= i < s.len() ==> (#[trigger] s[i]).wf()
}

pub proof fn lemma_records_wf_update(s: Seq<OutputRecord>, i: int, x: OutputRecord)
    requires
        records_wf(s),
        0 <= i < s.len(),
        x.wf(),
    ensures
        records_wf(s.update(i, x)),
{
    assert forall|j: int| 0 <= j < s.update(i, x).len() implies (#[trigger] s.update(i, x)[j]).wf()
    by {
        if j != i {
            assert(s.update(i, x)[j] == s[j]);
        }
    }
}

pub proof fn lemma_records_wf_push(s: Seq<OutputRecord>, x: OutputRecord)
    requires
        records_wf(s),
        x.wf(),
    ensures
        records_wf(s.push(x)),
{
    assert forall|j: int| 0 <= j < s.push(x).len() implies (#[trigger] s.push(x)[j]).wf() by {
        if j != s.len() {
            assert(s.push(x)[j] == s[j]);
        }
    }
}

/// What holds of every record while no capture has been planned: the
/// capture pipeline and the overlay have not touched it.
pub open spec fn pre_capture(o: OutputRecord) -> bool {
    &&& o.frame is Idle
    &&& !o.pool_created
    &&& o.buffer_bytes is None
    &&& pre_overlay(o)
}

/// What holds of every record while no overlay has been planned.
pub open spec fn pre_overlay(o: OutputRecord) -> bool {
    &&& !o.layer_created
    &&& !o.viewport_created
    &&& !o.configured
    &&& !o.presented
}

/// Every record of `s` is untouched by the capture pipeline.
pub open spec fn all_pre_capture(s: Seq<OutputRecord>) -> bool {
    forall|i: int| 0 <= i < s.len() ==> pre_capture(#[trigger] s[i])
}

/// Every record of `s` is untouched by the overlay controller.
pub open spec fn all_pre_overlay(s: Seq<OutputRecord>) -> bool {
    forall|i: int| 0 <= i < s.len() ==> pre_overlay(#[trigger] s[i])
}

pub proof fn lemma_all_pre_capture_update(s: Seq<OutputRecord>, i: int, x: OutputRecord)
    requires
        all_pre_capture(s),
        0 <= i < s.len(),
        pre_capture(x),
    ensures
        all_pre_capture(s.update(i, x)),
{
    assert forall|j: int| 0 <= j < s.update(i, x).len() implies pre_capture(
        #[trigger] s.update(i, x)[j],
    ) by {
        if j != i {
            assert(s.update(i, x)[j] == s[j]);
        }
    }
}

pub proof fn lemma_all_pre_overlay_update(s: Seq<OutputRecord>, i: int, x: OutputRecord)
    requires
        all_pre_overlay(s),
        0 <= i < s.len(),
        pre_overlay(x),
    ensures
        all_pre_overlay(s.update(i, x)),
{
    assert forall|j: int| 0 <= j < s.update(i, x).len() implies pre_overlay(
        #[trigger] s.update(i, x)[j],
    ) by {
        if j != i {
            assert(s.update(i, x)[j] == s[j]);
        }
    }
}

pub proof fn lemma_all_pre_capture_push(s: Seq<OutputRecord>, x: OutputRecord)
    requires
        all_pre_capture(s),
        pre_capture(x),
    ensures
        all_pre_capture(s.push(x)),
{
    assert forall|j: int| 0 <= j < s.push(x).len() implies pre_capture(#[trigger] s.push(x)[j]) by {
        if j != s.len() {
            assert(s.push(x)[j] == s[j]);
        }
    }
}

pub proof fn lemma_all_pre_overlay_push(s: Seq<OutputRecord>, x: OutputRecord)
    requires
        all_pre_overlay(s),
        pre_overlay(x),
    ensures
        all_pre_overlay(s.push(x)),
{
    assert forall|j: int| 0 <= j < s.push(x).len() implies pre_overlay(#[trigger] s.push(x)[j]) by {
        if j != s.len() {
            assert(s.push(x)[j] == s[j]);
        }
    }
}

/// How many records of `s` satisfy `p`.
pub open spec fn count_matching(s: Seq<OutputRecord>, p: spec_fn(OutputRecord) -> bool) -> nat
    decreases s.len(),
{
    if s.len() == 0 {
        0
    } else {
        count_matching(s.drop_last(), p) + if p(s.last()) {
            1nat
        } else {
            0nat
        }
    }
}

/// The predicate behind the geometry-ready milestone.
pub open spec fn geometry_pred() -> spec_fn(OutputRecord) -> bool {
    |o: OutputRecord| o.geometry_known()
}

/// The predicate behind the frame-ready milestone.
pub open spec fn frame_pred() -> spec_fn(OutputRecord) -> bool {
    |o: OutputRecord| o.frame_ready()
}

/// The predicate behind the surface-configured milestone.
pub open spec fn presented_pred() -> spec_fn(OutputRecord) -> bool {
    |o: OutputRecord| o.presented
}

/// Outputs whose logical geometry is known.
pub open spec fn count_geometry_ready(s: Seq<OutputRecord>) -> nat {
    count_matching(s, geometry_pred())
}

/// Outputs whose captured frame is complete.
pub open spec fn count_frames_ready(s: Seq<OutputRecord>) -> nat {
    count_matching(s, frame_pred())
}

/// Outputs whose overlay surface carries its buffer.
pub open spec fn count_presented(s: Seq<OutputRecord>) -> nat {
    count_matching(s, presented_pred())
}

pub proof fn lemma_count_le_len(s: Seq<OutputRecord>, p: spec_fn(OutputRecord) -> bool)
    ensures
        count_matching(s, p) <= s.len(),
    decreases s.len(),
{
    if s.len() > 0 {
        lemma_count_le_len(s.drop_last(), p);
    }
}

pub proof fn lemma_count_push(s: Seq<OutputRecord>, p: spec_fn(OutputRecord) -> bool, x: OutputRecord)
    ensures
        count_matching(s.push(x), p) == count_matching(s, p) + if p(x) {
            1nat
        } else {
            0nat
        },
{
    assert(s.push(x).drop_last() =~= s);
    assert(s.push(x).last() == x);
}

pub proof fn lemma_count_update(
    s: Seq<OutputRecord>,
    p: spec_fn(OutputRecord) -> bool,
    i: int,
    x: OutputRecord,
)
    requires
        0 <= i < s.len(),
    ensures
        count_matching(s.update(i, x), p) + (if p(s[i]) {
            1nat
        } else {
            0nat
        }) == count_matching(s, p) + if p(x) {
            1nat
        } else {
            0nat
        },
    decreases s.len(),
{
    let t = s.update(i, x);
    if i == s.len() - 1 {
        assert(t.drop_last() =~= s.drop_last());
        assert(t.last() == x);
    } else {
        assert(t.drop_last() =~= s.drop_last().update(i, x));
        assert(t.last() == s.last());
        lemma_count_update(s.drop_last(), p, i, x);
    }
}

/// Everything an event handler must re-establish after replacing record
/// `i` with `x`: how each readiness count moves, and that the record and
/// phase invariants still hold.
pub proof fn lemma_state_update(s: Seq<OutputRecord>, i: int, x: OutputRecord, phase: Phase)
    requires
        0 <= i < s.len(),
        records_wf(s),
        (phase is Registry || phase is AwaitGeometry) ==> all_pre_capture(s),
        phase is AwaitFrames ==> all_pre_overlay(s),
        x.wf(),
        (phase is Registry || phase is AwaitGeometry) ==> pre_capture(x),
        phase is AwaitFrames ==> pre_overlay(x),
    ensures
        count_geometry_ready(s.update(i, x)) + (if s[i].geometry_known() {
            1nat
        } else {
            0nat
        }) == count_geometry_ready(s) + if x.geometry_known() {
            1nat
        } else {
            0nat
        },
        count_frames_ready(s.update(i, x)) + (if s[i].frame_ready() {
            1nat
        } else {
            0nat
        }) == count_frames_ready(s) + if x.frame_ready() {
            1nat
        } else {
            0nat
        },
        count_presented(s.update(i, x)) + (if s[i].presented {
            1nat
        } else {
            0nat
        }) == count_presented(s) + if x.presented {
            1nat
        } else {
            0nat
        },
        records_wf(s.update(i, x)),
        (phase is Registry || phase is AwaitGeometry) ==> all_pre_capture(s.update(i, x)),
        phase is AwaitFrames ==> all_pre_overlay(s.update(i, x)),
{
    lemma_count_update(s, geometry_pred(), i, x);
    lemma_count_update(s, frame_pred(), i, x);
    lemma_count_update(s, presented_pred(), i, x);
    lemma_records_wf_update(s, i, x);
    if phase is Registry || phase is AwaitGeometry {
        lemma_all_pre_capture_update(s, i, x);
    }
    if phase is AwaitFrames {
        lemma_all_pre_overlay_update(s, i, x);
    }
}

/// Byte size of the backing pool for an output of physical size `d`:
/// one 32-bit pixel per sample.
pub open spec fn pool_bytes(d: Dims) -> int {
    d.width * d.height * 4
}

/// Declared byte size of a capture buffer with the server-reported
/// `stride` and `height`.
pub open spec fn buffer_bytes(stride: u32, height: u32) -> int {
    stride * height
}

/// The commit sequence that presents output `index`: an empty commit
/// first, then the buffer with its scale and transform, then the
/// buffer-carrying commit.
pub open spec fn attach_actions(index: usize, t: Transform) -> Seq<Action> {
    seq![
        Action::CommitSurface { index },
        Action::AttachBuffer { index },
        Action::SetBufferScale { index, scale: 1 },
        Action::SetBufferTransform { index, transform: t },
        Action::CommitSurface { index },
    ]
}

/// `slot` cleared if it holds the revoked identity `name`.
pub open spec fn cleared(slot: Option<u32>, name: u32) -> Option<u32> {
    if slot == Some(name) {
        None
    } else {
        slot
    }
}

/// Transition for an advertised global.
pub open spec fn step_global(m: StateModel, name: u32, kind: GlobalKind) -> (StateModel, Seq<
    Action,
>) {
    match kind {
        GlobalKind::Output => {
            let index = m.outputs.len() as usize;
            (
                StateModel { outputs: m.outputs.push(OutputRecord::init(name)), ..m },
                seq![Action::BindOutput { name, index }],
            )
        },
        GlobalKind::Capability(k) => {
            if m.caps.slot(k) is None {
                let m2 = StateModel { caps: m.caps.with_slot(k, Some(name)), ..m };
                if k is Seat {
                    (
                        m2,
                        seq![
                            Action::BindCapability { kind: k, name },
                            Action::GetPointer,
                            Action::GetKeyboard,
                        ],
                    )
                } else {
                    (m2, seq![Action::BindCapability { kind: k, name }])
                }
            } else {
                (m, Seq::empty())
            }
        },
        GlobalKind::Other => (m, Seq::empty()),
    }
}

/// Transition for a revoked global: clear whichever slot holds it.
pub open spec fn step_global_remove(m: StateModel, name: u32) -> (StateModel, Seq<Action>) {
    let c = m.caps;
    (
        StateModel {
            caps: CapSlots {
                compositor: cleared(c.compositor, name),
                seat: cleared(c.seat, name),
                shm: cleared(c.shm, name),
                fractional_scale: cleared(c.fractional_scale, name),
                viewporter: cleared(c.viewporter, name),
                xdg_output: cleared(c.xdg_output, name),
                screencopy: cleared(c.screencopy, name),
                layer_shell: cleared(c.layer_shell, name),
            },
            ..m
        },
        Seq::empty(),
    )
}

/// Transition for an output's physical mode: record it.
pub open spec fn step_mode(m: StateModel, index: usize, width: u32, height: u32) -> (StateModel, Seq<
    Action,
>) {
    if index < m.outputs.len() {
        let r = m.outputs[index as int];
        let r2 = OutputRecord { phys: Some(Dims { width, height }), ..r };
        (StateModel { outputs: m.outputs.update(index as int, r2), ..m }, Seq::empty())
    } else {
        (m, Seq::empty())
    }
}

/// Transition for an output's transform: record it, and the first time
/// round issue the logical-geometry query and create the presentation
/// surface, each provided its capability is bound.
pub open spec fn step_transform(m: StateModel, index: usize, transform: Transform) -> (StateModel, Seq<
    Action,
>) {
    if index < m.outputs.len() {
        let r = m.outputs[index as int];
        let want_xdg = !r.xdg_requested && m.caps.xdg_output is Some;
        let want_surface = !r.surface_created && m.caps.compositor is Some;
        let r2 = OutputRecord {
            transform: Some(transform),
            xdg_requested: r.xdg_requested || want_xdg,
            surface_created: r.surface_created || want_surface,
            ..r
        };
        let acts = (if want_xdg {
            seq![Action::GetXdgOutput { index }]
        } else {
            Seq::empty()
        }) + if want_surface {
            seq![Action::CreateSurface { index }]
        } else {
            Seq::empty()
        };
        (StateModel { outputs: m.outputs.update(index as int, r2), ..m }, acts)
    } else {
        (m, Seq::empty())
    }
}

/// Transition for a logical-geometry response: record it.  Only the
/// first response for an output moves the geometry milestone.
pub open spec fn step_logical(m: StateModel, index: usize, width: u32, height: u32) -> (StateModel, Seq<
    Action,
>) {
    if index < m.outputs.len() {
        let r = m.outputs[index as int];
        let r2 = OutputRecord { logical: Some(Dims { width, height }), ..r };
        (StateModel { outputs: m.outputs.update(index as int, r2), ..m }, Seq::empty())
    } else {
        (m, Seq::empty())
    }
}

/// Transition for a capture job's buffer parameters: carve a matching
/// buffer, or fail the run on an unrecognized format.
pub open spec fn step_capture_buffer(
    m: StateModel,
    index: usize,
    width: u32,
    height: u32,
    stride: u32,
    format_ok: bool,
) -> (StateModel, Seq<Action>) {
    if index < m.outputs.len() && m.outputs[index as int].frame is Requested && m.outputs[
        index as int
    ].pool_created {
        let r = m.outputs[index as int];
        if format_ok {
            let r2 = OutputRecord {
                frame: FrameState::BufferCreated,
                buffer_bytes: Some(buffer_bytes(stride, height) as u64),
                ..r
            };
            (
                StateModel { outputs: m.outputs.update(index as int, r2), ..m },
                seq![Action::CreateBuffer { index, width, height, stride }],
            )
        } else {
            let r2 = OutputRecord { frame: FrameState::Failed, ..r };
            (
                StateModel { outputs: m.outputs.update(index as int, r2), exit: true, ..m },
                Seq::empty(),
            )
        }
    } else {
        (m, Seq::empty())
    }
}

/// Transition for "all buffer parameters sent": submit the copy.
pub open spec fn step_buffer_done(m: StateModel, index: usize) -> (StateModel, Seq<Action>) {
    if index < m.outputs.len() && m.outputs[index as int].frame is BufferCreated {
        let r = m.outputs[index as int];
        let r2 = OutputRecord { frame: FrameState::CopySubmitted, ..r };
        (
            StateModel { outputs: m.outputs.update(index as int, r2), ..m },
            seq![Action::CopyFrame { index }],
        )
    } else {
        (m, Seq::empty())
    }
}

/// Transition for a completed copy: the frame is ready, and if the
/// surface's configure was already acknowledged the deferred
/// attach-and-commit runs now.
pub open spec fn step_capture_ready(m: StateModel, index: usize) -> (StateModel, Seq<Action>) {
    if index < m.outputs.len() && m.outputs[index as int].frame is CopySubmitted {
        let r = m.outputs[index as int];
        if r.configured && !r.presented && r.transform is Some {
            let r2 = OutputRecord { frame: FrameState::Ready, presented: true, ..r };
            (
                StateModel { outputs: m.outputs.update(index as int, r2), ..m },
                attach_actions(index, r.transform->0),
            )
        } else {
            let r2 = OutputRecord { frame: FrameState::Ready, ..r };
            (StateModel { outputs: m.outputs.update(index as int, r2), ..m }, Seq::empty())
        }
    } else {
        (m, Seq::empty())
    }
}

/// Whether a capture is in flight for the record: requested but neither
/// complete nor failed.
pub open spec fn capture_in_flight(o: OutputRecord) -> bool {
    o.frame is Requested || o.frame is BufferCreated || o.frame is CopySubmitted
}

/// Transition for a failed capture: one failure aborts the whole run; the
/// record is marked only while its capture was actually in flight.
pub open spec fn step_capture_failed(m: StateModel, index: usize) -> (StateModel, Seq<Action>) {
    if index < m.outputs.len() && capture_in_flight(m.outputs[index as int]) {
        let r = m.outputs[index as int];
        let r2 = OutputRecord { frame: FrameState::Failed, ..r };
        (StateModel { outputs: m.outputs.update(index as int, r2), exit: true, ..m }, Seq::empty())
    } else {
        (StateModel { exit: true, ..m }, Seq::empty())
    }
}

/// Transition for an overlay configure: the first one is acknowledged
/// and, with the frame already captured, presents the buffer; later
/// configures for the same surface are ignored.
pub open spec fn step_configure(m: StateModel, index: usize, serial: u32) -> (StateModel, Seq<
    Action,
>) {
    if index < m.outputs.len() && m.outputs[index as int].layer_created {
        let r = m.outputs[index as int];
        if r.configured {
            (m, Seq::empty())
        } else {
            if r.frame is Ready && !r.presented && r.transform is Some {
                let r2 = OutputRecord { configured: true, presented: true, ..r };
                (
                    StateModel { outputs: m.outputs.update(index as int, r2), ..m },
                    seq![Action::AckConfigure { index, serial }] + attach_actions(
                        index,
                        r.transform->0,
                    ),
                )
            } else {
                let r2 = OutputRecord { configured: true, ..r };
                (
                    StateModel { outputs: m.outputs.update(index as int, r2), ..m },
                    seq![Action::AckConfigure { index, serial }],
                )
            }
        }
    } else {
        (m, Seq::empty())
    }
}

/// Transition for a closed overlay surface: destroy it.
pub open spec fn step_closed(m: StateModel, index: usize) -> (StateModel, Seq<Action>) {
    if index < m.outputs.len() && m.outputs[index as int].layer_created && !m.outputs[
        index as int
    ].layer_closed {
        let r = m.outputs[index as int];
        let r2 = OutputRecord { layer_closed: true, ..r };
        (
            StateModel { outputs: m.outputs.update(index as int, r2), ..m },
            seq![Action::DestroyLayerSurface { index }],
        )
    } else {
        (m, Seq::empty())
    }
}

/// Transition for a preferred-scale notification: an unchanged value is
/// ignored; a new one resizes the overlay to the logical extent, maps the
/// viewport one-to-one, commits, and is recorded.
pub open spec fn step_scale(m: StateModel, index: usize, scale: u32) -> (StateModel, Seq<Action>) {
    if index < m.outputs.len() {
        let r = m.outputs[index as int];
        if r.scale == Some(scale) {
            (m, Seq::empty())
        } else {
            match r.logical {
                Some(d) => {
                    if r.surface_created && r.layer_created && r.viewport_created {
                        let r2 = OutputRecord { scale: Some(scale), ..r };
                        (
                            StateModel { outputs: m.outputs.update(index as int, r2), ..m },
                            seq![
                                Action::SetViewport { index, width: d.width, height: d.height },
                                Action::SetLayerSize { index, width: d.width, height: d.height },
                                Action::CommitSurface { index },
                            ],
                        )
                    } else {
                        (m, Seq::empty())
                    }
                },
                None => (m, Seq::empty()),
            }
        }
    } else {
        (m, Seq::empty())
    }
}

/// Transition for a delivered keymap: compile it if the format is
/// supported, else drop it.
pub open spec fn step_keymap(m: StateModel, format_ok: bool) -> (StateModel, Seq<Action>) {
    if format_ok {
        (m, seq![Action::CompileKeymap])
    } else {
        (m, Seq::empty())
    }
}

/// Transition for a key event: an Escape press sets the exit flag;
/// anything else, and any release, is ignored.
pub open spec fn step_key(m: StateModel, sym: Option<u32>, pressed: bool) -> (StateModel, Seq<
    Action,
>) {
    if pressed && sym == Some(KEYSYM_ESCAPE) {
        (StateModel { exit: true, ..m }, Seq::empty())
    } else {
        (m, Seq::empty())
    }
}

/// Transition for a pointer button: any release sets the exit flag;
/// presses are ignored.
pub open spec fn step_pointer(m: StateModel, released: bool) -> (StateModel, Seq<Action>) {
    if released {
        (StateModel { exit: true, ..m }, Seq::empty())
    } else {
        (m, Seq::empty())
    }
}

/// The transition function: the successor state and the issued requests
/// for one event.
pub open spec fn step(m: StateModel, e: Event) -> (StateModel, Seq<Action>) {
    match e {
        Event::Global { name, kind } => step_global(m, name, kind),
        Event::GlobalRemove { name } => step_global_remove(m, name),
        Event::OutputMode { index, width, height } => step_mode(m, index, width, height),
        Event::OutputTransform { index, transform } => step_transform(m, index, transform),
        Event::LogicalSize { index, width, height } => step_logical(m, index, width, height),
        Event::CaptureBuffer { index, width, height, stride, format_ok } => step_capture_buffer(
            m,
            index,
            width,
            height,
            stride,
            format_ok,
        ),
        Event::CaptureBufferDone { index } => step_buffer_done(m, index),
        Event::CaptureReady { index } => step_capture_ready(m, index),
        Event::CaptureFailed { index } => step_capture_failed(m, index),
        Event::SurfaceConfigure { index, serial } => step_configure(m, index, serial),
        Event::SurfaceClosed { index } => step_closed(m, index),
        Event::PreferredScale { index, scale } => step_scale(m, index, scale),
        Event::Keymap { format_ok } => step_keymap(m, format_ok),
        Event::Key { sym, pressed } => step_key(m, sym, pressed),
        Event::PointerButton { released } => step_pointer(m, released),
    }
}

} // verus!
