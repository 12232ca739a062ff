//! What the library states of itself, proved over the model's transition
//! function: readiness monotonicity, commit ordering, idempotent scale
//! handling, and the exit triggers.

use vstd::prelude::*;
use crate::types::{OutputRecord, Transform};
use crate::event::{Action, Event, GlobalKind, KEYSYM_ESCAPE};
use crate::model::{
    capture_in_flight, count_frames_ready, count_geometry_ready, count_presented,
    frame_pred, geometry_pred, lemma_count_le_len, lemma_count_push, lemma_count_update,
    presented_pred, step, step_buffer_done, step_capture_buffer, step_capture_failed,
    step_capture_ready, step_closed, step_configure, step_global, step_logical, step_mode,
    step_scale, step_transform, StateModel,
};

verus! {

/// Whether `a` is an acknowledgement for surface `i`.
pub open spec fn is_ack_for(a: Action, i: usize) -> bool {
    a matches Action::AckConfigure { index, .. } && index == i
}

/// Whether `a` is a buffer attach for surface `i`.
pub open spec fn is_attach_for(a: Action, i: usize) -> bool {
    a matches Action::AttachBuffer { index } && index == i
}

/// The state after a whole sequence of events is dispatched.
pub open spec fn run(m: StateModel, es: Seq<Event>) -> StateModel
    decreases es.len(),
{
    if es.len() == 0 {
        m
    } else {
        run(step(m, es[0]).0, es.subrange(1, es.len() as int))
    }
}

proof fn lemma_mono_at(s: Seq<OutputRecord>, i: int, x: OutputRecord)
    requires
        0 <= i < s.len(),
        s[i].geometry_known() ==> x.geometry_known(),
        s[i].frame_ready() ==> x.frame_ready(),
        s[i].presented ==> x.presented,
    ensures
        count_geometry_ready(s.update(i, x)) >= count_geometry_ready(s),
        count_frames_ready(s.update(i, x)) >= count_frames_ready(s),
        count_presented(s.update(i, x)) >= count_presented(s),
{
    lemma_count_update(s, geometry_pred(), i, x);
    lemma_count_update(s, frame_pred(), i, x);
    lemma_count_update(s, presented_pred(), i, x);
}

/// The three readiness counts do not decrease from `s1` to `s2`, and the
/// inventory does not shrink.
pub open spec fn mono3(s1: Seq<OutputRecord>, s2: Seq<OutputRecord>) -> bool {
    &&& s1.len() <= s2.len()
    &&& count_geometry_ready(s1) <= count_geometry_ready(s2)
    &&& count_frames_ready(s1) <= count_frames_ready(s2)
    &&& count_presented(s1) <= count_presented(s2)
}

proof fn lemma_mono_step_global(m: StateModel, name: u32, kind: GlobalKind)
    ensures
        mono3(m.outputs, step_global(m, name, kind).0.outputs),
{
    if kind is Output {
        let rec = OutputRecord::init(name);
        lemma_count_push(m.outputs, geometry_pred(), rec);
        lemma_count_push(m.outputs, frame_pred(), rec);
        lemma_count_push(m.outputs, presented_pred(), rec);
    }
}

proof fn lemma_mono_step_mode(m: StateModel, index: usize, width: u32, height: u32)
    ensures
        mono3(m.outputs, step_mode(m, index, width, height).0.outputs),
{
    let o2 = step_mode(m, index, width, height).0.outputs;
    if index < m.outputs.len() {
        lemma_mono_at(m.outputs, index as int, o2[index as int]);
    }
}

proof fn lemma_mono_step_transform(m: StateModel, index: usize, transform: Transform)
    ensures
        mono3(m.outputs, step_transform(m, index, transform).0.outputs),
{
    let o2 = step_transform(m, index, transform).0.outputs;
    if index < m.outputs.len() {
        lemma_mono_at(m.outputs, index as int, o2[index as int]);
    }
}

proof fn lemma_mono_step_logical(m: StateModel, index: usize, width: u32, height: u32)
    ensures
        mono3(m.outputs, step_logical(m, index, width, height).0.outputs),
{
    let o2 = step_logical(m, index, width, height).0.outputs;
    if index < m.outputs.len() {
        lemma_mono_at(m.outputs, index as int, o2[index as int]);
    }
}

proof fn lemma_mono_step_capture_buffer(
    m: StateModel,
    index: usize,
    width: u32,
    height: u32,
    stride: u32,
    format_ok: bool,
)
    ensures
        mono3(m.outputs, step_capture_buffer(m, index, width, height, stride, format_ok).0.outputs),
{
    let o2 = step_capture_buffer(m, index, width, height, stride, format_ok).0.outputs;
    if index < m.outputs.len() && m.outputs[index as int].frame is Requested && m.outputs[
        index as int
    ].pool_created {
        lemma_mono_at(m.outputs, index as int, o2[index as int]);
    }
}

proof fn lemma_mono_step_buffer_done(m: StateModel, index: usize)
    ensures
        mono3(m.outputs, step_buffer_done(m, index).0.outputs),
{
    let o2 = step_buffer_done(m, index).0.outputs;
    if index < m.outputs.len() && m.outputs[index as int].frame is BufferCreated {
        lemma_mono_at(m.outputs, index as int, o2[index as int]);
    }
}

proof fn lemma_mono_step_capture_ready(m: StateModel, index: usize)
    ensures
        mono3(m.outputs, step_capture_ready(m, index).0.outputs),
{
    let o2 = step_capture_ready(m, index).0.outputs;
    if index < m.outputs.len() && m.outputs[index as int].frame is CopySubmitted {
        lemma_mono_at(m.outputs, index as int, o2[index as int]);
    }
}

proof fn lemma_mono_step_capture_failed(m: StateModel, index: usize)
    ensures
        mono3(m.outputs, step_capture_failed(m, index).0.outputs),
{
    let o2 = step_capture_failed(m, index).0.outputs;
    if index < m.outputs.len() && capture_in_flight(m.outputs[index as int]) {
        lemma_mono_at(m.outputs, index as int, o2[index as int]);
    }
}

proof fn lemma_mono_step_configure(m: StateModel, index: usize, serial: u32)
    ensures
        mono3(m.outputs, step_configure(m, index, serial).0.outputs),
{
    let o2 = step_configure(m, index, serial).0.outputs;
    if index < m.outputs.len() && m.outputs[index as int].layer_created && !m.outputs[
        index as int
    ].configured {
        lemma_mono_at(m.outputs, index as int, o2[index as int]);
    }
}

proof fn lemma_mono_step_closed(m: StateModel, index: usize)
    ensures
        mono3(m.outputs, step_closed(m, index).0.outputs),
{
    let o2 = step_closed(m, index).0.outputs;
    if index < m.outputs.len() && m.outputs[index as int].layer_created && !m.outputs[
        index as int
    ].layer_closed {
        lemma_mono_at(m.outputs, index as int, o2[index as int]);
    }
}

proof fn lemma_mono_step_scale(m: StateModel, index: usize, scale: u32)
    ensures
        mono3(m.outputs, step_scale(m, index, scale).0.outputs),
{
    let o2 = step_scale(m, index, scale).0.outputs;
    if index < m.outputs.len() && m.outputs[index as int].scale != Some(scale) {
        match m.outputs[index as int].logical {
            Some(d) => {
                if m.outputs[index as int].surface_created && m.outputs[index as int].layer_created
                    && m.outputs[index as int].viewport_created {
                    lemma_mono_at(m.outputs, index as int, o2[index as int]);
                }
            },
            None => {},
        }
    }
}

/// Readiness monotonicity, one step: no event decreases a readiness
/// count, none shrinks the output inventory, and no count ever exceeds
/// the number of discovered outputs.
pub proof fn lemma_readiness_monotone(m: StateModel, e: Event)
    ensures
        mono3(m.outputs, step(m, e).0.outputs),
        count_geometry_ready(step(m, e).0.outputs) <= step(m, e).0.outputs.len(),
        count_frames_ready(step(m, e).0.outputs) <= step(m, e).0.outputs.len(),
        count_presented(step(m, e).0.outputs) <= step(m, e).0.outputs.len(),
{
    let o2 = step(m, e).0.outputs;
    lemma_count_le_len(o2, geometry_pred());
    lemma_count_le_len(o2, frame_pred());
    lemma_count_le_len(o2, presented_pred());
    match e {
        Event::Global { name, kind } => lemma_mono_step_global(m, name, kind),
        Event::GlobalRemove { .. } => {},
        Event::OutputMode { index, width, height } => lemma_mono_step_mode(m, index, width, height),
        Event::OutputTransform { index, transform } => lemma_mono_step_transform(
            m,
            index,
            transform,
        ),
        Event::LogicalSize { index, width, height } => lemma_mono_step_logical(
            m,
            index,
            width,
            height,
        ),
        Event::CaptureBuffer { index, width, height, stride, format_ok } => {
            lemma_mono_step_capture_buffer(m, index, width, height, stride, format_ok);
        },
        Event::CaptureBufferDone { index } => lemma_mono_step_buffer_done(m, index),
        Event::CaptureReady { index } => lemma_mono_step_capture_ready(m, index),
        Event::CaptureFailed { index } => lemma_mono_step_capture_failed(m, index),
        Event::SurfaceConfigure { index, serial } => lemma_mono_step_configure(m, index, serial),
        Event::SurfaceClosed { index } => lemma_mono_step_closed(m, index),
        Event::PreferredScale { index, scale } => lemma_mono_step_scale(m, index, scale),
        Event::Keymap { .. } => {},
        Event::Key { .. } => {},
        Event::PointerButton { .. } => {},
    }
}

/// Readiness monotonicity over a whole run: however many events are
/// dispatched, no readiness count decreases, and at the end each count
/// is still bounded by the number of discovered outputs.
pub proof fn lemma_readiness_monotone_run(m: StateModel, es: Seq<Event>)
    ensures
        mono3(m.outputs, run(m, es).outputs),
        count_geometry_ready(run(m, es).outputs) <= run(m, es).outputs.len(),
        count_frames_ready(run(m, es).outputs) <= run(m, es).outputs.len(),
        count_presented(run(m, es).outputs) <= run(m, es).outputs.len(),
    decreases es.len(),
{
    lemma_count_le_len(run(m, es).outputs, geometry_pred());
    lemma_count_le_len(run(m, es).outputs, frame_pred());
    lemma_count_le_len(run(m, es).outputs, presented_pred());
    if es.len() > 0 {
        lemma_readiness_monotone(m, es[0]);
        lemma_readiness_monotone_run(step(m, es[0]).0, es.subrange(1, es.len() as int));
    }
}

/// Commit ordering, first half: an acknowledgement for surface `i` is
/// emitted only while `i` stands unconfigured, and the step leaves it
/// configured.
pub proof fn lemma_ack_only_when_unconfigured(m: StateModel, e: Event, i: usize, k: int)
    requires
        0 <= k < step(m, e).1.len(),
        is_ack_for(step(m, e).1[k], i),
    ensures
        i < m.outputs.len(),
        !m.outputs[i as int].configured,
        step(m, e).0.outputs[i as int].configured,
{
}

/// A surface once configured stays configured, whatever arrives.
pub proof fn lemma_configured_monotone(m: StateModel, e: Event, i: usize)
    requires
        i < m.outputs.len(),
    ensures
        i < step(m, e).0.outputs.len(),
        m.outputs[i as int].configured ==> step(m, e).0.outputs[i as int].configured,
{
    lemma_readiness_monotone(m, e);
}

/// Commit ordering, consequence: while a surface stands configured, no
/// step emits another acknowledgement for it — so over any run the
/// configure of each surface is acknowledged at most once.
pub proof fn lemma_no_second_ack(m: StateModel, e: Event, i: usize)
    requires
        i < m.outputs.len(),
        m.outputs[i as int].configured,
    ensures
        forall|k: int| 0 <= k < step(m, e).1.len() ==> !is_ack_for(#[trigger] step(m, e).1[k], i),
{
    assert forall|k: int| 0 <= k < step(m, e).1.len() implies !is_ack_for(
        #[trigger] step(m, e).1[k],
        i,
    ) by {
        if is_ack_for(step(m, e).1[k], i) {
            lemma_ack_only_when_unconfigured(m, e, i, k);
        }
    }
}

/// Commit ordering, second half: a buffer attach for surface `i` is
/// emitted only with `i`'s configure acknowledged — beforehand, or by an
/// acknowledgement standing earlier in the same batch.
pub proof fn lemma_attach_after_ack(m: StateModel, e: Event, i: usize, k: int)
    requires
        0 <= k < step(m, e).1.len(),
        is_attach_for(step(m, e).1[k], i),
    ensures
        i < m.outputs.len(),
        step(m, e).0.outputs[i as int].configured,
        m.outputs[i as int].configured || exists|j: int|
            0 <= j < k && is_ack_for(#[trigger] step(m, e).1[j], i),
{
    match e {
        Event::SurfaceConfigure { index, serial } => {
            if !m.outputs[index as int].configured {
                assert(is_ack_for(step(m, e).1[0], i));
            }
        },
        _ => {},
    }
}

/// Dispatching one more event at the end of a run is the same as one
/// step from the run's final state.
pub proof fn lemma_run_push(m: StateModel, es: Seq<Event>, x: Event)
    ensures
        run(m, es.push(x)) == step(run(m, es), x).0,
    decreases es.len(),
{
    let p = es.push(x);
    if es.len() == 0 {
        assert(p[0] == x);
        assert(p.subrange(1, p.len() as int) =~= Seq::<Event>::empty());
        assert(run(m, p) == run(step(m, x).0, p.subrange(1, p.len() as int)));
        assert(run(step(m, x).0, Seq::<Event>::empty()) == step(m, x).0);
    } else {
        let tail = es.subrange(1, es.len() as int);
        assert(p[0] == es[0]);
        assert(p.subrange(1, p.len() as int) =~= tail.push(x));
        lemma_run_push(step(m, es[0]).0, tail, x);
        assert(run(m, p) == run(step(m, p[0]).0, p.subrange(1, p.len() as int)));
        assert(run(m, es) == run(step(m, es[0]).0, tail));
    }
}

/// A surface configured after `a` events of a run is still configured
/// after `b` of them.
pub proof fn lemma_configured_preserved(m: StateModel, es: Seq<Event>, i: usize, a: int, b: int)
    requires
        0 <= a <= b <= es.len(),
        i < run(m, es.take(a)).outputs.len(),
        run(m, es.take(a)).outputs[i as int].configured,
    ensures
        i < run(m, es.take(b)).outputs.len(),
        run(m, es.take(b)).outputs[i as int].configured,
    decreases b - a,
{
    if a < b {
        assert(es.take(a + 1) =~= es.take(a).push(es[a]));
        lemma_run_push(m, es.take(a), es[a]);
        lemma_configured_monotone(run(m, es.take(a)), es[a], i);
        lemma_configured_preserved(m, es, i, a + 1, b);
    }
}

/// Commit ordering over a whole run: if the batches dispatched at
/// positions `k1` and `k2` of an event sequence each carry an
/// acknowledgement for surface `i`, the two positions are the same one —
/// no surface's configure is acknowledged twice.
pub proof fn lemma_ack_at_most_once_run(
    m: StateModel,
    es: Seq<Event>,
    i: usize,
    k1: int,
    k2: int,
    j1: int,
    j2: int,
)
    requires
        0 <= k1 <= k2 < es.len(),
        0 <= j1 < step(run(m, es.take(k1)), es[k1]).1.len(),
        is_ack_for(step(run(m, es.take(k1)), es[k1]).1[j1], i),
        0 <= j2 < step(run(m, es.take(k2)), es[k2]).1.len(),
        is_ack_for(step(run(m, es.take(k2)), es[k2]).1[j2], i),
    ensures
        k1 == k2,
{
    if k1 < k2 {
        let m1 = run(m, es.take(k1));
        lemma_ack_only_when_unconfigured(m1, es[k1], i, j1);
        assert(es.take(k1 + 1) =~= es.take(k1).push(es[k1]));
        lemma_run_push(m, es.take(k1), es[k1]);
        lemma_configured_preserved(m, es, i, k1 + 1, k2);
        lemma_ack_only_when_unconfigured(run(m, es.take(k2)), es[k2], i, j2);
    }
}

/// Idempotent scale handling: once a preferred-scale notification has
/// been dispatched, dispatching the very same notification again changes
/// nothing and issues no request.
pub proof fn lemma_scale_idempotent(m: StateModel, index: usize, scale: u32)
    ensures
        step(step(m, Event::PreferredScale { index, scale }).0, Event::PreferredScale {
            index,
            scale,
        }).0 == step(m, Event::PreferredScale { index, scale }).0,
        step(step(m, Event::PreferredScale { index, scale }).0, Event::PreferredScale {
            index,
            scale,
        }).1 == Seq::<Action>::empty(),
{
}

/// The exit triggers: an Escape press and any pointer-button release
/// each set the exit flag; a key release, a different key, and a button
/// press each leave it as it was.
pub proof fn lemma_exit_triggers(m: StateModel, sym: Option<u32>, pressed: bool, released: bool)
    ensures
        step(m, Event::Key { sym, pressed }).0.exit == (m.exit || (pressed && sym == Some(
            KEYSYM_ESCAPE,
        ))),
        step(m, Event::PointerButton { released }).0.exit == (m.exit || released),
{
}

/// The exit flag is one-directional: no event ever clears it.
pub proof fn lemma_exit_monotone(m: StateModel, e: Event)
    ensures
        m.exit ==> step(m, e).0.exit,
{
}

} // verus!
