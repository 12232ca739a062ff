//! Tests of the orchestrator's phase steps: session start, capture and
//! overlay planning, their error paths, and the whole two-output run.

use wayfreeze::event::{Action, Event, GlobalKind, KEYSYM_ESCAPE};
use wayfreeze::state::FreezeState;
use wayfreeze::types::{CapKind, FatalError, FrameState, Options, Transform};
use wayfreeze::vec_insert;

fn bind_caps(st: &mut FreezeState, kinds: &[CapKind]) {
    for (i, kind) in kinds.iter().enumerate() {
        st.handle_event(Event::Global {
            name: 100 + i as u32,
            kind: GlobalKind::Capability(*kind),
        });
    }
}

fn discover_outputs(st: &mut FreezeState, n: usize) {
    for i in 0..n {
        st.handle_event(Event::Global {
            name: i as u32,
            kind: GlobalKind::Output,
        });
    }
}

fn full_geometry(st: &mut FreezeState, dims: &[(u32, u32)]) {
    for (i, &(w, h)) in dims.iter().enumerate() {
        st.handle_event(Event::OutputMode {
            index: i,
            width: w,
            height: h,
        });
        st.handle_event(Event::OutputTransform {
            index: i,
            transform: Transform::Normal,
        });
        st.handle_event(Event::LogicalSize {
            index: i,
            width: w,
            height: h,
        });
    }
}

const ALL_CAPS: [CapKind; 8] = [
    CapKind::Compositor,
    CapKind::Seat,
    CapKind::Shm,
    CapKind::FractionalScaleManager,
    CapKind::Viewporter,
    CapKind::XdgOutputManager,
    CapKind::ScreencopyManager,
    CapKind::LayerShell,
];

#[test]
fn zero_outputs_is_fatal_before_any_capture() {
    let mut st = FreezeState::new(Options::defaults());
    bind_caps(&mut st, &ALL_CAPS);
    assert_eq!(st.session_begin(), Err(FatalError::NoOutputs));
    // No capture was requested for anything.
    assert!(st.outputs.is_empty());
}

#[test]
fn session_begin_fixes_output_count() {
    let mut st = FreezeState::new(Options::defaults());
    bind_caps(&mut st, &ALL_CAPS);
    discover_outputs(&mut st, 2);
    assert_eq!(st.session_begin(), Ok(2));
    assert_eq!(st.output_count, 2);
}

#[test]
fn pool_sized_exactly_from_physical_dimensions() {
    let dims = [(1920, 1080)];
    let mut st = FreezeState::new(Options::defaults());
    bind_caps(&mut st, &ALL_CAPS);
    discover_outputs(&mut st, 1);
    st.session_begin().unwrap();
    full_geometry(&mut st, &dims);
    let acts = st.plan_capture().unwrap();
    assert_eq!(
        acts,
        vec![
            Action::CreatePool {
                index: 0,
                size: 1920 * 1080 * 4
            },
            Action::CaptureOutput {
                index: 0,
                include_cursor: true
            },
        ]
    );
    assert_eq!(st.outputs[0].frame, FrameState::Requested);
}

#[test]
fn hide_cursor_option_excludes_the_cursor() {
    let dims = [(1920, 1080)];
    let mut opts = Options::defaults();
    opts.hide_cursor = true;
    let mut st = FreezeState::new(opts);
    bind_caps(&mut st, &ALL_CAPS);
    discover_outputs(&mut st, 1);
    st.session_begin().unwrap();
    full_geometry(&mut st, &dims);
    let acts = st.plan_capture().unwrap();
    assert_eq!(
        acts[1],
        Action::CaptureOutput {
            index: 0,
            include_cursor: false
        }
    );
}

#[test]
fn plan_capture_without_shm_is_fatal() {
    let mut st = FreezeState::new(Options::defaults());
    bind_caps(
        &mut st,
        &[
            CapKind::Compositor,
            CapKind::XdgOutputManager,
            CapKind::ScreencopyManager,
        ],
    );
    discover_outputs(&mut st, 1);
    st.session_begin().unwrap();
    full_geometry(&mut st, &[(1920, 1080)]);
    assert_eq!(
        st.plan_capture(),
        Err(FatalError::CapabilityMissing(CapKind::Shm))
    );
}

#[test]
fn plan_capture_without_screencopy_is_fatal() {
    let mut st = FreezeState::new(Options::defaults());
    bind_caps(
        &mut st,
        &[CapKind::Compositor, CapKind::XdgOutputManager, CapKind::Shm],
    );
    discover_outputs(&mut st, 1);
    st.session_begin().unwrap();
    full_geometry(&mut st, &[(1920, 1080)]);
    assert_eq!(
        st.plan_capture(),
        Err(FatalError::CapabilityMissing(CapKind::ScreencopyManager))
    );
}

#[test]
fn plan_capture_without_physical_mode_is_fatal() {
    let mut st = FreezeState::new(Options::defaults());
    bind_caps(&mut st, &ALL_CAPS);
    discover_outputs(&mut st, 1);
    st.session_begin().unwrap();
    // No mode event ever arrived.
    assert_eq!(st.plan_capture(), Err(FatalError::OutputIncomplete(0)));
}

#[test]
fn plan_overlays_emits_creation_then_setup() {
    let dims = [(1920, 1080), (2560, 1440)];
    let mut st = FreezeState::new(Options::defaults());
    bind_caps(&mut st, &ALL_CAPS);
    discover_outputs(&mut st, 2);
    st.session_begin().unwrap();
    full_geometry(&mut st, &dims);
    st.plan_capture().unwrap();
    for (i, &(w, h)) in dims.iter().enumerate() {
        st.handle_event(Event::CaptureBuffer {
            index: i,
            width: w,
            height: h,
            stride: w * 4,
            format_ok: true,
        });
        st.handle_event(Event::CaptureBufferDone { index: i });
        st.handle_event(Event::CaptureReady { index: i });
    }
    let acts = st.plan_overlays().unwrap();
    assert_eq!(
        acts,
        vec![
            Action::CreateLayerSurface { index: 0 },
            Action::CreateLayerSurface { index: 1 },
            Action::CommitSurface { index: 0 },
            Action::CreateViewport { index: 0 },
            Action::SubscribeScale { index: 0 },
            Action::CommitSurface { index: 1 },
            Action::CreateViewport { index: 1 },
            Action::SubscribeScale { index: 1 },
        ]
    );
}

#[test]
fn plan_overlays_without_layer_shell_is_fatal() {
    let dims = [(1920, 1080)];
    let mut st = FreezeState::new(Options::defaults());
    bind_caps(
        &mut st,
        &[
            CapKind::Compositor,
            CapKind::XdgOutputManager,
            CapKind::Shm,
            CapKind::ScreencopyManager,
            CapKind::Viewporter,
            CapKind::FractionalScaleManager,
        ],
    );
    discover_outputs(&mut st, 1);
    st.session_begin().unwrap();
    full_geometry(&mut st, &dims);
    st.plan_capture().unwrap();
    assert_eq!(
        st.plan_overlays(),
        Err(FatalError::CapabilityMissing(CapKind::LayerShell))
    );
}

#[test]
fn before_and_after_commands_follow_the_options() {
    let st = FreezeState::new(Options::defaults());
    assert!(!st.run_before_command());
    assert!(!st.run_after_command());
    let opts = Options {
        hide_cursor: false,
        before_cmd: Some(String::from("notify-send before")),
        before_timeout: 150,
        after_cmd: Some(String::from("notify-send after")),
        after_timeout: 250,
    };
    let st = FreezeState::new(opts);
    assert!(st.run_before_command());
    assert!(st.run_after_command());
    assert_eq!(st.options.before_timeout, 150);
    assert_eq!(st.options.after_timeout, 250);
}

#[test]
fn two_output_run_with_late_scale_change() {
    // Two outputs, 1920x1080 and 2560x1440, both at scale 120; later the
    // second alone moves to 180.
    let dims = [(1920, 1080), (2560, 1440)];
    let mut st = FreezeState::new(Options::defaults());
    bind_caps(&mut st, &ALL_CAPS);
    discover_outputs(&mut st, 2);
    assert_eq!(st.session_begin(), Ok(2));
    full_geometry(&mut st, &dims);
    assert!(st.geometry_complete());

    let acts = st.plan_capture().unwrap();
    assert_eq!(
        acts[0],
        Action::CreatePool {
            index: 0,
            size: 1920 * 1080 * 4
        }
    );
    assert_eq!(
        acts[2],
        Action::CreatePool {
            index: 1,
            size: 2560 * 1440 * 4
        }
    );

    for (i, &(w, h)) in dims.iter().enumerate() {
        st.handle_event(Event::CaptureBuffer {
            index: i,
            width: w,
            height: h,
            stride: w * 4,
            format_ok: true,
        });
        st.handle_event(Event::CaptureBufferDone { index: i });
        st.handle_event(Event::CaptureReady { index: i });
    }
    assert!(st.frames_complete());

    st.plan_overlays().unwrap();
    for i in 0..2 {
        st.handle_event(Event::SurfaceConfigure {
            index: i,
            serial: i as u32,
        });
    }
    // Both outputs advertise scale 120.
    let first = st.handle_event(Event::PreferredScale {
        index: 0,
        scale: 120,
    });
    assert_eq!(first.len(), 3);
    let second = st.handle_event(Event::PreferredScale {
        index: 1,
        scale: 120,
    });
    assert_eq!(second.len(), 3);

    // Later, only the second output moves to 180.
    let acts = st.handle_event(Event::PreferredScale {
        index: 1,
        scale: 180,
    });
    assert_eq!(
        acts,
        vec![
            Action::SetViewport {
                index: 1,
                width: 2560,
                height: 1440
            },
            Action::SetLayerSize {
                index: 1,
                width: 2560,
                height: 1440
            },
            Action::CommitSurface { index: 1 },
        ]
    );
    // The first output's surface sees no re-commit from its unchanged
    // scale.
    let acts = st.handle_event(Event::PreferredScale {
        index: 0,
        scale: 120,
    });
    assert!(acts.is_empty());

    // Both surfaces carry their buffers before the terminal loop.
    assert_eq!(st.surfaces_configured, 2);
    assert!(st.overlay_complete());
    assert!(!st.should_exit());
    st.handle_event(Event::Key {
        sym: Some(KEYSYM_ESCAPE),
        pressed: true,
    });
    assert!(st.should_exit());
}

#[test]
fn vec_insert_grows_and_overwrites() {
    let mut table: Vec<Option<u32>> = Vec::new();
    vec_insert(&mut table, 2, 7);
    assert_eq!(table, vec![None, None, Some(7)]);
    vec_insert(&mut table, 0, 3);
    assert_eq!(table, vec![Some(3), None, Some(7)]);
    vec_insert(&mut table, 2, 9);
    assert_eq!(table, vec![Some(3), None, Some(9)]);
}
