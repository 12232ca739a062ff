//! Scenario tests driving the event-handling state machine with plain
//! decoded events, as the transport would.

use wayfreeze::event::{Action, Event, GlobalKind, KEYSYM_ESCAPE};
use wayfreeze::state::FreezeState;
use wayfreeze::types::{CapKind, Dims, FrameState, Options, Transform};

fn all_caps() -> Vec<CapKind> {
    vec![
        CapKind::Compositor,
        CapKind::Seat,
        CapKind::Shm,
        CapKind::FractionalScaleManager,
        CapKind::Viewporter,
        CapKind::XdgOutputManager,
        CapKind::ScreencopyManager,
        CapKind::LayerShell,
    ]
}

/// A state with every capability bound (names 100, 101, ...) and `dims`
/// outputs discovered (names 0, 1, ...).
fn registry_done(dims: &[(u32, u32)]) -> FreezeState {
    let mut st = FreezeState::new(Options::defaults());
    for (i, kind) in all_caps().into_iter().enumerate() {
        let acts = st.handle_event(Event::Global {
            name: 100 + i as u32,
            kind: GlobalKind::Capability(kind),
        });
        assert!(matches!(acts[0], Action::BindCapability { .. }));
    }
    for (i, _) in dims.iter().enumerate() {
        let acts = st.handle_event(Event::Global {
            name: i as u32,
            kind: GlobalKind::Output,
        });
        assert_eq!(
            acts,
            vec![Action::BindOutput {
                name: i as u32,
                index: i
            }]
        );
    }
    st
}

/// Drives `st` through geometry for every output: mode, transform,
/// logical size (logical equal to physical here).
fn geometry_done(st: &mut FreezeState, dims: &[(u32, u32)]) {
    for (i, &(w, h)) in dims.iter().enumerate() {
        let acts = st.handle_event(Event::OutputMode {
            index: i,
            width: w,
            height: h,
        });
        assert!(acts.is_empty());
        let acts = st.handle_event(Event::OutputTransform {
            index: i,
            transform: Transform::Normal,
        });
        assert_eq!(
            acts,
            vec![
                Action::GetXdgOutput { index: i },
                Action::CreateSurface { index: i }
            ]
        );
        let acts = st.handle_event(Event::LogicalSize {
            index: i,
            width: w,
            height: h,
        });
        assert!(acts.is_empty());
    }
}

/// Drives `st` through capture for every output: buffer parameters with
/// the given stride, parameters done, copy complete.
fn capture_done(st: &mut FreezeState, dims: &[(u32, u32)]) {
    for (i, &(w, h)) in dims.iter().enumerate() {
        let acts = st.handle_event(Event::CaptureBuffer {
            index: i,
            width: w,
            height: h,
            stride: w * 4,
            format_ok: true,
        });
        assert_eq!(
            acts,
            vec![Action::CreateBuffer {
                index: i,
                width: w,
                height: h,
                stride: w * 4
            }]
        );
        let acts = st.handle_event(Event::CaptureBufferDone { index: i });
        assert_eq!(acts, vec![Action::CopyFrame { index: i }]);
        let acts = st.handle_event(Event::CaptureReady { index: i });
        assert!(acts.is_empty());
    }
}

/// A state frozen on `dims` outputs: everything through configure done.
fn frozen(dims: &[(u32, u32)]) -> FreezeState {
    let mut st = registry_done(dims);
    assert_eq!(st.session_begin(), Ok(dims.len()));
    geometry_done(&mut st, dims);
    assert!(st.geometry_complete());
    st.plan_capture().expect("capture plan");
    capture_done(&mut st, dims);
    assert!(st.frames_complete());
    st.plan_overlays().expect("overlay plan");
    for i in 0..dims.len() {
        let acts = st.handle_event(Event::SurfaceConfigure {
            index: i,
            serial: 42 + i as u32,
        });
        assert_eq!(acts.len(), 6);
        assert_eq!(
            acts[0],
            Action::AckConfigure {
                index: i,
                serial: 42 + i as u32
            }
        );
    }
    assert!(st.overlay_complete());
    st
}

#[test]
fn output_discovery_assigns_sequential_indices() {
    let st = registry_done(&[(1920, 1080), (2560, 1440), (800, 600)]);
    assert_eq!(st.outputs.len(), 3);
    assert_eq!(st.outputs[0].global_name, 0);
    assert_eq!(st.outputs[2].global_name, 2);
}

#[test]
fn capability_bound_once() {
    let mut st = FreezeState::new(Options::defaults());
    let acts = st.handle_event(Event::Global {
        name: 5,
        kind: GlobalKind::Capability(CapKind::Shm),
    });
    assert_eq!(
        acts,
        vec![Action::BindCapability {
            kind: CapKind::Shm,
            name: 5
        }]
    );
    let acts = st.handle_event(Event::Global {
        name: 6,
        kind: GlobalKind::Capability(CapKind::Shm),
    });
    assert!(acts.is_empty());
    assert_eq!(st.caps.shm, Some(5));
}

#[test]
fn seat_binding_requests_input_devices() {
    let mut st = FreezeState::new(Options::defaults());
    let acts = st.handle_event(Event::Global {
        name: 9,
        kind: GlobalKind::Capability(CapKind::Seat),
    });
    assert_eq!(
        acts,
        vec![
            Action::BindCapability {
                kind: CapKind::Seat,
                name: 9
            },
            Action::GetPointer,
            Action::GetKeyboard,
        ]
    );
}

#[test]
fn unknown_global_ignored() {
    let mut st = FreezeState::new(Options::defaults());
    let acts = st.handle_event(Event::Global {
        name: 3,
        kind: GlobalKind::Other,
    });
    assert!(acts.is_empty());
}

#[test]
fn global_remove_clears_bound_capability() {
    let mut st = FreezeState::new(Options::defaults());
    st.handle_event(Event::Global {
        name: 5,
        kind: GlobalKind::Capability(CapKind::Viewporter),
    });
    assert_eq!(st.caps.viewporter, Some(5));
    let acts = st.handle_event(Event::GlobalRemove { name: 5 });
    assert!(acts.is_empty());
    assert_eq!(st.caps.viewporter, None);
    // A later advertisement can bind afresh.
    let acts = st.handle_event(Event::Global {
        name: 8,
        kind: GlobalKind::Capability(CapKind::Viewporter),
    });
    assert_eq!(acts.len(), 1);
    assert_eq!(st.caps.viewporter, Some(8));
}

#[test]
fn global_remove_of_unbound_name_is_noop() {
    let mut st = registry_done(&[]);
    let before = st.caps;
    st.handle_event(Event::GlobalRemove { name: 999 });
    assert_eq!(st.caps, before);
}

#[test]
fn geometry_counter_counts_each_output_once() {
    let dims = [(1920, 1080), (2560, 1440)];
    let mut st = registry_done(&dims);
    st.session_begin().unwrap();
    assert_eq!(st.geometry_ready, 0);
    geometry_done(&mut st, &dims);
    assert_eq!(st.geometry_ready, 2);
    // A repeated logical-size report does not double-count.
    st.handle_event(Event::LogicalSize {
        index: 0,
        width: 1920,
        height: 1080,
    });
    assert_eq!(st.geometry_ready, 2);
}

#[test]
fn out_of_range_events_are_dropped() {
    let mut st = registry_done(&[(1920, 1080)]);
    st.session_begin().unwrap();
    let acts = st.handle_event(Event::OutputMode {
        index: 5,
        width: 640,
        height: 480,
    });
    assert!(acts.is_empty());
    let acts = st.handle_event(Event::LogicalSize {
        index: 5,
        width: 640,
        height: 480,
    });
    assert!(acts.is_empty());
    assert_eq!(st.geometry_ready, 0);
}

#[test]
fn buffer_declared_size_is_stride_times_height() {
    let dims = [(1920, 1080)];
    let mut st = registry_done(&dims);
    st.session_begin().unwrap();
    geometry_done(&mut st, &dims);
    st.plan_capture().unwrap();
    // Server-side padding: stride exceeds width * 4.
    let acts = st.handle_event(Event::CaptureBuffer {
        index: 0,
        width: 1920,
        height: 1080,
        stride: 8192,
        format_ok: true,
    });
    assert_eq!(
        acts,
        vec![Action::CreateBuffer {
            index: 0,
            width: 1920,
            height: 1080,
            stride: 8192
        }]
    );
    assert_eq!(st.outputs[0].buffer_bytes, Some(8192u64 * 1080));
}

#[test]
fn unsupported_format_fails_the_run() {
    let dims = [(1920, 1080)];
    let mut st = registry_done(&dims);
    st.session_begin().unwrap();
    geometry_done(&mut st, &dims);
    st.plan_capture().unwrap();
    let acts = st.handle_event(Event::CaptureBuffer {
        index: 0,
        width: 1920,
        height: 1080,
        stride: 7680,
        format_ok: false,
    });
    assert!(acts.is_empty());
    assert!(st.should_exit());
    assert_eq!(st.outputs[0].frame, FrameState::Failed);
}

#[test]
fn capture_failure_sets_exit_for_the_whole_run() {
    let dims = [(1920, 1080), (2560, 1440)];
    let mut st = registry_done(&dims);
    st.session_begin().unwrap();
    geometry_done(&mut st, &dims);
    st.plan_capture().unwrap();
    assert!(!st.should_exit());
    st.handle_event(Event::CaptureFailed { index: 1 });
    assert!(st.should_exit());
    assert_eq!(st.outputs[1].frame, FrameState::Failed);
    // The other output's record is untouched.
    assert_eq!(st.outputs[0].frame, FrameState::Requested);
}

#[test]
fn configure_before_frame_defers_the_attach() {
    let dims = [(1920, 1080)];
    let mut st = registry_done(&dims);
    st.session_begin().unwrap();
    geometry_done(&mut st, &dims);
    st.plan_capture().unwrap();
    st.plan_overlays().unwrap();
    // Configure arrives before the copy completes: only the
    // acknowledgement goes out.
    let acts = st.handle_event(Event::SurfaceConfigure {
        index: 0,
        serial: 7,
    });
    assert_eq!(
        acts,
        vec![Action::AckConfigure {
            index: 0,
            serial: 7
        }]
    );
    assert_eq!(st.surfaces_configured, 0);
    // The frame completes: the deferred attach-and-commit runs now.
    st.handle_event(Event::CaptureBuffer {
        index: 0,
        width: 1920,
        height: 1080,
        stride: 7680,
        format_ok: true,
    });
    st.handle_event(Event::CaptureBufferDone { index: 0 });
    let acts = st.handle_event(Event::CaptureReady { index: 0 });
    assert_eq!(
        acts,
        vec![
            Action::CommitSurface { index: 0 },
            Action::AttachBuffer { index: 0 },
            Action::SetBufferScale { index: 0, scale: 1 },
            Action::SetBufferTransform {
                index: 0,
                transform: Transform::Normal
            },
            Action::CommitSurface { index: 0 },
        ]
    );
    assert_eq!(st.surfaces_configured, 1);
}

#[test]
fn second_configure_is_not_acknowledged() {
    let dims = [(1920, 1080)];
    let mut st = frozen(&dims);
    let acts = st.handle_event(Event::SurfaceConfigure {
        index: 0,
        serial: 99,
    });
    assert!(acts.is_empty());
    assert_eq!(st.surfaces_configured, 1);
}

#[test]
fn attach_commit_follows_acknowledgement_in_one_batch() {
    let dims = [(1920, 1080)];
    let mut st = registry_done(&dims);
    st.session_begin().unwrap();
    geometry_done(&mut st, &dims);
    st.plan_capture().unwrap();
    capture_done(&mut st, &dims);
    st.plan_overlays().unwrap();
    let acts = st.handle_event(Event::SurfaceConfigure {
        index: 0,
        serial: 11,
    });
    assert_eq!(
        acts,
        vec![
            Action::AckConfigure {
                index: 0,
                serial: 11
            },
            Action::CommitSurface { index: 0 },
            Action::AttachBuffer { index: 0 },
            Action::SetBufferScale { index: 0, scale: 1 },
            Action::SetBufferTransform {
                index: 0,
                transform: Transform::Normal
            },
            Action::CommitSurface { index: 0 },
        ]
    );
}

#[test]
fn surface_closed_destroys_the_overlay_once() {
    let dims = [(1920, 1080)];
    let mut st = frozen(&dims);
    let acts = st.handle_event(Event::SurfaceClosed { index: 0 });
    assert_eq!(acts, vec![Action::DestroyLayerSurface { index: 0 }]);
    let acts = st.handle_event(Event::SurfaceClosed { index: 0 });
    assert!(acts.is_empty());
}

#[test]
fn scale_change_resizes_and_commits_once() {
    let dims = [(1920, 1080)];
    let mut st = frozen(&dims);
    let acts = st.handle_event(Event::PreferredScale {
        index: 0,
        scale: 120,
    });
    assert_eq!(
        acts,
        vec![
            Action::SetViewport {
                index: 0,
                width: 1920,
                height: 1080
            },
            Action::SetLayerSize {
                index: 0,
                width: 1920,
                height: 1080
            },
            Action::CommitSurface { index: 0 },
        ]
    );
    assert_eq!(st.outputs[0].scale, Some(120));
    // The identical notification again is a no-op.
    let acts = st.handle_event(Event::PreferredScale {
        index: 0,
        scale: 120,
    });
    assert!(acts.is_empty());
    // A different value acts again.
    let acts = st.handle_event(Event::PreferredScale {
        index: 0,
        scale: 180,
    });
    assert_eq!(acts.len(), 3);
    assert_eq!(st.outputs[0].scale, Some(180));
}

#[test]
fn scale_for_unknown_surface_is_dropped() {
    let dims = [(1920, 1080)];
    let mut st = registry_done(&dims);
    st.session_begin().unwrap();
    geometry_done(&mut st, &dims);
    // No overlay planned yet: no viewport exists for the surface.
    let acts = st.handle_event(Event::PreferredScale {
        index: 0,
        scale: 120,
    });
    assert!(acts.is_empty());
    assert_eq!(st.outputs[0].scale, None);
}

#[test]
fn keymap_in_supported_format_is_compiled() {
    let mut st = FreezeState::new(Options::defaults());
    let acts = st.handle_event(Event::Keymap { format_ok: true });
    assert_eq!(acts, vec![Action::CompileKeymap]);
    let acts = st.handle_event(Event::Keymap { format_ok: false });
    assert!(acts.is_empty());
}

#[test]
fn escape_press_sets_exit_and_stays_set() {
    let mut st = frozen(&[(1920, 1080)]);
    assert!(!st.should_exit());
    // A key release, even of Escape, does nothing.
    st.handle_event(Event::Key {
        sym: Some(KEYSYM_ESCAPE),
        pressed: false,
    });
    assert!(!st.should_exit());
    // Another key's press does nothing.
    st.handle_event(Event::Key {
        sym: Some(0x61),
        pressed: true,
    });
    assert!(!st.should_exit());
    // A press with no keymap compiled does nothing.
    st.handle_event(Event::Key {
        sym: None,
        pressed: true,
    });
    assert!(!st.should_exit());
    // The Escape press flips the flag.
    st.handle_event(Event::Key {
        sym: Some(KEYSYM_ESCAPE),
        pressed: true,
    });
    assert!(st.should_exit());
    // Nothing clears it.
    st.handle_event(Event::Key {
        sym: Some(KEYSYM_ESCAPE),
        pressed: false,
    });
    assert!(st.should_exit());
}

#[test]
fn pointer_release_sets_exit_press_does_not() {
    let mut st = frozen(&[(1920, 1080)]);
    st.handle_event(Event::PointerButton { released: false });
    assert!(!st.should_exit());
    st.handle_event(Event::PointerButton { released: true });
    assert!(st.should_exit());
}

#[test]
fn transform_is_recorded_and_used_in_the_attach() {
    let dims = [(1080, 1920)];
    let mut st = registry_done(&dims);
    st.session_begin().unwrap();
    st.handle_event(Event::OutputMode {
        index: 0,
        width: 1080,
        height: 1920,
    });
    st.handle_event(Event::OutputTransform {
        index: 0,
        transform: Transform::Rotated90,
    });
    st.handle_event(Event::LogicalSize {
        index: 0,
        width: 1920,
        height: 1080,
    });
    st.plan_capture().unwrap();
    capture_done(&mut st, &dims);
    st.plan_overlays().unwrap();
    let acts = st.handle_event(Event::SurfaceConfigure {
        index: 0,
        serial: 1,
    });
    assert_eq!(
        acts[4],
        Action::SetBufferTransform {
            index: 0,
            transform: Transform::Rotated90
        }
    );
}

#[test]
fn surface_created_once_per_output() {
    let dims = [(1920, 1080)];
    let mut st = registry_done(&dims);
    st.handle_event(Event::OutputMode {
        index: 0,
        width: 1920,
        height: 1080,
    });
    let acts = st.handle_event(Event::OutputTransform {
        index: 0,
        transform: Transform::Normal,
    });
    assert_eq!(acts.len(), 2);
    // A repeated transform report re-creates nothing.
    let acts = st.handle_event(Event::OutputTransform {
        index: 0,
        transform: Transform::Flipped,
    });
    assert!(acts.is_empty());
    assert_eq!(st.outputs[0].transform, Some(Transform::Flipped));
}

#[test]
fn readiness_counters_never_decrease_and_stay_bounded() {
    let dims = [(1920, 1080), (2560, 1440)];
    let mut st = registry_done(&dims);
    st.session_begin().unwrap();
    let mut last = (0usize, 0usize, 0usize);
    let mut watch = |st: &FreezeState, last: &mut (usize, usize, usize)| {
        let now = (st.geometry_ready, st.frames_ready, st.surfaces_configured);
        assert!(now.0 >= last.0 && now.1 >= last.1 && now.2 >= last.2);
        let n = st.outputs.len();
        assert!(now.0 <= n && now.1 <= n && now.2 <= n);
        *last = now;
    };
    geometry_done(&mut st, &dims);
    watch(&st, &mut last);
    st.plan_capture().unwrap();
    watch(&st, &mut last);
    capture_done(&mut st, &dims);
    watch(&st, &mut last);
    st.plan_overlays().unwrap();
    watch(&st, &mut last);
    for i in 0..dims.len() {
        st.handle_event(Event::SurfaceConfigure {
            index: i,
            serial: i as u32,
        });
        watch(&st, &mut last);
    }
    assert_eq!(last, (2, 2, 2));
}
