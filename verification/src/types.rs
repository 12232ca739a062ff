//! Plain data carried through the state machine: capability kinds, output
//! records, frame-capture states, and the run-wide options and errors.

use vstd::prelude::*;

verus! {

/// Largest width or height the transport can report: physical and logical
/// sizes arrive as non-negative signed 32-bit quantities.
pub const MAX_DIM: u32 = 0x7fff_ffff;

/// The eight server capabilities the client binds, one instance each.
#[derive(Clone, Copy, Debug, PartialEq, Eq, Structural)]
pub enum CapKind {
    /// Surface factory.
    Compositor,
    /// Input devices (pointer and keyboard).
    Seat,
    /// Shared-memory buffer factory.
    Shm,
    /// Per-surface preferred-scale notifications.
    FractionalScaleManager,
    /// Crop-and-scale rectangles for surfaces.
    Viewporter,
    /// Logical-geometry queries for outputs.
    XdgOutputManager,
    /// Screen-capture jobs.
    ScreencopyManager,
    /// Full-screen overlay surfaces.
    LayerShell,
}

/// How buffer contents are rotated or flipped for an output.
#[derive(Clone, Copy, Debug, PartialEq, Eq, Structural)]
pub enum Transform {
    Normal,
    Rotated90,
    Rotated180,
    Rotated270,
    Flipped,
    Flipped90,
    Flipped180,
    Flipped270,
}

/// A width and height in pixels.
#[derive(Clone, Copy, Debug, PartialEq, Eq, Structural)]
pub struct Dims {
    pub width: u32,
    pub height: u32,
}

/// Progress of one output's capture job, from request to terminal state.
#[derive(Clone, Copy, Debug, PartialEq, Eq, Structural)]
pub enum FrameState {
    /// No capture requested yet.
    Idle,
    /// Capture job requested; awaiting the server's buffer parameters.
    Requested,
    /// A buffer matching the server's parameters has been carved.
    BufferCreated,
    /// The copy request was submitted; awaiting completion.
    CopySubmitted,
    /// The captured frame is in the buffer.
    Ready,
    /// The server reported a capture failure.
    Failed,
}

/// Everything recorded about one discovered output, keyed by its insertion
/// index.  Fields fill in as the corresponding protocol events arrive.
#[derive(Clone, Copy, Debug)]
pub struct OutputRecord {
    /// The server-assigned identity of the output global.
    pub global_name: u32,
    /// Physical mode size, from the output's mode event.
    pub phys: Option<Dims>,
    /// Buffer transform, from the output's geometry event.
    pub transform: Option<Transform>,
    /// Logical size, from the logical-geometry response.
    pub logical: Option<Dims>,
    /// Most recent preferred scale, in 1/120ths; unset until notified.
    pub scale: Option<u32>,
    /// A logical-geometry query has been issued for this output.
    pub xdg_requested: bool,
    /// A presentation surface exists for this output.
    pub surface_created: bool,
    /// A shared-memory pool sized for this output exists.
    pub pool_created: bool,
    /// Capture-job progress.
    pub frame: FrameState,
    /// Declared byte size of the carved capture buffer.
    pub buffer_bytes: Option<u64>,
    /// An overlay surface exists for this output.
    pub layer_created: bool,
    /// A crop-and-scale viewport exists for this output's surface.
    pub viewport_created: bool,
    /// The overlay surface's first configure has been acknowledged.
    pub configured: bool,
    /// The captured buffer has been attached and committed.
    pub presented: bool,
    /// The server closed the overlay surface.
    pub layer_closed: bool,
}

impl OutputRecord {
    /// A freshly discovered output: nothing known beyond its identity.
    pub fn new(global_name: u32) -> (r: OutputRecord)
        ensures
            r == OutputRecord::init(global_name),
    {
        OutputRecord {
            global_name,
            phys: None,
            transform: None,
            logical: None,
            scale: None,
            xdg_requested: false,
            surface_created: false,
            pool_created: false,
            frame: FrameState::Idle,
            buffer_bytes: None,
            layer_created: false,
            viewport_created: false,
            configured: false,
            presented: false,
            layer_closed: false,
        }
    }

    /// The record an output starts from at discovery.
    pub open spec fn init(global_name: u32) -> OutputRecord {
        OutputRecord {
            global_name,
            phys: None,
            transform: None,
            logical: None,
            scale: None,
            xdg_requested: false,
            surface_created: false,
            pool_created: false,
            frame: FrameState::Idle,
            buffer_bytes: None,
            layer_created: false,
            viewport_created: false,
            configured: false,
            presented: false,
            layer_closed: false,
        }
    }

    /// Structural facts every record keeps: a buffer is attached only after
    /// the configure handshake, and only with a completed capture; recorded
    /// sizes stay within what the transport can deliver.
    pub open spec fn wf(self) -> bool {
        &&& self.presented ==> self.configured
        &&& self.presented ==> self.frame is Ready
        &&& self.presented ==> self.transform is Some
        &&& self.configured ==> self.layer_created
        &&& self.phys matches Some(d) ==> d.width <= MAX_DIM && d.height <= MAX_DIM
        &&& self.logical matches Some(d) ==> d.width <= MAX_DIM && d.height <= MAX_DIM
    }

    /// The output's logical geometry is known.
    pub open spec fn geometry_known(self) -> bool {
        self.logical is Some
    }

    /// The output's captured frame is complete.
    pub open spec fn frame_ready(self) -> bool {
        self.frame is Ready
    }
}

/// The bound identity of each required capability; `None` while the server
/// has not advertised it, or after the server revoked it.
#[derive(Clone, Copy, Debug, PartialEq, Eq, Structural)]
pub struct CapSlots {
    pub compositor: Option<u32>,
    pub seat: Option<u32>,
    pub shm: Option<u32>,
    pub fractional_scale: Option<u32>,
    pub viewporter: Option<u32>,
    pub xdg_output: Option<u32>,
    pub screencopy: Option<u32>,
    pub layer_shell: Option<u32>,
}

impl CapSlots {
    /// No capability bound yet.
    pub fn new() -> (r: CapSlots)
        ensures
            r == CapSlots::init(),
    {
        CapSlots {
            compositor: None,
            seat: None,
            shm: None,
            fractional_scale: None,
            viewporter: None,
            xdg_output: None,
            screencopy: None,
            layer_shell: None,
        }
    }

    /// The slots a run starts from.
    pub open spec fn init() -> CapSlots {
        CapSlots {
            compositor: None,
            seat: None,
            shm: None,
            fractional_scale: None,
            viewporter: None,
            xdg_output: None,
            screencopy: None,
            layer_shell: None,
        }
    }

    /// The slot for `kind`.
    pub open spec fn slot(self, kind: CapKind) -> Option<u32> {
        match kind {
            CapKind::Compositor => self.compositor,
            CapKind::Seat => self.seat,
            CapKind::Shm => self.shm,
            CapKind::FractionalScaleManager => self.fractional_scale,
            CapKind::Viewporter => self.viewporter,
            CapKind::XdgOutputManager => self.xdg_output,
            CapKind::ScreencopyManager => self.screencopy,
            CapKind::LayerShell => self.layer_shell,
        }
    }

    /// `self` with the slot for `kind` replaced by `v`.
    pub open spec fn with_slot(self, kind: CapKind, v: Option<u32>) -> CapSlots {
        match kind {
            CapKind::Compositor => CapSlots { compositor: v, ..self },
            CapKind::Seat => CapSlots { seat: v, ..self },
            CapKind::Shm => CapSlots { shm: v, ..self },
            CapKind::FractionalScaleManager => CapSlots { fractional_scale: v, ..self },
            CapKind::Viewporter => CapSlots { viewporter: v, ..self },
            CapKind::XdgOutputManager => CapSlots { xdg_output: v, ..self },
            CapKind::ScreencopyManager => CapSlots { screencopy: v, ..self },
            CapKind::LayerShell => CapSlots { layer_shell: v, ..self },
        }
    }
}

/// Run-wide options, fixed at startup.
#[derive(Debug)]
pub struct Options {
    /// Exclude the pointer cursor from the captured image.
    pub hide_cursor: bool,
    /// Command to spawn once all frames are captured, before presenting.
    pub before_cmd: Option<String>,
    /// Milliseconds to wait after spawning the before command.
    pub before_timeout: u64,
    /// Command to spawn once the overlay is presented.
    pub after_cmd: Option<String>,
    /// Milliseconds to wait before spawning the after command.
    pub after_timeout: u64,
}

impl Options {
    /// Options with every flag at its default.
    pub fn defaults() -> (r: Options)
        ensures
            !r.hide_cursor,
            r.before_cmd is None,
            r.after_cmd is None,
            r.before_timeout == 0,
            r.after_timeout == 0,
    {
        Options {
            hide_cursor: false,
            before_cmd: None,
            before_timeout: 0,
            after_cmd: None,
            after_timeout: 0,
        }
    }
}

/// Where the orchestrator stands in the run.
#[derive(Clone, Copy, Debug, PartialEq, Eq, Structural)]
pub enum Phase {
    /// Capabilities and outputs are being discovered.
    Registry,
    /// Waiting for every output's logical geometry.
    AwaitGeometry,
    /// Capture jobs issued; waiting for every frame.
    AwaitFrames,
    /// Overlay surfaces created; waiting for every configure.
    AwaitConfigure,
    /// The screen is frozen; waiting for an exit trigger.
    Live,
}

/// A condition that aborts the run.
#[derive(Clone, Copy, Debug, PartialEq, Eq, Structural)]
pub enum FatalError {
    /// No output was discovered in the initial round-trip.
    NoOutputs,
    /// A required capability was never advertised, or was revoked.
    CapabilityMissing(CapKind),
    /// An output lacks data that the current step expects.
    OutputIncomplete(usize),
}

} // verus!
