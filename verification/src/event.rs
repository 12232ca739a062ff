//! Decoded protocol events, as the transport hands them to the state
//! machine, and the requests the state machine hands back.

use vstd::prelude::*;
use crate::types::{CapKind, Transform, MAX_DIM};

verus! {

/// The symbolic key code the keymap resolves the Escape key to.
pub const KEYSYM_ESCAPE: u32 = 0xff1b;

/// What an advertised global turned out to be.
#[derive(Clone, Copy, Debug, PartialEq, Eq, Structural)]
pub enum GlobalKind {
    /// One of the eight required capabilities.
    Capability(CapKind),
    /// A monitor.
    Output,
    /// An interface this client has no use for.
    Other,
}

/// One decoded event from the server, with object identity reduced to the
/// owning output's index where the object is per-output.
#[derive(Clone, Copy, Debug)]
pub enum Event {
    /// A global was advertised.
    Global { name: u32, kind: GlobalKind },
    /// A previously advertised global was revoked.
    GlobalRemove { name: u32 },
    /// An output reported a physical mode.
    OutputMode { index: usize, width: u32, height: u32 },
    /// An output reported its buffer transform.
    OutputTransform { index: usize, transform: Transform },
    /// The logical-geometry query for an output answered.
    LogicalSize { index: usize, width: u32, height: u32 },
    /// A capture job reported the buffer parameters it needs.
    /// `format_ok` is whether the reported pixel format was recognized.
    CaptureBuffer { index: usize, width: u32, height: u32, stride: u32, format_ok: bool },
    /// A capture job reported all buffer parameters as sent.
    CaptureBufferDone { index: usize },
    /// A capture copy completed.
    CaptureReady { index: usize },
    /// A capture failed.
    CaptureFailed { index: usize },
    /// An overlay surface received a configure to acknowledge.
    SurfaceConfigure { index: usize, serial: u32 },
    /// The server closed an overlay surface.
    SurfaceClosed { index: usize },
    /// The server stated a preferred scale, in 1/120ths.
    PreferredScale { index: usize, scale: u32 },
    /// The keyboard delivered a keymap description.
    /// `format_ok` is whether the description is in the supported format.
    Keymap { format_ok: bool },
    /// A key was pressed or released.  `sym` is the symbolic key the
    /// compiled keymap resolved it to; `None` while no keymap is compiled.
    Key { sym: Option<u32>, pressed: bool },
    /// A pointer button was pressed or released.
    PointerButton { released: bool },
}

impl Event {
    /// Bounds the transport guarantees: sizes arrive as non-negative
    /// signed 32-bit quantities.
    pub open spec fn wf(self) -> bool {
        match self {
            Event::OutputMode { width, height, .. } => width <= MAX_DIM && height <= MAX_DIM,
            Event::LogicalSize { width, height, .. } => width <= MAX_DIM && height <= MAX_DIM,
            _ => true,
        }
    }
}

/// One request for the transport to issue, in the order returned.
#[derive(Clone, Copy, Debug, PartialEq, Eq, Structural)]
pub enum Action {
    /// Bind the advertised capability global `name` as `kind`.
    BindCapability { kind: CapKind, name: u32 },
    /// Bind the advertised output global `name` under `index`.
    BindOutput { name: u32, index: usize },
    /// Request the seat's pointer.
    GetPointer,
    /// Request the seat's keyboard.
    GetKeyboard,
    /// Issue a logical-geometry query for the output.
    GetXdgOutput { index: usize },
    /// Create the output's presentation surface.
    CreateSurface { index: usize },
    /// Create a shared-memory pool of exactly `size` bytes for the output.
    CreatePool { index: usize, size: u64 },
    /// Request a capture job for the output.
    CaptureOutput { index: usize, include_cursor: bool },
    /// Carve a buffer spanning the output's whole pool at offset zero.
    CreateBuffer { index: usize, width: u32, height: u32, stride: u32 },
    /// Submit the capture copy into the output's buffer.
    CopyFrame { index: usize },
    /// Acknowledge the overlay surface's configure.
    AckConfigure { index: usize, serial: u32 },
    /// Commit the output's presentation surface.
    CommitSurface { index: usize },
    /// Attach the output's captured buffer to its surface.
    AttachBuffer { index: usize },
    /// Set the surface's buffer scale.
    SetBufferScale { index: usize, scale: u32 },
    /// Set the surface's buffer transform.
    SetBufferTransform { index: usize, transform: Transform },
    /// Map the full logical extent onto the same logical extent.
    SetViewport { index: usize, width: u32, height: u32 },
    /// Resize the overlay surface to the logical size.
    SetLayerSize { index: usize, width: u32, height: u32 },
    /// Create the output's full-screen overlay surface: anchored to all
    /// four edges, exclusive zone extended, keyboard grab exclusive.
    CreateLayerSurface { index: usize },
    /// Create the crop-and-scale viewport for the output's surface.
    CreateViewport { index: usize },
    /// Subscribe to preferred-scale notifications for the surface.
    SubscribeScale { index: usize },
    /// Destroy the output's overlay surface.
    DestroyLayerSurface { index: usize },
    /// Compile the delivered keymap description.
    CompileKeymap,
}

} // verus!
