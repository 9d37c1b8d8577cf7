//! The event types that cross the bridge.
//!
//! Three closed families, one per stage of the flow:
//! - [`RawEvent`]: what the backend callback hands the driver, already
//!   reduced to plain values (scalar payloads such as wheel deltas travel as
//!   `f32` bit patterns; the core never interprets them).
//! - [`BackendEvent`]: the wire form enqueued on the cross-thread channel,
//!   with an explicit [`BackendEvent::Ignored`] sentinel for native events
//!   the core intentionally drops.
//! - [`AppEvent`]: the typed events republished to the application bus by
//!   the drain step.

use vstd::prelude::*;
use crate::geometry::ScaleFactor;

verus! {

/// Whether a key or button went down or up.
#[derive(Clone, Copy, Debug, PartialEq, Eq)]
pub enum ElementState {
    Pressed,
    Released,
}

/// A keyboard event, already translated to application key codes.
#[derive(Clone, Copy, Debug, PartialEq, Eq)]
pub struct KeyboardInput {
    pub scan_code: u32,
    pub key_code: Option<u32>,
    pub state: ElementState,
}

/// A mouse button, with a catch-all for extra buttons.
#[derive(Clone, Copy, Debug, PartialEq, Eq)]
pub enum MouseButton {
    Left,
    Right,
    Middle,
    Other(u16),
}

/// A mouse button press or release.
#[derive(Clone, Copy, Debug, PartialEq, Eq)]
pub struct MouseButtonInput {
    pub button: MouseButton,
    pub state: ElementState,
}

/// The unit a scroll delta is measured in.
#[derive(Clone, Copy, Debug, PartialEq, Eq)]
pub enum MouseScrollUnit {
    Line,
    Pixel,
}

/// A scroll event; the deltas are `f32` bit patterns, opaque to the core.
#[derive(Clone, Copy, Debug, PartialEq, Eq)]
pub struct MouseWheelInput {
    pub unit: MouseScrollUnit,
    pub x_bits: u32,
    pub y_bits: u32,
}

/// The lifecycle phase of a touch point.
#[derive(Clone, Copy, Debug, PartialEq, Eq)]
pub enum TouchPhase {
    Started,
    Moved,
    Ended,
    Cancelled,
}

/// A touch as the backend reports it: physical pixels, origin top-left.
#[derive(Clone, Copy, Debug, PartialEq, Eq)]
pub struct RawTouch {
    pub phase: TouchPhase,
    pub x: u32,
    pub y: u32,
    pub finger_id: u64,
}

/// A touch as the application sees it: logical units, and on platforms whose
/// touch origin is the top edge, flipped to the bottom-left origin.
#[derive(Clone, Copy, Debug, PartialEq, Eq)]
pub struct TouchInput {
    pub phase: TouchPhase,
    pub x: i64,
    pub y: i64,
    pub finger_id: u64,
}

/// A native window event, reduced to plain values by the callback shim.
#[derive(Clone, Debug, PartialEq, Eq)]
pub enum RawWindowDetail {
    Resized { width: u32, height: u32 },
    CloseRequested,
    KeyboardInput { input: KeyboardInput },
    /// Cursor position in physical pixels, origin top-left.
    CursorMoved { x: u32, y: u32 },
    CursorEntered,
    CursorLeft,
    MouseInput { input: MouseButtonInput },
    MouseWheelLine { x_bits: u32, y_bits: u32 },
    MouseWheelPixel { x_bits: u32, y_bits: u32 },
    Touch { touch: RawTouch },
    ReceivedCharacter { ch: char },
    ScaleFactorChanged { scale_factor: ScaleFactor, width: u32, height: u32 },
    Focused { focused: bool },
    DroppedFile { path: String },
    HoveredFile { path: String },
    HoveredFileCancelled,
    Moved { x: i32, y: i32 },
    /// Any native window event the bridge does not carry.
    Other,
}

/// A native event as the driver receives it from the backend callback.
#[derive(Clone, Debug, PartialEq, Eq)]
pub enum RawEvent {
    Window { backend_id: u64, detail: RawWindowDetail },
    /// Relative mouse motion, not tied to a window; `f32` bit patterns.
    DeviceMouseMotion { dx_bits: u32, dy_bits: u32 },
    /// The backend finished a burst of events; `target` is the call-scoped
    /// token for its current loop context, valid for one drain step only.
    MainEventsCleared { target: u64 },
    /// Any other native event.
    Other,
}

/// A per-window event on the wire, mirroring [`RawWindowDetail`] with the
/// two wheel shapes merged and the catch-all mapped to [`Self::Ignored`].
#[derive(Clone, Debug, PartialEq, Eq)]
pub enum WindowEventKind {
    Resized { width: u32, height: u32 },
    CloseRequested,
    KeyboardInput { input: KeyboardInput },
    CursorMoved { x: u32, y: u32 },
    CursorEntered,
    CursorLeft,
    MouseInput { input: MouseButtonInput },
    MouseWheel { wheel: MouseWheelInput },
    Touch { touch: RawTouch },
    ReceivedCharacter { ch: char },
    ScaleFactorChanged { scale_factor: ScaleFactor, width: u32, height: u32 },
    Focused { focused: bool },
    DroppedFile { path: String },
    HoveredFile { path: String },
    HoveredFileCancelled,
    Moved { x: i32, y: i32 },
    /// The sentinel for native window events the core intentionally ignores.
    Ignored,
}

impl RawWindowDetail {
    /// The one payload with a constraint: a reported scale factor must be
    /// a meaningful ratio.
    pub open spec fn wf(self) -> bool {
        match self {
            RawWindowDetail::ScaleFactorChanged { scale_factor, width: _, height: _ } =>
                scale_factor.wf(),
            _ => true,
        }
    }
}

impl RawEvent {
    pub open spec fn wf(self) -> bool {
        match self {
            RawEvent::Window { backend_id: _, detail } => detail.wf(),
            _ => true,
        }
    }
}

impl WindowEventKind {
    /// The one payload with a constraint: a reported scale factor must be
    /// a meaningful ratio.
    pub open spec fn wf(self) -> bool {
        match self {
            WindowEventKind::ScaleFactorChanged { scale_factor, width: _, height: _ } =>
                scale_factor.wf(),
            _ => true,
        }
    }
}

/// The wire form crossing the channel from the backend thread to the
/// application thread.
#[derive(Clone, Debug, PartialEq, Eq)]
pub enum BackendEvent {
    /// A per-window event, tagged with the originating backend window id.
    WindowEvent { event: WindowEventKind, backend_id: u64 },
    /// Relative mouse motion, not tied to a window.
    MouseMotion { dx_bits: u32, dy_bits: u32 },
    /// Carries the call-scoped loop-context token; see [`RawEvent`].
    MainEventsCleared { target: u64 },
    /// The process-wide wake-up proxy handle, sent once at loop start.
    CreatedProxy { proxy: u64 },
    /// The sentinel for native events the core intentionally ignores.
    Ignored,
}

impl BackendEvent {
    pub open spec fn wf(self) -> bool {
        match self {
            BackendEvent::WindowEvent { event, backend_id: _ } => event.wf(),
            _ => true,
        }
    }
}

/// A typed event republished to the application bus.
#[derive(Clone, Debug, PartialEq, Eq)]
pub enum AppEvent {
    /// New logical size after a backend resize.
    WindowResized { id: u32, width: u32, height: u32 },
    WindowCloseRequested { id: u32 },
    KeyboardInput { input: KeyboardInput },
    /// Cursor position in logical units, origin bottom-left.
    CursorMoved { id: u32, x: i64, y: i64 },
    CursorEntered { id: u32 },
    CursorLeft { id: u32 },
    MouseButtonInput { input: MouseButtonInput },
    MouseWheel { wheel: MouseWheelInput },
    TouchInput { touch: TouchInput },
    ReceivedCharacter { id: u32, ch: char },
    /// Always published when the backend reports a new factor.
    WindowBackendScaleFactorChanged { id: u32, scale_factor: ScaleFactor },
    /// Published only when the factor actually differs from the stored one.
    WindowScaleFactorChanged { id: u32, scale_factor: ScaleFactor },
    WindowFocused { id: u32, focused: bool },
    DroppedFile { id: u32, path: String },
    HoveredFile { id: u32, path: String },
    HoveredFileCancelled { id: u32 },
    WindowMoved { id: u32, x: i32, y: i32 },
    WindowCreated { id: u32 },
    MouseMotion { dx_bits: u32, dy_bits: u32 },
}

} // verus!
