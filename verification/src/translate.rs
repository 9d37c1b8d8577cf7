//! The backend thread driver's per-callback decision.
//!
//! For every native event the backend pushes, the driver performs a total
//! mapping to the wire form (every raw variant maps to exactly one
//! [`BackendEvent`] variant, with the explicit ignored sentinel for the
//! rest), mirrors keyboard input to a single-slot legacy channel, and
//! decides whether the native loop keeps polling or terminates. The driver
//! polls the rendezvous channel before each event; the loop terminates
//! exactly when the exit signal was present.

use vstd::prelude::*;
use crate::events::{
    BackendEvent, KeyboardInput, MouseScrollUnit, MouseWheelInput, RawEvent, RawWindowDetail,
    WindowEventKind,
};

verus! {

/// What the driver tells the native loop to do next.
#[derive(Clone, Copy, Debug, PartialEq, Eq)]
pub enum ControlDirective {
    /// Keep running and poll for the next event.
    Poll,
    /// Leave the native loop; no further events are enqueued.
    Terminate,
}

/// The driver's decision for one callback invocation.
#[derive(Clone, Debug, PartialEq)]
pub struct DriverStep {
    pub control: ControlDirective,
    /// The translated event to enqueue on the cross-thread channel.
    pub enqueue: BackendEvent,
    /// Keyboard input additionally mirrored to the legacy single-slot
    /// channel for the deprecated polling consumer.
    pub mirror: Option<KeyboardInput>,
}

/// The total mapping from a raw per-window event to its wire form.
pub open spec fn spec_translate_window(detail: RawWindowDetail) -> WindowEventKind {
    match detail {
        RawWindowDetail::Resized { width, height } => WindowEventKind::Resized { width, height },
        RawWindowDetail::CloseRequested => WindowEventKind::CloseRequested,
        RawWindowDetail::KeyboardInput { input } => WindowEventKind::KeyboardInput { input },
        RawWindowDetail::CursorMoved { x, y } => WindowEventKind::CursorMoved { x, y },
        RawWindowDetail::CursorEntered => WindowEventKind::CursorEntered,
        RawWindowDetail::CursorLeft => WindowEventKind::CursorLeft,
        RawWindowDetail::MouseInput { input } => WindowEventKind::MouseInput { input },
        RawWindowDetail::MouseWheelLine { x_bits, y_bits } => WindowEventKind::MouseWheel {
            wheel: MouseWheelInput { unit: MouseScrollUnit::Line, x_bits, y_bits },
        },
        RawWindowDetail::MouseWheelPixel { x_bits, y_bits } => WindowEventKind::MouseWheel {
            wheel: MouseWheelInput { unit: MouseScrollUnit::Pixel, x_bits, y_bits },
        },
        RawWindowDetail::Touch { touch } => WindowEventKind::Touch { touch },
        RawWindowDetail::ReceivedCharacter { ch } => WindowEventKind::ReceivedCharacter { ch },
        RawWindowDetail::ScaleFactorChanged { scale_factor, width, height } =>
            WindowEventKind::ScaleFactorChanged { scale_factor, width, height },
        RawWindowDetail::Focused { focused } => WindowEventKind::Focused { focused },
        RawWindowDetail::DroppedFile { path } => WindowEventKind::DroppedFile { path },
        RawWindowDetail::HoveredFile { path } => WindowEventKind::HoveredFile { path },
        RawWindowDetail::HoveredFileCancelled => WindowEventKind::HoveredFileCancelled,
        RawWindowDetail::Moved { x, y } => WindowEventKind::Moved { x, y },
        RawWindowDetail::Other => WindowEventKind::Ignored,
    }
}

/// The total mapping from a raw native event to the wire form.
pub open spec fn spec_translate(raw: RawEvent) -> BackendEvent {
    match raw {
        RawEvent::Window { backend_id, detail } => BackendEvent::WindowEvent {
            event: spec_translate_window(detail),
            backend_id,
        },
        RawEvent::DeviceMouseMotion { dx_bits, dy_bits } => BackendEvent::MouseMotion {
            dx_bits,
            dy_bits,
        },
        RawEvent::MainEventsCleared { target } => BackendEvent::MainEventsCleared { target },
        RawEvent::Other => BackendEvent::Ignored,
    }
}

/// The keyboard input mirrored to the legacy channel, if the event carries
/// one.
pub open spec fn spec_mirror(raw: RawEvent) -> Option<KeyboardInput> {
    match raw {
        RawEvent::Window { backend_id: _, detail: RawWindowDetail::KeyboardInput { input } } =>
            Some(input),
        _ => None,
    }
}

/// The control directive for this callback: terminate exactly when the
/// exit signal was present on the rendezvous channel.
pub open spec fn spec_control(exit_signal_present: bool) -> ControlDirective {
    if exit_signal_present {
        ControlDirective::Terminate
    } else {
        ControlDirective::Poll
    }
}

/// The wire events a whole driver run enqueues, given the per-callback
/// exit-poll results alongside the native events: one translated event per
/// callback, up to and including the first callback that observes the exit
/// signal — that callback still enqueues its event, then the loop exits
/// and nothing follows.
pub open spec fn spec_driver_enqueued(polls: Seq<bool>, raws: Seq<RawEvent>) -> Seq<BackendEvent>
    recommends
        polls.len() == raws.len(),
    decreases raws.len(),
{
    if raws.len() == 0 || polls.len() == 0 {
        Seq::empty()
    } else if polls[0] {
        seq![spec_translate(raws[0])]
    } else {
        seq![spec_translate(raws[0])] + spec_driver_enqueued(
            polls.drop_first(),
            raws.drop_first(),
        )
    }
}

/// One driver callback: poll result in hand, translate the native event,
/// extract the keyboard mirror, and pick the control directive.
pub fn driver_step(exit_signal_present: bool, raw: RawEvent) -> (s: DriverStep)
    ensures
        s.control == spec_control(exit_signal_present),
        s.enqueue == spec_translate(raw),
        s.mirror == spec_mirror(raw),
        raw.wf() ==> s.enqueue.wf(),
{
    let control = if exit_signal_present {
        ControlDirective::Terminate
    } else {
        ControlDirective::Poll
    };
    let mirror = match &raw {
        RawEvent::Window { backend_id: _, detail: RawWindowDetail::KeyboardInput { input } } =>
            Some(*input),
        _ => None,
    };
    let enqueue = translate_raw_event(raw);
    DriverStep { control, enqueue, mirror }
}

/// Translate one raw native event into its wire form.
pub fn translate_raw_event(raw: RawEvent) -> (e: BackendEvent)
    ensures
        e == spec_translate(raw),
        raw.wf() ==> e.wf(),
{
    match raw {
        RawEvent::Window { backend_id, detail } => {
            let event = match detail {
                RawWindowDetail::Resized { width, height } => WindowEventKind::Resized {
                    width,
                    height,
                },
                RawWindowDetail::CloseRequested => WindowEventKind::CloseRequested,
                RawWindowDetail::KeyboardInput { input } => WindowEventKind::KeyboardInput {
                    input,
                },
                RawWindowDetail::CursorMoved { x, y } => WindowEventKind::CursorMoved { x, y },
                RawWindowDetail::CursorEntered => WindowEventKind::CursorEntered,
                RawWindowDetail::CursorLeft => WindowEventKind::CursorLeft,
                RawWindowDetail::MouseInput { input } => WindowEventKind::MouseInput { input },
                RawWindowDetail::MouseWheelLine { x_bits, y_bits } => WindowEventKind::MouseWheel {
                    wheel: MouseWheelInput { unit: MouseScrollUnit::Line, x_bits, y_bits },
                },
                RawWindowDetail::MouseWheelPixel { x_bits, y_bits } => WindowEventKind::MouseWheel {
                    wheel: MouseWheelInput { unit: MouseScrollUnit::Pixel, x_bits, y_bits },
                },
                RawWindowDetail::Touch { touch } => WindowEventKind::Touch { touch },
                RawWindowDetail::ReceivedCharacter { ch } => WindowEventKind::ReceivedCharacter {
                    ch,
                },
                RawWindowDetail::ScaleFactorChanged { scale_factor, width, height } =>
                    WindowEventKind::ScaleFactorChanged { scale_factor, width, height },
                RawWindowDetail::Focused { focused } => WindowEventKind::Focused { focused },
                RawWindowDetail::DroppedFile { path } => WindowEventKind::DroppedFile { path },
                RawWindowDetail::HoveredFile { path } => WindowEventKind::HoveredFile { path },
                RawWindowDetail::HoveredFileCancelled => WindowEventKind::HoveredFileCancelled,
                RawWindowDetail::Moved { x, y } => WindowEventKind::Moved { x, y },
                RawWindowDetail::Other => WindowEventKind::Ignored,
            };
            BackendEvent::WindowEvent { event, backend_id }
        },
        RawEvent::DeviceMouseMotion { dx_bits, dy_bits } => BackendEvent::MouseMotion {
            dx_bits,
            dy_bits,
        },
        RawEvent::MainEventsCleared { target } => BackendEvent::MainEventsCleared { target },
        RawEvent::Other => BackendEvent::Ignored,
    }
}

} // verus!
