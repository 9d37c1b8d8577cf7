use winit_bridge::events::{
    BackendEvent, ElementState, KeyboardInput, MouseScrollUnit, RawEvent, RawWindowDetail,
    WindowEventKind,
};
use winit_bridge::translate::{driver_step, translate_raw_event, ControlDirective};

fn sample_keyboard() -> KeyboardInput {
    KeyboardInput { scan_code: 30, key_code: Some(4), state: ElementState::Pressed }
}

#[test]
fn window_events_keep_their_backend_id() {
    let raw = RawEvent::Window { backend_id: 7, detail: RawWindowDetail::CloseRequested };
    assert_eq!(
        translate_raw_event(raw),
        BackendEvent::WindowEvent { event: WindowEventKind::CloseRequested, backend_id: 7 }
    );
}

#[test]
fn wheel_deltas_keep_their_unit() {
    let line = RawEvent::Window {
        backend_id: 1,
        detail: RawWindowDetail::MouseWheelLine { x_bits: 10, y_bits: 20 },
    };
    let pixel = RawEvent::Window {
        backend_id: 1,
        detail: RawWindowDetail::MouseWheelPixel { x_bits: 30, y_bits: 40 },
    };
    match translate_raw_event(line) {
        BackendEvent::WindowEvent { event: WindowEventKind::MouseWheel { wheel }, .. } => {
            assert_eq!(wheel.unit, MouseScrollUnit::Line);
            assert_eq!((wheel.x_bits, wheel.y_bits), (10, 20));
        }
        other => panic!("unexpected translation: {:?}", other),
    }
    match translate_raw_event(pixel) {
        BackendEvent::WindowEvent { event: WindowEventKind::MouseWheel { wheel }, .. } => {
            assert_eq!(wheel.unit, MouseScrollUnit::Pixel);
            assert_eq!((wheel.x_bits, wheel.y_bits), (30, 40));
        }
        other => panic!("unexpected translation: {:?}", other),
    }
}

#[test]
fn unknown_events_map_to_the_ignored_sentinel() {
    let raw_window = RawEvent::Window { backend_id: 3, detail: RawWindowDetail::Other };
    assert_eq!(
        translate_raw_event(raw_window),
        BackendEvent::WindowEvent { event: WindowEventKind::Ignored, backend_id: 3 }
    );
    assert_eq!(translate_raw_event(RawEvent::Other), BackendEvent::Ignored);
}

#[test]
fn device_motion_and_loop_markers_translate_directly() {
    assert_eq!(
        translate_raw_event(RawEvent::DeviceMouseMotion { dx_bits: 5, dy_bits: 6 }),
        BackendEvent::MouseMotion { dx_bits: 5, dy_bits: 6 }
    );
    assert_eq!(
        translate_raw_event(RawEvent::MainEventsCleared { target: 99 }),
        BackendEvent::MainEventsCleared { target: 99 }
    );
}

#[test]
fn keyboard_input_is_mirrored_to_the_legacy_channel() {
    let raw = RawEvent::Window {
        backend_id: 2,
        detail: RawWindowDetail::KeyboardInput { input: sample_keyboard() },
    };
    let step = driver_step(false, raw);
    assert_eq!(step.mirror, Some(sample_keyboard()));
    assert_eq!(
        step.enqueue,
        BackendEvent::WindowEvent {
            event: WindowEventKind::KeyboardInput { input: sample_keyboard() },
            backend_id: 2,
        }
    );
}

#[test]
fn non_keyboard_events_are_not_mirrored() {
    let raw = RawEvent::Window { backend_id: 2, detail: RawWindowDetail::CursorEntered };
    assert_eq!(driver_step(false, raw).mirror, None);
}

#[test]
fn driver_polls_without_an_exit_signal() {
    let step = driver_step(false, RawEvent::Other);
    assert_eq!(step.control, ControlDirective::Poll);
}

#[test]
fn driver_terminates_once_the_exit_signal_is_present() {
    // The directive is to terminate whatever event was in flight.
    let during_event = driver_step(
        true,
        RawEvent::Window { backend_id: 4, detail: RawWindowDetail::CloseRequested },
    );
    assert_eq!(during_event.control, ControlDirective::Terminate);
    let idle = driver_step(true, RawEvent::Other);
    assert_eq!(idle.control, ControlDirective::Terminate);
}
