use winit_bridge::create::install_created_window;
use winit_bridge::dispatch::{run_drain_cycle, DispatchConfig};
use winit_bridge::events::{
    AppEvent, BackendEvent, ElementState, KeyboardInput, MouseButton, MouseButtonInput, RawTouch,
    TouchPhase, WindowEventKind,
};
use winit_bridge::geometry::ScaleFactor;
use winit_bridge::window::{Window, WindowMode};
use winit_bridge::{CoreState, WinitPlugin};

fn flat() -> DispatchConfig {
    DispatchConfig { touch_origin_top: false }
}

fn mobile() -> DispatchConfig {
    DispatchConfig { touch_origin_top: true }
}

/// A fresh state with one window: application id, backend id, handle.
fn state_with_window(id: u32, backend_id: u64, handle: u64) -> CoreState {
    let mut state = WinitPlugin::new(false).build();
    // 800x600 physical at factor 2/1: logical size 400x300.
    let w = Window::new(id, WindowMode::Windowed, 800, 600, ScaleFactor::new(2, 1), None);
    let ev = install_created_window(&mut state.store, &mut state.registry, w, backend_id, handle);
    assert_eq!(ev, AppEvent::WindowCreated { id });
    state
}

fn keyboard() -> KeyboardInput {
    KeyboardInput { scan_code: 17, key_code: Some(26), state: ElementState::Released }
}

#[test]
fn events_are_republished_in_arrival_order() {
    let mut state = state_with_window(0, 10, 100);
    let events = vec![
        BackendEvent::WindowEvent { event: WindowEventKind::CursorEntered, backend_id: 10 },
        BackendEvent::MouseMotion { dx_bits: 1, dy_bits: 2 },
        BackendEvent::WindowEvent {
            event: WindowEventKind::KeyboardInput { input: keyboard() },
            backend_id: 10,
        },
        BackendEvent::WindowEvent { event: WindowEventKind::CloseRequested, backend_id: 10 },
    ];
    let out = run_drain_cycle(&mut state.store, &mut state.proxy, &state.registry, flat(), events);
    assert_eq!(
        out.published,
        vec![
            AppEvent::CursorEntered { id: 0 },
            AppEvent::MouseMotion { dx_bits: 1, dy_bits: 2 },
            AppEvent::KeyboardInput { input: keyboard() },
            AppEvent::WindowCloseRequested { id: 0 },
        ]
    );
    assert!(out.warnings.is_empty());
}

#[test]
fn unknown_backend_id_skips_only_that_event() {
    let mut state = state_with_window(0, 10, 100);
    let events = vec![
        BackendEvent::WindowEvent { event: WindowEventKind::CursorEntered, backend_id: 77 },
        BackendEvent::WindowEvent { event: WindowEventKind::CloseRequested, backend_id: 10 },
    ];
    let out = run_drain_cycle(&mut state.store, &mut state.proxy, &state.registry, flat(), events);
    // The second event is still published; the first leaves only a warning.
    assert_eq!(out.published, vec![AppEvent::WindowCloseRequested { id: 0 }]);
    assert_eq!(out.warnings, vec![77]);
}

#[test]
fn missing_window_entity_also_skips_only_that_event() {
    let mut state = state_with_window(0, 10, 100);
    // A backend id registered to an application id with no window entity.
    state.registry.register(5, 50, 500);
    let events = vec![
        BackendEvent::WindowEvent { event: WindowEventKind::CursorLeft, backend_id: 50 },
        BackendEvent::WindowEvent { event: WindowEventKind::CursorLeft, backend_id: 10 },
    ];
    let out = run_drain_cycle(&mut state.store, &mut state.proxy, &state.registry, flat(), events);
    assert_eq!(out.published, vec![AppEvent::CursorLeft { id: 0 }]);
    assert_eq!(out.warnings, vec![50]);
}

#[test]
fn window_creation_round_trip() {
    let mut state = WinitPlugin::new(false).build();
    let w = Window::new(3, WindowMode::Windowed, 640, 480, ScaleFactor::new(1, 1), None);
    let ev = install_created_window(&mut state.store, &mut state.registry, w, 30, 300);
    // Exactly one WindowCreated for the requested id, and the registry
    // serves the installed handle and pairing back.
    assert_eq!(ev, AppEvent::WindowCreated { id: 3 });
    assert_eq!(state.registry.get_window(3), Some(300));
    assert_eq!(state.registry.get_window_id(30), Some(3));
    assert_eq!(state.registry.get_backend_id(3), Some(30));
    assert_eq!(state.store.find_index(3), Some(0));
}

#[test]
fn resize_updates_physical_and_republishes_logical() {
    let mut state = state_with_window(0, 10, 100);
    let events = vec![BackendEvent::WindowEvent {
        event: WindowEventKind::Resized { width: 1000, height: 500 },
        backend_id: 10,
    }];
    let out = run_drain_cycle(&mut state.store, &mut state.proxy, &state.registry, flat(), events);
    // Factor 2/1: logical = physical / 2.
    assert_eq!(out.published, vec![AppEvent::WindowResized { id: 0, width: 500, height: 250 }]);
    assert_eq!(state.store.windows[0].physical_width, 1000);
    assert_eq!(state.store.windows[0].physical_height, 500);
}

#[test]
fn cursor_moves_are_converted_and_flipped() {
    let mut state = state_with_window(0, 10, 100);
    let events = vec![BackendEvent::WindowEvent {
        event: WindowEventKind::CursorMoved { x: 100, y: 100 },
        backend_id: 10,
    }];
    let out = run_drain_cycle(&mut state.store, &mut state.proxy, &state.registry, flat(), events);
    // Physical (100,100) at factor 2/1 is logical (50,50); the logical
    // height is 300, so the bottom-left origin puts y at 250.
    assert_eq!(out.published, vec![AppEvent::CursorMoved { id: 0, x: 50, y: 250 }]);
    let cursor = state.store.windows[0].cursor_position.unwrap();
    assert_eq!((cursor.x, cursor.y), (50, 250));
}

#[test]
fn equal_scale_factor_report_publishes_only_the_backend_event() {
    let mut state = state_with_window(0, 10, 100);
    let events = vec![BackendEvent::WindowEvent {
        event: WindowEventKind::ScaleFactorChanged {
            scale_factor: ScaleFactor::new(4, 2), // same value as the stored 2/1
            width: 800,
            height: 600,
        },
        backend_id: 10,
    }];
    let out = run_drain_cycle(&mut state.store, &mut state.proxy, &state.registry, flat(), events);
    assert_eq!(out.published.len(), 1);
    assert!(matches!(
        out.published[0],
        AppEvent::WindowBackendScaleFactorChanged { id: 0, .. }
    ));
}

#[test]
fn changed_scale_factor_publishes_the_change_and_the_old_size_resize() {
    let mut state = state_with_window(0, 10, 100);
    let events = vec![BackendEvent::WindowEvent {
        event: WindowEventKind::ScaleFactorChanged {
            scale_factor: ScaleFactor::new(1, 1),
            width: 640,
            height: 480,
        },
        backend_id: 10,
    }];
    let out = run_drain_cycle(&mut state.store, &mut state.proxy, &state.registry, flat(), events);
    assert_eq!(out.published.len(), 3);
    assert!(matches!(
        out.published[0],
        AppEvent::WindowBackendScaleFactorChanged { id: 0, .. }
    ));
    assert!(matches!(out.published[1], AppEvent::WindowScaleFactorChanged { id: 0, .. }));
    // The resize event reports the old physical size under the new factor:
    // 800x600 at 1/1.
    assert_eq!(out.published[2], AppEvent::WindowResized { id: 0, width: 800, height: 600 });
    // Afterwards the stored factor and physical size are the reported ones.
    assert!(state.store.windows[0].scale_factor.eq_value(ScaleFactor::new(1, 1)));
    assert_eq!(state.store.windows[0].physical_width, 640);
    assert_eq!(state.store.windows[0].physical_height, 480);
}

#[test]
fn focus_and_moves_update_the_window() {
    let mut state = state_with_window(0, 10, 100);
    let events = vec![
        BackendEvent::WindowEvent {
            event: WindowEventKind::Focused { focused: true },
            backend_id: 10,
        },
        BackendEvent::WindowEvent {
            event: WindowEventKind::Moved { x: -5, y: 25 },
            backend_id: 10,
        },
    ];
    let out = run_drain_cycle(&mut state.store, &mut state.proxy, &state.registry, flat(), events);
    assert_eq!(
        out.published,
        vec![
            AppEvent::WindowFocused { id: 0, focused: true },
            AppEvent::WindowMoved { id: 0, x: -5, y: 25 },
        ]
    );
    assert!(state.store.windows[0].focused);
    let pos = state.store.windows[0].position.unwrap();
    assert_eq!((pos.x, pos.y), (-5, 25));
}

#[test]
fn file_drag_and_drop_carries_the_path() {
    let mut state = state_with_window(0, 10, 100);
    let events = vec![
        BackendEvent::WindowEvent {
            event: WindowEventKind::HoveredFile { path: String::from("/tmp/a.png") },
            backend_id: 10,
        },
        BackendEvent::WindowEvent {
            event: WindowEventKind::DroppedFile { path: String::from("/tmp/a.png") },
            backend_id: 10,
        },
        BackendEvent::WindowEvent {
            event: WindowEventKind::HoveredFileCancelled,
            backend_id: 10,
        },
    ];
    let out = run_drain_cycle(&mut state.store, &mut state.proxy, &state.registry, flat(), events);
    assert_eq!(
        out.published,
        vec![
            AppEvent::HoveredFile { id: 0, path: String::from("/tmp/a.png") },
            AppEvent::DroppedFile { id: 0, path: String::from("/tmp/a.png") },
            AppEvent::HoveredFileCancelled { id: 0 },
        ]
    );
}

#[test]
fn touch_is_converted_without_a_flip_on_flat_platforms() {
    let mut state = state_with_window(0, 10, 100);
    let events = vec![BackendEvent::WindowEvent {
        event: WindowEventKind::Touch {
            touch: RawTouch { phase: TouchPhase::Started, x: 100, y: 40, finger_id: 8 },
        },
        backend_id: 10,
    }];
    let out = run_drain_cycle(&mut state.store, &mut state.proxy, &state.registry, flat(), events);
    match &out.published[..] {
        [AppEvent::TouchInput { touch }] => {
            assert_eq!(touch.phase, TouchPhase::Started);
            assert_eq!((touch.x, touch.y), (50, 20));
            assert_eq!(touch.finger_id, 8);
        }
        other => panic!("unexpected publications: {:?}", other),
    }
}

#[test]
fn touch_is_flipped_against_the_primary_height_on_mobile_platforms() {
    // Window 0 is the primary window; logical height 300.
    let mut state = state_with_window(0, 10, 100);
    let events = vec![BackendEvent::WindowEvent {
        event: WindowEventKind::Touch {
            touch: RawTouch { phase: TouchPhase::Moved, x: 100, y: 40, finger_id: 8 },
        },
        backend_id: 10,
    }];
    let out = run_drain_cycle(&mut state.store, &mut state.proxy, &state.registry, mobile(), events);
    match &out.published[..] {
        [AppEvent::TouchInput { touch }] => {
            // Logical (50,20), flipped: y = 300 - 20 = 280.
            assert_eq!((touch.x, touch.y), (50, 280));
        }
        other => panic!("unexpected publications: {:?}", other),
    }
}

#[test]
fn flipped_touch_without_a_primary_window_is_skipped() {
    // The only window is not the primary one.
    let mut state = WinitPlugin::new(true).build();
    let w = Window::new(6, WindowMode::Windowed, 800, 600, ScaleFactor::new(2, 1), None);
    install_created_window(&mut state.store, &mut state.registry, w, 60, 600);
    let events = vec![BackendEvent::WindowEvent {
        event: WindowEventKind::Touch {
            touch: RawTouch { phase: TouchPhase::Ended, x: 1, y: 2, finger_id: 1 },
        },
        backend_id: 60,
    }];
    let out = run_drain_cycle(&mut state.store, &mut state.proxy, &state.registry, mobile(), events);
    assert!(out.published.is_empty());
    assert_eq!(out.warnings, vec![60]);
}

#[test]
fn mouse_input_passes_through_unchanged() {
    let mut state = state_with_window(0, 10, 100);
    let input = MouseButtonInput { button: MouseButton::Other(9), state: ElementState::Pressed };
    let events = vec![BackendEvent::WindowEvent {
        event: WindowEventKind::MouseInput { input },
        backend_id: 10,
    }];
    let out = run_drain_cycle(&mut state.store, &mut state.proxy, &state.registry, flat(), events);
    assert_eq!(out.published, vec![AppEvent::MouseButtonInput { input }]);
}

#[test]
fn received_characters_carry_the_window_id() {
    let mut state = state_with_window(4, 10, 100);
    let events = vec![BackendEvent::WindowEvent {
        event: WindowEventKind::ReceivedCharacter { ch: 'q' },
        backend_id: 10,
    }];
    let out = run_drain_cycle(&mut state.store, &mut state.proxy, &state.registry, flat(), events);
    assert_eq!(out.published, vec![AppEvent::ReceivedCharacter { id: 4, ch: 'q' }]);
}

#[test]
fn the_last_loop_marker_of_a_tick_wins() {
    let mut state = state_with_window(0, 10, 100);
    let events = vec![
        BackendEvent::MainEventsCleared { target: 11 },
        BackendEvent::Ignored,
        BackendEvent::MainEventsCleared { target: 22 },
    ];
    let out = run_drain_cycle(&mut state.store, &mut state.proxy, &state.registry, flat(), events);
    assert_eq!(out.live_target, Some(22));
    assert!(out.published.is_empty());
}

#[test]
fn a_tick_without_a_loop_marker_records_no_target() {
    let mut state = state_with_window(0, 10, 100);
    let events = vec![BackendEvent::Ignored];
    let out = run_drain_cycle(&mut state.store, &mut state.proxy, &state.registry, flat(), events);
    assert_eq!(out.live_target, None);
}

#[test]
fn the_proxy_handle_is_stored_for_the_whole_run() {
    let mut state = state_with_window(0, 10, 100);
    let events = vec![BackendEvent::CreatedProxy { proxy: 1234 }];
    run_drain_cycle(&mut state.store, &mut state.proxy, &state.registry, flat(), events);
    assert_eq!(state.proxy, Some(1234));
    // A later tick without proxy events keeps it.
    let out = run_drain_cycle(&mut state.store, &mut state.proxy, &state.registry, flat(), vec![]);
    assert_eq!(state.proxy, Some(1234));
    assert!(out.published.is_empty());
}

#[test]
fn an_empty_drain_publishes_nothing() {
    let mut state = state_with_window(0, 10, 100);
    let out = run_drain_cycle(&mut state.store, &mut state.proxy, &state.registry, flat(), vec![]);
    assert!(out.published.is_empty());
    assert!(out.warnings.is_empty());
    assert_eq!(out.live_target, None);
}

#[test]
fn the_exit_signal_is_owed_exactly_when_recorded() {
    assert!(winit_bridge::exit_signal_due(true));
    assert!(!winit_bridge::exit_signal_due(false));
}
