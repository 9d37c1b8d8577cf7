use winit_bridge::geometry::ScaleFactor;
use winit_bridge::registry::WindowRegistry;
use winit_bridge::store::WindowStore;
use winit_bridge::window::{
    ResizeConstraints, SizeBound, Window, WindowCommand, WindowMode, PRIMARY_WINDOW_ID,
};

#[test]
fn the_registry_maps_both_directions() {
    let mut reg = WindowRegistry::new();
    reg.register(1, 11, 111);
    reg.register(2, 22, 222);
    assert_eq!(reg.get_window_id(11), Some(1));
    assert_eq!(reg.get_window_id(22), Some(2));
    assert_eq!(reg.get_backend_id(1), Some(11));
    assert_eq!(reg.get_backend_id(2), Some(22));
    assert_eq!(reg.get_window(1), Some(111));
    assert_eq!(reg.get_window(2), Some(222));
}

#[test]
fn unknown_ids_resolve_to_nothing() {
    let mut reg = WindowRegistry::new();
    reg.register(1, 11, 111);
    assert_eq!(reg.get_window_id(99), None);
    assert_eq!(reg.get_backend_id(99), None);
    assert_eq!(reg.get_window(99), None);
}

#[test]
fn the_store_finds_windows_by_id() {
    let mut store = WindowStore::new();
    store.add(Window::new(5, WindowMode::Windowed, 10, 10, ScaleFactor::new(1, 1), None));
    store.add(Window::new(7, WindowMode::Windowed, 10, 10, ScaleFactor::new(1, 1), None));
    assert_eq!(store.find_index(5), Some(0));
    assert_eq!(store.find_index(7), Some(1));
    assert_eq!(store.find_index(6), None);
}

#[test]
fn the_primary_height_comes_from_the_primary_window() {
    let mut store = WindowStore::new();
    store.add(Window::new(3, WindowMode::Windowed, 100, 100, ScaleFactor::new(1, 1), None));
    assert_eq!(store.primary_logical_height(), None);
    store.add(Window::new(
        PRIMARY_WINDOW_ID,
        WindowMode::Windowed,
        800,
        600,
        ScaleFactor::new(2, 1),
        None,
    ));
    assert_eq!(store.primary_logical_height(), Some(300));
}

#[test]
fn queued_commands_keep_their_order() {
    let mut w = Window::new(1, WindowMode::Windowed, 10, 10, ScaleFactor::new(1, 1), None);
    w.push_command(WindowCommand::SetMaximized { maximized: true });
    w.push_command(WindowCommand::SetMinimized { minimized: false });
    assert_eq!(w.commands.len(), 2);
    assert!(matches!(w.commands[0], WindowCommand::SetMaximized { .. }));
    assert!(matches!(w.commands[1], WindowCommand::SetMinimized { .. }));
}

#[test]
fn constraint_checking_keeps_sane_bounds() {
    let checked = ResizeConstraints {
        min_width: 60,
        min_height: 0,
        max_width: SizeBound::Finite(10),
        max_height: SizeBound::Unbounded,
    }
    .check_constraints();
    assert_eq!(checked.min_width, 60);
    assert_eq!(checked.min_height, 1);
    // A finite maximum below the minimum is raised to it.
    assert_eq!(checked.max_width, SizeBound::Finite(60));
    assert_eq!(checked.max_height, SizeBound::Unbounded);
}

#[test]
fn fresh_windows_start_unfocused_with_no_cursor() {
    let w = Window::new(2, WindowMode::BorderlessFullscreen, 640, 480, ScaleFactor::new(1, 1), None);
    assert!(!w.focused);
    assert!(w.cursor_position.is_none());
    assert!(w.position.is_none());
    assert!(w.commands.is_empty());
    assert_eq!(w.logical_width(), 640);
    assert_eq!(w.logical_height(), 480);
    assert_eq!(w.mode, WindowMode::BorderlessFullscreen);
}
