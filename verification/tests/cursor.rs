use fps_core::player::{manage_cursor, ControllerState, GrabMode, WindowState};

fn locked_window() -> WindowState {
    WindowState { grab_mode: GrabMode::Locked, cursor_visible: false }
}

#[test]
fn no_escape_changes_nothing() {
    let mut window = locked_window();
    let mut controllers = vec![ControllerState { enable_input: true }];
    manage_cursor(&mut window, &mut controllers, false);
    assert_eq!(window, locked_window());
    assert!(controllers[0].enable_input);
}

#[test]
fn escape_releases_a_locked_cursor() {
    let mut window = locked_window();
    let mut controllers = vec![
        ControllerState { enable_input: true },
        ControllerState { enable_input: true },
    ];
    manage_cursor(&mut window, &mut controllers, true);
    assert_eq!(window.grab_mode, GrabMode::Released);
    assert!(window.cursor_visible);
    assert!(controllers.iter().all(|c| !c.enable_input));
}

#[test]
fn escape_locks_a_released_cursor() {
    let mut window = WindowState { grab_mode: GrabMode::Released, cursor_visible: true };
    let mut controllers = vec![ControllerState { enable_input: false }];
    manage_cursor(&mut window, &mut controllers, true);
    assert_eq!(window.grab_mode, GrabMode::Locked);
    assert!(!window.cursor_visible);
    assert!(controllers[0].enable_input);
}

#[test]
fn capture_and_input_always_toggle_together() {
    let mut window = locked_window();
    let mut controllers = vec![ControllerState { enable_input: true }];
    for _ in 0..5 {
        manage_cursor(&mut window, &mut controllers, true);
        let captured = window.grab_mode == GrabMode::Locked;
        assert_eq!(window.cursor_visible, !captured);
        assert_eq!(controllers[0].enable_input, captured);
    }
}
