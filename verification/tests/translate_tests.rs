use glu::{
    DeviceId, Event, EventState, MouseButton, RawDeviceEvent, RawEvent, RawScrollDelta,
    RawWindowEvent, Screen2d, TouchPhase, VirtualKeyCode, WindowId,
};

const WIN: WindowId = WindowId(1);
const DEV: DeviceId = DeviceId(0);

fn base_state() -> EventState {
    let dim = Screen2d::from_physical_u32([800, 600], 1000);
    EventState::new(WIN, dim, 1000)
}

fn window_event(ev: RawWindowEvent) -> RawEvent {
    RawEvent::Window { win_id: WIN, event: ev }
}

fn cursor_moved(x_milli: i64, y_milli: i64) -> RawEvent {
    window_event(RawWindowEvent::CursorMoved { device_id: DEV, x_milli, y_milli })
}

fn mouse_input(pressed: bool, button: MouseButton) -> RawEvent {
    window_event(RawWindowEvent::MouseInput { device_id: DEV, pressed, button })
}

#[test]
fn lifecycle_events_pass_through() {
    let mut st = base_state();
    assert_eq!(st.process_event(RawEvent::Suspended), Event::AppSuspend);
    assert_eq!(st.process_event(RawEvent::Resumed), Event::AppResume);
    assert_eq!(st.process_event(RawEvent::RedrawRequested { win_id: WIN }), Event::Redraw);
    assert_eq!(st.process_event(RawEvent::RedrawEventsCleared), Event::Redraw);
}

#[test]
fn unmapped_shapes_become_placeholder() {
    let mut st = base_state();
    assert_eq!(st.process_event(RawEvent::NewEvents), Event::Placeholder);
    assert_eq!(st.process_event(RawEvent::MainEventsCleared), Event::Placeholder);
    assert_eq!(st.process_event(RawEvent::LoopDestroyed), Event::Placeholder);
    assert_eq!(st.process_event(window_event(RawWindowEvent::ThemeChanged)), Event::Placeholder);
    assert_eq!(st.process_event(window_event(RawWindowEvent::Unsupported)), Event::Placeholder);
}

#[test]
fn text_filtering_through_the_translator() {
    let mut st = base_state();
    // Tab passes through.
    let e = st.process_event(window_event(RawWindowEvent::ReceivedCharacter('\t')));
    assert_eq!(e, Event::KeyText { win_id: WIN, codepoint: '\t', ch: Some('\t') });
    // Carriage return normalizes to line feed.
    let e = st.process_event(window_event(RawWindowEvent::ReceivedCharacter('\r')));
    assert_eq!(e, Event::KeyText { win_id: WIN, codepoint: '\r', ch: Some('\n') });
    // Delete is suppressed.
    let e = st.process_event(window_event(RawWindowEvent::ReceivedCharacter('\u{7f}')));
    assert_eq!(e, Event::KeyText { win_id: WIN, codepoint: '\u{7f}', ch: None });
    // A printable character passes through unchanged.
    let e = st.process_event(window_event(RawWindowEvent::ReceivedCharacter('A')));
    assert_eq!(e, Event::KeyText { win_id: WIN, codepoint: 'A', ch: Some('A') });
    // Other control characters are suppressed.
    let e = st.process_event(window_event(RawWindowEvent::ReceivedCharacter('\u{1b}')));
    assert_eq!(e, Event::KeyText { win_id: WIN, codepoint: '\u{1b}', ch: None });
}

#[test]
fn text_is_suppressed_while_ctrl_is_down() {
    let mut st = base_state();
    st.process_event(window_event(RawWindowEvent::ModifiersChanged {
        shift: false,
        ctrl: true,
        alt: false,
        logo: false,
    }));
    assert!(st.ctrl_down);
    let e = st.process_event(window_event(RawWindowEvent::ReceivedCharacter('A')));
    assert_eq!(e, Event::KeyText { win_id: WIN, codepoint: 'A', ch: None });
}

#[test]
fn modifier_flags_follow_the_backend_report() {
    let mut st = base_state();
    let e = st.process_event(window_event(RawWindowEvent::ModifiersChanged {
        shift: true,
        ctrl: false,
        alt: true,
        logo: false,
    }));
    assert_eq!(e, Event::ModifiersChanged);
    assert!(st.shift_down && !st.ctrl_down && st.alt_down && !st.logo_down);
}

#[test]
fn drag_distance_scenario() {
    let mut st = base_state();
    // Press the left button at logical (10, 10).
    st.process_event(cursor_moved(10_000, 10_000));
    st.process_event(mouse_input(true, MouseButton::Left));
    // Move to (10, 40) while still pressed: drag distance reads (0, 30).
    st.process_event(cursor_moved(10_000, 40_000));
    let d = st.get_mouse_drag_dist().expect("a button is held");
    assert_eq!(d.logical(), [0, 30_000]);
    // Release, move on: no button held, no drag distance.
    st.process_event(mouse_input(false, MouseButton::Left));
    st.process_event(cursor_moved(50_000, 50_000));
    assert_eq!(st.get_mouse_drag_dist(), None);
}

#[test]
fn activity_start_freezes_while_a_button_is_held() {
    let mut st = base_state();
    st.process_event(cursor_moved(5_000, 5_000));
    assert_eq!(st.mouse_activity_start.logical(), [5_000, 5_000]);
    st.process_event(mouse_input(true, MouseButton::Middle));
    st.process_event(cursor_moved(9_000, 9_000));
    assert_eq!(st.mouse_activity_start.logical(), [5_000, 5_000]);
    st.process_event(mouse_input(false, MouseButton::Middle));
    st.process_event(cursor_moved(11_000, 11_000));
    assert_eq!(st.mouse_activity_start.logical(), [11_000, 11_000]);
}

#[test]
fn escape_cancels_held_buttons_without_releasing() {
    let mut st = base_state();
    st.process_event(cursor_moved(10_000, 10_000));
    st.process_event(mouse_input(true, MouseButton::Left));
    st.process_event(mouse_input(true, MouseButton::Right));
    let e = st.process_event(window_event(RawWindowEvent::KeyboardInput {
        device_id: DEV,
        scancode: 1,
        pressed: true,
        vkey: Some(VirtualKeyCode::Escape),
    }));
    assert_eq!(
        e,
        Event::KeyDown { win_id: WIN, device_id: DEV, code: 1, vkey: Some(VirtualKeyCode::Escape) }
    );
    assert!(st.mouse_left.pressed && st.mouse_left.cancelled);
    assert!(st.mouse_right.pressed && st.mouse_right.cancelled);
    assert!(!st.mouse_middle.pressed && !st.mouse_middle.cancelled);
}

#[test]
fn other_keys_do_not_cancel() {
    let mut st = base_state();
    st.process_event(mouse_input(true, MouseButton::Left));
    st.process_event(window_event(RawWindowEvent::KeyboardInput {
        device_id: DEV,
        scancode: 30,
        pressed: true,
        vkey: Some(VirtualKeyCode::Other(30)),
    }));
    assert!(st.mouse_left.pressed && !st.mouse_left.cancelled);
}

#[test]
fn untracked_buttons_change_no_state() {
    let mut st = base_state();
    let e = st.process_event(mouse_input(true, MouseButton::Other(4)));
    assert_eq!(e, Event::MouseDown { win_id: WIN, device_id: DEV, button: MouseButton::Other(4) });
    assert!(!st.is_any_mouse_button_pressed());
}

#[test]
fn resize_updates_the_registry_entry() {
    let mut st = base_state();
    let e = st.process_event(window_event(RawWindowEvent::Resized {
        width_px: 1024,
        height_px: 768,
    }));
    match e {
        Event::WindowResize { win_id, size } => {
            assert_eq!(win_id, WIN);
            assert_eq!(size.logical(), [1_024_000, 768_000]);
        }
        other => panic!("expected a resize event, got {:?}", other),
    }
    assert_eq!(st.windows[0].dim.logical(), [1_024_000, 768_000]);
    assert_eq!(st.primary_win_dim().logical(), [1_024_000, 768_000]);
}

#[test]
fn resize_of_unknown_window_creates_an_entry() {
    let mut st = base_state();
    let other = WindowId(2);
    st.process_event(RawEvent::Window {
        win_id: other,
        event: RawWindowEvent::Resized { width_px: 100, height_px: 50 },
    });
    assert_eq!(st.windows.len(), 2);
    assert_eq!(st.windows[1].id, other);
    assert_eq!(st.windows[1].dim.logical(), [100_000, 50_000]);
    assert_eq!(st.windows[1].hidpi_factor(), 1000);
}

#[test]
fn scale_factor_change_applies_to_later_conversions() {
    let mut st = base_state();
    let e = st.process_event(window_event(RawWindowEvent::ScaleFactorChanged {
        scale_milli: 2000,
    }));
    assert_eq!(e, Event::HiDpiFactorChanged { win_id: WIN, factor_milli: 2000 });
    assert_eq!(st.windows[0].hidpi_factor(), 2000);
    // A cursor at physical 100 px now lands at logical 50 units.
    st.process_event(cursor_moved(100_000, 100_000));
    assert_eq!(st.mouse_pos.logical(), [50_000, 50_000]);
}

#[test]
fn destroyed_window_leaves_the_registry() {
    let mut st = base_state();
    st.process_event(RawEvent::Window {
        win_id: WindowId(2),
        event: RawWindowEvent::Resized { width_px: 10, height_px: 10 },
    });
    let e = st.process_event(window_event(RawWindowEvent::Destroyed));
    assert_eq!(e, Event::WindowDestroyed { win_id: WIN });
    assert_eq!(st.windows.len(), 1);
    assert_eq!(st.windows[0].id, WindowId(2));
}

#[test]
fn cursor_enter_and_leave_toggle_the_flag() {
    let mut st = base_state();
    let e = st.process_event(window_event(RawWindowEvent::CursorEntered { device_id: DEV }));
    assert_eq!(e, Event::MouseWindowEnter { win_id: WIN, device_id: DEV });
    assert!(st.mouse_in_window);
    let e = st.process_event(window_event(RawWindowEvent::CursorLeft { device_id: DEV }));
    assert_eq!(e, Event::MouseWindowLeave { win_id: WIN, device_id: DEV });
    assert!(!st.mouse_in_window);
}

#[test]
fn wheel_line_delta_scales_by_line_height() {
    let mut st = base_state();
    // One line up (1.000 lines) at the default 18-unit line height.
    let e = st.process_event(window_event(RawWindowEvent::MouseWheel {
        device_id: DEV,
        delta: RawScrollDelta::LineDelta { dx_milli: 0, dy_milli: 1000 },
        phase: TouchPhase::Moved,
    }));
    match e {
        Event::MouseWheel { delta, delta_line, phase, .. } => {
            assert_eq!(delta.logical(), [0, 18_000]);
            assert_eq!(delta_line, Some((0, 1000)));
            assert_eq!(phase, TouchPhase::Moved);
        }
        other => panic!("expected a wheel event, got {:?}", other),
    }
}

#[test]
fn wheel_pixel_delta_converts_physical_to_logical() {
    let dim = Screen2d::from_physical_u32([800, 600], 2000);
    let mut st = EventState::new(WIN, dim, 2000);
    let e = st.process_event(window_event(RawWindowEvent::MouseWheel {
        device_id: DEV,
        delta: RawScrollDelta::PixelDelta { x_milli: 10_000, y_milli: -10_000 },
        phase: TouchPhase::Started,
    }));
    match e {
        Event::MouseWheel { delta, delta_line, .. } => {
            assert_eq!(delta.logical(), [5_000, -5_000]);
            assert_eq!(delta_line, None);
        }
        other => panic!("expected a wheel event, got {:?}", other),
    }
}

#[test]
fn file_drop_carries_window_and_path() {
    let mut st = base_state();
    let e = st.process_event(window_event(RawWindowEvent::DroppedFile(String::from(
        "/tmp/example.txt",
    ))));
    assert_eq!(e, Event::FileDrop { win_id: WIN, path: String::from("/tmp/example.txt") });
    let e = st.process_event(window_event(RawWindowEvent::HoveredFileCancelled));
    assert_eq!(e, Event::FileCancel { win_id: WIN });
}

#[test]
fn focus_and_close_events() {
    let mut st = base_state();
    assert_eq!(
        st.process_event(window_event(RawWindowEvent::Focused(true))),
        Event::WindowFocus { win_id: WIN }
    );
    assert_eq!(
        st.process_event(window_event(RawWindowEvent::Focused(false))),
        Event::WindowBlur { win_id: WIN }
    );
    assert_eq!(
        st.process_event(window_event(RawWindowEvent::CloseRequested)),
        Event::WindowClose { win_id: WIN }
    );
}

#[test]
fn device_events_pass_through_unscoped() {
    let mut st = base_state();
    let e = st.process_event(RawEvent::Device {
        device_id: DEV,
        event: RawDeviceEvent::MouseMotion { dx_milli: 1_500, dy_milli: -2_500 },
    });
    assert_eq!(e, Event::MouseMotion { device_id: DEV, delta_x_milli: 1_500, delta_y_milli: -2_500 });
    let e = st.process_event(RawEvent::Device { device_id: DEV, event: RawDeviceEvent::Added });
    assert_eq!(e, Event::DeviceAdded { device_id: DEV });
}

#[test]
fn device_text_is_filtered_without_ctrl_suppression() {
    let mut st = base_state();
    // Even with ctrl held, device-scoped text is filtered by character alone.
    st.process_event(window_event(RawWindowEvent::ModifiersChanged {
        shift: false,
        ctrl: true,
        alt: false,
        logo: false,
    }));
    let e = st.process_event(RawEvent::Device {
        device_id: DEV,
        event: RawDeviceEvent::Text { codepoint: '\r' },
    });
    assert_eq!(e, Event::DeviceText { device_id: DEV, codepoint: '\r', ch: Some('\n') });
}

#[test]
fn device_wheel_uses_primary_window_scale() {
    let dim = Screen2d::from_physical_u32([800, 600], 2000);
    let mut st = EventState::new(WIN, dim, 2000);
    let e = st.process_event(RawEvent::Device {
        device_id: DEV,
        event: RawDeviceEvent::MouseWheel {
            delta: RawScrollDelta::PixelDelta { x_milli: 10_000, y_milli: 0 },
        },
    });
    match e {
        Event::AnywhereMouseWheel { delta, delta_line, .. } => {
            assert_eq!(delta.logical(), [5_000, 0]);
            assert_eq!(delta_line, None);
        }
        other => panic!("expected a device wheel event, got {:?}", other),
    }
}

#[test]
fn is_mouse_event_selects_window_scoped_mouse_variants() {
    let mut st = base_state();
    let e = st.process_event(cursor_moved(0, 0));
    assert!(e.is_mouse_event());
    let e = st.process_event(RawEvent::Suspended);
    assert!(!e.is_mouse_event());
    let e = st.process_event(RawEvent::Device {
        device_id: DEV,
        event: RawDeviceEvent::MouseMotion { dx_milli: 1, dy_milli: 1 },
    });
    assert!(!e.is_mouse_event(), "raw device motion is not window-scoped");
}
