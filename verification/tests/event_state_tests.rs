use glu::{EventState, MouseButton, MouseButtonState, Screen2d, WindowId};

fn fresh_state() -> EventState {
    let dim = Screen2d::from_physical_u32([800, 600], 1000);
    EventState::new(WindowId(1), dim, 1000)
}

#[test]
fn new_state_defaults() {
    let st = fresh_state();
    assert_eq!(st.windows.len(), 1);
    assert_eq!(st.windows[0].id, WindowId(1));
    assert_eq!(st.hidpi_factor(), 1000);
    assert_eq!(st.logical_line_height(), 18_000);
    assert!(!st.mouse_in_window);
    assert!(!st.is_any_mouse_button_pressed());
    assert_eq!(st.get_mouse_pressed_at(), None);
    assert_eq!(st.get_mouse_drag_dist(), None);
    assert_eq!(st.mouse_left.button, MouseButton::Left);
    assert_eq!(st.mouse_middle.button, MouseButton::Middle);
    assert_eq!(st.mouse_right.button, MouseButton::Right);
}

#[test]
fn button_press_release_cancel_transitions() {
    let mut b = MouseButtonState::default();
    assert!(!b.pressed && !b.cancelled);

    let at = Screen2d::from_logical([10_000, 10_000], 1000);
    b.press(at);
    assert!(b.pressed);
    assert!(!b.cancelled);
    assert_eq!(b.pressed_at, at);

    b.cancel();
    assert!(b.pressed, "cancel does not release the button");
    assert!(b.cancelled);

    b.release();
    assert!(!b.pressed);
    assert!(b.cancelled, "release leaves the cancelled flag for late readers");
    assert_eq!(b.pressed_at, at, "release leaves the origin for late readers");

    b.press(at);
    assert!(b.pressed);
    assert!(!b.cancelled, "the next press clears the cancelled flag");
}

#[test]
fn cancel_on_idle_button_does_nothing() {
    let mut b = MouseButtonState::default();
    b.cancel();
    assert!(!b.pressed && !b.cancelled);
}

#[test]
fn get_or_create_then_lookup_finds_the_same_entry() {
    let mut st = fresh_state();
    let idx = st.get_or_create_win(WindowId(7));
    assert_eq!(st.windows.len(), 2);
    assert_eq!(st.windows[idx].id, WindowId(7));
    // A second get-or-create on the same identity is a pure lookup.
    let idx2 = st.get_or_create_win(WindowId(7));
    assert_eq!(idx2, idx);
    assert_eq!(st.windows.len(), 2);
}

#[test]
fn fresh_entry_inherits_scale_and_zero_size() {
    let dim = Screen2d::from_physical_u32([800, 600], 2000);
    let mut st = EventState::new(WindowId(1), dim, 2000);
    let idx = st.get_or_create_win(WindowId(9));
    assert_eq!(st.windows[idx].hidpi_factor(), 2000);
    assert_eq!(st.windows[idx].dim.logical(), [0, 0]);
}

#[test]
fn remove_then_lookup_reports_absent() {
    let mut st = fresh_state();
    st.get_or_create_win(WindowId(7));
    st.window_destroyed(WindowId(7));
    assert!(st.windows.iter().all(|w| w.id != WindowId(7)));
    assert_eq!(st.windows.len(), 1);
}

#[test]
fn primary_window_default_when_registry_empty() {
    let mut st = fresh_state();
    st.window_destroyed(WindowId(1));
    assert_eq!(st.windows.len(), 0);
    let d = st.primary_win_dim();
    assert_eq!(d.logical(), [0, 0]);
    assert_eq!(d.hidpi_factor_milli(), 1000);
    assert_eq!(st.hidpi_factor(), 1000);
}

#[test]
fn line_height_is_configurable() {
    let mut st = fresh_state();
    st.set_logical_line_height(24_000);
    assert_eq!(st.logical_line_height(), 24_000);
}

#[test]
fn pressed_at_prefers_left_then_middle_then_right() {
    let mut st = fresh_state();
    let p1 = Screen2d::from_logical([1_000, 0], 1000);
    let p2 = Screen2d::from_logical([2_000, 0], 1000);
    st.mouse_right.press(p1);
    assert_eq!(st.get_mouse_pressed_at(), Some(p1));
    st.mouse_left.press(p2);
    assert_eq!(st.get_mouse_pressed_at(), Some(p2));
}

#[test]
fn per_button_distances_measure_from_last_press() {
    let mut st = fresh_state();
    let origin = Screen2d::from_logical([10_000, 10_000], 1000);
    st.mouse_left.press(origin);
    st.mouse_pos = Screen2d::from_logical([15_000, 30_000], 1000);
    assert_eq!(st.mouse_left_dist().logical(), [5_000, 20_000]);
    // The other buttons were never pressed: distance from the origin default.
    assert_eq!(st.mouse_middle_dist().logical(), [15_000, 30_000]);
    assert_eq!(st.mouse_right_dist().logical(), [15_000, 30_000]);
}
