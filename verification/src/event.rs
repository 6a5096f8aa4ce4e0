use vstd::prelude::*;
use crate::event_state::{
    inherited_scale, spec_cancel_held, spec_get_or_create, spec_goc_index, spec_record_button,
    spec_remove_win, EventState, StateView, WindowData,
};
use crate::raw_event::{RawDeviceEvent, RawEvent, RawScrollDelta, RawWindowEvent};
use crate::screen_units::{valid_scale_milli, Screen2d};

verus! {

/// Identifier of an analog axis on a device.
pub type AxisId = u32;

/// Hardware-dependent keyboard scan code.
pub type ScanCode = u32;

/// Identifier of a button on a device that is not one of the named mouse buttons.
pub type ButtonId = u32;

/// Identifier of one finger in a touch gesture.
pub type FingerId = u64;

/// Opaque, backend-assigned identity of a window, stable for the lifetime of
/// the registry. The host's adapter assigns the numeric value.
#[derive(Clone, Copy, PartialEq, Eq, Hash, Debug, Structural)]
pub struct WindowId(pub u64);

/// Opaque, backend-assigned identity of an input device.
#[derive(Clone, Copy, PartialEq, Eq, Hash, Debug, Structural)]
pub struct DeviceId(pub u64);

/// The semantic key reported alongside a scan code. The translator only
/// distinguishes the cancel key; every other key is carried through as the
/// backend's numeric code.
#[derive(Clone, Copy, PartialEq, Eq, Hash, Debug, Structural)]
pub enum VirtualKeyCode {
    Escape,
    Other(u32),
}

/// Describes a button of a mouse controller.
#[derive(Clone, Copy, PartialEq, Eq, Hash, Debug, Structural)]
pub enum MouseButton {
    Left,
    Right,
    Middle,
    Other(u8),
}

/// Describes touch-screen input state.
#[derive(Clone, Copy, PartialEq, Eq, Hash, Debug, Structural)]
pub enum TouchPhase {
    Started,
    Moved,
    Ended,
    Cancelled,
}

/// A normalized input event. This is a simplified, closed taxonomy of the
/// events a windowing backend delivers; every raw backend event maps to
/// exactly one of these variants. Fractional quantities are carried in
/// milliunits, as everywhere in this crate.
#[derive(Clone, PartialEq, Debug)]
pub enum Event {
    /// A raw backend event with no normalized meaning.
    Placeholder,
    AppAwaken,
    AppResume,
    AppSuspend,
    Redraw,
    /// Shift/ctrl/alt/logo changed; the new flags are in the interaction state.
    ModifiersChanged,
    WindowResize { win_id: WindowId, size: Screen2d },
    WindowMove { win_id: WindowId, pos: Screen2d },
    WindowClose { win_id: WindowId },
    WindowDestroyed { win_id: WindowId },
    WindowRefresh { win_id: WindowId },
    WindowFocus { win_id: WindowId },
    WindowBlur { win_id: WindowId },
    FileDrop { win_id: WindowId, path: String },
    FileHover { win_id: WindowId, path: String },
    FileCancel { win_id: WindowId },
    /// Unfiltered movement coming from the mouse device, in milliunits of the
    /// backend's motion unit. This does not correspond to screen units.
    MouseMotion { device_id: DeviceId, delta_x_milli: i64, delta_y_milli: i64 },
    /// A mouse wheel scrolled, wherever the cursor is. `delta_line` carries
    /// the raw line counts (milli) when the backend reported lines.
    AnywhereMouseWheel { device_id: DeviceId, delta: Screen2d, delta_line: Option<(i64, i64)> },
    MouseMove { win_id: WindowId, device_id: DeviceId, pos: Screen2d },
    MouseDown { win_id: WindowId, device_id: DeviceId, button: MouseButton },
    MouseUp { win_id: WindowId, device_id: DeviceId, button: MouseButton },
    MouseWheel {
        win_id: WindowId,
        device_id: DeviceId,
        delta: Screen2d,
        delta_line: Option<(i64, i64)>,
        phase: TouchPhase,
    },
    MouseWindowEnter { win_id: WindowId, device_id: DeviceId },
    MouseWindowLeave { win_id: WindowId, device_id: DeviceId },
    TouchpadPressure { win_id: WindowId, device_id: DeviceId, pressure_milli: i64, stage: i64 },
    Touch {
        win_id: WindowId,
        device_id: DeviceId,
        finger: FingerId,
        pos: Screen2d,
        phase: TouchPhase,
    },
    AxisMotion { win_id: WindowId, device_id: DeviceId, axis: AxisId, delta_milli: i64 },
    KeyDown { win_id: WindowId, device_id: DeviceId, code: ScanCode, vkey: Option<VirtualKeyCode> },
    KeyUp { win_id: WindowId, device_id: DeviceId, code: ScanCode, vkey: Option<VirtualKeyCode> },
    /// Text input: the raw code point, and the filtered printable character
    /// if any (see [`text_char`]).
    KeyText { win_id: WindowId, codepoint: char, ch: Option<char> },
    DeviceAdded { device_id: DeviceId },
    DeviceRemoved { device_id: DeviceId },
    DeviceMotion { device_id: DeviceId, axis: AxisId, delta_milli: i64 },
    DeviceButtonDown { device_id: DeviceId, button: ButtonId },
    DeviceButtonUp { device_id: DeviceId, button: ButtonId },
    DeviceKeyDown { device_id: DeviceId, code: ScanCode, vkey: Option<VirtualKeyCode> },
    DeviceKeyUp { device_id: DeviceId, code: ScanCode, vkey: Option<VirtualKeyCode> },
    DeviceText { device_id: DeviceId, codepoint: char, ch: Option<char> },
    /// The scale factor of a window changed; the new factor is in milliunits.
    HiDpiFactorChanged { win_id: WindowId, factor_milli: u32 },
}

impl Event {
    /// Whether this is one of the window-scoped mouse events.
    pub open spec fn spec_is_mouse_event(&self) -> bool {
        match *self {
            Event::MouseMove { .. } => true,
            Event::MouseDown { .. } => true,
            Event::MouseUp { .. } => true,
            Event::MouseWheel { .. } => true,
            Event::MouseWindowEnter { .. } => true,
            Event::MouseWindowLeave { .. } => true,
            _ => false,
        }
    }

    pub fn is_mouse_event(&self) -> (r: bool)
        ensures
            r == self.spec_is_mouse_event(),
    {
        match *self {
            Event::MouseMove { .. }
            | Event::MouseDown { .. }
            | Event::MouseUp { .. }
            | Event::MouseWheel { .. }
            | Event::MouseWindowEnter { .. }
            | Event::MouseWindowLeave { .. } => true,
            _ => false,
        }
    }
}

/// What translating one window-scoped raw event does: the interaction state
/// it leaves behind and the normalized event it yields.
pub open spec fn spec_translate_window(pre: StateView, win_id: WindowId, evt: RawWindowEvent) -> (
    StateView,
    Event,
) {
    match evt {
        RawWindowEvent::Resized { width_px, height_px } => {
            let ws1 = spec_get_or_create(pre.windows, win_id);
            let i = spec_goc_index(pre.windows, win_id);
            let f = ws1[i].hidpi_factor as int;
            let size = Screen2d::spec_from_physical_px(width_px as int, height_px as int, f);
            let ws2 = ws1.update(i, WindowData { dim: size, ..ws1[i] });
            (StateView { windows: ws2, ..pre }, Event::WindowResize { win_id, size })
        },
        RawWindowEvent::Moved { x_px, y_px } => {
            let ws1 = spec_get_or_create(pre.windows, win_id);
            let i = spec_goc_index(pre.windows, win_id);
            let f = ws1[i].hidpi_factor as int;
            let pos = Screen2d::spec_from_physical_px(x_px as int, y_px as int, f);
            (StateView { windows: ws1, ..pre }, Event::WindowMove { win_id, pos })
        },
        RawWindowEvent::CloseRequested => (pre, Event::WindowClose { win_id }),
        RawWindowEvent::Destroyed => (
            StateView { windows: spec_remove_win(pre.windows, win_id), ..pre },
            Event::WindowDestroyed { win_id },
        ),
        RawWindowEvent::Focused(gained) => (
            pre,
            if gained {
                Event::WindowFocus { win_id }
            } else {
                Event::WindowBlur { win_id }
            },
        ),
        RawWindowEvent::DroppedFile(path) => (pre, Event::FileDrop { win_id, path }),
        RawWindowEvent::HoveredFile(path) => (pre, Event::FileHover { win_id, path }),
        RawWindowEvent::HoveredFileCancelled => (pre, Event::FileCancel { win_id }),
        RawWindowEvent::ReceivedCharacter(codepoint) => (
            pre,
            Event::KeyText {
                win_id,
                codepoint,
                ch: if pre.ctrl_down {
                    Option::None
                } else {
                    spec_text_char(codepoint)
                },
            },
        ),
        RawWindowEvent::KeyboardInput { device_id, scancode, pressed, vkey } => {
            let post = if pressed && vkey == Option::Some(VirtualKeyCode::Escape) {
                spec_cancel_held(pre)
            } else {
                pre
            };
            (
                post,
                if pressed {
                    Event::KeyDown { win_id, device_id, code: scancode, vkey }
                } else {
                    Event::KeyUp { win_id, device_id, code: scancode, vkey }
                },
            )
        },
        RawWindowEvent::CursorMoved { device_id, x_milli, y_milli } => {
            let ws1 = spec_get_or_create(pre.windows, win_id);
            let i = spec_goc_index(pre.windows, win_id);
            let f = ws1[i].hidpi_factor as int;
            let pos = Screen2d::spec_from_physical_milli(x_milli as int, y_milli as int, f);
            let any = pre.mouse_left.pressed || pre.mouse_middle.pressed || pre.mouse_right.pressed;
            (
                StateView {
                    windows: ws1,
                    mouse_pos: pos,
                    mouse_activity_start: if any {
                        pre.mouse_activity_start
                    } else {
                        pos
                    },
                    ..pre
                },
                Event::MouseMove { win_id, device_id, pos },
            )
        },
        RawWindowEvent::CursorEntered { device_id } => (
            StateView { mouse_in_window: true, ..pre },
            Event::MouseWindowEnter { win_id, device_id },
        ),
        RawWindowEvent::CursorLeft { device_id } => (
            StateView { mouse_in_window: false, ..pre },
            Event::MouseWindowLeave { win_id, device_id },
        ),
        RawWindowEvent::MouseWheel { device_id, delta, phase } => {
            let ws1 = spec_get_or_create(pre.windows, win_id);
            let i = spec_goc_index(pre.windows, win_id);
            let f = ws1[i].hidpi_factor as int;
            let post = StateView { windows: ws1, ..pre };
            match delta {
                RawScrollDelta::LineDelta { dx_milli, dy_milli } => (
                    post,
                    Event::MouseWheel {
                        win_id,
                        device_id,
                        delta: Screen2d::spec_from_line_delta(
                            dx_milli as int,
                            dy_milli as int,
                            pre.line_height,
                            f,
                        ),
                        delta_line: Option::Some((dx_milli, dy_milli)),
                        phase,
                    },
                ),
                RawScrollDelta::PixelDelta { x_milli, y_milli } => (
                    post,
                    Event::MouseWheel {
                        win_id,
                        device_id,
                        delta: Screen2d::spec_from_physical_milli(x_milli as int, y_milli as int, f),
                        delta_line: Option::None,
                        phase,
                    },
                ),
            }
        },
        RawWindowEvent::MouseInput { device_id, pressed, button } => (
            spec_record_button(pre, button, pressed),
            if pressed {
                Event::MouseDown { win_id, device_id, button }
            } else {
                Event::MouseUp { win_id, device_id, button }
            },
        ),
        RawWindowEvent::TouchpadPressure { device_id, pressure_milli, stage } => (
            pre,
            Event::TouchpadPressure { win_id, device_id, pressure_milli, stage },
        ),
        RawWindowEvent::AxisMotion { device_id, axis, value_milli } => (
            pre,
            Event::AxisMotion { win_id, device_id, axis, delta_milli: value_milli },
        ),
        RawWindowEvent::Touch { device_id, finger, x_milli, y_milli, phase } => {
            let ws1 = spec_get_or_create(pre.windows, win_id);
            let i = spec_goc_index(pre.windows, win_id);
            let f = ws1[i].hidpi_factor as int;
            let pos = Screen2d::spec_from_physical_milli(x_milli as int, y_milli as int, f);
            (
                StateView { windows: ws1, ..pre },
                Event::Touch { win_id, device_id, finger, pos, phase },
            )
        },
        RawWindowEvent::ScaleFactorChanged { scale_milli } => {
            let ws1 = spec_get_or_create(pre.windows, win_id);
            let i = spec_goc_index(pre.windows, win_id);
            let ws2 = ws1.update(i, WindowData { hidpi_factor: scale_milli, ..ws1[i] });
            (
                StateView { windows: ws2, ..pre },
                Event::HiDpiFactorChanged { win_id, factor_milli: scale_milli },
            )
        },
        RawWindowEvent::ModifiersChanged { shift, ctrl, alt, logo } => (
            StateView { shift_down: shift, ctrl_down: ctrl, alt_down: alt, logo_down: logo, ..pre },
            Event::ModifiersChanged,
        ),
        RawWindowEvent::ThemeChanged => (pre, Event::Placeholder),
        RawWindowEvent::Unsupported => (pre, Event::Placeholder),
    }
}

/// What translating one device-scoped raw event does. Device events never
/// create registry entries; a device wheel reads the primary window's scale.
pub open spec fn spec_translate_device(pre: StateView, device_id: DeviceId, evt: RawDeviceEvent) -> (
    StateView,
    Event,
) {
    match evt {
        RawDeviceEvent::Added => (pre, Event::DeviceAdded { device_id }),
        RawDeviceEvent::Removed => (pre, Event::DeviceRemoved { device_id }),
        RawDeviceEvent::MouseMotion { dx_milli, dy_milli } => (
            pre,
            Event::MouseMotion { device_id, delta_x_milli: dx_milli, delta_y_milli: dy_milli },
        ),
        RawDeviceEvent::MouseWheel { delta } => {
            let f = inherited_scale(pre.windows);
            match delta {
                RawScrollDelta::LineDelta { dx_milli, dy_milli } => (
                    pre,
                    Event::AnywhereMouseWheel {
                        device_id,
                        delta: Screen2d::spec_from_line_delta(
                            dx_milli as int,
                            dy_milli as int,
                            pre.line_height,
                            f,
                        ),
                        delta_line: Option::Some((dx_milli, dy_milli)),
                    },
                ),
                RawScrollDelta::PixelDelta { x_milli, y_milli } => (
                    pre,
                    Event::AnywhereMouseWheel {
                        device_id,
                        delta: Screen2d::spec_from_physical_milli(x_milli as int, y_milli as int, f),
                        delta_line: Option::None,
                    },
                ),
            }
        },
        RawDeviceEvent::Motion { axis, value_milli } => (
            pre,
            Event::DeviceMotion { device_id, axis, delta_milli: value_milli },
        ),
        RawDeviceEvent::Button { button, pressed } => (
            pre,
            if pressed {
                Event::DeviceButtonDown { device_id, button }
            } else {
                Event::DeviceButtonUp { device_id, button }
            },
        ),
        RawDeviceEvent::Key { scancode, pressed, vkey } => (
            pre,
            if pressed {
                Event::DeviceKeyDown { device_id, code: scancode, vkey }
            } else {
                Event::DeviceKeyUp { device_id, code: scancode, vkey }
            },
        ),
        RawDeviceEvent::Text { codepoint } => (
            pre,
            Event::DeviceText { device_id, codepoint, ch: spec_text_char(codepoint) },
        ),
        RawDeviceEvent::Unsupported => (pre, Event::Placeholder),
    }
}

/// What translating one raw backend event does: every raw shape maps to
/// exactly one normalized event, and the interaction state moves as the
/// window- and device-scoped rules above say; shapes with no normalized
/// meaning yield the placeholder.
pub open spec fn spec_translate(pre: StateView, raw: RawEvent) -> (StateView, Event) {
    match raw {
        RawEvent::Window { win_id, event } => spec_translate_window(pre, win_id, event),
        RawEvent::Device { device_id, event } => spec_translate_device(pre, device_id, event),
        RawEvent::Suspended => (pre, Event::AppSuspend),
        RawEvent::Resumed => (pre, Event::AppResume),
        RawEvent::RedrawRequested { win_id } => (pre, Event::Redraw),
        RawEvent::RedrawEventsCleared => (pre, Event::Redraw),
        RawEvent::NewEvents => (pre, Event::Placeholder),
        RawEvent::UserEvent => (pre, Event::Placeholder),
        RawEvent::MainEventsCleared => (pre, Event::Placeholder),
        RawEvent::LoopDestroyed => (pre, Event::Placeholder),
    }
}

/// The filtered text-input character: control characters below code point 32
/// are suppressed, except tab (passed through) and carriage return
/// (normalized to line feed); the delete character (code point 127) is
/// suppressed; everything else passes through unchanged.
pub open spec fn spec_text_char(ch: char) -> Option<char> {
    if ch as u32 <= 31 {
        if ch as u32 == 9 {
            Some(ch)
        } else if ch as u32 == 13 {
            Some('\n')
        } else {
            None
        }
    } else if ch as u32 == 127 {
        None
    } else {
        Some(ch)
    }
}

impl Event {
    /// Translates one raw backend event into exactly one normalized event,
    /// updating the interaction state as a side effect. Total over well-formed
    /// raw events: unmapped shapes become [`Event::Placeholder`].
    pub fn from_gl(src: RawEvent, state: &mut EventState) -> (e: Event)
        requires
            old(state).wf(),
            src.wf(),
        ensures
            final(state).wf(),
            ({
                let t = spec_translate(old(state)@, src);
                final(state)@ =~= t.0 && e == t.1
            }),
    {
        match src {
            RawEvent::Window { win_id, event } => Self::from_window_event(win_id, event, state),
            RawEvent::Device { device_id, event } => Self::from_device_event(
                device_id,
                event,
                state,
            ),
            RawEvent::Suspended => Event::AppSuspend,
            RawEvent::Resumed => Event::AppResume,
            RawEvent::RedrawRequested { win_id } => Event::Redraw,
            RawEvent::RedrawEventsCleared => Event::Redraw,
            RawEvent::NewEvents => Event::Placeholder,
            RawEvent::UserEvent => Event::Placeholder,
            RawEvent::MainEventsCleared => Event::Placeholder,
            RawEvent::LoopDestroyed => Event::Placeholder,
        }
    }

    /// One window-scoped raw event. Window-scoped events that need a scale
    /// factor resolve it through the registry, lazily creating the entry.
    #[verifier::rlimit(100)]
    fn from_window_event(win_id: WindowId, evt: RawWindowEvent, evt_state: &mut EventState) -> (e:
        Event)
        requires
            old(evt_state).wf(),
            evt.wf(),
        ensures
            final(evt_state).wf(),
            ({
                let t = spec_translate_window(old(evt_state)@, win_id, evt);
                final(evt_state)@ =~= t.0 && e == t.1
            }),
    {
        match evt {
            RawWindowEvent::Resized { width_px, height_px } => {
                let idx = evt_state.get_or_create_win(win_id);
                let f = evt_state.windows[idx].hidpi_factor;
                proof {
                    assert(valid_scale_milli(evt_state@.windows[idx as int].hidpi_factor as int));
                }
                let size = Screen2d::from_physical_u32([width_px, height_px], f);
                evt_state.set_win_dim(idx, size);
                Event::WindowResize { win_id, size }
            },
            RawWindowEvent::Moved { x_px, y_px } => {
                let idx = evt_state.get_or_create_win(win_id);
                let f = evt_state.windows[idx].hidpi_factor;
                proof {
                    assert(valid_scale_milli(evt_state@.windows[idx as int].hidpi_factor as int));
                }
                let pos = Screen2d::from_physical([x_px, y_px], f);
                Event::WindowMove { win_id, pos }
            },
            RawWindowEvent::CloseRequested => Event::WindowClose { win_id },
            RawWindowEvent::Destroyed => {
                evt_state.window_destroyed(win_id);
                Event::WindowDestroyed { win_id }
            },
            RawWindowEvent::Focused(gained) => {
                if gained {
                    Event::WindowFocus { win_id }
                } else {
                    Event::WindowBlur { win_id }
                }
            },
            RawWindowEvent::DroppedFile(path) => Event::FileDrop { win_id, path },
            RawWindowEvent::HoveredFile(path) => Event::FileHover { win_id, path },
            RawWindowEvent::HoveredFileCancelled => Event::FileCancel { win_id },
            RawWindowEvent::ReceivedCharacter(codepoint) => {
                if evt_state.ctrl_down {
                    Event::KeyText { win_id, codepoint, ch: None }
                } else {
                    Event::KeyText { win_id, codepoint, ch: text_char(codepoint) }
                }
            },
            RawWindowEvent::KeyboardInput { device_id, scancode, pressed, vkey } => {
                let is_escape = match vkey {
                    Some(VirtualKeyCode::Escape) => true,
                    _ => false,
                };
                if pressed && is_escape {
                    evt_state.cancel_held_buttons();
                }
                if pressed {
                    Event::KeyDown { win_id, device_id, code: scancode, vkey }
                } else {
                    Event::KeyUp { win_id, device_id, code: scancode, vkey }
                }
            },
            RawWindowEvent::CursorMoved { device_id, x_milli, y_milli } => {
                let idx = evt_state.get_or_create_win(win_id);
                let f = evt_state.windows[idx].hidpi_factor;
                proof {
                    assert(valid_scale_milli(evt_state@.windows[idx as int].hidpi_factor as int));
                }
                let pos = Screen2d::from_physical_milli([x_milli, y_milli], f);
                evt_state.record_cursor_moved(pos);
                Event::MouseMove { win_id, device_id, pos }
            },
            RawWindowEvent::CursorEntered { device_id } => {
                evt_state.record_cursor_entered();
                Event::MouseWindowEnter { win_id, device_id }
            },
            RawWindowEvent::CursorLeft { device_id } => {
                evt_state.record_cursor_left();
                Event::MouseWindowLeave { win_id, device_id }
            },
            RawWindowEvent::MouseWheel { device_id, delta, phase } => {
                let idx = evt_state.get_or_create_win(win_id);
                let f = evt_state.windows[idx].hidpi_factor;
                proof {
                    assert(valid_scale_milli(evt_state@.windows[idx as int].hidpi_factor as int));
                }
                match delta {
                    RawScrollDelta::LineDelta { dx_milli, dy_milli } => {
                        let line_height = evt_state.logical_line_height();
                        let d = Screen2d::from_line_delta(dx_milli, dy_milli, line_height, f);
                        Event::MouseWheel {
                            win_id,
                            device_id,
                            delta: d,
                            delta_line: Some((dx_milli, dy_milli)),
                            phase,
                        }
                    },
                    RawScrollDelta::PixelDelta { x_milli, y_milli } => {
                        let d = Screen2d::from_physical_milli([x_milli, y_milli], f);
                        Event::MouseWheel {
                            win_id,
                            device_id,
                            delta: d,
                            delta_line: None,
                            phase,
                        }
                    },
                }
            },
            RawWindowEvent::MouseInput { device_id, pressed, button } => {
                evt_state.record_mouse_button(button, pressed);
                if pressed {
                    Event::MouseDown { win_id, device_id, button }
                } else {
                    Event::MouseUp { win_id, device_id, button }
                }
            },
            RawWindowEvent::TouchpadPressure { device_id, pressure_milli, stage } => {
                Event::TouchpadPressure { win_id, device_id, pressure_milli, stage }
            },
            RawWindowEvent::AxisMotion { device_id, axis, value_milli } => {
                Event::AxisMotion { win_id, device_id, axis, delta_milli: value_milli }
            },
            RawWindowEvent::Touch { device_id, finger, x_milli, y_milli, phase } => {
                let idx = evt_state.get_or_create_win(win_id);
                let f = evt_state.windows[idx].hidpi_factor;
                proof {
                    assert(valid_scale_milli(evt_state@.windows[idx as int].hidpi_factor as int));
                }
                let pos = Screen2d::from_physical_milli([x_milli, y_milli], f);
                Event::Touch { win_id, device_id, finger, pos, phase }
            },
            RawWindowEvent::ScaleFactorChanged { scale_milli } => {
                let idx = evt_state.get_or_create_win(win_id);
                evt_state.set_win_scale(idx, scale_milli);
                Event::HiDpiFactorChanged { win_id, factor_milli: scale_milli }
            },
            RawWindowEvent::ModifiersChanged { shift, ctrl, alt, logo } => {
                evt_state.set_modifiers(shift, ctrl, alt, logo);
                Event::ModifiersChanged
            },
            RawWindowEvent::ThemeChanged => Event::Placeholder,
            RawWindowEvent::Unsupported => Event::Placeholder,
        }
    }

    /// One device-scoped raw event; never window-scoped, never grows the registry.
    fn from_device_event(device_id: DeviceId, evt: RawDeviceEvent, state: &mut EventState) -> (e:
        Event)
        requires
            old(state).wf(),
            evt.wf(),
        ensures
            final(state).wf(),
            ({
                let t = spec_translate_device(old(state)@, device_id, evt);
                final(state)@ =~= t.0 && e == t.1
            }),
    {
        match evt {
            RawDeviceEvent::Added => Event::DeviceAdded { device_id },
            RawDeviceEvent::Removed => Event::DeviceRemoved { device_id },
            RawDeviceEvent::MouseMotion { dx_milli, dy_milli } => {
                Event::MouseMotion { device_id, delta_x_milli: dx_milli, delta_y_milli: dy_milli }
            },
            RawDeviceEvent::MouseWheel { delta } => {
                let f = state.hidpi_factor();
                match delta {
                    RawScrollDelta::LineDelta { dx_milli, dy_milli } => {
                        let line_height = state.logical_line_height();
                        let d = Screen2d::from_line_delta(dx_milli, dy_milli, line_height, f);
                        Event::AnywhereMouseWheel {
                            device_id,
                            delta: d,
                            delta_line: Some((dx_milli, dy_milli)),
                        }
                    },
                    RawScrollDelta::PixelDelta { x_milli, y_milli } => {
                        let d = Screen2d::from_physical_milli([x_milli, y_milli], f);
                        Event::AnywhereMouseWheel { device_id, delta: d, delta_line: None }
                    },
                }
            },
            RawDeviceEvent::Motion { axis, value_milli } => {
                Event::DeviceMotion { device_id, axis, delta_milli: value_milli }
            },
            RawDeviceEvent::Button { button, pressed } => {
                if pressed {
                    Event::DeviceButtonDown { device_id, button }
                } else {
                    Event::DeviceButtonUp { device_id, button }
                }
            },
            RawDeviceEvent::Key { scancode, pressed, vkey } => {
                if pressed {
                    Event::DeviceKeyDown { device_id, code: scancode, vkey }
                } else {
                    Event::DeviceKeyUp { device_id, code: scancode, vkey }
                }
            },
            RawDeviceEvent::Text { codepoint } => {
                Event::DeviceText { device_id, codepoint, ch: text_char(codepoint) }
            },
            RawDeviceEvent::Unsupported => Event::Placeholder,
        }
    }
}

/// Filters one raw text-input code point down to a directly usable printable
/// character, if any.
pub fn text_char(ch: char) -> (r: Option<char>)
    ensures
        r == spec_text_char(ch),
{
    let code = ch as u32;
    if code <= 31 {
        if code == 9 {
            Some(ch)
        } else if code == 13 {
            Some('\n')
        } else {
            None
        }
    } else if code == 127 {
        None
    } else {
        Some(ch)
    }
}

} // verus!
