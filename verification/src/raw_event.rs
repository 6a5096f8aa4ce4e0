use vstd::prelude::*;
use crate::event::{DeviceId, MouseButton, TouchPhase, VirtualKeyCode, WindowId};
use crate::screen_units::{valid_coord_milli, valid_scale_milli};

verus! {

/// A wheel delta as the backend reports it: either line counts or a physical
/// pixel distance, both in milliunits.
#[derive(Clone, Copy, PartialEq, Eq, Hash, Debug, Structural)]
pub enum RawScrollDelta {
    LineDelta { dx_milli: i64, dy_milli: i64 },
    PixelDelta { x_milli: i64, y_milli: i64 },
}

impl RawScrollDelta {
    /// Coordinates are bounded so that converting them to logical units
    /// cannot overflow; a host adapter saturates what the backend reports.
    pub open spec fn wf(self) -> bool {
        match self {
            RawScrollDelta::LineDelta { dx_milli, dy_milli } => valid_coord_milli(dx_milli as int)
                && valid_coord_milli(dy_milli as int),
            RawScrollDelta::PixelDelta { x_milli, y_milli } => valid_coord_milli(x_milli as int)
                && valid_coord_milli(y_milli as int),
        }
    }
}

/// A raw window-scoped backend event, already reduced to plain values by the
/// host's per-backend adapter. Physical positions are in milliunits of a
/// pixel; sizes in whole pixels.
#[derive(Clone, PartialEq, Debug)]
pub enum RawWindowEvent {
    Resized { width_px: u32, height_px: u32 },
    Moved { x_px: i32, y_px: i32 },
    CloseRequested,
    Destroyed,
    Focused(bool),
    DroppedFile(String),
    HoveredFile(String),
    HoveredFileCancelled,
    ReceivedCharacter(char),
    KeyboardInput {
        device_id: DeviceId,
        scancode: u32,
        pressed: bool,
        vkey: Option<VirtualKeyCode>,
    },
    CursorMoved { device_id: DeviceId, x_milli: i64, y_milli: i64 },
    CursorEntered { device_id: DeviceId },
    CursorLeft { device_id: DeviceId },
    MouseWheel { device_id: DeviceId, delta: RawScrollDelta, phase: TouchPhase },
    MouseInput { device_id: DeviceId, pressed: bool, button: MouseButton },
    TouchpadPressure { device_id: DeviceId, pressure_milli: i64, stage: i64 },
    AxisMotion { device_id: DeviceId, axis: u32, value_milli: i64 },
    Touch { device_id: DeviceId, finger: u64, x_milli: i64, y_milli: i64, phase: TouchPhase },
    ScaleFactorChanged { scale_milli: u32 },
    ModifiersChanged { shift: bool, ctrl: bool, alt: bool, logo: bool },
    ThemeChanged,
    /// A backend shape with no counterpart in this taxonomy.
    Unsupported,
}

impl RawWindowEvent {
    pub open spec fn wf(self) -> bool {
        match self {
            RawWindowEvent::CursorMoved { device_id, x_milli, y_milli } => valid_coord_milli(
                x_milli as int,
            ) && valid_coord_milli(y_milli as int),
            RawWindowEvent::MouseWheel { device_id, delta, phase } => delta.wf(),
            RawWindowEvent::Touch { device_id, finger, x_milli, y_milli, phase } => valid_coord_milli(
                x_milli as int,
            ) && valid_coord_milli(y_milli as int),
            RawWindowEvent::ScaleFactorChanged { scale_milli } => valid_scale_milli(
                scale_milli as int,
            ),
            _ => true,
        }
    }
}

/// A raw device-scoped backend event: never carries a window identity.
#[derive(Clone, PartialEq, Debug)]
pub enum RawDeviceEvent {
    Added,
    Removed,
    MouseMotion { dx_milli: i64, dy_milli: i64 },
    MouseWheel { delta: RawScrollDelta },
    Motion { axis: u32, value_milli: i64 },
    Button { button: u32, pressed: bool },
    Key { scancode: u32, pressed: bool, vkey: Option<VirtualKeyCode> },
    Text { codepoint: char },
    /// A backend shape with no counterpart in this taxonomy.
    Unsupported,
}

impl RawDeviceEvent {
    pub open spec fn wf(self) -> bool {
        match self {
            RawDeviceEvent::MouseWheel { delta } => delta.wf(),
            _ => true,
        }
    }
}

/// One raw backend event, the abstract shape every supported backend version
/// is adapted onto before translation.
#[derive(Clone, PartialEq, Debug)]
pub enum RawEvent {
    Window { win_id: WindowId, event: RawWindowEvent },
    Device { device_id: DeviceId, event: RawDeviceEvent },
    Suspended,
    Resumed,
    RedrawRequested { win_id: WindowId },
    RedrawEventsCleared,
    NewEvents,
    UserEvent,
    MainEventsCleared,
    LoopDestroyed,
}

impl RawEvent {
    pub open spec fn wf(self) -> bool {
        match self {
            RawEvent::Window { win_id, event } => event.wf(),
            RawEvent::Device { device_id, event } => event.wf(),
            _ => true,
        }
    }
}

} // verus!
