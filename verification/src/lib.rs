//! Small utilities for interactive windowed programs: a density-aware 2D
//! coordinate unit, a normalized input-event taxonomy with a stateful
//! translator, a persistent interaction-state registry, and a fixed-interval
//! simulation stepper.
pub mod event;
pub mod event_state;
pub mod raw_event;
pub mod screen_units;
pub mod time_step;
pub mod window;

pub use crate::event::{
    AxisId, ButtonId, DeviceId, Event, FingerId, MouseButton, ScanCode, TouchPhase, VirtualKeyCode,
    WindowId,
};
pub use crate::event_state::{ButtonOp, EventState, MouseButtonState, WindowData};
pub use crate::raw_event::{RawDeviceEvent, RawEvent, RawScrollDelta, RawWindowEvent};
pub use crate::screen_units::Screen2d;
pub use crate::time_step::TimeStep;
pub use crate::window::WindowState;
