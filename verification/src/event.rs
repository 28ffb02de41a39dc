//! What the shell reports to the loop.
//!
//! The shell turns every event of the windowing system into one of these
//! values, and reports the outcome of each frame acquisition the same way.

use vstd::prelude::*;
use crate::surface::{PhysicalSize, SurfaceError};

verus! {

/// Whether a key or button went down or came up.
#[derive(Clone, Copy, Debug, PartialEq, Eq, Structural)]
pub enum ElementState {
    Pressed,
    Released,
}

/// A button of the mouse.
#[derive(Clone, Copy, Debug, PartialEq, Eq, Structural)]
pub enum MouseButton {
    Left,
    Right,
    Middle,
    Other(u16),
}

/// The meaning of a key, as far as the loop tells keys apart.
#[derive(Clone, Copy, Debug, PartialEq, Eq, Structural)]
pub enum VirtualKeyCode {
    Escape,
    /// Any key but Escape.
    Other,
}

/// A key going down or up. `virtual_keycode` is absent where the windowing
/// system could not name the key.
#[derive(Clone, Copy, Debug, PartialEq, Eq)]
pub struct KeyboardInput {
    pub state: ElementState,
    pub virtual_keycode: Option<VirtualKeyCode>,
}

/// An event that belongs to one window.
#[derive(Clone, Copy, Debug, PartialEq, Eq)]
pub enum WindowEvent {
    /// The user asked for the window to be closed.
    CloseRequested,
    KeyboardInput { input: KeyboardInput },
    /// The window now has this size.
    Resized(PhysicalSize),
    /// The scale factor changed, and the window has this size from now on.
    ScaleFactorChanged { new_inner_size: PhysicalSize },
    MouseInput { state: ElementState, button: MouseButton },
    /// Any event the loop does not react to.
    Other,
}

impl WindowEvent {
    /// The event ends the loop: the window is to be closed, or Escape went down.
    pub open spec fn requests_exit(self) -> bool {
        match self {
            WindowEvent::CloseRequested => true,
            WindowEvent::KeyboardInput { input } => {
                &&& input.state == ElementState::Pressed
                &&& input.virtual_keycode == Some(VirtualKeyCode::Escape)
            },
            _ => false,
        }
    }

    /// The size the window has after the event, if the event changes it.
    pub open spec fn new_size(self) -> Option<PhysicalSize> {
        match self {
            WindowEvent::Resized(size) => Some(size),
            WindowEvent::ScaleFactorChanged { new_inner_size } => Some(new_inner_size),
            _ => None,
        }
    }

    /// The left mouse button went down.
    pub open spec fn is_left_press(self) -> bool {
        match self {
            WindowEvent::MouseInput { state, button } => {
                &&& state == ElementState::Pressed
                &&& button == MouseButton::Left
            },
            _ => false,
        }
    }
}

/// One report of the shell.
#[derive(Clone, Copy, Debug, PartialEq, Eq)]
pub enum Event {
    /// Something happened to the window with this identifier.
    WindowEvent { window_id: u64, event: WindowEvent },
    /// The window with this identifier has to be drawn again.
    RedrawRequested(u64),
    /// Every event that was waiting has been reported.
    MainEventsCleared,
    /// The shell tried to acquire the next frame of the surface, as it was
    /// asked to, and this came of it.
    FrameAcquired(Result<(), SurfaceError>),
    /// Any event the loop does not react to.
    Other,
}

impl Event {
    /// The event is a press of the left mouse button on the given window.
    pub open spec fn is_left_press_on(self, id: u64) -> bool {
        match self {
            Event::WindowEvent { window_id, event } => window_id == id && event.is_left_press(),
            _ => false,
        }
    }

    /// Whether the event is a press of the left mouse button on the given
    /// window.
    pub fn left_press_on(&self, id: u64) -> (pressed: bool)
        ensures
            pressed == self.is_left_press_on(id),
    {
        match self {
            Event::WindowEvent {
                window_id,
                event: WindowEvent::MouseInput { state: ElementState::Pressed, button: MouseButton::Left },
            } => *window_id == id,
            _ => false,
        }
    }

    /// The event asks the given window to close or is Escape going down on it.
    pub open spec fn requests_exit_of(self, id: u64) -> bool {
        match self {
            Event::WindowEvent { window_id, event } => window_id == id && event.requests_exit(),
            _ => false,
        }
    }
}

} // verus!
