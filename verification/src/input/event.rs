//! The window-system events the client handles, and the small types they carry.
use vstd::prelude::*;
use crate::input::keyboard::PhysicalKey;

verus! {

/// Why the event loop woke.
#[derive(Clone, Copy, Debug, PartialEq, Eq, Structural)]
pub enum StartCause {
    Init,
    Poll,
}

/// An input device.
#[derive(Clone, Copy, Debug, PartialEq, Eq, Structural)]
pub struct DeviceId(pub usize);

impl DeviceId {
    /// The device reported where the platform does not tell devices apart.
    pub fn dummy() -> (d: DeviceId)
        ensures
            d.0 == 0,
    {
        DeviceId(0)
    }
}

/// Whether a key or button went down or up.
#[derive(Clone, Copy, Debug, PartialEq, Eq, Structural)]
pub enum ElementState {
    Pressed,
    Released,
}

impl ElementState {
    pub fn is_pressed(self) -> (r: bool)
        ensures
            r == (self == ElementState::Pressed),
    {
        match self {
            ElementState::Pressed => true,
            ElementState::Released => false,
        }
    }
}

/// A mouse button.
#[derive(Clone, Copy, Debug, PartialEq, Eq, Structural)]
pub enum MouseButton {
    Left,
    Right,
    Middle,
    Back,
    Forward,
}

/// The libinput button code of a mouse button.
pub open spec fn spec_libinput_button_code(b: MouseButton) -> u32 {
    match b {
        MouseButton::Left => 272,
        MouseButton::Right => 273,
        MouseButton::Middle => 274,
        MouseButton::Back => 275,
        MouseButton::Forward => 276,
    }
}

/// The mouse button libinput reports with code `button` (272 to 276), if any.
pub fn libinput_button_to_mouse_button(button: u32) -> (r: Option<MouseButton>)
    ensures
        match r {
            Some(b) => spec_libinput_button_code(b) == button,
            None => !(272 <= button <= 276),
        },
{
    match button {
        272 => Some(MouseButton::Left),
        273 => Some(MouseButton::Right),
        274 => Some(MouseButton::Middle),
        275 => Some(MouseButton::Back),
        276 => Some(MouseButton::Forward),
        _ => None,
    }
}

/// A key going down or up, by its position.
#[derive(Clone, Copy, Debug, PartialEq, Eq, Structural)]
pub struct RawKeyEvent {
    pub physical_key: PhysicalKey,
    pub state: ElementState,
}

/// Whether the event loop waits for events or polls.
#[derive(Clone, Copy, Debug, PartialEq, Eq, Structural)]
pub enum ControlFlow {
    Poll,
    Wait,
}

impl Default for ControlFlow {
    fn default() -> (c: ControlFlow)
        ensures
            c == ControlFlow::Wait,
    {
        ControlFlow::Wait
    }
}

/// The one window there is.
#[derive(Clone, Copy, Debug, PartialEq, Eq)]
pub struct WindowId(pub ());

/// How a window fills the screen.
#[derive(Clone, Copy, Debug, PartialEq, Eq, Structural)]
pub enum Fullscreen {
    Borderless(Option<usize>),
}

/// How the cursor is held by the window.
#[derive(Clone, Copy, Debug, PartialEq, Eq, Structural)]
pub enum CursorGrabMode {
    /// The cursor moves freely (winit calls this `None`).
    Ungrabbed,
    Confined,
    Locked,
}

/// A position in physical pixels.
#[derive(Clone, Copy, Debug, PartialEq, Eq)]
pub struct PhysicalPosition<P> {
    pub x: P,
    pub y: P,
}

impl<P> PhysicalPosition<P> {
    pub fn new(x: P, y: P) -> (p: Self)
        ensures
            p.x == x,
            p.y == y,
    {
        PhysicalPosition { x, y }
    }
}

/// A size in physical pixels.
#[derive(Clone, Copy, Debug, PartialEq, Eq)]
pub struct PhysicalSize<P> {
    pub width: P,
    pub height: P,
}

impl<P> PhysicalSize<P> {
    pub fn new(width: P, height: P) -> (s: Self)
        ensures
            s.width == width,
            s.height == height,
    {
        PhysicalSize { width, height }
    }
}

/// An event of the window.
#[derive(Clone, Copy, Debug, PartialEq, Eq)]
pub enum WindowEvent {
    Resized(PhysicalSize<u32>),
    CloseRequested,
}

/// An event of an input device.
#[derive(Clone, Copy, Debug, PartialEq, Eq)]
pub enum DeviceEvent {
    Key(RawKeyEvent),
}

/// An event handed to the application.
#[derive(Clone, Copy, Debug, PartialEq, Eq)]
pub enum Event {
    NewEvents(StartCause),
    WindowEvent { window_id: WindowId, event: WindowEvent },
    DeviceEvent { device_id: DeviceId, event: DeviceEvent },
}

} // verus!
