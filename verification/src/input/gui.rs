//! The immediate-mode GUI's input types, and how window input is handed to it.
use vstd::prelude::*;
use crate::input::event::{ElementState, MouseButton};

verus! {

/// The GUI context (the platform draws no GUI, so it holds nothing).
#[derive(Clone, Copy, Debug, PartialEq, Eq, Structural)]
pub struct Context {}

impl Default for Context {
    fn default() -> (c: Context)
        ensures
            c == (Context {}),
    {
        Context {}
    }
}

/// A key as the GUI names it.
#[derive(Clone, Copy, Debug, PartialEq, Eq, Structural)]
pub enum Key {
    ArrowDown,
    ArrowLeft,
    ArrowRight,
    ArrowUp,
    Escape,
    Tab,
    Backspace,
    Enter,
    Space,
    Insert,
    Delete,
    Home,
    End,
    PageUp,
    PageDown,
    Copy,
    Cut,
    Paste,
    Colon,
    Comma,
    Backslash,
    Slash,
    Pipe,
    Questionmark,
    Exclamationmark,
    OpenBracket,
    CloseBracket,
    OpenCurlyBracket,
    CloseCurlyBracket,
    Backtick,
    Minus,
    Period,
    Plus,
    Equals,
    Semicolon,
    Quote,
    Num0,
    Num1,
    Num2,
    Num3,
    Num4,
    Num5,
    Num6,
    Num7,
    Num8,
    Num9,
    A,
    B,
    C,
    D,
    E,
    F,
    G,
    H,
    I,
    J,
    K,
    L,
    M,
    N,
    O,
    P,
    Q,
    R,
    S,
    T,
    U,
    V,
    W,
    X,
    Y,
    Z,
    F1,
    F2,
    F3,
    F4,
    F5,
    F6,
    F7,
    F8,
    F9,
    F10,
    F11,
    F12,
    F13,
    F14,
    F15,
    F16,
    F17,
    F18,
    F19,
    F20,
    F21,
    F22,
    F23,
    F24,
    F25,
    F26,
    F27,
    F28,
    F29,
    F30,
    F31,
    F32,
    F33,
    F34,
    F35,
    BrowserBack,
}

/// Modifier keys held.
#[derive(Clone, Copy, Debug, PartialEq, Eq, Structural)]
pub struct Modifiers {
    pub alt: bool,
    pub ctrl: bool,
    pub shift: bool,
    pub mac_cmd: bool,
    pub command: bool,
}

impl Modifiers {
    /// No modifier held.
    pub fn none() -> (m: Modifiers)
        ensures
            !m.alt && !m.ctrl && !m.shift && !m.mac_cmd && !m.command,
    {
        Modifiers { alt: false, ctrl: false, shift: false, mac_cmd: false, command: false }
    }
}

/// A mouse button as the GUI names it.
#[derive(Clone, Copy, Debug, PartialEq, Eq, Structural)]
pub enum PointerButton {
    Primary,
    Secondary,
    Middle,
    Extra1,
    Extra2,
}

impl PointerButton {
    /// The button's number.
    pub open spec fn spec_number(self) -> u8 {
        match self {
            PointerButton::Primary => 0,
            PointerButton::Secondary => 1,
            PointerButton::Middle => 2,
            PointerButton::Extra1 => 3,
            PointerButton::Extra2 => 4,
        }
    }

    pub fn number(&self) -> (n: u8)
        ensures
            n == self.spec_number(),
    {
        match self {
            PointerButton::Primary => 0,
            PointerButton::Secondary => 1,
            PointerButton::Middle => 2,
            PointerButton::Extra1 => 3,
            PointerButton::Extra2 => 4,
        }
    }
}

/// The GUI button a mouse button stands for.
pub open spec fn spec_pointer_button(b: MouseButton) -> PointerButton {
    match b {
        MouseButton::Left => PointerButton::Primary,
        MouseButton::Right => PointerButton::Secondary,
        MouseButton::Middle => PointerButton::Middle,
        MouseButton::Back => PointerButton::Extra1,
        MouseButton::Forward => PointerButton::Extra2,
    }
}

pub fn pointer_button(b: MouseButton) -> (p: PointerButton)
    ensures
        p == spec_pointer_button(b),
{
    match b {
        MouseButton::Left => PointerButton::Primary,
        MouseButton::Right => PointerButton::Secondary,
        MouseButton::Middle => PointerButton::Middle,
        MouseButton::Back => PointerButton::Extra1,
        MouseButton::Forward => PointerButton::Extra2,
    }
}

/// A pointer event handed to the GUI; positions stay with the caller.
#[derive(Clone, Copy, Debug, PartialEq, Eq, Structural)]
pub enum PointerEvent {
    Moved,
    Button { button: PointerButton, pressed: bool, modifiers: Modifiers },
    Gone,
}

/// What the GUI is told when the mouse is captured by the game (every button released, then
/// the pointer gone) or freed (the pointer is back where it was).
pub fn mouse_lock_change_events(locked: bool) -> (events: Vec<PointerEvent>)
    ensures
        locked ==> events@ == seq![
            PointerEvent::Button { button: PointerButton::Primary, pressed: false, modifiers: Modifiers { alt: false, ctrl: false, shift: false, mac_cmd: false, command: false } },
            PointerEvent::Button { button: PointerButton::Secondary, pressed: false, modifiers: Modifiers { alt: false, ctrl: false, shift: false, mac_cmd: false, command: false } },
            PointerEvent::Button { button: PointerButton::Middle, pressed: false, modifiers: Modifiers { alt: false, ctrl: false, shift: false, mac_cmd: false, command: false } },
            PointerEvent::Button { button: PointerButton::Extra1, pressed: false, modifiers: Modifiers { alt: false, ctrl: false, shift: false, mac_cmd: false, command: false } },
            PointerEvent::Button { button: PointerButton::Extra2, pressed: false, modifiers: Modifiers { alt: false, ctrl: false, shift: false, mac_cmd: false, command: false } },
            PointerEvent::Gone,
        ],
        !locked ==> events@ == seq![PointerEvent::Moved],
{
    let mut events: Vec<PointerEvent> = Vec::new();
    if locked {
        let none = Modifiers::none();
        events.push(PointerEvent::Button { button: PointerButton::Primary, pressed: false, modifiers: none });
        events.push(PointerEvent::Button { button: PointerButton::Secondary, pressed: false, modifiers: none });
        events.push(PointerEvent::Button { button: PointerButton::Middle, pressed: false, modifiers: none });
        events.push(PointerEvent::Button { button: PointerButton::Extra1, pressed: false, modifiers: none });
        events.push(PointerEvent::Button { button: PointerButton::Extra2, pressed: false, modifiers: none });
        events.push(PointerEvent::Gone);
        assert(events@ =~= seq![
            PointerEvent::Button { button: PointerButton::Primary, pressed: false, modifiers: none },
            PointerEvent::Button { button: PointerButton::Secondary, pressed: false, modifiers: none },
            PointerEvent::Button { button: PointerButton::Middle, pressed: false, modifiers: none },
            PointerEvent::Button { button: PointerButton::Extra1, pressed: false, modifiers: none },
            PointerEvent::Button { button: PointerButton::Extra2, pressed: false, modifiers: none },
            PointerEvent::Gone,
        ]);
    } else {
        events.push(PointerEvent::Moved);
        assert(events@ =~= seq![PointerEvent::Moved]);
    }
    events
}

/// The GUI event for a mouse button going down or up while the mouse is free, or nothing while
/// the game holds the mouse.
pub fn mouse_input_event(mouse_locked: bool, state: ElementState, button: MouseButton) -> (e:
    Option<PointerEvent>)
    ensures
        mouse_locked ==> e is None,
        !mouse_locked ==> e == Some(
            PointerEvent::Button {
                button: spec_pointer_button(button),
                pressed: state == ElementState::Pressed,
                modifiers: Modifiers { alt: false, ctrl: false, shift: false, mac_cmd: false, command: false },
            },
        ),
{
    if mouse_locked {
        None
    } else {
        Some(
            PointerEvent::Button {
                button: pointer_button(button),
                pressed: state.is_pressed(),
                modifiers: Modifiers::none(),
            },
        )
    }
}

} // verus!
