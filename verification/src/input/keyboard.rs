//! Physical keys, and the tables that name the keys of libinput key codes and Mac scan codes.
use vstd::prelude::*;

verus! {

/// A key, by its position on a US keyboard.
#[derive(Clone, Copy, Debug, PartialEq, Eq, Structural)]
pub enum KeyCode {
    Escape,
    Digit1,
    Digit2,
    Digit3,
    Digit4,
    Digit5,
    Digit6,
    Digit7,
    Digit8,
    Digit9,
    Digit0,
    Minus,
    Equal,
    Backspace,
    Tab,
    KeyQ,
    KeyW,
    KeyE,
    KeyR,
    KeyT,
    KeyY,
    KeyU,
    KeyI,
    KeyO,
    KeyP,
    BracketLeft,
    BracketRight,
    Enter,
    ControlLeft,
    KeyA,
    KeyS,
    KeyD,
    KeyF,
    KeyG,
    KeyH,
    KeyJ,
    KeyK,
    KeyL,
    Semicolon,
    Quote,
    Backquote,
    ShiftLeft,
    Backslash,
    KeyZ,
    KeyX,
    KeyC,
    KeyV,
    KeyB,
    KeyN,
    KeyM,
    Comma,
    Period,
    Slash,
    ShiftRight,
    NumpadMultiply,
    AltLeft,
    Space,
    CapsLock,
    F1,
    F2,
    F3,
    F4,
    F5,
    F6,
    F7,
    F8,
    F9,
    F10,
    NumLock,
    ScrollLock,
    Numpad7,
    Numpad8,
    Numpad9,
    NumpadSubtract,
    Numpad4,
    Numpad5,
    Numpad6,
    NumpadAdd,
    Numpad1,
    Numpad2,
    Numpad3,
    Numpad0,
    NumpadDecimal,
    F11,
    F12,
    Katakana,
    Hiragana,
    NumpadEnter,
    ControlRight,
    NumpadDivide,
    AltRight,
    Home,
    ArrowUp,
    PageUp,
    ArrowLeft,
    ArrowRight,
    End,
    ArrowDown,
    PageDown,
    Insert,
    Delete,
    AudioVolumeMute,
    AudioVolumeDown,
    AudioVolumeUp,
    NumpadEqual,
    Pause,
    NumpadComma,
    IntlYen,
    SuperLeft,
    SuperRight,
    Sleep,
    F13,
    F14,
    F15,
    F16,
    F17,
    F18,
    F19,
    F20,
    F21,
    F22,
    F23,
    F24,
    IntlBackslash,
    Fn,
    IntlRo,
    Lang2,
    Lang1,
    ContextMenu,
}

/// A key code of the platform that no `KeyCode` names.
#[derive(Clone, Copy, Debug, PartialEq, Eq, Structural)]
pub enum NativeKeyCode {
    LibInput(u32),
    MacOS(u16),
}

/// A key, named if it can be.
#[derive(Clone, Copy, Debug, PartialEq, Eq, Structural)]
pub enum PhysicalKey {
    Code(KeyCode),
    Unidentified(NativeKeyCode),
}

/// The key with libinput key code `code`, if it has a name.
pub open spec fn spec_libinput_key(code: u32) -> Option<KeyCode> {
    if code == 1 {
        Some(KeyCode::Escape)
    } else if code == 2 {
        Some(KeyCode::Digit1)
    } else if code == 3 {
        Some(KeyCode::Digit2)
    } else if code == 4 {
        Some(KeyCode::Digit3)
    } else if code == 5 {
        Some(KeyCode::Digit4)
    } else if code == 6 {
        Some(KeyCode::Digit5)
    } else if code == 7 {
        Some(KeyCode::Digit6)
    } else if code == 8 {
        Some(KeyCode::Digit7)
    } else if code == 9 {
        Some(KeyCode::Digit8)
    } else if code == 10 {
        Some(KeyCode::Digit9)
    } else if code == 11 {
        Some(KeyCode::Digit0)
    } else if code == 12 {
        Some(KeyCode::Minus)
    } else if code == 13 {
        Some(KeyCode::Equal)
    } else if code == 14 {
        Some(KeyCode::Backspace)
    } else if code == 15 {
        Some(KeyCode::Tab)
    } else if code == 16 {
        Some(KeyCode::KeyQ)
    } else if code == 17 {
        Some(KeyCode::KeyW)
    } else if code == 18 {
        Some(KeyCode::KeyE)
    } else if code == 19 {
        Some(KeyCode::KeyR)
    } else if code == 20 {
        Some(KeyCode::KeyT)
    } else if code == 21 {
        Some(KeyCode::KeyY)
    } else if code == 22 {
        Some(KeyCode::KeyU)
    } else if code == 23 {
        Some(KeyCode::KeyI)
    } else if code == 24 {
        Some(KeyCode::KeyO)
    } else if code == 25 {
        Some(KeyCode::KeyP)
    } else if code == 26 {
        Some(KeyCode::BracketLeft)
    } else if code == 27 {
        Some(KeyCode::BracketRight)
    } else if code == 28 {
        Some(KeyCode::Enter)
    } else if code == 29 {
        Some(KeyCode::ControlLeft)
    } else if code == 30 {
        Some(KeyCode::KeyA)
    } else if code == 31 {
        Some(KeyCode::KeyS)
    } else if code == 32 {
        Some(KeyCode::KeyD)
    } else if code == 33 {
        Some(KeyCode::KeyF)
    } else if code == 34 {
        Some(KeyCode::KeyG)
    } else if code == 35 {
        Some(KeyCode::KeyH)
    } else if code == 36 {
        Some(KeyCode::KeyJ)
    } else if code == 37 {
        Some(KeyCode::KeyK)
    } else if code == 38 {
        Some(KeyCode::KeyL)
    } else if code == 39 {
        Some(KeyCode::Semicolon)
    } else if code == 40 {
        Some(KeyCode::Quote)
    } else if code == 41 {
        Some(KeyCode::Backquote)
    } else if code == 42 {
        Some(KeyCode::ShiftLeft)
    } else if code == 43 {
        Some(KeyCode::Backslash)
    } else if code == 44 {
        Some(KeyCode::KeyZ)
    } else if code == 45 {
        Some(KeyCode::KeyX)
    } else if code == 46 {
        Some(KeyCode::KeyC)
    } else if code == 47 {
        Some(KeyCode::KeyV)
    } else if code == 48 {
        Some(KeyCode::KeyB)
    } else if code == 49 {
        Some(KeyCode::KeyN)
    } else if code == 50 {
        Some(KeyCode::KeyM)
    } else if code == 51 {
        Some(KeyCode::Comma)
    } else if code == 52 {
        Some(KeyCode::Period)
    } else if code == 53 {
        Some(KeyCode::Slash)
    } else if code == 54 {
        Some(KeyCode::ShiftRight)
    } else if code == 55 {
        Some(KeyCode::NumpadMultiply)
    } else if code == 56 {
        Some(KeyCode::AltLeft)
    } else if code == 57 {
        Some(KeyCode::Space)
    } else if code == 58 {
        Some(KeyCode::CapsLock)
    } else if code == 59 {
        Some(KeyCode::F1)
    } else if code == 60 {
        Some(KeyCode::F2)
    } else if code == 61 {
        Some(KeyCode::F3)
    } else if code == 62 {
        Some(KeyCode::F4)
    } else if code == 63 {
        Some(KeyCode::F5)
    } else if code == 64 {
        Some(KeyCode::F6)
    } else if code == 65 {
        Some(KeyCode::F7)
    } else if code == 66 {
        Some(KeyCode::F8)
    } else if code == 67 {
        Some(KeyCode::F9)
    } else if code == 68 {
        Some(KeyCode::F10)
    } else if code == 69 {
        Some(KeyCode::NumLock)
    } else if code == 70 {
        Some(KeyCode::ScrollLock)
    } else if code == 71 {
        Some(KeyCode::Numpad7)
    } else if code == 72 {
        Some(KeyCode::Numpad8)
    } else if code == 73 {
        Some(KeyCode::Numpad9)
    } else if code == 74 {
        Some(KeyCode::NumpadSubtract)
    } else if code == 75 {
        Some(KeyCode::Numpad4)
    } else if code == 76 {
        Some(KeyCode::Numpad5)
    } else if code == 77 {
        Some(KeyCode::Numpad6)
    } else if code == 78 {
        Some(KeyCode::NumpadAdd)
    } else if code == 79 {
        Some(KeyCode::Numpad1)
    } else if code == 80 {
        Some(KeyCode::Numpad2)
    } else if code == 81 {
        Some(KeyCode::Numpad3)
    } else if code == 82 {
        Some(KeyCode::Numpad0)
    } else if code == 83 {
        Some(KeyCode::NumpadDecimal)
    } else if code == 87 {
        Some(KeyCode::F11)
    } else if code == 88 {
        Some(KeyCode::F12)
    } else if code == 90 {
        Some(KeyCode::Katakana)
    } else if code == 91 {
        Some(KeyCode::Hiragana)
    } else if code == 96 {
        Some(KeyCode::NumpadEnter)
    } else if code == 97 {
        Some(KeyCode::ControlRight)
    } else if code == 98 {
        Some(KeyCode::NumpadDivide)
    } else if code == 100 {
        Some(KeyCode::AltRight)
    } else if code == 102 {
        Some(KeyCode::Home)
    } else if code == 103 {
        Some(KeyCode::ArrowUp)
    } else if code == 104 {
        Some(KeyCode::PageUp)
    } else if code == 105 {
        Some(KeyCode::ArrowLeft)
    } else if code == 106 {
        Some(KeyCode::ArrowRight)
    } else if code == 107 {
        Some(KeyCode::End)
    } else if code == 108 {
        Some(KeyCode::ArrowDown)
    } else if code == 109 {
        Some(KeyCode::PageDown)
    } else if code == 110 {
        Some(KeyCode::Insert)
    } else if code == 111 {
        Some(KeyCode::Delete)
    } else if code == 113 {
        Some(KeyCode::AudioVolumeMute)
    } else if code == 114 {
        Some(KeyCode::AudioVolumeDown)
    } else if code == 115 {
        Some(KeyCode::AudioVolumeUp)
    } else if code == 117 {
        Some(KeyCode::NumpadEqual)
    } else if code == 119 {
        Some(KeyCode::Pause)
    } else if code == 121 {
        Some(KeyCode::NumpadComma)
    } else if code == 124 {
        Some(KeyCode::IntlYen)
    } else if code == 125 {
        Some(KeyCode::SuperLeft)
    } else if code == 126 {
        Some(KeyCode::SuperRight)
    } else if code == 142 {
        Some(KeyCode::Sleep)
    } else if code == 183 {
        Some(KeyCode::F13)
    } else if code == 184 {
        Some(KeyCode::F14)
    } else if code == 185 {
        Some(KeyCode::F15)
    } else if code == 186 {
        Some(KeyCode::F16)
    } else if code == 187 {
        Some(KeyCode::F17)
    } else if code == 188 {
        Some(KeyCode::F18)
    } else if code == 189 {
        Some(KeyCode::F19)
    } else if code == 190 {
        Some(KeyCode::F20)
    } else if code == 191 {
        Some(KeyCode::F21)
    } else if code == 192 {
        Some(KeyCode::F22)
    } else if code == 193 {
        Some(KeyCode::F23)
    } else if code == 194 {
        Some(KeyCode::F24)
    } else {
        None
    }
}

/// The libinput key code of key `k`, if it has one.
pub open spec fn spec_libinput_code(k: KeyCode) -> Option<u32> {
    match k {
        KeyCode::Escape => Some(1),
        KeyCode::Digit1 => Some(2),
        KeyCode::Digit2 => Some(3),
        KeyCode::Digit3 => Some(4),
        KeyCode::Digit4 => Some(5),
        KeyCode::Digit5 => Some(6),
        KeyCode::Digit6 => Some(7),
        KeyCode::Digit7 => Some(8),
        KeyCode::Digit8 => Some(9),
        KeyCode::Digit9 => Some(10),
        KeyCode::Digit0 => Some(11),
        KeyCode::Minus => Some(12),
        KeyCode::Equal => Some(13),
        KeyCode::Backspace => Some(14),
        KeyCode::Tab => Some(15),
        KeyCode::KeyQ => Some(16),
        KeyCode::KeyW => Some(17),
        KeyCode::KeyE => Some(18),
        KeyCode::KeyR => Some(19),
        KeyCode::KeyT => Some(20),
        KeyCode::KeyY => Some(21),
        KeyCode::KeyU => Some(22),
        KeyCode::KeyI => Some(23),
        KeyCode::KeyO => Some(24),
        KeyCode::KeyP => Some(25),
        KeyCode::BracketLeft => Some(26),
        KeyCode::BracketRight => Some(27),
        KeyCode::Enter => Some(28),
        KeyCode::ControlLeft => Some(29),
        KeyCode::KeyA => Some(30),
        KeyCode::KeyS => Some(31),
        KeyCode::KeyD => Some(32),
        KeyCode::KeyF => Some(33),
        KeyCode::KeyG => Some(34),
        KeyCode::KeyH => Some(35),
        KeyCode::KeyJ => Some(36),
        KeyCode::KeyK => Some(37),
        KeyCode::KeyL => Some(38),
        KeyCode::Semicolon => Some(39),
        KeyCode::Quote => Some(40),
        KeyCode::Backquote => Some(41),
        KeyCode::ShiftLeft => Some(42),
        KeyCode::Backslash => Some(43),
        KeyCode::KeyZ => Some(44),
        KeyCode::KeyX => Some(45),
        KeyCode::KeyC => Some(46),
        KeyCode::KeyV => Some(47),
        KeyCode::KeyB => Some(48),
        KeyCode::KeyN => Some(49),
        KeyCode::KeyM => Some(50),
        KeyCode::Comma => Some(51),
        KeyCode::Period => Some(52),
        KeyCode::Slash => Some(53),
        KeyCode::ShiftRight => Some(54),
        KeyCode::NumpadMultiply => Some(55),
        KeyCode::AltLeft => Some(56),
        KeyCode::Space => Some(57),
        KeyCode::CapsLock => Some(58),
        KeyCode::F1 => Some(59),
        KeyCode::F2 => Some(60),
        KeyCode::F3 => Some(61),
        KeyCode::F4 => Some(62),
        KeyCode::F5 => Some(63),
        KeyCode::F6 => Some(64),
        KeyCode::F7 => Some(65),
        KeyCode::F8 => Some(66),
        KeyCode::F9 => Some(67),
        KeyCode::F10 => Some(68),
        KeyCode::NumLock => Some(69),
        KeyCode::ScrollLock => Some(70),
        KeyCode::Numpad7 => Some(71),
        KeyCode::Numpad8 => Some(72),
        KeyCode::Numpad9 => Some(73),
        KeyCode::NumpadSubtract => Some(74),
        KeyCode::Numpad4 => Some(75),
        KeyCode::Numpad5 => Some(76),
        KeyCode::Numpad6 => Some(77),
        KeyCode::NumpadAdd => Some(78),
        KeyCode::Numpad1 => Some(79),
        KeyCode::Numpad2 => Some(80),
        KeyCode::Numpad3 => Some(81),
        KeyCode::Numpad0 => Some(82),
        KeyCode::NumpadDecimal => Some(83),
        KeyCode::F11 => Some(87),
        KeyCode::F12 => Some(88),
        KeyCode::Katakana => Some(90),
        KeyCode::Hiragana => Some(91),
        KeyCode::NumpadEnter => Some(96),
        KeyCode::ControlRight => Some(97),
        KeyCode::NumpadDivide => Some(98),
        KeyCode::AltRight => Some(100),
        KeyCode::Home => Some(102),
        KeyCode::ArrowUp => Some(103),
        KeyCode::PageUp => Some(104),
        KeyCode::ArrowLeft => Some(105),
        KeyCode::ArrowRight => Some(106),
        KeyCode::End => Some(107),
        KeyCode::ArrowDown => Some(108),
        KeyCode::PageDown => Some(109),
        KeyCode::Insert => Some(110),
        KeyCode::Delete => Some(111),
        KeyCode::AudioVolumeMute => Some(113),
        KeyCode::AudioVolumeDown => Some(114),
        KeyCode::AudioVolumeUp => Some(115),
        KeyCode::NumpadEqual => Some(117),
        KeyCode::Pause => Some(119),
        KeyCode::NumpadComma => Some(121),
        KeyCode::IntlYen => Some(124),
        KeyCode::SuperLeft => Some(125),
        KeyCode::SuperRight => Some(126),
        KeyCode::Sleep => Some(142),
        KeyCode::F13 => Some(183),
        KeyCode::F14 => Some(184),
        KeyCode::F15 => Some(185),
        KeyCode::F16 => Some(186),
        KeyCode::F17 => Some(187),
        KeyCode::F18 => Some(188),
        KeyCode::F19 => Some(189),
        KeyCode::F20 => Some(190),
        KeyCode::F21 => Some(191),
        KeyCode::F22 => Some(192),
        KeyCode::F23 => Some(193),
        KeyCode::F24 => Some(194),
        _ => None,
    }
}

/// The key with Mac scan code `code`, if it has a name.
pub open spec fn spec_mac_key(code: u16) -> Option<KeyCode> {
    if code == 0x00 {
        Some(KeyCode::KeyA)
    } else if code == 0x01 {
        Some(KeyCode::KeyS)
    } else if code == 0x02 {
        Some(KeyCode::KeyD)
    } else if code == 0x03 {
        Some(KeyCode::KeyF)
    } else if code == 0x04 {
        Some(KeyCode::KeyH)
    } else if code == 0x05 {
        Some(KeyCode::KeyG)
    } else if code == 0x06 {
        Some(KeyCode::KeyZ)
    } else if code == 0x07 {
        Some(KeyCode::KeyX)
    } else if code == 0x08 {
        Some(KeyCode::KeyC)
    } else if code == 0x09 {
        Some(KeyCode::KeyV)
    } else if code == 0x0A {
        Some(KeyCode::IntlBackslash)
    } else if code == 0x0B {
        Some(KeyCode::KeyB)
    } else if code == 0x0C {
        Some(KeyCode::KeyQ)
    } else if code == 0x0D {
        Some(KeyCode::KeyW)
    } else if code == 0x0E {
        Some(KeyCode::KeyE)
    } else if code == 0x0F {
        Some(KeyCode::KeyR)
    } else if code == 0x10 {
        Some(KeyCode::KeyY)
    } else if code == 0x11 {
        Some(KeyCode::KeyT)
    } else if code == 0x12 {
        Some(KeyCode::Digit1)
    } else if code == 0x13 {
        Some(KeyCode::Digit2)
    } else if code == 0x14 {
        Some(KeyCode::Digit3)
    } else if code == 0x15 {
        Some(KeyCode::Digit4)
    } else if code == 0x16 {
        Some(KeyCode::Digit6)
    } else if code == 0x17 {
        Some(KeyCode::Digit5)
    } else if code == 0x18 {
        Some(KeyCode::Equal)
    } else if code == 0x19 {
        Some(KeyCode::Digit9)
    } else if code == 0x1A {
        Some(KeyCode::Digit7)
    } else if code == 0x1B {
        Some(KeyCode::Minus)
    } else if code == 0x1C {
        Some(KeyCode::Digit8)
    } else if code == 0x1D {
        Some(KeyCode::Digit0)
    } else if code == 0x1E {
        Some(KeyCode::BracketRight)
    } else if code == 0x1F {
        Some(KeyCode::KeyO)
    } else if code == 0x20 {
        Some(KeyCode::KeyU)
    } else if code == 0x21 {
        Some(KeyCode::BracketLeft)
    } else if code == 0x22 {
        Some(KeyCode::KeyI)
    } else if code == 0x23 {
        Some(KeyCode::KeyP)
    } else if code == 0x24 {
        Some(KeyCode::Enter)
    } else if code == 0x25 {
        Some(KeyCode::KeyL)
    } else if code == 0x26 {
        Some(KeyCode::KeyJ)
    } else if code == 0x27 {
        Some(KeyCode::Quote)
    } else if code == 0x28 {
        Some(KeyCode::KeyK)
    } else if code == 0x29 {
        Some(KeyCode::Semicolon)
    } else if code == 0x2A {
        Some(KeyCode::Backslash)
    } else if code == 0x2B {
        Some(KeyCode::Comma)
    } else if code == 0x2C {
        Some(KeyCode::Slash)
    } else if code == 0x2D {
        Some(KeyCode::KeyN)
    } else if code == 0x2E {
        Some(KeyCode::KeyM)
    } else if code == 0x2F {
        Some(KeyCode::Period)
    } else if code == 0x30 {
        Some(KeyCode::Tab)
    } else if code == 0x31 {
        Some(KeyCode::Space)
    } else if code == 0x32 {
        Some(KeyCode::Backquote)
    } else if code == 0x33 {
        Some(KeyCode::Backspace)
    } else if code == 0x35 {
        Some(KeyCode::Escape)
    } else if code == 0x38 {
        Some(KeyCode::ShiftLeft)
    } else if code == 0x39 {
        Some(KeyCode::CapsLock)
    } else if code == 0x3A {
        Some(KeyCode::AltLeft)
    } else if code == 0x3B {
        Some(KeyCode::ControlLeft)
    } else if code == 0x3C {
        Some(KeyCode::ShiftRight)
    } else if code == 0x3D {
        Some(KeyCode::AltRight)
    } else if code == 0x3E {
        Some(KeyCode::ControlRight)
    } else if code == 0x3F {
        Some(KeyCode::Fn)
    } else if code == 0x40 {
        Some(KeyCode::F17)
    } else if code == 0x41 {
        Some(KeyCode::NumpadDecimal)
    } else if code == 0x43 {
        Some(KeyCode::NumpadMultiply)
    } else if code == 0x45 {
        Some(KeyCode::NumpadAdd)
    } else if code == 0x47 {
        Some(KeyCode::NumLock)
    } else if code == 0x48 {
        Some(KeyCode::AudioVolumeUp)
    } else if code == 0x49 {
        Some(KeyCode::AudioVolumeDown)
    } else if code == 0x4A {
        Some(KeyCode::AudioVolumeMute)
    } else if code == 0x4B {
        Some(KeyCode::NumpadDivide)
    } else if code == 0x4C {
        Some(KeyCode::NumpadEnter)
    } else if code == 0x4E {
        Some(KeyCode::NumpadSubtract)
    } else if code == 0x4F {
        Some(KeyCode::F18)
    } else if code == 0x50 {
        Some(KeyCode::F19)
    } else if code == 0x51 {
        Some(KeyCode::NumpadEqual)
    } else if code == 0x52 {
        Some(KeyCode::Numpad0)
    } else if code == 0x53 {
        Some(KeyCode::Numpad1)
    } else if code == 0x54 {
        Some(KeyCode::Numpad2)
    } else if code == 0x55 {
        Some(KeyCode::Numpad3)
    } else if code == 0x56 {
        Some(KeyCode::Numpad4)
    } else if code == 0x57 {
        Some(KeyCode::Numpad5)
    } else if code == 0x58 {
        Some(KeyCode::Numpad6)
    } else if code == 0x59 {
        Some(KeyCode::Numpad7)
    } else if code == 0x5A {
        Some(KeyCode::F20)
    } else if code == 0x5B {
        Some(KeyCode::Numpad8)
    } else if code == 0x5C {
        Some(KeyCode::Numpad9)
    } else if code == 0x5D {
        Some(KeyCode::IntlYen)
    } else if code == 0x5E {
        Some(KeyCode::IntlRo)
    } else if code == 0x5F {
        Some(KeyCode::NumpadComma)
    } else if code == 0x60 {
        Some(KeyCode::F5)
    } else if code == 0x61 {
        Some(KeyCode::F6)
    } else if code == 0x62 {
        Some(KeyCode::F7)
    } else if code == 0x63 {
        Some(KeyCode::F3)
    } else if code == 0x64 {
        Some(KeyCode::F8)
    } else if code == 0x65 {
        Some(KeyCode::F9)
    } else if code == 0x66 {
        Some(KeyCode::Lang2)
    } else if code == 0x67 {
        Some(KeyCode::F11)
    } else if code == 0x68 {
        Some(KeyCode::Lang1)
    } else if code == 0x69 {
        Some(KeyCode::F13)
    } else if code == 0x6A {
        Some(KeyCode::F16)
    } else if code == 0x6B {
        Some(KeyCode::F14)
    } else if code == 0x6D {
        Some(KeyCode::F10)
    } else if code == 0x6E {
        Some(KeyCode::ContextMenu)
    } else if code == 0x6F {
        Some(KeyCode::F12)
    } else if code == 0x71 {
        Some(KeyCode::F15)
    } else if code == 0x72 {
        Some(KeyCode::Insert)
    } else if code == 0x73 {
        Some(KeyCode::Home)
    } else if code == 0x74 {
        Some(KeyCode::PageUp)
    } else if code == 0x75 {
        Some(KeyCode::Delete)
    } else if code == 0x76 {
        Some(KeyCode::F4)
    } else if code == 0x77 {
        Some(KeyCode::End)
    } else if code == 0x78 {
        Some(KeyCode::F2)
    } else if code == 0x79 {
        Some(KeyCode::PageDown)
    } else if code == 0x7A {
        Some(KeyCode::F1)
    } else if code == 0x7B {
        Some(KeyCode::ArrowLeft)
    } else if code == 0x7C {
        Some(KeyCode::ArrowRight)
    } else if code == 0x7D {
        Some(KeyCode::ArrowDown)
    } else if code == 0x7E {
        Some(KeyCode::ArrowUp)
    } else {
        None
    }
}

/// The Mac scan code of key `k`, if it has one.
pub open spec fn spec_mac_scancode(k: KeyCode) -> Option<u16> {
    match k {
        KeyCode::Escape => Some(0x35),
        KeyCode::Digit1 => Some(0x12),
        KeyCode::Digit2 => Some(0x13),
        KeyCode::Digit3 => Some(0x14),
        KeyCode::Digit4 => Some(0x15),
        KeyCode::Digit5 => Some(0x17),
        KeyCode::Digit6 => Some(0x16),
        KeyCode::Digit7 => Some(0x1A),
        KeyCode::Digit8 => Some(0x1C),
        KeyCode::Digit9 => Some(0x19),
        KeyCode::Digit0 => Some(0x1D),
        KeyCode::Minus => Some(0x1B),
        KeyCode::Equal => Some(0x18),
        KeyCode::Backspace => Some(0x33),
        KeyCode::Tab => Some(0x30),
        KeyCode::KeyQ => Some(0x0C),
        KeyCode::KeyW => Some(0x0D),
        KeyCode::KeyE => Some(0x0E),
        KeyCode::KeyR => Some(0x0F),
        KeyCode::KeyT => Some(0x11),
        KeyCode::KeyY => Some(0x10),
        KeyCode::KeyU => Some(0x20),
        KeyCode::KeyI => Some(0x22),
        KeyCode::KeyO => Some(0x1F),
        KeyCode::KeyP => Some(0x23),
        KeyCode::BracketLeft => Some(0x21),
        KeyCode::BracketRight => Some(0x1E),
        KeyCode::Enter => Some(0x24),
        KeyCode::ControlLeft => Some(0x3B),
        KeyCode::KeyA => Some(0x00),
        KeyCode::KeyS => Some(0x01),
        KeyCode::KeyD => Some(0x02),
        KeyCode::KeyF => Some(0x03),
        KeyCode::KeyG => Some(0x05),
        KeyCode::KeyH => Some(0x04),
        KeyCode::KeyJ => Some(0x26),
        KeyCode::KeyK => Some(0x28),
        KeyCode::KeyL => Some(0x25),
        KeyCode::Semicolon => Some(0x29),
        KeyCode::Quote => Some(0x27),
        KeyCode::Backquote => Some(0x32),
        KeyCode::ShiftLeft => Some(0x38),
        KeyCode::Backslash => Some(0x2A),
        KeyCode::KeyZ => Some(0x06),
        KeyCode::KeyX => Some(0x07),
        KeyCode::KeyC => Some(0x08),
        KeyCode::KeyV => Some(0x09),
        KeyCode::KeyB => Some(0x0B),
        KeyCode::KeyN => Some(0x2D),
        KeyCode::KeyM => Some(0x2E),
        KeyCode::Comma => Some(0x2B),
        KeyCode::Period => Some(0x2F),
        KeyCode::Slash => Some(0x2C),
        KeyCode::ShiftRight => Some(0x3C),
        KeyCode::NumpadMultiply => Some(0x43),
        KeyCode::AltLeft => Some(0x3A),
        KeyCode::Space => Some(0x31),
        KeyCode::CapsLock => Some(0x39),
        KeyCode::F1 => Some(0x7A),
        KeyCode::F2 => Some(0x78),
        KeyCode::F3 => Some(0x63),
        KeyCode::F4 => Some(0x76),
        KeyCode::F5 => Some(0x60),
        KeyCode::F6 => Some(0x61),
        KeyCode::F7 => Some(0x62),
        KeyCode::F8 => Some(0x64),
        KeyCode::F9 => Some(0x65),
        KeyCode::F10 => Some(0x6D),
        KeyCode::NumLock => Some(0x47),
        KeyCode::Numpad7 => Some(0x59),
        KeyCode::Numpad8 => Some(0x5B),
        KeyCode::Numpad9 => Some(0x5C),
        KeyCode::NumpadSubtract => Some(0x4E),
        KeyCode::Numpad4 => Some(0x56),
        KeyCode::Numpad5 => Some(0x57),
        KeyCode::Numpad6 => Some(0x58),
        KeyCode::NumpadAdd => Some(0x45),
        KeyCode::Numpad1 => Some(0x53),
        KeyCode::Numpad2 => Some(0x54),
        KeyCode::Numpad3 => Some(0x55),
        KeyCode::Numpad0 => Some(0x52),
        KeyCode::NumpadDecimal => Some(0x41),
        KeyCode::F11 => Some(0x67),
        KeyCode::F12 => Some(0x6F),
        KeyCode::NumpadEnter => Some(0x4C),
        KeyCode::ControlRight => Some(0x3E),
        KeyCode::NumpadDivide => Some(0x4B),
        KeyCode::AltRight => Some(0x3D),
        KeyCode::Home => Some(0x73),
        KeyCode::ArrowUp => Some(0x7E),
        KeyCode::PageUp => Some(0x74),
        KeyCode::ArrowLeft => Some(0x7B),
        KeyCode::ArrowRight => Some(0x7C),
        KeyCode::End => Some(0x77),
        KeyCode::ArrowDown => Some(0x7D),
        KeyCode::PageDown => Some(0x79),
        KeyCode::Insert => Some(0x72),
        KeyCode::Delete => Some(0x75),
        KeyCode::AudioVolumeMute => Some(0x4A),
        KeyCode::AudioVolumeDown => Some(0x49),
        KeyCode::AudioVolumeUp => Some(0x48),
        KeyCode::NumpadEqual => Some(0x51),
        KeyCode::NumpadComma => Some(0x5F),
        KeyCode::IntlYen => Some(0x5D),
        KeyCode::F13 => Some(0x69),
        KeyCode::F14 => Some(0x6B),
        KeyCode::F15 => Some(0x71),
        KeyCode::F16 => Some(0x6A),
        KeyCode::F17 => Some(0x40),
        KeyCode::F18 => Some(0x4F),
        KeyCode::F19 => Some(0x50),
        KeyCode::F20 => Some(0x5A),
        KeyCode::IntlBackslash => Some(0x0A),
        KeyCode::Fn => Some(0x3F),
        KeyCode::IntlRo => Some(0x5E),
        KeyCode::Lang2 => Some(0x66),
        KeyCode::Lang1 => Some(0x68),
        KeyCode::ContextMenu => Some(0x6E),
        _ => None,
    }
}

/// The key that libinput reports with key code `keycode`.
pub fn libinput_keycode_to_physical_key(keycode: u32) -> (r: PhysicalKey)
    ensures
        r == match spec_libinput_key(keycode) {
            Some(k) => PhysicalKey::Code(k),
            None => PhysicalKey::Unidentified(NativeKeyCode::LibInput(keycode)),
        },
{
    let k = match keycode {
        1 => KeyCode::Escape,
        2 => KeyCode::Digit1,
        3 => KeyCode::Digit2,
        4 => KeyCode::Digit3,
        5 => KeyCode::Digit4,
        6 => KeyCode::Digit5,
        7 => KeyCode::Digit6,
        8 => KeyCode::Digit7,
        9 => KeyCode::Digit8,
        10 => KeyCode::Digit9,
        11 => KeyCode::Digit0,
        12 => KeyCode::Minus,
        13 => KeyCode::Equal,
        14 => KeyCode::Backspace,
        15 => KeyCode::Tab,
        16 => KeyCode::KeyQ,
        17 => KeyCode::KeyW,
        18 => KeyCode::KeyE,
        19 => KeyCode::KeyR,
        20 => KeyCode::KeyT,
        21 => KeyCode::KeyY,
        22 => KeyCode::KeyU,
        23 => KeyCode::KeyI,
        24 => KeyCode::KeyO,
        25 => KeyCode::KeyP,
        26 => KeyCode::BracketLeft,
        27 => KeyCode::BracketRight,
        28 => KeyCode::Enter,
        29 => KeyCode::ControlLeft,
        30 => KeyCode::KeyA,
        31 => KeyCode::KeyS,
        32 => KeyCode::KeyD,
        33 => KeyCode::KeyF,
        34 => KeyCode::KeyG,
        35 => KeyCode::KeyH,
        36 => KeyCode::KeyJ,
        37 => KeyCode::KeyK,
        38 => KeyCode::KeyL,
        39 => KeyCode::Semicolon,
        40 => KeyCode::Quote,
        41 => KeyCode::Backquote,
        42 => KeyCode::ShiftLeft,
        43 => KeyCode::Backslash,
        44 => KeyCode::KeyZ,
        45 => KeyCode::KeyX,
        46 => KeyCode::KeyC,
        47 => KeyCode::KeyV,
        48 => KeyCode::KeyB,
        49 => KeyCode::KeyN,
        50 => KeyCode::KeyM,
        51 => KeyCode::Comma,
        52 => KeyCode::Period,
        53 => KeyCode::Slash,
        54 => KeyCode::ShiftRight,
        55 => KeyCode::NumpadMultiply,
        56 => KeyCode::AltLeft,
        57 => KeyCode::Space,
        58 => KeyCode::CapsLock,
        59 => KeyCode::F1,
        60 => KeyCode::F2,
        61 => KeyCode::F3,
        62 => KeyCode::F4,
        63 => KeyCode::F5,
        64 => KeyCode::F6,
        65 => KeyCode::F7,
        66 => KeyCode::F8,
        67 => KeyCode::F9,
        68 => KeyCode::F10,
        69 => KeyCode::NumLock,
        70 => KeyCode::ScrollLock,
        71 => KeyCode::Numpad7,
        72 => KeyCode::Numpad8,
        73 => KeyCode::Numpad9,
        74 => KeyCode::NumpadSubtract,
        75 => KeyCode::Numpad4,
        76 => KeyCode::Numpad5,
        77 => KeyCode::Numpad6,
        78 => KeyCode::NumpadAdd,
        79 => KeyCode::Numpad1,
        80 => KeyCode::Numpad2,
        81 => KeyCode::Numpad3,
        82 => KeyCode::Numpad0,
        83 => KeyCode::NumpadDecimal,
        87 => KeyCode::F11,
        88 => KeyCode::F12,
        90 => KeyCode::Katakana,
        91 => KeyCode::Hiragana,
        96 => KeyCode::NumpadEnter,
        97 => KeyCode::ControlRight,
        98 => KeyCode::NumpadDivide,
        100 => KeyCode::AltRight,
        102 => KeyCode::Home,
        103 => KeyCode::ArrowUp,
        104 => KeyCode::PageUp,
        105 => KeyCode::ArrowLeft,
        106 => KeyCode::ArrowRight,
        107 => KeyCode::End,
        108 => KeyCode::ArrowDown,
        109 => KeyCode::PageDown,
        110 => KeyCode::Insert,
        111 => KeyCode::Delete,
        113 => KeyCode::AudioVolumeMute,
        114 => KeyCode::AudioVolumeDown,
        115 => KeyCode::AudioVolumeUp,
        117 => KeyCode::NumpadEqual,
        119 => KeyCode::Pause,
        121 => KeyCode::NumpadComma,
        124 => KeyCode::IntlYen,
        125 => KeyCode::SuperLeft,
        126 => KeyCode::SuperRight,
        142 => KeyCode::Sleep,
        183 => KeyCode::F13,
        184 => KeyCode::F14,
        185 => KeyCode::F15,
        186 => KeyCode::F16,
        187 => KeyCode::F17,
        188 => KeyCode::F18,
        189 => KeyCode::F19,
        190 => KeyCode::F20,
        191 => KeyCode::F21,
        192 => KeyCode::F22,
        193 => KeyCode::F23,
        194 => KeyCode::F24,
        _ => {
            return PhysicalKey::Unidentified(NativeKeyCode::LibInput(keycode));
        },
    };
    PhysicalKey::Code(k)
}

/// The key that a Mac reports with scan code `scancode`.
pub fn mac_scancode_to_physical_key(scancode: u16) -> (r: PhysicalKey)
    ensures
        r == match spec_mac_key(scancode) {
            Some(k) => PhysicalKey::Code(k),
            None => PhysicalKey::Unidentified(NativeKeyCode::MacOS(scancode)),
        },
{
    let k = match scancode {
        0x00 => KeyCode::KeyA,
        0x01 => KeyCode::KeyS,
        0x02 => KeyCode::KeyD,
        0x03 => KeyCode::KeyF,
        0x04 => KeyCode::KeyH,
        0x05 => KeyCode::KeyG,
        0x06 => KeyCode::KeyZ,
        0x07 => KeyCode::KeyX,
        0x08 => KeyCode::KeyC,
        0x09 => KeyCode::KeyV,
        0x0A => KeyCode::IntlBackslash,
        0x0B => KeyCode::KeyB,
        0x0C => KeyCode::KeyQ,
        0x0D => KeyCode::KeyW,
        0x0E => KeyCode::KeyE,
        0x0F => KeyCode::KeyR,
        0x10 => KeyCode::KeyY,
        0x11 => KeyCode::KeyT,
        0x12 => KeyCode::Digit1,
        0x13 => KeyCode::Digit2,
        0x14 => KeyCode::Digit3,
        0x15 => KeyCode::Digit4,
        0x16 => KeyCode::Digit6,
        0x17 => KeyCode::Digit5,
        0x18 => KeyCode::Equal,
        0x19 => KeyCode::Digit9,
        0x1A => KeyCode::Digit7,
        0x1B => KeyCode::Minus,
        0x1C => KeyCode::Digit8,
        0x1D => KeyCode::Digit0,
        0x1E => KeyCode::BracketRight,
        0x1F => KeyCode::KeyO,
        0x20 => KeyCode::KeyU,
        0x21 => KeyCode::BracketLeft,
        0x22 => KeyCode::KeyI,
        0x23 => KeyCode::KeyP,
        0x24 => KeyCode::Enter,
        0x25 => KeyCode::KeyL,
        0x26 => KeyCode::KeyJ,
        0x27 => KeyCode::Quote,
        0x28 => KeyCode::KeyK,
        0x29 => KeyCode::Semicolon,
        0x2A => KeyCode::Backslash,
        0x2B => KeyCode::Comma,
        0x2C => KeyCode::Slash,
        0x2D => KeyCode::KeyN,
        0x2E => KeyCode::KeyM,
        0x2F => KeyCode::Period,
        0x30 => KeyCode::Tab,
        0x31 => KeyCode::Space,
        0x32 => KeyCode::Backquote,
        0x33 => KeyCode::Backspace,
        0x35 => KeyCode::Escape,
        0x38 => KeyCode::ShiftLeft,
        0x39 => KeyCode::CapsLock,
        0x3A => KeyCode::AltLeft,
        0x3B => KeyCode::ControlLeft,
        0x3C => KeyCode::ShiftRight,
        0x3D => KeyCode::AltRight,
        0x3E => KeyCode::ControlRight,
        0x3F => KeyCode::Fn,
        0x40 => KeyCode::F17,
        0x41 => KeyCode::NumpadDecimal,
        0x43 => KeyCode::NumpadMultiply,
        0x45 => KeyCode::NumpadAdd,
        0x47 => KeyCode::NumLock,
        0x48 => KeyCode::AudioVolumeUp,
        0x49 => KeyCode::AudioVolumeDown,
        0x4A => KeyCode::AudioVolumeMute,
        0x4B => KeyCode::NumpadDivide,
        0x4C => KeyCode::NumpadEnter,
        0x4E => KeyCode::NumpadSubtract,
        0x4F => KeyCode::F18,
        0x50 => KeyCode::F19,
        0x51 => KeyCode::NumpadEqual,
        0x52 => KeyCode::Numpad0,
        0x53 => KeyCode::Numpad1,
        0x54 => KeyCode::Numpad2,
        0x55 => KeyCode::Numpad3,
        0x56 => KeyCode::Numpad4,
        0x57 => KeyCode::Numpad5,
        0x58 => KeyCode::Numpad6,
        0x59 => KeyCode::Numpad7,
        0x5A => KeyCode::F20,
        0x5B => KeyCode::Numpad8,
        0x5C => KeyCode::Numpad9,
        0x5D => KeyCode::IntlYen,
        0x5E => KeyCode::IntlRo,
        0x5F => KeyCode::NumpadComma,
        0x60 => KeyCode::F5,
        0x61 => KeyCode::F6,
        0x62 => KeyCode::F7,
        0x63 => KeyCode::F3,
        0x64 => KeyCode::F8,
        0x65 => KeyCode::F9,
        0x66 => KeyCode::Lang2,
        0x67 => KeyCode::F11,
        0x68 => KeyCode::Lang1,
        0x69 => KeyCode::F13,
        0x6A => KeyCode::F16,
        0x6B => KeyCode::F14,
        0x6D => KeyCode::F10,
        0x6E => KeyCode::ContextMenu,
        0x6F => KeyCode::F12,
        0x71 => KeyCode::F15,
        0x72 => KeyCode::Insert,
        0x73 => KeyCode::Home,
        0x74 => KeyCode::PageUp,
        0x75 => KeyCode::Delete,
        0x76 => KeyCode::F4,
        0x77 => KeyCode::End,
        0x78 => KeyCode::F2,
        0x79 => KeyCode::PageDown,
        0x7A => KeyCode::F1,
        0x7B => KeyCode::ArrowLeft,
        0x7C => KeyCode::ArrowRight,
        0x7D => KeyCode::ArrowDown,
        0x7E => KeyCode::ArrowUp,
        _ => {
            return PhysicalKey::Unidentified(NativeKeyCode::MacOS(scancode));
        },
    };
    PhysicalKey::Code(k)
}

/// A named key has exactly one libinput key code: the table names each key at most once.
pub proof fn lemma_libinput_table_round_trip(k: KeyCode)
    ensures
        spec_libinput_code(k) matches Some(c) ==> spec_libinput_key(c) == Some(k),
{
}

/// Every libinput key code the table names is the code of the key it names.
pub proof fn lemma_libinput_table_inverse(code: u32)
    ensures
        spec_libinput_key(code) matches Some(k) ==> spec_libinput_code(k) == Some(code),
{
}

/// A named key has exactly one Mac scan code: the table names each key at most once.
pub proof fn lemma_mac_table_round_trip(k: KeyCode)
    ensures
        spec_mac_scancode(k) matches Some(c) ==> spec_mac_key(c) == Some(k),
{
}

/// Every Mac scan code the table names is the code of the key it names.
pub proof fn lemma_mac_table_inverse(code: u16)
    ensures
        spec_mac_key(code) matches Some(k) ==> spec_mac_scancode(k) == Some(code),
{
}

/// Distinct libinput key codes never name the same key.
pub proof fn lemma_libinput_codes_distinct(a: u32, b: u32)
    requires
        spec_libinput_key(a) is Some,
        spec_libinput_key(a) == spec_libinput_key(b),
    ensures
        a == b,
{
    lemma_libinput_table_inverse(a);
    lemma_libinput_table_inverse(b);
}

/// Distinct Mac scan codes never name the same key.
pub proof fn lemma_mac_codes_distinct(a: u16, b: u16)
    requires
        spec_mac_key(a) is Some,
        spec_mac_key(a) == spec_mac_key(b),
    ensures
        a == b,
{
    lemma_mac_table_inverse(a);
    lemma_mac_table_inverse(b);
}

} // verus!
