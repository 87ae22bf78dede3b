//! Events handed over by a host environment, in numbers of the host's byte order, and their
//! translation into the client's events.
use vstd::prelude::*;
use crate::input::event::{
    DeviceEvent, DeviceId, ElementState, Event, PhysicalSize, RawKeyEvent, StartCause, WindowEvent,
    WindowId,
};
use crate::input::keyboard::{mac_scancode_to_physical_key, spec_mac_key, NativeKeyCode, PhysicalKey};

verus! {

/// A 16-bit number stored as the host stores it (least significant byte first).
#[derive(Clone, Copy, Debug, PartialEq, Eq)]
pub struct HostU16(pub [u8; 2]);

/// A 32-bit number stored as the host stores it (least significant byte first).
#[derive(Clone, Copy, Debug, PartialEq, Eq)]
pub struct HostU32(pub [u8; 4]);

impl HostU16 {
    /// The number the bytes stand for.
    pub open spec fn spec_num(self) -> u16 {
        (self.0[0] + self.0[1] * 0x100) as u16
    }

    pub fn new(x: u16) -> (h: Self)
        ensures
            h.0[0] == x % 0x100,
            h.0[1] == x / 0x100,
            h.spec_num() == x,
    {
        HostU16([(x % 0x100) as u8, (x / 0x100) as u8])
    }

    pub fn to_num(self) -> (x: u16)
        ensures
            x == self.spec_num(),
    {
        self.0[0] as u16 + self.0[1] as u16 * 0x100
    }
}

impl HostU32 {
    /// The number the bytes stand for.
    pub open spec fn spec_num(self) -> u32 {
        (self.0[0] + self.0[1] * 0x100 + self.0[2] * 0x1_0000 + self.0[3] * 0x100_0000) as u32
    }

    pub fn new(x: u32) -> (h: Self)
        ensures
            h.0[0] == x % 0x100,
            h.0[1] == (x / 0x100) % 0x100,
            h.0[2] == (x / 0x1_0000) % 0x100,
            h.0[3] == x / 0x100_0000,
            h.spec_num() == x,
    {
        HostU32(
            [
                (x % 0x100) as u8,
                ((x / 0x100) % 0x100) as u8,
                ((x / 0x1_0000) % 0x100) as u8,
                (x / 0x100_0000) as u8,
            ],
        )
    }

    pub fn to_num(self) -> (x: u32)
        ensures
            x == self.spec_num(),
    {
        self.0[0] as u32 + self.0[1] as u32 * 0x100 + self.0[2] as u32 * 0x1_0000 + self.0[3] as u32
            * 0x100_0000
    }
}

/// Storing a number and reading it back gives the number; reading stored bytes and storing the
/// number gives the bytes.
pub proof fn lemma_host_u16_round_trip(x: u16, h: HostU16)
    ensures
        HostU16([(x % 0x100) as u8, (x / 0x100) as u8]).spec_num() == x,
        HostU16([(h.spec_num() % 0x100) as u8, (h.spec_num() / 0x100) as u8]) == h,
{
    let (b0, b1) = (h.0[0], h.0[1]);
    assert(HostU16([(h.spec_num() % 0x100) as u8, (h.spec_num() / 0x100) as u8]).0 =~= h.0);
}

/// Storing a number and reading it back gives the number; reading stored bytes and storing the
/// number gives the bytes.
pub proof fn lemma_host_u32_round_trip(x: u32, h: HostU32)
    ensures
        HostU32(
            [
                (x % 0x100) as u8,
                ((x / 0x100) % 0x100) as u8,
                ((x / 0x1_0000) % 0x100) as u8,
                (x / 0x100_0000) as u8,
            ],
        ).spec_num() == x,
        HostU32(
            [
                (h.spec_num() % 0x100) as u8,
                ((h.spec_num() / 0x100) % 0x100) as u8,
                ((h.spec_num() / 0x1_0000) % 0x100) as u8,
                (h.spec_num() / 0x100_0000) as u8,
            ],
        ) == h,
{
    let n = h.spec_num();
    assert(HostU32(
        [
            (n % 0x100) as u8,
            ((n / 0x100) % 0x100) as u8,
            ((n / 0x1_0000) % 0x100) as u8,
            (n / 0x100_0000) as u8,
        ],
    ).0 =~= h.0);
}

/// Whether a key went down or up, as the host reports it.
#[derive(Clone, Copy, Debug, PartialEq, Eq, Structural)]
pub enum ExternalElementState {
    Pressed,
    Released,
}

impl ExternalElementState {
    pub open spec fn spec_to_winit(self) -> ElementState {
        match self {
            ExternalElementState::Pressed => ElementState::Pressed,
            ExternalElementState::Released => ElementState::Released,
        }
    }

    pub fn to_winit_element_state(&self) -> (s: ElementState)
        ensures
            s == self.spec_to_winit(),
    {
        match self {
            ExternalElementState::Pressed => ElementState::Pressed,
            ExternalElementState::Released => ElementState::Released,
        }
    }
}

/// A key event from the host: the Mac scan code of the key and its state.
#[derive(Clone, Copy, Debug, PartialEq, Eq)]
pub struct ExternalDeviceKeyEvent {
    pub mac_scancode: HostU16,
    pub element_state: ExternalElementState,
}

/// A device event from the host.
#[derive(Clone, Copy, Debug, PartialEq, Eq)]
pub enum ExternalDeviceEvent {
    Key(ExternalDeviceKeyEvent),
}

/// The key a Mac scan code stands for.
pub open spec fn spec_mac_physical_key(code: u16) -> PhysicalKey {
    match spec_mac_key(code) {
        Some(k) => PhysicalKey::Code(k),
        None => PhysicalKey::Unidentified(NativeKeyCode::MacOS(code)),
    }
}

impl ExternalDeviceEvent {
    pub open spec fn spec_to_winit(self) -> DeviceEvent {
        match self {
            ExternalDeviceEvent::Key(e) => DeviceEvent::Key(
                RawKeyEvent {
                    physical_key: spec_mac_physical_key(e.mac_scancode.spec_num()),
                    state: e.element_state.spec_to_winit(),
                },
            ),
        }
    }

    pub fn to_winit_device_event(self) -> (e: DeviceEvent)
        ensures
            e == self.spec_to_winit(),
    {
        match self {
            ExternalDeviceEvent::Key(key_event) => DeviceEvent::Key(
                RawKeyEvent {
                    physical_key: mac_scancode_to_physical_key(key_event.mac_scancode.to_num()),
                    state: key_event.element_state.to_winit_element_state(),
                },
            ),
        }
    }
}

/// A window event from the host.
#[derive(Clone, Copy, Debug, PartialEq, Eq)]
pub enum ExternalWindowEvent {
    Resized { width: HostU32, height: HostU32 },
    CloseRequested,
}

impl ExternalWindowEvent {
    pub open spec fn spec_to_winit(self) -> WindowEvent {
        match self {
            ExternalWindowEvent::Resized { width, height } => WindowEvent::Resized(
                PhysicalSize { width: width.spec_num(), height: height.spec_num() },
            ),
            ExternalWindowEvent::CloseRequested => WindowEvent::CloseRequested,
        }
    }

    pub fn to_winit_window_event(self) -> (e: WindowEvent)
        ensures
            e == self.spec_to_winit(),
    {
        match self {
            ExternalWindowEvent::Resized { width, height } => WindowEvent::Resized(
                PhysicalSize { width: width.to_num(), height: height.to_num() },
            ),
            ExternalWindowEvent::CloseRequested => WindowEvent::CloseRequested,
        }
    }
}

/// An event from the host.
#[derive(Clone, Copy, Debug, PartialEq, Eq)]
pub enum ExternalEvent {
    PollNewEvents,
    WindowEvent(ExternalWindowEvent),
    DeviceEvent(ExternalDeviceEvent),
}

impl ExternalEvent {
    pub open spec fn spec_to_winit(self) -> Event {
        match self {
            ExternalEvent::PollNewEvents => Event::NewEvents(StartCause::Poll),
            ExternalEvent::WindowEvent(e) => Event::WindowEvent {
                window_id: WindowId(()),
                event: e.spec_to_winit(),
            },
            ExternalEvent::DeviceEvent(e) => Event::DeviceEvent {
                device_id: DeviceId(0),
                event: e.spec_to_winit(),
            },
        }
    }

    /// The client event that a host event stands for.
    pub fn to_winit_event(self) -> (e: Event)
        ensures
            e == self.spec_to_winit(),
    {
        match self {
            ExternalEvent::PollNewEvents => Event::NewEvents(StartCause::Poll),
            ExternalEvent::WindowEvent(event) => Event::WindowEvent {
                window_id: WindowId(()),
                event: event.to_winit_window_event(),
            },
            ExternalEvent::DeviceEvent(event) => Event::DeviceEvent {
                device_id: DeviceId::dummy(),
                event: event.to_winit_device_event(),
            },
        }
    }
}

} // verus!
