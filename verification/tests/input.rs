use hypercubed::input::event::{
    libinput_button_to_mouse_button, ControlFlow, CursorGrabMode, DeviceEvent, DeviceId,
    ElementState, Event, MouseButton, PhysicalPosition, PhysicalSize, RawKeyEvent, StartCause,
    WindowEvent, WindowId,
};
use hypercubed::input::external::{
    ExternalDeviceEvent, ExternalDeviceKeyEvent, ExternalElementState, ExternalEvent,
    ExternalWindowEvent, HostU16, HostU32,
};
use hypercubed::input::keyboard::{
    libinput_keycode_to_physical_key, mac_scancode_to_physical_key, KeyCode, NativeKeyCode,
    PhysicalKey,
};

#[test]
fn libinput_key_codes() {
    assert_eq!(libinput_keycode_to_physical_key(1), PhysicalKey::Code(KeyCode::Escape));
    assert_eq!(libinput_keycode_to_physical_key(30), PhysicalKey::Code(KeyCode::KeyA));
    assert_eq!(libinput_keycode_to_physical_key(57), PhysicalKey::Code(KeyCode::Space));
    assert_eq!(libinput_keycode_to_physical_key(103), PhysicalKey::Code(KeyCode::ArrowUp));
    assert_eq!(libinput_keycode_to_physical_key(194), PhysicalKey::Code(KeyCode::F24));
    assert_eq!(
        libinput_keycode_to_physical_key(84),
        PhysicalKey::Unidentified(NativeKeyCode::LibInput(84))
    );
    assert_eq!(
        libinput_keycode_to_physical_key(0),
        PhysicalKey::Unidentified(NativeKeyCode::LibInput(0))
    );
}

#[test]
fn libinput_table_names_each_key_once() {
    let mut seen = Vec::new();
    for code in 0..300u32 {
        if let PhysicalKey::Code(k) = libinput_keycode_to_physical_key(code) {
            assert!(!seen.contains(&k), "{k:?} named twice");
            seen.push(k);
        }
    }
    assert_eq!(seen.len(), 123);
}

#[test]
fn mac_scan_codes() {
    assert_eq!(mac_scancode_to_physical_key(0x00), PhysicalKey::Code(KeyCode::KeyA));
    assert_eq!(mac_scancode_to_physical_key(0x35), PhysicalKey::Code(KeyCode::Escape));
    assert_eq!(mac_scancode_to_physical_key(0x7E), PhysicalKey::Code(KeyCode::ArrowUp));
    assert_eq!(mac_scancode_to_physical_key(0x3F), PhysicalKey::Code(KeyCode::Fn));
    assert_eq!(
        mac_scancode_to_physical_key(0x34),
        PhysicalKey::Unidentified(NativeKeyCode::MacOS(0x34))
    );
    let mut seen = Vec::new();
    for code in 0..0x200u16 {
        if let PhysicalKey::Code(k) = mac_scancode_to_physical_key(code) {
            assert!(!seen.contains(&k));
            seen.push(k);
        }
    }
    assert_eq!(seen.len(), 118);
}

#[test]
fn mouse_buttons_and_states() {
    assert_eq!(libinput_button_to_mouse_button(272), Some(MouseButton::Left));
    assert_eq!(libinput_button_to_mouse_button(273), Some(MouseButton::Right));
    assert_eq!(libinput_button_to_mouse_button(274), Some(MouseButton::Middle));
    assert_eq!(libinput_button_to_mouse_button(275), Some(MouseButton::Back));
    assert_eq!(libinput_button_to_mouse_button(276), Some(MouseButton::Forward));
    assert_eq!(libinput_button_to_mouse_button(277), None);
    assert_eq!(libinput_button_to_mouse_button(271), None);
    assert!(ElementState::Pressed.is_pressed());
    assert!(!ElementState::Released.is_pressed());
    assert_eq!(DeviceId::dummy(), DeviceId(0));
    assert_eq!(ControlFlow::default(), ControlFlow::Wait);
    assert_ne!(CursorGrabMode::Locked, CursorGrabMode::Ungrabbed);
    let p = PhysicalPosition::new(3i32, -4i32);
    assert_eq!((p.x, p.y), (3, -4));
    let s = PhysicalSize::new(640u32, 480u32);
    assert_eq!((s.width, s.height), (640, 480));
}

#[test]
fn host_numbers_round_trip() {
    let h = HostU16::new(0x1234);
    assert_eq!(h.0, [0x34, 0x12]);
    assert_eq!(h.to_num(), 0x1234);
    let w = HostU32::new(0xDEAD_BEEF);
    assert_eq!(w.0, [0xEF, 0xBE, 0xAD, 0xDE]);
    assert_eq!(w.to_num(), 0xDEAD_BEEF);
    for x in [0u16, 1, 0xFF, 0x100, 0xFFFF] {
        assert_eq!(HostU16::new(x).to_num(), x);
    }
    assert_eq!(HostU32([1, 0, 0, 1]).to_num(), 0x0100_0001);
}

#[test]
fn external_events_translate() {
    assert_eq!(ExternalEvent::PollNewEvents.to_winit_event(), Event::NewEvents(StartCause::Poll));
    let resized = ExternalEvent::WindowEvent(ExternalWindowEvent::Resized {
        width: HostU32::new(800),
        height: HostU32::new(600),
    });
    assert_eq!(
        resized.to_winit_event(),
        Event::WindowEvent {
            window_id: WindowId(()),
            event: WindowEvent::Resized(PhysicalSize { width: 800, height: 600 }),
        }
    );
    assert_eq!(
        ExternalWindowEvent::CloseRequested.to_winit_window_event(),
        WindowEvent::CloseRequested
    );
    let key = ExternalEvent::DeviceEvent(ExternalDeviceEvent::Key(ExternalDeviceKeyEvent {
        mac_scancode: HostU16::new(0x31),
        element_state: ExternalElementState::Released,
    }));
    assert_eq!(
        key.to_winit_event(),
        Event::DeviceEvent {
            device_id: DeviceId(0),
            event: DeviceEvent::Key(RawKeyEvent {
                physical_key: PhysicalKey::Code(KeyCode::Space),
                state: ElementState::Released,
            }),
        }
    );
    assert_eq!(ExternalElementState::Pressed.to_winit_element_state(), ElementState::Pressed);
}
