use hypercubed::daylight::night_fraction;
use hypercubed::input::errors::{ExternalError, WindowBuilder};
use hypercubed::input::event::{ElementState, MouseButton};
use hypercubed::input::gui::{
    mouse_input_event, mouse_lock_change_events, pointer_button, Context, Key, Modifiers,
    PointerButton, PointerEvent,
};
use hypercubed::lazy::{force_step, ForceStep, INITIALISED, INITIALISING, UNINITIALISED};

#[test]
fn pointer_buttons() {
    assert_eq!(pointer_button(MouseButton::Left), PointerButton::Primary);
    assert_eq!(pointer_button(MouseButton::Forward), PointerButton::Extra2);
    assert_eq!(PointerButton::Extra1.number(), 3);
    assert_eq!(mouse_input_event(true, ElementState::Pressed, MouseButton::Left), None);
    assert_eq!(
        mouse_input_event(false, ElementState::Pressed, MouseButton::Right),
        Some(PointerEvent::Button { button: PointerButton::Secondary, pressed: true, modifiers: Modifiers::none() })
    );
    let none = Modifiers::none();
    assert!(!(none.alt || none.ctrl || none.shift || none.mac_cmd || none.command));
    assert_eq!(Context::default(), Context {});
    assert_ne!(Key::A, Key::B);
}

#[test]
fn mouse_lock_releases_every_button() {
    let locked = mouse_lock_change_events(true);
    assert_eq!(locked.len(), 6);
    assert_eq!(locked[5], PointerEvent::Gone);
    for (i, e) in locked[..5].iter().enumerate() {
        match e {
            PointerEvent::Button { button, pressed, .. } => {
                assert_eq!(button.number() as usize, i);
                assert!(!pressed);
            }
            _ => panic!("expected a button release"),
        }
    }
    assert_eq!(mouse_lock_change_events(false), vec![PointerEvent::Moved]);
}

#[test]
fn window_errors() {
    assert_eq!(ExternalError::NotSupported.message(), "Not supported");
    assert_eq!(ExternalError::Ignored.message(), "Operation was ignored");
    assert_eq!(WindowBuilder::new(), WindowBuilder {});
}

#[test]
fn lazy_value_state_machine() {
    assert_eq!(force_step(UNINITIALISED), ForceStep::Initialise);
    assert_eq!(force_step(INITIALISING), ForceStep::Spin);
    assert_eq!(force_step(INITIALISED), ForceStep::Ready);
    // The first asker leaves the state at INITIALISING; the next one spins.
    assert_eq!(force_step(UNINITIALISED | INITIALISING), ForceStep::Spin);
    assert_eq!(force_step(INITIALISED | INITIALISING), ForceStep::Ready);
}

#[test]
fn night_fraction_over_a_day() {
    assert_eq!(night_fraction(6000), (0, 1));
    assert_eq!(night_fraction(11270), (0, 1870));
    assert_eq!(night_fraction(12205), (935, 1870));
    assert_eq!(night_fraction(18000), (1, 1));
    assert_eq!(night_fraction(22860), (1870, 1870));
    assert_eq!(night_fraction(0), (730, 1870));
    assert_eq!(night_fraction(729), (1, 1870));
    assert_eq!(night_fraction(730), (0, 1));
    assert_eq!(night_fraction(24000 * 5 + 18000), (1, 1));
}
