use ds_controller::mapping::{map_ds_to_xbox, ControllerOutputState, XboxButtons};
use ds_controller::protocol::{Buttons, ControllerState};

#[test]
fn maps_neutral_state() {
    let output = map_ds_to_xbox(ControllerState {
        sequence: 1,
        buttons: Buttons::default(),
    });

    assert_eq!(output, ControllerOutputState::default());
}

#[test]
fn maps_each_ds_button_to_exact_xbox_button() {
    let cases = [
        (Buttons::A, XboxButtons::A),
        (Buttons::B, XboxButtons::B),
        (Buttons::X, XboxButtons::X),
        (Buttons::Y, XboxButtons::Y),
        (Buttons::L, XboxButtons::LEFT_BUMPER),
        (Buttons::R, XboxButtons::RIGHT_BUMPER),
        (Buttons::START, XboxButtons::START),
        (Buttons::SELECT, XboxButtons::BACK),
        (Buttons::DPAD_UP, XboxButtons::DPAD_UP),
        (Buttons::DPAD_DOWN, XboxButtons::DPAD_DOWN),
        (Buttons::DPAD_LEFT, XboxButtons::DPAD_LEFT),
        (Buttons::DPAD_RIGHT, XboxButtons::DPAD_RIGHT),
    ];

    for (ds_button, xbox_button) in cases {
        let output = map_ds_to_xbox(ControllerState {
            sequence: 1,
            buttons: Buttons::from_bits_truncate(ds_button),
        });

        assert_eq!(output.buttons.bits(), xbox_button);
    }
}

#[test]
fn maps_multiple_buttons_without_extra_outputs() {
    let output = map_ds_to_xbox(ControllerState {
        sequence: 1,
        buttons: Buttons::from_bits_truncate(
            Buttons::A | Buttons::L | Buttons::START | Buttons::DPAD_RIGHT,
        ),
    });

    assert_eq!(
        output.buttons.bits(),
        XboxButtons::A | XboxButtons::LEFT_BUMPER | XboxButtons::START | XboxButtons::DPAD_RIGHT
    );
}

#[test]
fn maps_every_button_at_once() {
    let output = map_ds_to_xbox(ControllerState {
        sequence: 7,
        buttons: Buttons::from_bits_truncate(0xffff),
    });
    assert_eq!(output.buttons.bits(), 0xf33f);
}

#[test]
fn xbox_buttons_print_their_names() {
    assert_eq!(XboxButtons::default().to_string(), "neutral");
    assert_eq!(
        XboxButtons::from_bits(XboxButtons::LEFT_BUMPER | XboxButtons::BACK | XboxButtons::DPAD_DOWN)
            .to_string(),
        "LB+Back+Down"
    );
    let output = map_ds_to_xbox(ControllerState {
        sequence: 1,
        buttons: Buttons::from_bits_truncate(Buttons::SELECT | Buttons::R),
    });
    assert_eq!(output.buttons.to_string(), "RB+Back");
}

#[test]
fn xbox_contains_tests_bits() {
    let b = XboxButtons::from_bits(XboxButtons::Y);
    assert!(b.contains(XboxButtons::Y));
    assert!(!b.contains(XboxButtons::X));
}
