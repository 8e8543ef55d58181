use ds_controller::labels::BUTTON_COUNT;
use ds_controller::linux_pad::{button_events, linux_button_code, uinput_error};
use ds_controller::mapping::{map_ds_to_xbox, ControllerOutputState, XboxButtons};
use ds_controller::protocol::{Buttons, ControllerState};
use evdev::{EventType, KeyCode};

const BUTTON_MAP: [(u16, KeyCode); 12] = [
    (XboxButtons::A, KeyCode::BTN_SOUTH),
    (XboxButtons::B, KeyCode::BTN_EAST),
    (XboxButtons::X, KeyCode::BTN_WEST),
    (XboxButtons::Y, KeyCode::BTN_NORTH),
    (XboxButtons::LEFT_BUMPER, KeyCode::BTN_TL),
    (XboxButtons::RIGHT_BUMPER, KeyCode::BTN_TR),
    (XboxButtons::START, KeyCode::BTN_START),
    (XboxButtons::BACK, KeyCode::BTN_SELECT),
    (XboxButtons::DPAD_UP, KeyCode::BTN_DPAD_UP),
    (XboxButtons::DPAD_DOWN, KeyCode::BTN_DPAD_DOWN),
    (XboxButtons::DPAD_LEFT, KeyCode::BTN_DPAD_LEFT),
    (XboxButtons::DPAD_RIGHT, KeyCode::BTN_DPAD_RIGHT),
];

#[test]
fn neutral_state_releases_every_linux_button() {
    let events = button_events(ControllerOutputState::default());

    assert_eq!(events.len(), BUTTON_MAP.len());
    for (event, (_, key)) in events.iter().zip(BUTTON_MAP) {
        assert_eq!(event.event_type, EventType::KEY.0);
        assert_eq!(event.code, key.code());
        assert_eq!(event.value, 0);
    }
}

#[test]
fn maps_each_xbox_button_to_one_linux_gamepad_button() {
    for (pressed_button, expected_key) in BUTTON_MAP {
        let events = button_events(ControllerOutputState {
            buttons: XboxButtons::from_bits(pressed_button),
        });

        assert_eq!(events.len(), BUTTON_MAP.len());
        for (event, (_, key)) in events.iter().zip(BUTTON_MAP) {
            let expected_value = i32::from(key == expected_key);
            assert_eq!(event.code, key.code());
            assert_eq!(event.value, expected_value);
        }
    }
}

#[test]
fn maps_combined_buttons_without_extra_presses() {
    let state = map_ds_to_xbox(ControllerState {
        sequence: 1,
        buttons: Buttons::from_bits_truncate((1 << 0) | (1 << 4) | (1 << 6) | (1 << 11)),
    });
    let events = button_events(state);
    let pressed_codes = events
        .iter()
        .filter(|event| event.value == 1)
        .map(|event| event.code)
        .collect::<Vec<_>>();

    assert_eq!(
        pressed_codes,
        vec![
            KeyCode::BTN_SOUTH.code(),
            KeyCode::BTN_TL.code(),
            KeyCode::BTN_START.code(),
            KeyCode::BTN_DPAD_RIGHT.code(),
        ]
    );
}

#[test]
fn linux_codes_follow_the_input_headers() {
    let codes: Vec<u16> = (0..BUTTON_COUNT).map(linux_button_code).collect();
    assert_eq!(
        codes,
        vec![0x130, 0x131, 0x134, 0x133, 0x136, 0x137, 0x13b, 0x13a, 0x220, 0x221, 0x222, 0x223]
    );
}

#[test]
fn uinput_errors_explain_permission_problems() {
    assert_eq!(
        uinput_error("create virtual gamepad", true, "denied").to_string(),
        "cannot access /dev/uinput; install the DS Controller Debian package to grant the active user permission (denied)"
    );
    assert_eq!(
        uinput_error("update virtual gamepad", false, "no device").to_string(),
        "failed to update virtual gamepad: no device"
    );
}
