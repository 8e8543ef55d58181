//! The Linux input events that show a pad state on a uinput gamepad.

use vstd::prelude::*;
use crate::backend::BackendError;
use crate::labels::{BUTTON_COUNT, xbox_bit};
use crate::mapping::ControllerOutputState;

verus! {

/// One input event for the virtual gamepad, as plain numbers.
#[derive(Clone, Copy, Debug, PartialEq, Eq, Structural)]
pub struct ButtonEvent {
    pub event_type: u16,
    pub code: u16,
    pub value: i32,
}

/// Calls `evdev::EventType::KEY`; its number is `EV_KEY` of the Linux
/// input headers, 1.
#[verifier::external_body]
fn key_event_type() -> (t: u16)
    ensures
        t == 1,
{
    evdev::EventType::KEY.0
}

/// Calls `evdev::KeyCode::BTN_SOUTH.code()`, which is `BTN_SOUTH` of the Linux
/// input headers, 0x130.
#[verifier::external_body]
fn btn_south() -> (c: u16)
    ensures
        c == 0x130,
{
    evdev::KeyCode::BTN_SOUTH.code()
}

/// Calls `evdev::KeyCode::BTN_EAST.code()`, which is `BTN_EAST` of the Linux
/// input headers, 0x131.
#[verifier::external_body]
fn btn_east() -> (c: u16)
    ensures
        c == 0x131,
{
    evdev::KeyCode::BTN_EAST.code()
}

/// Calls `evdev::KeyCode::BTN_WEST.code()`, which is `BTN_WEST` of the Linux
/// input headers, 0x134.
#[verifier::external_body]
fn btn_west() -> (c: u16)
    ensures
        c == 0x134,
{
    evdev::KeyCode::BTN_WEST.code()
}

/// Calls `evdev::KeyCode::BTN_NORTH.code()`, which is `BTN_NORTH` of the Linux
/// input headers, 0x133.
#[verifier::external_body]
fn btn_north() -> (c: u16)
    ensures
        c == 0x133,
{
    evdev::KeyCode::BTN_NORTH.code()
}

/// Calls `evdev::KeyCode::BTN_TL.code()`, which is `BTN_TL` of the Linux
/// input headers, 0x136.
#[verifier::external_body]
fn btn_tl() -> (c: u16)
    ensures
        c == 0x136,
{
    evdev::KeyCode::BTN_TL.code()
}

/// Calls `evdev::KeyCode::BTN_TR.code()`, which is `BTN_TR` of the Linux
/// input headers, 0x137.
#[verifier::external_body]
fn btn_tr() -> (c: u16)
    ensures
        c == 0x137,
{
    evdev::KeyCode::BTN_TR.code()
}

/// Calls `evdev::KeyCode::BTN_START.code()`, which is `BTN_START` of the Linux
/// input headers, 0x13b.
#[verifier::external_body]
fn btn_start() -> (c: u16)
    ensures
        c == 0x13b,
{
    evdev::KeyCode::BTN_START.code()
}

/// Calls `evdev::KeyCode::BTN_SELECT.code()`, which is `BTN_SELECT` of the Linux
/// input headers, 0x13a.
#[verifier::external_body]
fn btn_select() -> (c: u16)
    ensures
        c == 0x13a,
{
    evdev::KeyCode::BTN_SELECT.code()
}

/// Calls `evdev::KeyCode::BTN_DPAD_UP.code()`, which is `BTN_DPAD_UP` of the Linux
/// input headers, 0x220.
#[verifier::external_body]
fn btn_dpad_up() -> (c: u16)
    ensures
        c == 0x220,
{
    evdev::KeyCode::BTN_DPAD_UP.code()
}

/// Calls `evdev::KeyCode::BTN_DPAD_DOWN.code()`, which is `BTN_DPAD_DOWN` of the Linux
/// input headers, 0x221.
#[verifier::external_body]
fn btn_dpad_down() -> (c: u16)
    ensures
        c == 0x221,
{
    evdev::KeyCode::BTN_DPAD_DOWN.code()
}

/// Calls `evdev::KeyCode::BTN_DPAD_LEFT.code()`, which is `BTN_DPAD_LEFT` of the Linux
/// input headers, 0x222.
#[verifier::external_body]
fn btn_dpad_left() -> (c: u16)
    ensures
        c == 0x222,
{
    evdev::KeyCode::BTN_DPAD_LEFT.code()
}

/// Calls `evdev::KeyCode::BTN_DPAD_RIGHT.code()`, which is `BTN_DPAD_RIGHT` of the Linux
/// input headers, 0x223.
#[verifier::external_body]
fn btn_dpad_right() -> (c: u16)
    ensures
        c == 0x223,
{
    evdev::KeyCode::BTN_DPAD_RIGHT.code()
}

/// Linux key code of the `i`-th Xbox button in printing order
/// (A, B, X, Y, LB, RB, Start, Back, Up, Down, Left, Right): the face
/// buttons by compass position, the bumpers, Start and Select, and the
/// four pad directions.
pub open spec fn linux_key_code(i: int) -> u16 {
    if i == 0 {
        0x130
    } else if i == 1 {
        0x131
    } else if i == 2 {
        0x134
    } else if i == 3 {
        0x133
    } else if i == 4 {
        0x136
    } else if i == 5 {
        0x137
    } else if i == 6 {
        0x13b
    } else if i == 7 {
        0x13a
    } else if i == 8 {
        0x220
    } else if i == 9 {
        0x221
    } else if i == 10 {
        0x222
    } else {
        0x223
    }
}

/// The Linux key code of the `i`-th Xbox button in printing order.
pub fn linux_button_code(i: usize) -> (c: u16)
    requires
        i < BUTTON_COUNT,
    ensures
        c == linux_key_code(i as int),
{
    if i == 0 {
        btn_south()
    } else if i == 1 {
        btn_east()
    } else if i == 2 {
        btn_west()
    } else if i == 3 {
        btn_north()
    } else if i == 4 {
        btn_tl()
    } else if i == 5 {
        btn_tr()
    } else if i == 6 {
        btn_start()
    } else if i == 7 {
        btn_select()
    } else if i == 8 {
        btn_dpad_up()
    } else if i == 9 {
        btn_dpad_down()
    } else if i == 10 {
        btn_dpad_left()
    } else {
        btn_dpad_right()
    }
}

/// The event that presses (1) or releases (0) the `i`-th Xbox button.
pub open spec fn button_event_spec(state: ControllerOutputState, i: int) -> ButtonEvent {
    ButtonEvent {
        event_type: 1,
        code: linux_key_code(i),
        value: if state.buttons@ & xbox_bit(i) != 0 {
            1
        } else {
            0
        },
    }
}

/// One key event per Xbox button, in printing order, pressing exactly the
/// buttons of `state`.
pub fn button_events(state: ControllerOutputState) -> (events: Vec<ButtonEvent>)
    ensures
        events@.len() == BUTTON_COUNT,
        forall|i: int| 0 <= i < BUTTON_COUNT ==> #[trigger] events@[i] == button_event_spec(state, i),
{
    let event_type = key_event_type();
    let mut events: Vec<ButtonEvent> = Vec::new();
    let mut i: usize = 0;
    while i < BUTTON_COUNT
        invariant
            i <= BUTTON_COUNT,
            event_type == 1,
            events@.len() == i,
            forall|j: int| 0 <= j < i ==> #[trigger] events@[j] == button_event_spec(state, j),
        decreases BUTTON_COUNT - i,
    {
        let bit = crate::labels::xbox_button_bit(i);
        let value: i32 = if state.buttons.contains(bit) {
            1
        } else {
            0
        };
        events.push(ButtonEvent { event_type, code: linux_button_code(i), value });
        i += 1;
    }
    events
}

/// The first words of the error given when `/dev/uinput` may not be opened.
pub open spec fn uinput_denied_prefix() -> Seq<char> {
    "cannot access /dev/uinput; install the DS Controller Debian package to grant the active user permission ("@
}

/// The error for a failed uinput `action`, from what the system said of
/// it: whether access was denied and its error text `detail`. A denied
/// access gets a hint about the device's permissions, any other failure
/// says what failed and why.
pub fn uinput_error(action: &str, denied: bool, detail: &str) -> (e: BackendError)
    ensures
        denied ==> e@ == uinput_denied_prefix() + detail@ + ")"@,
        !denied ==> e@ == "failed to "@ + action@ + ": "@ + detail@,
{
    if denied {
        let mut message = String::from_str("cannot access /dev/uinput; install the DS Controller Debian package to grant the active user permission (");
        message.append(detail);
        message.append(")");
        return BackendError::new(message);
    }
    let mut message = String::from_str("failed to ");
    message.append(action);
    message.append(": ");
    message.append(detail);
    BackendError::new(message)
}

/// The neutral pad state releases every button of the virtual gamepad.
pub proof fn lemma_neutral_state_releases_every_button(state: ControllerOutputState, i: int)
    requires
        state.buttons@ == 0,
        0 <= i < BUTTON_COUNT,
    ensures
        button_event_spec(state, i).value == 0,
{
    let b = xbox_bit(i);
    assert(0u16 & b == 0) by (bit_vector);
}

} // verus!
