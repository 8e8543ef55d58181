//! The decisions of the receiver's worker: what one receiving session does
//! after each state packet and each silent period. The worker itself, which
//! reads the socket, writes the pad and publishes, runs these steps and
//! performs the actions they return.

use vstd::prelude::*;
use crate::labels::{LabelTable, pressed_labels, BUTTON_COUNT};
use crate::protocol::ControllerState;
use crate::runtime::{
    button_names, ReceiverSessionState, ReceiverStatus, RuntimeStatus, VirtualControllerStatus,
};

verus! {

/// `count` plus one, stopping at the largest count.
pub open spec fn counted(count: u64) -> u64 {
    if count == u64::MAX {
        count
    } else {
        (count + 1) as u64
    }
}

/// The session once a state packet with the DS buttons `buttons` arrived
/// and writing it to the pad succeeded (`update_ok`) or failed. Every
/// packet opens a new silent period; only a written state changes what
/// the pad shows.
pub open spec fn state_step(s: ReceiverSessionState, buttons: u16, update_ok: bool) -> ReceiverSessionState {
    if update_ok {
        ReceiverSessionState {
            has_pressed_inputs: buttons != 0,
            timeout_status_reported: false,
            timeout_release_error_reported: false,
        }
    } else {
        ReceiverSessionState { timeout_status_reported: false, ..s }
    }
}

/// What the worker does once a silent period was noticed.
#[derive(Clone, Copy, Debug, PartialEq, Eq, Structural)]
pub struct TimeoutActions {
    /// Log the failed release of the pad.
    pub log_release_error: bool,
    /// Publish the timeout status.
    pub publish_status: bool,
    /// Log that every input was released.
    pub log_released: bool,
}

/// A timeout in session `s`, where releasing the pad was not tried
/// (`None`), succeeded or failed: the new session and the actions. A
/// failed release is logged once per silent period, the period is
/// published once, and a release is logged only with that publication.
pub open spec fn timeout_step(s: ReceiverSessionState, released: Option<bool>) -> (
    ReceiverSessionState,
    TimeoutActions,
) {
    let after_release = match released {
        Some(true) => ReceiverSessionState {
            has_pressed_inputs: false,
            timeout_release_error_reported: false,
            ..s
        },
        Some(false) => ReceiverSessionState { timeout_release_error_reported: true, ..s },
        None => s,
    };
    let publish = !s.timeout_status_reported;
    (
        ReceiverSessionState { timeout_status_reported: true, ..after_release },
        TimeoutActions {
            log_release_error: released == Some(false) && !s.timeout_release_error_reported,
            publish_status: publish,
            log_released: publish && released == Some(true),
        },
    )
}

/// What the worker does after a state packet.
pub struct StateActions {
    /// Writing the state to the pad failed, which is logged.
    pub log_update_error: bool,
    /// The status to publish.
    pub status: RuntimeStatus,
}

/// The status of a receiver bound to `bound_address` whose pad is ready,
/// with `packet_count` packets so far and nothing else known: the status
/// published at start, and at a timeout when the shared status cannot be
/// read.
pub fn ready_status(bound_address: String, packet_count: u64) -> (s: RuntimeStatus)
    ensures
        s.receiver == (ReceiverStatus::Running { bound_address, last_sender: None }),
        s.virtual_controller == VirtualControllerStatus::Ready,
        s.pressed_buttons@.len() == 0,
        s.packet_count == packet_count,
        s.last_packet_at is None,
{
    RuntimeStatus {
        receiver: ReceiverStatus::Running { bound_address, last_sender: None },
        virtual_controller: VirtualControllerStatus::Ready,
        pressed_buttons: Vec::new(),
        packet_count,
        last_packet_at: None,
    }
}

/// The status published when the worker could not start: the receiver's
/// error `message` and what is known of the virtual controller.
pub fn failed_start_status(message: String, controller: VirtualControllerStatus) -> (s:
    RuntimeStatus)
    ensures
        s.receiver == ReceiverStatus::Error(message),
        s.virtual_controller == controller,
        s.pressed_buttons@.len() == 0,
        s.packet_count == 0,
        s.last_packet_at is None,
{
    RuntimeStatus {
        receiver: ReceiverStatus::Error(message),
        virtual_controller: controller,
        pressed_buttons: Vec::new(),
        packet_count: 0,
        last_packet_at: None,
    }
}

/// A state packet from `sender` arrived at `received_at` and was written
/// to the pad (`update_ok`) or not: counts it, updates the session and
/// says what to publish and whether to log the failed update.
pub fn on_worker_state(
    session: &mut ReceiverSessionState,
    packet_count: &mut u64,
    state: ControllerState,
    update_ok: bool,
    bound_address: String,
    sender: String,
    received_at: String,
) -> (a: StateActions)
    ensures
        *final(session) == state_step(*old(session), state.buttons@, update_ok),
        *final(packet_count) == counted(*old(packet_count)),
        a.log_update_error == !update_ok,
        a.status.receiver == (ReceiverStatus::Running {
            bound_address,
            last_sender: Some(sender),
        }),
        a.status.virtual_controller == VirtualControllerStatus::Ready,
        a.status.pressed_buttons@.map_values(|s: String| s@) == pressed_labels(
            state.buttons@,
            LabelTable::DsLower,
            BUTTON_COUNT as nat,
        ),
        a.status.packet_count == *final(packet_count),
        a.status.last_packet_at == Some(received_at),
{
    *packet_count = packet_count.saturating_add(1);
    session.record_packet();
    if update_ok {
        session.record_update(state.buttons);
    }
    StateActions {
        log_update_error: !update_ok,
        status: RuntimeStatus {
            receiver: ReceiverStatus::Running { bound_address, last_sender: Some(sender) },
            virtual_controller: VirtualControllerStatus::Ready,
            pressed_buttons: button_names(state),
            packet_count: *packet_count,
            last_packet_at: Some(received_at),
        },
    }
}

/// A silent period was noticed and releasing the pad was not tried
/// (`None`: nothing was pressed), succeeded or failed: updates the session
/// and says what to log and whether to publish the timeout status. The pad
/// is to be released only while `needs_timeout_release` holds.
pub fn after_timeout_release(session: &mut ReceiverSessionState, released: Option<bool>) -> (a:
    TimeoutActions)
    ensures
        (*final(session), a) == timeout_step(*old(session), released),
{
    let mut log_release_error = false;
    match released {
        Some(true) => session.record_neutral(),
        Some(false) => {
            log_release_error = session.record_timeout_release_error();
        },
        None => {},
    }
    let publish_status = session.needs_timeout_status();
    if publish_status {
        session.record_timeout_status();
    }
    let released_ok = match released {
        Some(true) => true,
        _ => false,
    };
    TimeoutActions { log_release_error, publish_status, log_released: publish_status && released_ok }
}

/// A silent period is published once: the next timeout without a packet
/// in between publishes nothing.
pub proof fn lemma_silent_period_published_once(
    s: ReceiverSessionState,
    first: Option<bool>,
    second: Option<bool>,
)
    ensures
        !timeout_step(timeout_step(s, first).0, second).1.publish_status,
        !timeout_step(timeout_step(s, first).0, second).1.log_released,
{
}

/// A packet opens a new silent period: the next timeout publishes again.
pub proof fn lemma_packet_opens_silent_period(
    s: ReceiverSessionState,
    buttons: u16,
    update_ok: bool,
    released: Option<bool>,
)
    ensures
        timeout_step(state_step(s, buttons, update_ok), released).1.publish_status,
{
}

/// A failed release is logged once until a state or a release is written
/// to the pad.
pub proof fn lemma_release_error_logged_once(s: ReceiverSessionState, later: Option<bool>)
    ensures
        !timeout_step(timeout_step(s, Some(false)).0, later).1.log_release_error,
        !timeout_step(state_step(timeout_step(s, Some(false)).0, 0, false), later).1.log_release_error,
        timeout_step(state_step(s, 0, true), Some(false)).1.log_release_error,
{
}

/// The pad needs a release at a timeout exactly while the last state
/// written to it has a button pressed; a successful release ends that.
pub proof fn lemma_release_needed_while_pressed(
    s: ReceiverSessionState,
    buttons: u16,
    released: Option<bool>,
)
    ensures
        state_step(s, buttons, true).has_pressed_inputs == (buttons != 0),
        !timeout_step(s, Some(true)).0.has_pressed_inputs,
        released != Some(true) ==> timeout_step(s, released).0.has_pressed_inputs
            == s.has_pressed_inputs,
{
}

} // verus!
