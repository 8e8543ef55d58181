use ds_controller::protocol::{Buttons, ControllerState};
use ds_controller::runtime::{ReceiverSessionState, ReceiverStatus, VirtualControllerStatus};
use ds_controller::worker::{
    after_timeout_release, failed_start_status, on_worker_state, ready_status, TimeoutActions,
};

fn state(bits: u16) -> ControllerState {
    ControllerState {
        sequence: 7,
        buttons: Buttons::from_bits_truncate(bits),
    }
}

fn receive(
    session: &mut ReceiverSessionState,
    count: &mut u64,
    bits: u16,
    update_ok: bool,
) -> bool {
    on_worker_state(
        session,
        count,
        state(bits),
        update_ok,
        "0.0.0.0:26760".to_owned(),
        "192.168.1.25:49152".to_owned(),
        "123456".to_owned(),
    )
    .log_update_error
}

#[test]
fn state_packet_is_counted_and_published() {
    let mut session = ReceiverSessionState::default();
    let mut count = 41;

    let actions = on_worker_state(
        &mut session,
        &mut count,
        state(Buttons::A | Buttons::B),
        true,
        "0.0.0.0:26760".to_owned(),
        "192.168.1.25:49152".to_owned(),
        "123456".to_owned(),
    );

    assert!(!actions.log_update_error);
    assert_eq!(count, 42);
    assert_eq!(
        actions.status.receiver,
        ReceiverStatus::Running {
            bound_address: "0.0.0.0:26760".to_owned(),
            last_sender: Some("192.168.1.25:49152".to_owned()),
        }
    );
    assert_eq!(actions.status.virtual_controller, VirtualControllerStatus::Ready);
    assert_eq!(actions.status.pressed_buttons, vec!["a".to_owned(), "b".to_owned()]);
    assert_eq!(actions.status.packet_count, 42);
    assert_eq!(actions.status.last_packet_at.as_deref(), Some("123456"));
    assert!(session.needs_timeout_release());
}

#[test]
fn packet_count_saturates() {
    let mut session = ReceiverSessionState::default();
    let mut count = u64::MAX;

    receive(&mut session, &mut count, 0, true);

    assert_eq!(count, u64::MAX);
}

#[test]
fn failed_update_is_logged_and_keeps_the_pad_state() {
    let mut session = ReceiverSessionState::default();
    let mut count = 0;
    receive(&mut session, &mut count, Buttons::A, true);

    assert!(receive(&mut session, &mut count, 0, false));

    assert!(session.needs_timeout_release());
    assert_eq!(count, 2);
}

#[test]
fn timeout_releases_publishes_and_logs_once_per_silent_period() {
    let mut session = ReceiverSessionState::default();
    let mut count = 0;
    receive(&mut session, &mut count, Buttons::A, true);

    let first = after_timeout_release(&mut session, Some(true));
    assert_eq!(
        first,
        TimeoutActions {
            log_release_error: false,
            publish_status: true,
            log_released: true,
        }
    );
    assert!(!session.needs_timeout_release());

    let second = after_timeout_release(&mut session, None);
    assert_eq!(
        second,
        TimeoutActions {
            log_release_error: false,
            publish_status: false,
            log_released: false,
        }
    );

    receive(&mut session, &mut count, 0, true);
    let after_packet = after_timeout_release(&mut session, None);
    assert!(after_packet.publish_status);
    assert!(!after_packet.log_released);
}

#[test]
fn failed_release_is_logged_once_until_the_pad_is_written() {
    let mut session = ReceiverSessionState::default();
    let mut count = 0;
    receive(&mut session, &mut count, Buttons::A, true);

    let first = after_timeout_release(&mut session, Some(false));
    assert!(first.log_release_error);
    assert!(first.publish_status);
    assert!(!first.log_released);
    assert!(session.needs_timeout_release());

    let again = after_timeout_release(&mut session, Some(false));
    assert!(!again.log_release_error);
    assert!(!again.publish_status);

    receive(&mut session, &mut count, 0, false);
    assert!(!after_timeout_release(&mut session, Some(false)).log_release_error);

    receive(&mut session, &mut count, Buttons::A, true);
    assert!(after_timeout_release(&mut session, Some(false)).log_release_error);
}

#[test]
fn start_and_fallback_statuses() {
    let ready = ready_status("0.0.0.0:26760".to_owned(), 5);
    assert_eq!(
        ready.receiver,
        ReceiverStatus::Running {
            bound_address: "0.0.0.0:26760".to_owned(),
            last_sender: None,
        }
    );
    assert_eq!(ready.virtual_controller, VirtualControllerStatus::Ready);
    assert!(ready.pressed_buttons.is_empty());
    assert_eq!(ready.packet_count, 5);
    assert_eq!(ready.last_packet_at, None);

    let failed = failed_start_status("bind failed".to_owned(), VirtualControllerStatus::Unknown);
    assert_eq!(failed.receiver, ReceiverStatus::Error("bind failed".to_owned()));
    assert_eq!(failed.virtual_controller, VirtualControllerStatus::Unknown);
    assert_eq!(failed.packet_count, 0);
}
