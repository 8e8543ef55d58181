use ds_controller::protocol::{Buttons, ControllerState};
use ds_controller::runtime::{
    button_names, stopped_status, timeout_status, LifecycleState, ReceiverLifecycle,
    ReceiverSessionState, ReceiverStatus, RuntimeStatus, StopOutcome, VirtualControllerStatus,
};

fn pressed_a() -> Buttons {
    Buttons::from_bits_truncate(Buttons::A)
}

#[test]
fn install_reservation_rejects_exit_and_receiver_mutations() {
    let mut receiver = ReceiverLifecycle::default();

    receiver
        .reserve_install()
        .expect("install reserves lifecycle");

    assert!(!receiver.ordinary_exit_requested());
    assert!(receiver.install_reserved());
    assert!(receiver.reserve_install().is_err());
    assert!(receiver.check_start().is_err());
    assert!(receiver.begin_stop().is_err());
}

#[test]
fn automatic_install_reservation_requires_an_already_idle_receiver() {
    let mut idle = ReceiverLifecycle::default();
    assert!(idle.reserve_install_if_idle(true, &RuntimeStatus::default()));
    assert!(idle.install_reserved());

    let mut active = ReceiverLifecycle::default();
    assert!(!active.reserve_install_if_idle(false, &RuntimeStatus::default()));
    assert!(!active.install_reserved());

    let mut unsafe_state = ReceiverLifecycle::default();
    let status = RuntimeStatus {
        receiver: ReceiverStatus::Error("synthetic receiver failure".to_owned()),
        virtual_controller: VirtualControllerStatus::Error(
            "synthetic neutral-output failure".to_owned(),
        ),
        ..RuntimeStatus::default()
    };
    assert!(!unsafe_state.reserve_install_if_idle(true, &status));
    assert!(!unsafe_state.install_reserved());
}

#[test]
fn accepted_exit_prevents_a_later_install_reservation() {
    let mut receiver = ReceiverLifecycle::default();

    assert!(receiver.ordinary_exit_requested());

    assert!(receiver.reserve_install().is_err());
}

#[test]
fn install_requires_both_worker_termination_and_neutral_output() {
    assert!(StopOutcome {
        worker_terminated: true,
        neutral: true,
    }
    .install_ready());
    assert!(!StopOutcome {
        worker_terminated: true,
        neutral: false,
    }
    .install_ready());
    assert!(!StopOutcome {
        worker_terminated: false,
        neutral: true,
    }
    .install_ready());
}

#[test]
fn failed_install_preparation_reopens_only_after_worker_termination() {
    let mut terminated = ReceiverLifecycle::default();
    terminated
        .reserve_install()
        .expect("install reserves lifecycle");
    terminated.finish_install_preparation_failure(StopOutcome {
        worker_terminated: true,
        neutral: false,
    });

    let mut unknown_termination = ReceiverLifecycle::default();
    unknown_termination
        .reserve_install()
        .expect("install reserves lifecycle");
    unknown_termination.finish_install_preparation_failure(StopOutcome {
        worker_terminated: false,
        neutral: false,
    });

    assert!(terminated.reserve_install().is_ok());
    assert!(unknown_termination.reserve_install().is_err());
}

#[test]
fn neutral_backend_state_does_not_need_timeout_release() {
    let state = ReceiverSessionState::default();

    assert!(!state.needs_timeout_release());
}

#[test]
fn pressed_backend_state_needs_timeout_release() {
    let mut state = ReceiverSessionState::default();

    state.record_update(pressed_a());

    assert!(state.needs_timeout_release());
}

#[test]
fn neutral_update_clears_timeout_release_need() {
    let mut state = ReceiverSessionState::default();
    state.record_update(pressed_a());

    state.record_update(Buttons::default());

    assert!(!state.needs_timeout_release());
}

#[test]
fn timeout_release_remains_pending_until_neutral_is_recorded() {
    let mut state = ReceiverSessionState::default();
    state.record_update(pressed_a());

    assert!(state.needs_timeout_release());
}

#[test]
fn timeout_status_does_not_clear_pending_release() {
    let mut state = ReceiverSessionState::default();
    state.record_update(pressed_a());

    state.record_timeout_status();

    assert!(state.needs_timeout_release());
    assert!(!state.needs_timeout_status());
}

#[test]
fn timeout_release_error_is_reported_once_until_next_update() {
    let mut state = ReceiverSessionState::default();
    state.record_update(pressed_a());

    assert!(state.record_timeout_release_error());
    assert!(!state.record_timeout_release_error());

    state.record_update(pressed_a());

    assert!(state.record_timeout_release_error());
}

#[test]
fn successful_timeout_release_clears_release_need() {
    let mut state = ReceiverSessionState::default();
    state.record_update(pressed_a());

    state.record_neutral();

    assert!(!state.needs_timeout_release());
    assert!(state.record_timeout_release_error());
}

#[test]
fn neutral_backend_state_still_needs_timeout_status_once() {
    let state = ReceiverSessionState::default();

    assert!(state.needs_timeout_status());
}

#[test]
fn timeout_status_is_suppressed_until_next_update() {
    let mut state = ReceiverSessionState::default();

    state.record_timeout_status();

    assert!(!state.needs_timeout_status());

    state.record_packet();

    assert!(state.needs_timeout_status());
}

#[test]
fn timeout_status_preserves_last_packet_metadata() {
    let current = RuntimeStatus {
        receiver: ReceiverStatus::Running {
            bound_address: "0.0.0.0:26760".to_owned(),
            last_sender: Some("192.168.1.25:49152".to_owned()),
        },
        virtual_controller: VirtualControllerStatus::Ready,
        pressed_buttons: vec!["a".to_owned()],
        packet_count: 42,
        last_packet_at: Some("123456".to_owned()),
    };

    let mut shared = current.clone();
    let timed_out = timeout_status(&mut shared);

    assert_eq!(
        timed_out,
        RuntimeStatus {
            pressed_buttons: Vec::new(),
            ..current
        }
    );
    assert_eq!(shared, timed_out);
}

#[test]
fn default_runtime_status_is_idle() {
    let status = RuntimeStatus::default();
    assert!(status.is_idle());
    assert_eq!(status.receiver, ReceiverStatus::Idle);
    assert_eq!(status.virtual_controller, VirtualControllerStatus::Unknown);
    assert!(status.pressed_buttons.is_empty());
    assert_eq!(status.packet_count, 0);
    assert_eq!(status.last_packet_at, None);
}

#[test]
fn stop_status_depends_on_confirmed_neutral_output() {
    let clean = stopped_status(StopOutcome {
        worker_terminated: true,
        neutral: true,
    });
    assert_eq!(clean, RuntimeStatus::default());
    let message = "receiver stopped without confirmed neutral controller output";
    let failed = stopped_status(StopOutcome {
        worker_terminated: true,
        neutral: false,
    });
    assert_eq!(failed.receiver, ReceiverStatus::Error(message.to_owned()));
    assert_eq!(
        failed.virtual_controller,
        VirtualControllerStatus::Error(message.to_owned())
    );
    assert!(!failed.is_idle());
}

#[test]
fn button_names_list_pressed_buttons_in_order() {
    let names = button_names(ControllerState {
        sequence: 3,
        buttons: Buttons::from_bits_truncate(
            Buttons::DPAD_RIGHT | Buttons::A | Buttons::SELECT | Buttons::L,
        ),
    });
    assert_eq!(names, vec!["a", "l", "select", "right"]);
    let none = button_names(ControllerState {
        sequence: 3,
        buttons: Buttons::default(),
    });
    assert!(none.is_empty());
}

#[test]
fn lifecycle_stop_and_restart_requirements() {
    let mut lifecycle = ReceiverLifecycle::new();
    assert!(lifecycle.check_start().is_ok());
    lifecycle.begin_stop().expect("stop allowed");
    assert_eq!(lifecycle.state, LifecycleState::Stopping);
    assert_eq!(
        lifecycle.check_start().unwrap_err(),
        "receiver lifecycle is reserved for update installation or exit"
    );
    lifecycle.finish_stop();
    assert_eq!(lifecycle.state, LifecycleState::Normal);

    lifecycle.reserve_install().expect("reserve");
    assert!(lifecycle.begin_reserved_install_stop().is_ok());
    lifecycle.mark_install_failure(true);
    assert_eq!(lifecycle.state, LifecycleState::RestartRequired);
    assert_eq!(
        lifecycle.reserve_install().unwrap_err(),
        "application is already exiting or reserved for update installation"
    );
    assert_eq!(
        lifecycle.begin_reserved_install_stop().unwrap_err(),
        "update installation is not reserved"
    );

    let mut handoff = ReceiverLifecycle::new();
    handoff.reserve_install().expect("reserve");
    handoff.cancel_install_reservation();
    assert_eq!(handoff.state, LifecycleState::Normal);
    handoff.reserve_install().expect("reserve again");
    handoff.complete_install_handoff();
    assert_eq!(handoff.state, LifecycleState::ExitAccepted);
}
