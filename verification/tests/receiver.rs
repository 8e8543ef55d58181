use ds_controller::protocol::{encode_controller_state_for_test, Buttons, ControllerState, ParseError};
use ds_controller::receiver::{
    DatagramVerdict, FilterConfig, ReceiverError, ReceiverEvent, ReceiverState, SenderAddress,
};

fn localhost(port: u16) -> SenderAddress {
    SenderAddress {
        is_v6: false,
        ip: 0x7f00_0001,
        port,
        flowinfo: 0,
        scope_id: 0,
    }
}

fn receiver_config() -> FilterConfig {
    FilterConfig {
        fixed_sender: None,
        accept_first_sender: false,
        report_every_timeout: true,
    }
}

fn state(sequence: u32, buttons: u16) -> ControllerState {
    ControllerState {
        sequence,
        buttons: Buttons::from_bits_truncate(buttons),
    }
}

fn send_state(receiver: &mut ReceiverState, sender: SenderAddress, state: ControllerState) -> DatagramVerdict {
    receiver.on_datagram(sender, &encode_controller_state_for_test(state))
}

fn delivered(sender: SenderAddress, state: ControllerState) -> DatagramVerdict {
    DatagramVerdict::Deliver(ReceiverEvent::State { sender, state })
}

#[test]
fn accepts_valid_packet_from_any_sender_by_default() {
    let mut receiver = ReceiverState::new(receiver_config());
    let sender = localhost(40000);
    let expected = state(1, Buttons::A);

    assert_eq!(send_state(&mut receiver, sender, expected), delivered(sender, expected));
}

#[test]
fn accepts_valid_packets_from_different_senders() {
    let mut receiver = ReceiverState::new(receiver_config());
    let first_sender = localhost(40001);
    let second_sender = localhost(40002);
    let first = state(1, Buttons::A);
    let second = state(2, Buttons::B);

    assert_eq!(
        send_state(&mut receiver, first_sender, first),
        delivered(first_sender, first)
    );
    assert_eq!(
        send_state(&mut receiver, second_sender, second),
        delivered(second_sender, second)
    );
}

#[test]
fn ignores_duplicate_and_stale_sequences_until_newer_packet_arrives() {
    let mut receiver = ReceiverState::new(receiver_config());
    let sender = localhost(40003);
    let first = state(10, Buttons::A);
    let newer = state(11, Buttons::X);

    assert_eq!(send_state(&mut receiver, sender, first), delivered(sender, first));

    assert_eq!(
        send_state(&mut receiver, sender, state(10, Buttons::B)),
        DatagramVerdict::Skip
    );
    assert_eq!(
        send_state(&mut receiver, sender, state(9, Buttons::Y)),
        DatagramVerdict::Skip
    );
    assert_eq!(send_state(&mut receiver, sender, newer), delivered(sender, newer));
}

#[test]
fn accepts_wrapped_newer_sequence() {
    let mut receiver = ReceiverState::new(receiver_config());
    let sender = localhost(40004);
    let first = state(u32::MAX, Buttons::A);
    let wrapped = state(0, Buttons::B);

    assert_eq!(send_state(&mut receiver, sender, first), delivered(sender, first));
    assert_eq!(send_state(&mut receiver, sender, wrapped), delivered(sender, wrapped));
}

#[test]
fn returns_parse_error_for_malformed_packet() {
    let mut receiver = ReceiverState::new(receiver_config());
    let sender = localhost(40005);

    assert_eq!(
        receiver.on_datagram(sender, &[0; 4]),
        DatagramVerdict::Malformed(ParseError::WrongSize { actual: 4 })
    );
}

#[test]
fn emits_repeated_timeouts_then_resumes_on_valid_packet() {
    let mut receiver = ReceiverState::new(receiver_config());
    let sender = localhost(40006);
    let expected = state(1, Buttons::START);

    assert!(receiver.on_timeout());
    assert!(receiver.on_timeout());

    assert_eq!(send_state(&mut receiver, sender, expected), delivered(sender, expected));
}

#[test]
fn timeout_resets_sequence_tracking() {
    let mut receiver = ReceiverState::new(receiver_config());
    let sender = localhost(40007);
    let first = state(5, Buttons::A);
    let after_timeout_same_sequence = state(5, Buttons::B);

    assert_eq!(send_state(&mut receiver, sender, first), delivered(sender, first));
    assert!(receiver.on_timeout());
    assert_eq!(
        send_state(&mut receiver, sender, after_timeout_same_sequence),
        delivered(sender, after_timeout_same_sequence)
    );
}

#[test]
fn fixed_sender_filters_other_senders() {
    let fixed = localhost(41000);
    let mut receiver = ReceiverState::new(FilterConfig {
        fixed_sender: Some(fixed),
        accept_first_sender: false,
        report_every_timeout: false,
    });
    assert_eq!(
        send_state(&mut receiver, localhost(41001), state(1, Buttons::A)),
        DatagramVerdict::Skip
    );
    assert_eq!(receiver.on_datagram(localhost(41001), &[1, 2]), DatagramVerdict::Skip);
    assert_eq!(
        send_state(&mut receiver, fixed, state(2, Buttons::A)),
        delivered(fixed, state(2, Buttons::A))
    );
}

#[test]
fn first_sender_lock_holds_after_malformed_packet() {
    let first = localhost(42000);
    let other = localhost(42001);
    let mut receiver = ReceiverState::new(FilterConfig {
        fixed_sender: None,
        accept_first_sender: true,
        report_every_timeout: false,
    });
    assert!(matches!(
        receiver.on_datagram(first, &[0; 3]),
        DatagramVerdict::Malformed(_)
    ));
    assert_eq!(receiver.active_sender, Some(first));
    assert_eq!(
        send_state(&mut receiver, other, state(1, Buttons::A)),
        DatagramVerdict::Skip
    );
    assert!(receiver.on_timeout());
    assert_eq!(receiver.active_sender, Some(first));
}

#[test]
fn silent_period_reports_one_timeout_unless_asked_for_every_one() {
    let sender = localhost(43000);
    let mut receiver = ReceiverState::new(FilterConfig {
        fixed_sender: None,
        accept_first_sender: false,
        report_every_timeout: false,
    });
    assert!(receiver.on_timeout());
    assert!(!receiver.on_timeout());
    assert!(!receiver.on_timeout());
    assert_eq!(
        send_state(&mut receiver, sender, state(9, 0)),
        delivered(sender, state(9, 0))
    );
    assert!(receiver.on_timeout());
}

#[test]
fn receiver_errors_have_messages() {
    let parse = ReceiverError::from(ParseError::WrongMagic);
    assert_eq!(parse.to_string(), "parse error: wrong packet magic");
    let io = ReceiverError::Io("boom".to_owned());
    assert_eq!(io.to_string(), "I/O error: boom");
}
