//! Decisions of the UDP receiver: which datagrams become controller
//! events, and when a read timeout is reported. The socket itself stays
//! with the caller, which hands each datagram or timeout to
//! `ReceiverState` and acts on its verdict.

use vstd::prelude::*;
use vstd::std_specs::convert::FromSpecImpl;
use crate::protocol::{
    ControllerState, ParseError, is_newer_sequence, is_newer_spec, parse_controller_state,
    parse_spec,
};

verus! {

/// The address a datagram came from, field for field as the socket
/// reports it.
#[derive(Clone, Copy, Debug, PartialEq, Eq, Structural)]
pub struct SenderAddress {
    pub is_v6: bool,
    /// The IPv4 address in the low 32 bits, or the IPv6 address.
    pub ip: u128,
    pub port: u16,
    pub flowinfo: u32,
    pub scope_id: u32,
}

/// Which senders and timeouts the receiver reports.
#[derive(Clone, Copy, Debug)]
pub struct FilterConfig {
    /// Accept packets only from this sender.
    pub fixed_sender: Option<SenderAddress>,
    /// Lock to the sender of the first packet.
    pub accept_first_sender: bool,
    /// Report every read timeout, not only the first of a silent period.
    pub report_every_timeout: bool,
}

/// What the receiver reports.
#[derive(Clone, Copy, Debug, PartialEq, Eq, Structural)]
pub enum ReceiverEvent {
    State { sender: SenderAddress, state: ControllerState },
    Timeout,
}

/// What to do with one datagram.
#[derive(Clone, Copy, Debug, PartialEq, Eq, Structural)]
pub enum DatagramVerdict {
    /// Drop it silently and keep reading.
    Skip,
    /// Report this event.
    Deliver(ReceiverEvent),
    /// Report the datagram as malformed.
    Malformed(ParseError),
}

/// Errors that the receiver reports instead of an event.
#[derive(Debug)]
pub enum ReceiverError {
    /// Reading the socket failed; the system's error text.
    Io(String),
    Parse(ParseError),
}

/// The receiver's memory between datagrams.
#[derive(Clone, Copy, Debug)]
pub struct ReceiverState {
    pub config: FilterConfig,
    /// The only sender accepted, once there is one.
    pub active_sender: Option<SenderAddress>,
    /// Sequence number of the last delivered state since the last timeout.
    pub latest_sequence: Option<u32>,
    /// Whether a timeout was reported and no state delivered since.
    pub timed_out: bool,
}

/// The state of a fresh receiver.
pub open spec fn initial_state(config: FilterConfig) -> ReceiverState {
    ReceiverState {
        config,
        active_sender: config.fixed_sender,
        latest_sequence: None,
        timed_out: false,
    }
}

/// Whether a datagram from `sender` passes the sender filter.
pub open spec fn sender_passes(s: ReceiverState, sender: SenderAddress) -> bool {
    match s.active_sender {
        Some(a) => sender == a,
        None => true,
    }
}

/// Whether a state with sequence `seq` passes the sequence filter.
pub open spec fn sequence_passes(s: ReceiverState, seq: u32) -> bool {
    match s.latest_sequence {
        Some(l) => is_newer_spec(seq, l),
        None => true,
    }
}

/// The receiver after it has seen a datagram from `sender` with bytes
/// `p`, and what it does with the datagram.
pub open spec fn datagram_step(s: ReceiverState, sender: SenderAddress, p: Seq<u8>) -> (
    ReceiverState,
    DatagramVerdict,
) {
    if !sender_passes(s, sender) {
        (s, DatagramVerdict::Skip)
    } else {
        let locked = datagram_step_locked(s, sender);
        match parse_spec(p) {
            Err(e) => (locked, DatagramVerdict::Malformed(e)),
            Ok(st) => if !sequence_passes(locked, st.sequence) {
                (locked, DatagramVerdict::Skip)
            } else {
                (
                    ReceiverState { latest_sequence: Some(st.sequence), timed_out: false, ..locked },
                    DatagramVerdict::Deliver(ReceiverEvent::State { sender, state: st }),
                )
            },
        }
    }
}

/// The receiver after a read timeout, and whether the timeout is reported.
pub open spec fn timeout_step(s: ReceiverState) -> (ReceiverState, bool) {
    if s.timed_out && !s.config.report_every_timeout {
        (s, false)
    } else {
        (ReceiverState { timed_out: true, latest_sequence: None, ..s }, true)
    }
}

impl ReceiverState {
    /// A receiver that has seen nothing yet.
    pub fn new(config: FilterConfig) -> (s: ReceiverState)
        ensures
            s == initial_state(config),
    {
        ReceiverState {
            config,
            active_sender: config.fixed_sender,
            latest_sequence: None,
            timed_out: false,
        }
    }

    fn accept_sender(&mut self, sender: SenderAddress) -> (r: bool)
        ensures
            r == sender_passes(*old(self), sender),
            r ==> *final(self) == datagram_step_locked(*old(self), sender),
            !r ==> *final(self) == *old(self),
    {
        match self.active_sender {
            Some(active_sender) => sender == active_sender,
            None => {
                if self.config.accept_first_sender {
                    self.active_sender = Some(sender);
                }
                true
            },
        }
    }

    fn accept_sequence(&mut self, sequence: u32) -> (r: bool)
        ensures
            r == sequence_passes(*old(self), sequence),
            old(self).latest_sequence matches Some(l) ==> (r <==> (sequence != l && (sequence - l)
                % 0x1_0000_0000 < 0x8000_0000)),
            old(self).latest_sequence is None ==> r,
            r ==> *final(self) == (ReceiverState {
                latest_sequence: Some(sequence),
                ..*old(self)
            }),
            !r ==> *final(self) == *old(self),
    {
        match self.latest_sequence {
            Some(latest_sequence) => {
                if !is_newer_sequence(sequence, latest_sequence) {
                    return false;
                }
                self.latest_sequence = Some(sequence);
                true
            },
            None => {
                self.latest_sequence = Some(sequence);
                true
            },
        }
    }

    /// Decides what to do with one datagram from `sender`.
    pub fn on_datagram(&mut self, sender: SenderAddress, packet: &[u8]) -> (v: DatagramVerdict)
        ensures
            (*final(self), v) == datagram_step(*old(self), sender, packet@),
    {
        if !self.accept_sender(sender) {
            return DatagramVerdict::Skip;
        }
        let state = match parse_controller_state(packet) {
            Ok(state) => state,
            Err(e) => {
                return DatagramVerdict::Malformed(e);
            },
        };
        if !self.accept_sequence(state.sequence) {
            return DatagramVerdict::Skip;
        }
        self.timed_out = false;
        DatagramVerdict::Deliver(ReceiverEvent::State { sender, state })
    }

    /// Decides whether a read timeout is reported; a reported timeout
    /// forgets the last sequence number.
    pub fn on_timeout(&mut self) -> (report: bool)
        ensures
            (*final(self), report) == timeout_step(*old(self)),
    {
        if self.timed_out && !self.config.report_every_timeout {
            return false;
        }
        self.timed_out = true;
        self.latest_sequence = None;
        true
    }
}

/// The receiver after the sender filter let `sender` through.
pub open spec fn datagram_step_locked(s: ReceiverState, sender: SenderAddress) -> ReceiverState {
    if s.active_sender is None && s.config.accept_first_sender {
        ReceiverState { active_sender: Some(sender), ..s }
    } else {
        s
    }
}

impl From<ParseError> for ReceiverError {
    fn from(error: ParseError) -> (e: ReceiverError) {
        ReceiverError::Parse(error)
    }
}

impl FromSpecImpl<ParseError> for ReceiverError {
    open spec fn obeys_from_spec() -> bool {
        true
    }

    open spec fn from_spec(error: ParseError) -> ReceiverError {
        ReceiverError::Parse(error)
    }
}

impl ReceiverError {
    /// The human-readable message of the error.
    pub fn to_string(&self) -> (s: String)
        ensures
            *self matches ReceiverError::Parse(e) ==> s@ == "parse error: "@
                + crate::protocol::parse_error_message(e),
            *self matches ReceiverError::Io(t) ==> s@ == "I/O error: "@ + t@,
    {
        match self {
            ReceiverError::Io(e) => {
                let mut s = String::from_str("I/O error: ");
                s.append(e.as_str());
                s
            },
            ReceiverError::Parse(e) => {
                let mut s = String::from_str("parse error: ");
                let detail = e.to_string();
                s.append(detail.as_str());
                s
            },
        }
    }
}


/// Once the receiver is locked to a sender it stays locked to it, and
/// every state it delivers comes from that sender.
pub proof fn lemma_locked_sender_is_kept(
    s: ReceiverState,
    a: SenderAddress,
    sender: SenderAddress,
    p: Seq<u8>,
)
    requires
        s.active_sender == Some(a),
    ensures
        datagram_step(s, sender, p).0.active_sender == Some(a),
        timeout_step(s).0.active_sender == Some(a),
        datagram_step(s, sender, p).1 is Deliver ==> sender == a,
{
}

/// With first-sender locking, the first datagram that passes the filter
/// locks the receiver to its sender, whether or not it parses.
pub proof fn lemma_first_sender_locks(s: ReceiverState, sender: SenderAddress, p: Seq<u8>)
    requires
        s.active_sender is None,
        s.config.accept_first_sender,
    ensures
        datagram_step(s, sender, p).0.active_sender == Some(sender),
{
}

/// A delivered state is newer than the last one delivered since the last
/// reported timeout, and the same packet right after is dropped.
pub proof fn lemma_delivered_sequences_increase(s: ReceiverState, sender: SenderAddress, p: Seq<u8>)
    requires
        datagram_step(s, sender, p).1 is Deliver,
    ensures
        parse_spec(p) is Ok,
        s.latest_sequence matches Some(l) ==> is_newer_spec(parse_spec(p)->Ok_0.sequence, l),
        datagram_step(s, sender, p).0.latest_sequence == Some(parse_spec(p)->Ok_0.sequence),
        datagram_step(datagram_step(s, sender, p).0, sender, p).1 == DatagramVerdict::Skip,
{
    crate::protocol::lemma_newer_is_antisymmetric(parse_spec(p)->Ok_0.sequence, 0);
}

/// After a reported timeout, every well-formed packet from an accepted
/// sender is delivered, whatever its sequence number.
pub proof fn lemma_timeout_resets_sequence(s: ReceiverState, sender: SenderAddress, p: Seq<u8>)
    requires
        timeout_step(s).1,
        sender_passes(s, sender),
        parse_spec(p) is Ok,
    ensures
        datagram_step(timeout_step(s).0, sender, p).1 == DatagramVerdict::Deliver(
            ReceiverEvent::State { sender, state: parse_spec(p)->Ok_0 },
        ),
{
}

/// Unless every timeout is to be reported, a silent period is reported
/// once: the timeout after a reported timeout is not reported, and a
/// delivered state ends the silent period.
pub proof fn lemma_silent_period_reported_once(s: ReceiverState, sender: SenderAddress, p: Seq<u8>)
    requires
        !s.config.report_every_timeout,
    ensures
        !timeout_step(timeout_step(s).0).1,
        datagram_step(s, sender, p).1 is Deliver ==> timeout_step(datagram_step(s, sender, p).0).1,
{
}

/// Every well-formed state from an accepted sender is delivered when its
/// sequence number is newer than the last one delivered, that is ahead of
/// it by less than half of the 2^32 numbers, counting round: a lost packet
/// in between does not hold the later ones back. The state then becomes
/// the last one delivered.
pub proof fn lemma_newer_states_are_delivered(s: ReceiverState, sender: SenderAddress, p: Seq<u8>)
    requires
        s.active_sender is None || s.active_sender == Some(sender),
        parse_spec(p) is Ok,
        s.latest_sequence matches Some(l) ==> parse_spec(p)->Ok_0.sequence != l && (
        parse_spec(p)->Ok_0.sequence - l) % 0x1_0000_0000 < 0x8000_0000,
    ensures
        datagram_step(s, sender, p).1 == DatagramVerdict::Deliver(
            ReceiverEvent::State { sender, state: parse_spec(p)->Ok_0 },
        ),
        datagram_step(s, sender, p).0.latest_sequence == Some(parse_spec(p)->Ok_0.sequence),
        !datagram_step(s, sender, p).0.timed_out,
{
}

} // verus!
