//! The controller-state packet that the DS sends over UDP, and the DS
//! button set it carries.

use vstd::prelude::*;
use crate::text::{decimal_spec, with_decimal};

verus! {

/// Length in bytes of every controller-state packet.
pub const PACKET_SIZE: usize = 16;

/// Protocol version understood by this receiver.
pub const VERSION: u8 = 1;

/// Message type of a controller-state packet.
pub const MESSAGE_TYPE_CONTROLLER_STATE: u8 = 1;

/// The four magic bytes `DSCP` that open every packet.
pub open spec fn magic() -> Seq<u8> {
    seq![0x44u8, 0x53u8, 0x43u8, 0x50u8]
}

/// Bits of all buttons the DS reports.
pub const KNOWN_BUTTONS_MASK: u16 = 0x0fff;

/// One controller-state sample: a sequence number and the pressed buttons.
#[derive(Clone, Copy, Debug, PartialEq, Eq, Structural)]
pub struct ControllerState {
    pub sequence: u32,
    pub buttons: Buttons,
}

/// The set of pressed DS buttons, one bit per button; only the bits of
/// `KNOWN_BUTTONS_MASK` can be set.
#[derive(Clone, Copy, Debug, PartialEq, Eq, Structural)]
pub struct Buttons(u16);

impl View for Buttons {
    type V = u16;

    closed spec fn view(&self) -> u16 {
        self.0
    }
}

/// The button set whose bits are `bits`.
pub closed spec fn buttons_from(bits: u16) -> Buttons {
    Buttons(bits)
}

/// A button set is determined by its bits.
pub broadcast proof fn lemma_buttons_from_view(bits: u16)
    ensures
        #[trigger] buttons_from(bits)@ == bits,
{
}

/// Button sets with the same bits are the same set.
pub broadcast proof fn lemma_buttons_view_injective(a: Buttons, b: Buttons)
    ensures
        #[trigger] a@ == #[trigger] b@ ==> a == b,
{
}

/// Facts about button sets that other modules reason with.
pub broadcast group group_buttons {
    lemma_buttons_from_view,
    lemma_buttons_view_injective,
}

/// `bits` with every bit outside the known buttons cleared.
pub open spec fn truncate_bits(bits: u16) -> u16 {
    bits & KNOWN_BUTTONS_MASK
}

impl Buttons {
    /// Bit of each DS button.
    pub const A: u16 = 1;
    pub const B: u16 = 2;
    pub const X: u16 = 4;
    pub const Y: u16 = 8;
    pub const L: u16 = 16;
    pub const R: u16 = 32;
    pub const START: u16 = 64;
    pub const SELECT: u16 = 128;
    pub const DPAD_UP: u16 = 256;
    pub const DPAD_DOWN: u16 = 512;
    pub const DPAD_LEFT: u16 = 1024;
    pub const DPAD_RIGHT: u16 = 2048;

    /// Keeps the bits of known buttons and drops the rest.
    pub fn from_bits_truncate(bits: u16) -> (b: Buttons)
        ensures
            b@ == truncate_bits(bits),
    {
        Buttons(bits & KNOWN_BUTTONS_MASK)
    }

    /// Whether any of the buttons whose bits are in `button` is pressed.
    pub fn contains(self, button: u16) -> (r: bool)
        ensures
            r == (self@ & button != 0),
    {
        self.0 & button != 0
    }

    /// Whether no button is pressed.
    pub fn is_empty(self) -> (r: bool)
        ensures
            r == (self@ == 0),
    {
        self.0 == 0
    }

    /// The raw button bits.
    pub fn raw(self) -> (r: u16)
        ensures
            r == self@,
    {
        self.0
    }

}

impl Default for Buttons {
    /// The empty button set.
    fn default() -> (b: Buttons)
        ensures
            b@ == 0,
    {
        Buttons(0)
    }
}

/// Why a datagram is not a valid controller-state packet.
#[derive(Clone, Copy, Debug, PartialEq, Eq, Structural)]
pub enum ParseError {
    WrongSize { actual: usize },
    WrongMagic,
    UnsupportedVersion(u8),
    UnsupportedMessageType(u8),
    WrongPacketSizeField(u16),
    NonZeroFlags(u8),
    NonZeroReserved(u8),
}

/// The little-endian 16-bit number in two bytes.
pub open spec fn le_u16(b0: u8, b1: u8) -> u16 {
    (b0 + 256 * b1) as u16
}

/// The little-endian 32-bit number in four bytes.
pub open spec fn le_u32(b0: u8, b1: u8, b2: u8, b3: u8) -> u32 {
    (b0 + 256 * b1 + 65536 * b2 + 16777216 * b3) as u32
}

/// What parsing `p` gives: each check in wire order, the first failing
/// one deciding the error.
pub open spec fn parse_spec(p: Seq<u8>) -> Result<ControllerState, ParseError> {
    if p.len() != PACKET_SIZE {
        Err(ParseError::WrongSize { actual: p.len() as usize })
    } else if p.subrange(0, 4) != magic() {
        Err(ParseError::WrongMagic)
    } else if p[4] != VERSION {
        Err(ParseError::UnsupportedVersion(p[4]))
    } else if p[5] != MESSAGE_TYPE_CONTROLLER_STATE {
        Err(ParseError::UnsupportedMessageType(p[5]))
    } else if le_u16(p[6], p[7]) != PACKET_SIZE {
        Err(ParseError::WrongPacketSizeField(le_u16(p[6], p[7])))
    } else if p[14] != 0 {
        Err(ParseError::NonZeroFlags(p[14]))
    } else if p[15] != 0 {
        Err(ParseError::NonZeroReserved(p[15]))
    } else {
        Ok(ControllerState {
            sequence: le_u32(p[8], p[9], p[10], p[11]),
            buttons: buttons_from(truncate_bits(le_u16(p[12], p[13]))),
        })
    }
}

/// The bytes of the packet that carries `state`.
pub open spec fn encode_spec(state: ControllerState) -> Seq<u8> {
    let s = state.sequence;
    let b = state.buttons@;
    magic() + seq![
        VERSION,
        MESSAGE_TYPE_CONTROLLER_STATE,
        16u8,
        0u8,
        (s % 256) as u8,
        ((s / 256) % 256) as u8,
        ((s / 65536) % 256) as u8,
        (s / 16777216) as u8,
        (b % 256) as u8,
        (b / 256) as u8,
        0u8,
        0u8,
    ]
}

/// Parses one controller-state packet.
pub fn parse_controller_state(packet: &[u8]) -> (r: Result<ControllerState, ParseError>)
    ensures
        r == parse_spec(packet@),
{
    if packet.len() != PACKET_SIZE {
        return Err(ParseError::WrongSize { actual: packet.len() });
    }
    if !(packet[0] == 0x44 && packet[1] == 0x53 && packet[2] == 0x43 && packet[3] == 0x50) {
        proof {
            assert(packet@.subrange(0, 4) != magic()) by {
                if packet@.subrange(0, 4) == magic() {
                    assert(packet@.subrange(0, 4)[0] == packet@[0]);
                    assert(packet@.subrange(0, 4)[1] == packet@[1]);
                    assert(packet@.subrange(0, 4)[2] == packet@[2]);
                    assert(packet@.subrange(0, 4)[3] == packet@[3]);
                }
            }
        }
        return Err(ParseError::WrongMagic);
    }
    assert(packet@.subrange(0, 4) =~= magic());
    if packet[4] != VERSION {
        return Err(ParseError::UnsupportedVersion(packet[4]));
    }
    if packet[5] != MESSAGE_TYPE_CONTROLLER_STATE {
        return Err(ParseError::UnsupportedMessageType(packet[5]));
    }
    let packet_size: u16 = packet[6] as u16 + (packet[7] as u16) * 256;
    if packet_size != 16 {
        return Err(ParseError::WrongPacketSizeField(packet_size));
    }
    let sequence: u32 = packet[8] as u32 + (packet[9] as u32) * 256 + (packet[10] as u32) * 65536
        + (packet[11] as u32) * 16777216;
    let button_bits: u16 = packet[12] as u16 + (packet[13] as u16) * 256;
    if packet[14] != 0 {
        return Err(ParseError::NonZeroFlags(packet[14]));
    }
    if packet[15] != 0 {
        return Err(ParseError::NonZeroReserved(packet[15]));
    }
    Ok(ControllerState { sequence, buttons: Buttons::from_bits_truncate(button_bits) })
}

/// The packet that the DS sends for `state`.
pub fn encode_controller_state_for_test(state: ControllerState) -> (packet: [u8; 16])
    ensures
        packet@ == encode_spec(state),
{
    let s = state.sequence;
    let b = state.buttons.raw();
    let packet: [u8; 16] = [
        0x44,
        0x53,
        0x43,
        0x50,
        VERSION,
        MESSAGE_TYPE_CONTROLLER_STATE,
        16,
        0,
        (s % 256) as u8,
        ((s / 256) % 256) as u8,
        ((s / 65536) % 256) as u8,
        (s / 16777216) as u8,
        (b % 256) as u8,
        (b / 256) as u8,
        0,
        0,
    ];
    assert(packet@ =~= encode_spec(state));
    packet
}

/// Whether `candidate` comes after `current` in the wrapping sequence
/// space: it differs and lies less than half the space ahead.
pub open spec fn is_newer_spec(candidate: u32, current: u32) -> bool {
    candidate != current && (candidate - current) % 0x1_0000_0000 < 0x8000_0000
}

/// Whether `candidate` is newer than `current`, counting modulo 2^32.
pub fn is_newer_sequence(candidate: u32, current: u32) -> (r: bool)
    ensures
        r == is_newer_spec(candidate, current),
{
    let diff: u32 = candidate.wrapping_sub(current);
    proof {
        assert(diff == (candidate - current) % 0x1_0000_0000) by {
            vstd::arithmetic::mul::lemma_mul_basics(0int);
        }
    }
    candidate != current && diff < 0x8000_0000
}

/// The message that describes a parse error.
pub open spec fn parse_error_message(e: ParseError) -> Seq<char> {
    match e {
        ParseError::WrongSize { actual } => "wrong packet size: "@ + decimal_spec(actual as nat),
        ParseError::WrongMagic => "wrong packet magic"@,
        ParseError::UnsupportedVersion(v) => "unsupported protocol version: "@ + decimal_spec(
            v as nat,
        ),
        ParseError::UnsupportedMessageType(m) => "unsupported message type: "@ + decimal_spec(
            m as nat,
        ),
        ParseError::WrongPacketSizeField(n) => "wrong packet size field: "@ + decimal_spec(
            n as nat,
        ),
        ParseError::NonZeroFlags(f) => "non-zero flags byte: "@ + decimal_spec(f as nat),
        ParseError::NonZeroReserved(r) => "non-zero reserved byte: "@ + decimal_spec(r as nat),
    }
}

impl ParseError {
    /// The human-readable message of the error.
    pub fn to_string(&self) -> (s: String)
        ensures
            s@ == parse_error_message(*self),
    {
        match self {
            ParseError::WrongSize { actual } => with_decimal("wrong packet size: ", *actual as u128),
            ParseError::WrongMagic => String::from_str("wrong packet magic"),
            ParseError::UnsupportedVersion(v) => with_decimal(
                "unsupported protocol version: ",
                *v as u128,
            ),
            ParseError::UnsupportedMessageType(m) => with_decimal(
                "unsupported message type: ",
                *m as u128,
            ),
            ParseError::WrongPacketSizeField(n) => with_decimal(
                "wrong packet size field: ",
                *n as u128,
            ),
            ParseError::NonZeroFlags(f) => with_decimal("non-zero flags byte: ", *f as u128),
            ParseError::NonZeroReserved(r) => with_decimal("non-zero reserved byte: ", *r as u128),
        }
    }
}

/// Parsing the bytes that the DS sends for a state gives that state back,
/// for every state whose buttons are known DS buttons.
pub proof fn lemma_parse_inverts_encode(state: ControllerState)
    requires
        truncate_bits(state.buttons@) == state.buttons@,
    ensures
        parse_spec(encode_spec(state)) == Ok::<ControllerState, ParseError>(state),
{
    let p = encode_spec(state);
    assert(p.subrange(0, 4) =~= magic());
    let s = state.sequence;
    let b = state.buttons@;
    assert(le_u16(p[6], p[7]) == 16);
    assert(le_u32(p[8], p[9], p[10], p[11]) == s);
    assert(le_u16(p[12], p[13]) == b);
    assert(buttons_from(b) == state.buttons);
}

proof fn lemma_low_byte(x: int, lo: int, hi: int)
    requires
        0 <= lo < 256,
        x == lo + 256 * hi,
    ensures
        x % 256 == lo,
        x / 256 == hi,
{
    vstd::arithmetic::div_mod::lemma_fundamental_div_mod_converse(x, 256, hi, lo);
}

/// A parsed packet re-encodes to the same bytes, except for button bits
/// that no DS button uses, which parsing drops.
pub proof fn lemma_encode_inverts_parse(p: Seq<u8>)
    requires
        parse_spec(p) is Ok,
        truncate_bits(le_u16(p[12], p[13])) == le_u16(p[12], p[13]),
    ensures
        encode_spec(parse_spec(p)->Ok_0) == p,
{
    let st = parse_spec(p)->Ok_0;
    assert(p.subrange(0, 4) == magic());
    assert(p[0] == p.subrange(0, 4)[0]);
    assert(p[1] == p.subrange(0, 4)[1]);
    assert(p[2] == p.subrange(0, 4)[2]);
    assert(p[3] == p.subrange(0, 4)[3]);
    assert(p[6] == 16 && p[7] == 0);
    let b0 = p[8] as int;
    let b1 = p[9] as int;
    let b2 = p[10] as int;
    let b3 = p[11] as int;
    let s = b0 + 256 * b1 + 65536 * b2 + 16777216 * b3;
    assert(st.sequence == s);
    lemma_low_byte(s, b0, b1 + 256 * b2 + 65536 * b3);
    lemma_low_byte(b1 + 256 * b2 + 65536 * b3, b1, b2 + 256 * b3);
    lemma_low_byte(b2 + 256 * b3, b2, b3);
    vstd::arithmetic::div_mod::lemma_div_denominator(s, 256, 256);
    vstd::arithmetic::div_mod::lemma_div_denominator(s / 65536, 256, 256);
    assert(s / 65536 == b2 + 256 * b3);
    assert(s / 16777216 == b3);
    let c = p[12] as int + 256 * p[13] as int;
    assert(st.buttons@ == c);
    lemma_low_byte(c, p[12] as int, p[13] as int);
    assert(encode_spec(st) =~= p);
}

/// Only the bits of known buttons survive truncation, and truncating twice
/// is truncating once.
pub proof fn lemma_truncate_keeps_known_bits(bits: u16)
    ensures
        truncate_bits(bits) & !KNOWN_BUTTONS_MASK == 0,
        truncate_bits(truncate_bits(bits)) == truncate_bits(bits),
        bits & KNOWN_BUTTONS_MASK == bits ==> truncate_bits(bits) == bits,
{
    assert(bits & 0x0fffu16 & !0x0fffu16 == 0) by (bit_vector);
    assert(bits & 0x0fffu16 & 0x0fffu16 == bits & 0x0fffu16) by (bit_vector);
}

/// Newer-than is irreflexive and antisymmetric: no sequence is newer than
/// itself, and of two sequences at most one is newer than the other.
pub proof fn lemma_newer_is_antisymmetric(a: u32, b: u32)
    ensures
        !is_newer_spec(a, a),
        is_newer_spec(a, b) ==> !is_newer_spec(b, a),
{
    if a != b {
        let m: int = 0x1_0000_0000;
        let d1 = (a - b) % m;
        let d2 = (b - a) % m;
        if a > b {
            assert(d1 == a - b) by {
                vstd::arithmetic::div_mod::lemma_small_mod((a - b) as nat, m as nat);
            }
            assert(d2 == m - (a - b)) by {
                vstd::arithmetic::div_mod::lemma_mod_add_multiples_vanish(b - a, m);
                vstd::arithmetic::div_mod::lemma_small_mod((m + b - a) as nat, m as nat);
            }
        } else {
            assert(d2 == b - a) by {
                vstd::arithmetic::div_mod::lemma_small_mod((b - a) as nat, m as nat);
            }
            assert(d1 == m - (b - a)) by {
                vstd::arithmetic::div_mod::lemma_mod_add_multiples_vanish(a - b, m);
                vstd::arithmetic::div_mod::lemma_small_mod((m + a - b) as nat, m as nat);
            }
        }
    }
}

} // verus!
