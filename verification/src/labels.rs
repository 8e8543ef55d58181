//! Human-readable names of pressed buttons, as the receiver prints and
//! publishes them.

use vstd::prelude::*;
use crate::protocol::Buttons;
use crate::mapping::XboxButtons;

verus! {

/// Number of buttons in every label table.
pub const BUTTON_COUNT: usize = 12;

/// Which naming of the buttons to use.
#[derive(Clone, Copy, Debug, PartialEq, Eq, Structural)]
pub enum LabelTable {
    /// DS buttons as the console prints them (`A`, `Start`, `Up`, ...).
    Ds,
    /// DS buttons as the dashboard lists them (`a`, `start`, `up`, ...).
    DsLower,
    /// Xbox buttons as the console prints them (`A`, `LB`, `Back`, ...).
    Xbox,
}

/// Bit of the `i`-th DS button in printing order.
pub open spec fn ds_bit(i: int) -> u16 {
    if i == 0 {
        Buttons::A
    } else if i == 1 {
        Buttons::B
    } else if i == 2 {
        Buttons::X
    } else if i == 3 {
        Buttons::Y
    } else if i == 4 {
        Buttons::L
    } else if i == 5 {
        Buttons::R
    } else if i == 6 {
        Buttons::START
    } else if i == 7 {
        Buttons::SELECT
    } else if i == 8 {
        Buttons::DPAD_UP
    } else if i == 9 {
        Buttons::DPAD_DOWN
    } else if i == 10 {
        Buttons::DPAD_LEFT
    } else {
        Buttons::DPAD_RIGHT
    }
}

/// Bit of the `i`-th Xbox button in printing order.
pub open spec fn xbox_bit(i: int) -> u16 {
    if i == 0 {
        XboxButtons::A
    } else if i == 1 {
        XboxButtons::B
    } else if i == 2 {
        XboxButtons::X
    } else if i == 3 {
        XboxButtons::Y
    } else if i == 4 {
        XboxButtons::LEFT_BUMPER
    } else if i == 5 {
        XboxButtons::RIGHT_BUMPER
    } else if i == 6 {
        XboxButtons::START
    } else if i == 7 {
        XboxButtons::BACK
    } else if i == 8 {
        XboxButtons::DPAD_UP
    } else if i == 9 {
        XboxButtons::DPAD_DOWN
    } else if i == 10 {
        XboxButtons::DPAD_LEFT
    } else {
        XboxButtons::DPAD_RIGHT
    }
}

/// Console name of the `i`-th DS button.
pub open spec fn ds_label(i: int) -> Seq<char> {
    if i == 0 {
        "A"@
    } else if i == 1 {
        "B"@
    } else if i == 2 {
        "X"@
    } else if i == 3 {
        "Y"@
    } else if i == 4 {
        "L"@
    } else if i == 5 {
        "R"@
    } else if i == 6 {
        "Start"@
    } else if i == 7 {
        "Select"@
    } else if i == 8 {
        "Up"@
    } else if i == 9 {
        "Down"@
    } else if i == 10 {
        "Left"@
    } else {
        "Right"@
    }
}

/// Dashboard name of the `i`-th DS button.
pub open spec fn ds_lower_label(i: int) -> Seq<char> {
    if i == 0 {
        "a"@
    } else if i == 1 {
        "b"@
    } else if i == 2 {
        "x"@
    } else if i == 3 {
        "y"@
    } else if i == 4 {
        "l"@
    } else if i == 5 {
        "r"@
    } else if i == 6 {
        "start"@
    } else if i == 7 {
        "select"@
    } else if i == 8 {
        "up"@
    } else if i == 9 {
        "down"@
    } else if i == 10 {
        "left"@
    } else {
        "right"@
    }
}

/// Console name of the `i`-th Xbox button.
pub open spec fn xbox_label(i: int) -> Seq<char> {
    if i == 0 {
        "A"@
    } else if i == 1 {
        "B"@
    } else if i == 2 {
        "X"@
    } else if i == 3 {
        "Y"@
    } else if i == 4 {
        "LB"@
    } else if i == 5 {
        "RB"@
    } else if i == 6 {
        "Start"@
    } else if i == 7 {
        "Back"@
    } else if i == 8 {
        "Up"@
    } else if i == 9 {
        "Down"@
    } else if i == 10 {
        "Left"@
    } else {
        "Right"@
    }
}

/// Bit of the `i`-th button of a table.
pub open spec fn table_bit(t: LabelTable, i: int) -> u16 {
    match t {
        LabelTable::Xbox => xbox_bit(i),
        _ => ds_bit(i),
    }
}

/// Name of the `i`-th button of a table.
pub open spec fn table_label(t: LabelTable, i: int) -> Seq<char> {
    match t {
        LabelTable::Ds => ds_label(i),
        LabelTable::DsLower => ds_lower_label(i),
        LabelTable::Xbox => xbox_label(i),
    }
}

/// Names of the pressed buttons among the first `n` of the table, in
/// table order.
pub open spec fn pressed_labels(bits: u16, t: LabelTable, n: nat) -> Seq<Seq<char>>
    decreases n,
{
    if n == 0 {
        Seq::empty()
    } else {
        let prev = pressed_labels(bits, t, (n - 1) as nat);
        if bits & table_bit(t, n - 1) != 0 {
            prev.push(table_label(t, n - 1))
        } else {
            prev
        }
    }
}

/// The names joined by `+`.
pub open spec fn join_plus(s: Seq<Seq<char>>) -> Seq<char>
    decreases s.len(),
{
    if s.len() == 0 {
        Seq::empty()
    } else if s.len() == 1 {
        s[0]
    } else {
        join_plus(s.drop_last()) + "+"@ + s.last()
    }
}

/// The printed form of a button set: the pressed names joined by `+`, or
/// `neutral` when none is pressed.
pub open spec fn describe_spec(bits: u16, t: LabelTable) -> Seq<char> {
    let names = pressed_labels(bits, t, BUTTON_COUNT as nat);
    if names.len() == 0 {
        "neutral"@
    } else {
        join_plus(names)
    }
}

fn table_entry(t: LabelTable, i: usize) -> (r: (u16, &'static str))
    requires
        i < BUTTON_COUNT,
    ensures
        r.0 == table_bit(t, i as int),
        r.1@ == table_label(t, i as int),
{
    match t {
        LabelTable::Ds => {
            if i == 0 {
                (Buttons::A, "A")
            } else if i == 1 {
                (Buttons::B, "B")
            } else if i == 2 {
                (Buttons::X, "X")
            } else if i == 3 {
                (Buttons::Y, "Y")
            } else if i == 4 {
                (Buttons::L, "L")
            } else if i == 5 {
                (Buttons::R, "R")
            } else if i == 6 {
                (Buttons::START, "Start")
            } else if i == 7 {
                (Buttons::SELECT, "Select")
            } else if i == 8 {
                (Buttons::DPAD_UP, "Up")
            } else if i == 9 {
                (Buttons::DPAD_DOWN, "Down")
            } else if i == 10 {
                (Buttons::DPAD_LEFT, "Left")
            } else {
                (Buttons::DPAD_RIGHT, "Right")
            }
        },
        LabelTable::DsLower => {
            if i == 0 {
                (Buttons::A, "a")
            } else if i == 1 {
                (Buttons::B, "b")
            } else if i == 2 {
                (Buttons::X, "x")
            } else if i == 3 {
                (Buttons::Y, "y")
            } else if i == 4 {
                (Buttons::L, "l")
            } else if i == 5 {
                (Buttons::R, "r")
            } else if i == 6 {
                (Buttons::START, "start")
            } else if i == 7 {
                (Buttons::SELECT, "select")
            } else if i == 8 {
                (Buttons::DPAD_UP, "up")
            } else if i == 9 {
                (Buttons::DPAD_DOWN, "down")
            } else if i == 10 {
                (Buttons::DPAD_LEFT, "left")
            } else {
                (Buttons::DPAD_RIGHT, "right")
            }
        },
        LabelTable::Xbox => {
            if i == 0 {
                (XboxButtons::A, "A")
            } else if i == 1 {
                (XboxButtons::B, "B")
            } else if i == 2 {
                (XboxButtons::X, "X")
            } else if i == 3 {
                (XboxButtons::Y, "Y")
            } else if i == 4 {
                (XboxButtons::LEFT_BUMPER, "LB")
            } else if i == 5 {
                (XboxButtons::RIGHT_BUMPER, "RB")
            } else if i == 6 {
                (XboxButtons::START, "Start")
            } else if i == 7 {
                (XboxButtons::BACK, "Back")
            } else if i == 8 {
                (XboxButtons::DPAD_UP, "Up")
            } else if i == 9 {
                (XboxButtons::DPAD_DOWN, "Down")
            } else if i == 10 {
                (XboxButtons::DPAD_LEFT, "Left")
            } else {
                (XboxButtons::DPAD_RIGHT, "Right")
            }
        },
    }
}

/// Bit of the `i`-th Xbox button in printing order.
pub fn xbox_button_bit(i: usize) -> (b: u16)
    requires
        i < BUTTON_COUNT,
    ensures
        b == xbox_bit(i as int),
{
    table_entry(LabelTable::Xbox, i).0
}

/// The printed form of the button set `bits` under table `t`.
pub fn describe_bits(bits: u16, t: LabelTable) -> (s: String)
    ensures
        s@ == describe_spec(bits, t),
{
    let mut out = String::new();
    let mut wrote_any = false;
    let mut i: usize = 0;
    while i < BUTTON_COUNT
        invariant
            i <= BUTTON_COUNT,
            wrote_any == (pressed_labels(bits, t, i as nat).len() > 0),
            wrote_any ==> out@ == join_plus(pressed_labels(bits, t, i as nat)),
            !wrote_any ==> out@ == Seq::<char>::empty(),
        decreases BUTTON_COUNT - i,
    {
        let (bit, label) = table_entry(t, i);
        let ghost prev = pressed_labels(bits, t, i as nat);
        if bits & bit != 0 {
            if wrote_any {
                out.append("+");
                assert(prev.push(label@).drop_last() =~= prev);
            } else {
                assert(out@ + label@ =~= label@);
            }
            out.append(label);
            wrote_any = true;
        }
        i += 1;
    }
    if !wrote_any {
        out.append("neutral");
        assert(out@ =~= "neutral"@);
    }
    out
}

/// The names of the pressed buttons of `bits` under table `t`, in table
/// order.
pub fn pressed_label_strings(bits: u16, t: LabelTable) -> (v: Vec<String>)
    ensures
        v@.map_values(|s: String| s@) == pressed_labels(bits, t, BUTTON_COUNT as nat),
{
    let mut v: Vec<String> = Vec::new();
    let mut i: usize = 0;
    while i < BUTTON_COUNT
        invariant
            i <= BUTTON_COUNT,
            v@.map_values(|s: String| s@) == pressed_labels(bits, t, i as nat),
        decreases BUTTON_COUNT - i,
    {
        let (bit, label) = table_entry(t, i);
        if bits & bit != 0 {
            let ghost before = v@;
            v.push(String::from_str(label));
            assert(v@.map_values(|s: String| s@) =~= before.map_values(|s: String| s@).push(
                label@,
            ));
        }
        i += 1;
    }
    v
}

impl Buttons {
    /// The console form of the DS buttons: pressed names joined by `+`,
    /// or `neutral`.
    pub fn to_string(self) -> (s: String)
        ensures
            s@ == describe_spec(self@, LabelTable::Ds),
    {
        describe_bits(self.raw(), LabelTable::Ds)
    }
}

impl XboxButtons {
    /// The console form of the Xbox buttons: pressed names joined by `+`,
    /// or `neutral`.
    pub fn to_string(self) -> (s: String)
        ensures
            s@ == describe_spec(self@, LabelTable::Xbox),
    {
        describe_bits(self.bits(), LabelTable::Xbox)
    }
}


/// No button of the first `n` of table `t` is pressed in `bits`: no name.
proof fn lemma_pressed_labels_none(bits: u16, t: LabelTable, n: nat)
    requires
        forall|j: int| 0 <= j < n ==> bits & #[trigger] table_bit(t, j) == 0,
    ensures
        pressed_labels(bits, t, n) == Seq::<Seq<char>>::empty(),
    decreases n,
{
    if n > 0 {
        lemma_pressed_labels_none(bits, t, (n - 1) as nat);
    }
}

/// Exactly the `k`-th button of the first `n` of table `t` is pressed in
/// `bits`: its name alone is listed.
proof fn lemma_pressed_labels_single(bits: u16, t: LabelTable, n: nat, k: nat)
    requires
        k < n,
        forall|j: int| 0 <= j < n ==> ((bits & #[trigger] table_bit(t, j) != 0) <==> j == k),
    ensures
        pressed_labels(bits, t, n) == seq![table_label(t, k as int)],
    decreases n,
{
    if n - 1 == k {
        lemma_pressed_labels_none(bits, t, k);
        assert(Seq::<Seq<char>>::empty().push(table_label(t, k as int)) =~= seq![
            table_label(t, k as int),
        ]);
    } else {
        lemma_pressed_labels_single(bits, t, (n - 1) as nat, k);
    }
}

/// The dashboard lists each DS button, pressed alone, under its own name:
/// A as `a`, B as `b`, X as `x`, Y as `y`, L as `l`, R as `r`, Start as
/// `start`, Select as `select`, and the pad's Up, Down, Left and Right as
/// `up`, `down`, `left` and `right`.
pub proof fn lemma_dashboard_names_of_single_buttons()
    ensures
        pressed_labels(1u16, LabelTable::DsLower, BUTTON_COUNT as nat) == seq!["a"@],
        pressed_labels(2u16, LabelTable::DsLower, BUTTON_COUNT as nat) == seq!["b"@],
        pressed_labels(4u16, LabelTable::DsLower, BUTTON_COUNT as nat) == seq!["x"@],
        pressed_labels(8u16, LabelTable::DsLower, BUTTON_COUNT as nat) == seq!["y"@],
        pressed_labels(16u16, LabelTable::DsLower, BUTTON_COUNT as nat) == seq!["l"@],
        pressed_labels(32u16, LabelTable::DsLower, BUTTON_COUNT as nat) == seq!["r"@],
        pressed_labels(64u16, LabelTable::DsLower, BUTTON_COUNT as nat) == seq!["start"@],
        pressed_labels(128u16, LabelTable::DsLower, BUTTON_COUNT as nat) == seq!["select"@],
        pressed_labels(256u16, LabelTable::DsLower, BUTTON_COUNT as nat) == seq!["up"@],
        pressed_labels(512u16, LabelTable::DsLower, BUTTON_COUNT as nat) == seq!["down"@],
        pressed_labels(1024u16, LabelTable::DsLower, BUTTON_COUNT as nat) == seq!["left"@],
        pressed_labels(2048u16, LabelTable::DsLower, BUTTON_COUNT as nat) == seq!["right"@],
{
    assert((1u16 & 1u16 != 0u16) && (1u16 & 2u16 == 0u16) && (1u16 & 4u16 == 0u16) && (1u16 & 8u16 == 0u16) && (1u16 & 16u16 == 0u16) && (1u16 & 32u16 == 0u16) && (1u16 & 64u16 == 0u16) && (1u16 & 128u16 == 0u16) && (1u16 & 256u16 == 0u16) && (1u16 & 512u16 == 0u16) && (1u16 & 1024u16 == 0u16) && (1u16 & 2048u16 == 0u16)) by (bit_vector);
    lemma_pressed_labels_single(1u16, LabelTable::DsLower, BUTTON_COUNT as nat, 0);
    assert((2u16 & 1u16 == 0u16) && (2u16 & 2u16 != 0u16) && (2u16 & 4u16 == 0u16) && (2u16 & 8u16 == 0u16) && (2u16 & 16u16 == 0u16) && (2u16 & 32u16 == 0u16) && (2u16 & 64u16 == 0u16) && (2u16 & 128u16 == 0u16) && (2u16 & 256u16 == 0u16) && (2u16 & 512u16 == 0u16) && (2u16 & 1024u16 == 0u16) && (2u16 & 2048u16 == 0u16)) by (bit_vector);
    lemma_pressed_labels_single(2u16, LabelTable::DsLower, BUTTON_COUNT as nat, 1);
    assert((4u16 & 1u16 == 0u16) && (4u16 & 2u16 == 0u16) && (4u16 & 4u16 != 0u16) && (4u16 & 8u16 == 0u16) && (4u16 & 16u16 == 0u16) && (4u16 & 32u16 == 0u16) && (4u16 & 64u16 == 0u16) && (4u16 & 128u16 == 0u16) && (4u16 & 256u16 == 0u16) && (4u16 & 512u16 == 0u16) && (4u16 & 1024u16 == 0u16) && (4u16 & 2048u16 == 0u16)) by (bit_vector);
    lemma_pressed_labels_single(4u16, LabelTable::DsLower, BUTTON_COUNT as nat, 2);
    assert((8u16 & 1u16 == 0u16) && (8u16 & 2u16 == 0u16) && (8u16 & 4u16 == 0u16) && (8u16 & 8u16 != 0u16) && (8u16 & 16u16 == 0u16) && (8u16 & 32u16 == 0u16) && (8u16 & 64u16 == 0u16) && (8u16 & 128u16 == 0u16) && (8u16 & 256u16 == 0u16) && (8u16 & 512u16 == 0u16) && (8u16 & 1024u16 == 0u16) && (8u16 & 2048u16 == 0u16)) by (bit_vector);
    lemma_pressed_labels_single(8u16, LabelTable::DsLower, BUTTON_COUNT as nat, 3);
    assert((16u16 & 1u16 == 0u16) && (16u16 & 2u16 == 0u16) && (16u16 & 4u16 == 0u16) && (16u16 & 8u16 == 0u16) && (16u16 & 16u16 != 0u16) && (16u16 & 32u16 == 0u16) && (16u16 & 64u16 == 0u16) && (16u16 & 128u16 == 0u16) && (16u16 & 256u16 == 0u16) && (16u16 & 512u16 == 0u16) && (16u16 & 1024u16 == 0u16) && (16u16 & 2048u16 == 0u16)) by (bit_vector);
    lemma_pressed_labels_single(16u16, LabelTable::DsLower, BUTTON_COUNT as nat, 4);
    assert((32u16 & 1u16 == 0u16) && (32u16 & 2u16 == 0u16) && (32u16 & 4u16 == 0u16) && (32u16 & 8u16 == 0u16) && (32u16 & 16u16 == 0u16) && (32u16 & 32u16 != 0u16) && (32u16 & 64u16 == 0u16) && (32u16 & 128u16 == 0u16) && (32u16 & 256u16 == 0u16) && (32u16 & 512u16 == 0u16) && (32u16 & 1024u16 == 0u16) && (32u16 & 2048u16 == 0u16)) by (bit_vector);
    lemma_pressed_labels_single(32u16, LabelTable::DsLower, BUTTON_COUNT as nat, 5);
    assert((64u16 & 1u16 == 0u16) && (64u16 & 2u16 == 0u16) && (64u16 & 4u16 == 0u16) && (64u16 & 8u16 == 0u16) && (64u16 & 16u16 == 0u16) && (64u16 & 32u16 == 0u16) && (64u16 & 64u16 != 0u16) && (64u16 & 128u16 == 0u16) && (64u16 & 256u16 == 0u16) && (64u16 & 512u16 == 0u16) && (64u16 & 1024u16 == 0u16) && (64u16 & 2048u16 == 0u16)) by (bit_vector);
    lemma_pressed_labels_single(64u16, LabelTable::DsLower, BUTTON_COUNT as nat, 6);
    assert((128u16 & 1u16 == 0u16) && (128u16 & 2u16 == 0u16) && (128u16 & 4u16 == 0u16) && (128u16 & 8u16 == 0u16) && (128u16 & 16u16 == 0u16) && (128u16 & 32u16 == 0u16) && (128u16 & 64u16 == 0u16) && (128u16 & 128u16 != 0u16) && (128u16 & 256u16 == 0u16) && (128u16 & 512u16 == 0u16) && (128u16 & 1024u16 == 0u16) && (128u16 & 2048u16 == 0u16)) by (bit_vector);
    lemma_pressed_labels_single(128u16, LabelTable::DsLower, BUTTON_COUNT as nat, 7);
    assert((256u16 & 1u16 == 0u16) && (256u16 & 2u16 == 0u16) && (256u16 & 4u16 == 0u16) && (256u16 & 8u16 == 0u16) && (256u16 & 16u16 == 0u16) && (256u16 & 32u16 == 0u16) && (256u16 & 64u16 == 0u16) && (256u16 & 128u16 == 0u16) && (256u16 & 256u16 != 0u16) && (256u16 & 512u16 == 0u16) && (256u16 & 1024u16 == 0u16) && (256u16 & 2048u16 == 0u16)) by (bit_vector);
    lemma_pressed_labels_single(256u16, LabelTable::DsLower, BUTTON_COUNT as nat, 8);
    assert((512u16 & 1u16 == 0u16) && (512u16 & 2u16 == 0u16) && (512u16 & 4u16 == 0u16) && (512u16 & 8u16 == 0u16) && (512u16 & 16u16 == 0u16) && (512u16 & 32u16 == 0u16) && (512u16 & 64u16 == 0u16) && (512u16 & 128u16 == 0u16) && (512u16 & 256u16 == 0u16) && (512u16 & 512u16 != 0u16) && (512u16 & 1024u16 == 0u16) && (512u16 & 2048u16 == 0u16)) by (bit_vector);
    lemma_pressed_labels_single(512u16, LabelTable::DsLower, BUTTON_COUNT as nat, 9);
    assert((1024u16 & 1u16 == 0u16) && (1024u16 & 2u16 == 0u16) && (1024u16 & 4u16 == 0u16) && (1024u16 & 8u16 == 0u16) && (1024u16 & 16u16 == 0u16) && (1024u16 & 32u16 == 0u16) && (1024u16 & 64u16 == 0u16) && (1024u16 & 128u16 == 0u16) && (1024u16 & 256u16 == 0u16) && (1024u16 & 512u16 == 0u16) && (1024u16 & 1024u16 != 0u16) && (1024u16 & 2048u16 == 0u16)) by (bit_vector);
    lemma_pressed_labels_single(1024u16, LabelTable::DsLower, BUTTON_COUNT as nat, 10);
    assert((2048u16 & 1u16 == 0u16) && (2048u16 & 2u16 == 0u16) && (2048u16 & 4u16 == 0u16) && (2048u16 & 8u16 == 0u16) && (2048u16 & 16u16 == 0u16) && (2048u16 & 32u16 == 0u16) && (2048u16 & 64u16 == 0u16) && (2048u16 & 128u16 == 0u16) && (2048u16 & 256u16 == 0u16) && (2048u16 & 512u16 == 0u16) && (2048u16 & 1024u16 == 0u16) && (2048u16 & 2048u16 != 0u16)) by (bit_vector);
    lemma_pressed_labels_single(2048u16, LabelTable::DsLower, BUTTON_COUNT as nat, 11);
}

/// A character in lower case: ASCII capitals become small letters.
pub open spec fn lower_char(c: char) -> char {
    if 'A' <= c && c <= 'Z' {
        ((c as u32) + 32) as char
    } else {
        c
    }
}

/// The dashboard name of every DS button is its console name in lower
/// case.
pub proof fn lemma_dashboard_names_are_console_names_in_lower_case(i: int)
    requires
        0 <= i < BUTTON_COUNT,
    ensures
        ds_lower_label(i) == ds_label(i).map_values(|c: char| lower_char(c)),
{
    if i == 0 {
        reveal_strlit("a");
        reveal_strlit("A");
        assert(ds_label(i).map_values(|c: char| lower_char(c)) =~= ds_lower_label(i));
    } else if i == 1 {
        reveal_strlit("b");
        reveal_strlit("B");
        assert(ds_label(i).map_values(|c: char| lower_char(c)) =~= ds_lower_label(i));
    } else if i == 2 {
        reveal_strlit("x");
        reveal_strlit("X");
        assert(ds_label(i).map_values(|c: char| lower_char(c)) =~= ds_lower_label(i));
    } else if i == 3 {
        reveal_strlit("y");
        reveal_strlit("Y");
        assert(ds_label(i).map_values(|c: char| lower_char(c)) =~= ds_lower_label(i));
    } else if i == 4 {
        reveal_strlit("l");
        reveal_strlit("L");
        assert(ds_label(i).map_values(|c: char| lower_char(c)) =~= ds_lower_label(i));
    } else if i == 5 {
        reveal_strlit("r");
        reveal_strlit("R");
        assert(ds_label(i).map_values(|c: char| lower_char(c)) =~= ds_lower_label(i));
    } else if i == 6 {
        reveal_strlit("start");
        reveal_strlit("Start");
        assert(ds_label(i).map_values(|c: char| lower_char(c)) =~= ds_lower_label(i));
    } else if i == 7 {
        reveal_strlit("select");
        reveal_strlit("Select");
        assert(ds_label(i).map_values(|c: char| lower_char(c)) =~= ds_lower_label(i));
    } else if i == 8 {
        reveal_strlit("up");
        reveal_strlit("Up");
        assert(ds_label(i).map_values(|c: char| lower_char(c)) =~= ds_lower_label(i));
    } else if i == 9 {
        reveal_strlit("down");
        reveal_strlit("Down");
        assert(ds_label(i).map_values(|c: char| lower_char(c)) =~= ds_lower_label(i));
    } else if i == 10 {
        reveal_strlit("left");
        reveal_strlit("Left");
        assert(ds_label(i).map_values(|c: char| lower_char(c)) =~= ds_lower_label(i));
    } else if i == 11 {
        reveal_strlit("right");
        reveal_strlit("Right");
        assert(ds_label(i).map_values(|c: char| lower_char(c)) =~= ds_lower_label(i));
    }
}

} // verus!
