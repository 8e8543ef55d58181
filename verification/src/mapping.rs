//! Mapping of DS buttons onto the buttons of a virtual Xbox 360 pad.

use vstd::prelude::*;
use crate::protocol::{Buttons, ControllerState};

verus! {

/// What the virtual pad should show.
#[derive(Clone, Copy, Debug, PartialEq, Eq, Structural)]
pub struct ControllerOutputState {
    pub buttons: XboxButtons,
}

/// The set of pressed Xbox buttons, in the bit layout of XInput.
#[derive(Clone, Copy, Debug, PartialEq, Eq, Structural)]
pub struct XboxButtons(u16);

impl View for XboxButtons {
    type V = u16;

    closed spec fn view(&self) -> u16 {
        self.0
    }
}

/// Xbox button sets with the same bits are the same set.
pub broadcast proof fn lemma_xbox_buttons_view_injective(a: XboxButtons, b: XboxButtons)
    ensures
        #[trigger] a@ == #[trigger] b@ ==> a == b,
{
}

/// Facts about Xbox button sets that other modules reason with.
pub broadcast group group_xbox_buttons {
    lemma_xbox_buttons_view_injective,
}

impl XboxButtons {
    /// Bit of each Xbox button.
    pub const DPAD_UP: u16 = 1;
    pub const DPAD_DOWN: u16 = 2;
    pub const DPAD_LEFT: u16 = 4;
    pub const DPAD_RIGHT: u16 = 8;
    pub const START: u16 = 16;
    pub const BACK: u16 = 32;
    pub const LEFT_BUMPER: u16 = 256;
    pub const RIGHT_BUMPER: u16 = 512;
    pub const A: u16 = 4096;
    pub const B: u16 = 8192;
    pub const X: u16 = 16384;
    pub const Y: u16 = 32768;

    /// The button set with exactly the bits `bits`.
    pub fn from_bits(bits: u16) -> (b: XboxButtons)
        ensures
            b@ == bits,
    {
        XboxButtons(bits)
    }

    /// The raw button bits, as XInput reports them.
    pub fn bits(self) -> (r: u16)
        ensures
            r == self@,
    {
        self.0
    }

    fn insert(&mut self, button: u16)
        ensures
            final(self)@ == old(self)@ | button,
    {
        self.0 = self.0 | button;
    }

    /// Whether any of the buttons whose bits are in `button` is pressed.
    pub fn contains(self, button: u16) -> (r: bool)
        ensures
            r == (self@ & button != 0),
    {
        self.0 & button != 0
    }
}

impl Default for XboxButtons {
    /// The empty button set.
    fn default() -> (b: XboxButtons)
        ensures
            b@ == 0,
    {
        XboxButtons(0)
    }
}

/// The neutral output: no button pressed.
pub closed spec fn neutral_output() -> ControllerOutputState {
    ControllerOutputState { buttons: XboxButtons(0) }
}

impl Default for ControllerOutputState {
    /// The neutral output: no button pressed.
    fn default() -> (s: ControllerOutputState)
        ensures
            s == neutral_output(),
            s.buttons@ == 0,
    {
        ControllerOutputState { buttons: XboxButtons(0) }
    }
}

/// `xbox` when the DS button `ds` is pressed in `ds_bits`, else nothing.
pub open spec fn mapped_bit(ds_bits: u16, ds: u16, xbox: u16) -> u16 {
    if ds_bits & ds != 0 {
        xbox
    } else {
        0
    }
}

/// The Xbox bits of the DS bits `d`: each DS button lights its Xbox
/// counterpart, and nothing else is lit.
pub open spec fn xbox_bits_spec(d: u16) -> u16 {
    0u16 | mapped_bit(d, Buttons::A, XboxButtons::A) | mapped_bit(d, Buttons::B, XboxButtons::B)
        | mapped_bit(d, Buttons::X, XboxButtons::X) | mapped_bit(d, Buttons::Y, XboxButtons::Y)
        | mapped_bit(d, Buttons::L, XboxButtons::LEFT_BUMPER) | mapped_bit(
        d,
        Buttons::R,
        XboxButtons::RIGHT_BUMPER,
    ) | mapped_bit(d, Buttons::START, XboxButtons::START) | mapped_bit(
        d,
        Buttons::SELECT,
        XboxButtons::BACK,
    ) | mapped_bit(d, Buttons::DPAD_UP, XboxButtons::DPAD_UP) | mapped_bit(
        d,
        Buttons::DPAD_DOWN,
        XboxButtons::DPAD_DOWN,
    ) | mapped_bit(d, Buttons::DPAD_LEFT, XboxButtons::DPAD_LEFT) | mapped_bit(
        d,
        Buttons::DPAD_RIGHT,
        XboxButtons::DPAD_RIGHT,
    )
}

fn map_button(buttons: &mut XboxButtons, ds_buttons: Buttons, ds: u16, xbox: u16)
    ensures
        final(buttons)@ == old(buttons)@ | mapped_bit(ds_buttons@, ds, xbox),
{
    if ds_buttons.contains(ds) {
        buttons.insert(xbox);
    } else {
        let ghost v: u16 = buttons@;
        assert(v | 0u16 == v) by (bit_vector);
    }
}

/// The pad output for a DS state.
pub fn map_ds_to_xbox(state: ControllerState) -> (out: ControllerOutputState)
    ensures
        out.buttons@ == xbox_bits_spec(state.buttons@),
{
    let mut buttons = XboxButtons(0);
    let b = state.buttons;
    map_button(&mut buttons, b, Buttons::A, XboxButtons::A);
    map_button(&mut buttons, b, Buttons::B, XboxButtons::B);
    map_button(&mut buttons, b, Buttons::X, XboxButtons::X);
    map_button(&mut buttons, b, Buttons::Y, XboxButtons::Y);
    map_button(&mut buttons, b, Buttons::L, XboxButtons::LEFT_BUMPER);
    map_button(&mut buttons, b, Buttons::R, XboxButtons::RIGHT_BUMPER);
    map_button(&mut buttons, b, Buttons::START, XboxButtons::START);
    map_button(&mut buttons, b, Buttons::SELECT, XboxButtons::BACK);
    map_button(&mut buttons, b, Buttons::DPAD_UP, XboxButtons::DPAD_UP);
    map_button(&mut buttons, b, Buttons::DPAD_DOWN, XboxButtons::DPAD_DOWN);
    map_button(&mut buttons, b, Buttons::DPAD_LEFT, XboxButtons::DPAD_LEFT);
    map_button(&mut buttons, b, Buttons::DPAD_RIGHT, XboxButtons::DPAD_RIGHT);
    ControllerOutputState { buttons }
}

/// Bits of all Xbox buttons that the DS can light.
pub const MAPPED_XBOX_MASK: u16 = 0xf33f;

/// Each DS button is pressed exactly when its Xbox counterpart is lit in
/// the mapped output.
pub proof fn lemma_each_button_maps_to_its_counterpart(d: u16)
    by (bit_vector)
    ensures
        (xbox_bits_spec(d) & XboxButtons::A != 0) == (d & Buttons::A != 0),
        (xbox_bits_spec(d) & XboxButtons::B != 0) == (d & Buttons::B != 0),
        (xbox_bits_spec(d) & XboxButtons::X != 0) == (d & Buttons::X != 0),
        (xbox_bits_spec(d) & XboxButtons::Y != 0) == (d & Buttons::Y != 0),
        (xbox_bits_spec(d) & XboxButtons::LEFT_BUMPER != 0) == (d & Buttons::L != 0),
        (xbox_bits_spec(d) & XboxButtons::RIGHT_BUMPER != 0) == (d & Buttons::R != 0),
        (xbox_bits_spec(d) & XboxButtons::START != 0) == (d & Buttons::START != 0),
        (xbox_bits_spec(d) & XboxButtons::BACK != 0) == (d & Buttons::SELECT != 0),
        (xbox_bits_spec(d) & XboxButtons::DPAD_UP != 0) == (d & Buttons::DPAD_UP != 0),
        (xbox_bits_spec(d) & XboxButtons::DPAD_DOWN != 0) == (d & Buttons::DPAD_DOWN != 0),
        (xbox_bits_spec(d) & XboxButtons::DPAD_LEFT != 0) == (d & Buttons::DPAD_LEFT != 0),
        (xbox_bits_spec(d) & XboxButtons::DPAD_RIGHT != 0) == (d & Buttons::DPAD_RIGHT != 0),
{
}

/// The mapped output lights no Xbox button that has no DS counterpart,
/// and the neutral DS state maps to the neutral output.
pub proof fn lemma_mapping_adds_no_other_button(d: u16)
    by (bit_vector)
    ensures
        xbox_bits_spec(d) & !MAPPED_XBOX_MASK == 0,
        xbox_bits_spec(0) == 0,
{
}

} // verus!
