//! The joypad: which buttons are held, as the CPU sees them through 0xFF00,
//! and the table that maps key names to buttons.

use vstd::prelude::*;

use crate::platform::{all_ascii, ascii_lowercase, lowercased, to_lowercase};

verus! {

/// A button of the Game Boy.
#[derive(Clone, Copy, Debug, PartialEq, Eq, Hash, Structural)]
pub enum JoypadButton {
    Right,
    Left,
    Up,
    Down,
    A,
    B,
    Select,
    Start,
}

/// The bit of a button in the packed joypad byte: the d-pad in bits 0-3
/// (Right, Left, Up, Down), the buttons in bits 4-7 (A, B, Select, Start).
pub open spec fn spec_button_bit(button: JoypadButton) -> u8 {
    match button {
        JoypadButton::Right => 0,
        JoypadButton::Left => 1,
        JoypadButton::Up => 2,
        JoypadButton::Down => 3,
        JoypadButton::A => 4,
        JoypadButton::B => 5,
        JoypadButton::Select => 6,
        JoypadButton::Start => 7,
    }
}

pub fn button_bit(button: JoypadButton) -> (bit: u8)
    ensures
        bit == spec_button_bit(button),
        bit < 8,
{
    match button {
        JoypadButton::Right => 0,
        JoypadButton::Left => 1,
        JoypadButton::Up => 2,
        JoypadButton::Down => 3,
        JoypadButton::A => 4,
        JoypadButton::B => 5,
        JoypadButton::Select => 6,
        JoypadButton::Start => 7,
    }
}

/// What 0xFF00 reads for the packed state `packed` and the select bits
/// written to it: bits 6-7 set, bits 4-5 the select bits, and in bits 0-3 the
/// AND of the groups whose select bit is low (bit 4 low selects the d-pad,
/// bit 5 low the buttons); a low bit means pressed.
pub open spec fn spec_joypad_read(packed: u8, select: u8) -> u8 {
    let dpad = packed & 0x0f;
    let buttons = (packed >> 4) & 0x0f;
    let with_dpad: u8 = if select & 0x10 == 0 { 0x0f & dpad } else { 0x0f };
    let lines: u8 = if select & 0x20 == 0 { with_dpad & buttons } else { with_dpad };
    0xc0 | (select & 0x30) | lines
}

/// The held buttons, one bit per button, a clear bit meaning pressed.
#[derive(Clone, Copy, Debug)]
pub struct JoypadState {
    pub packed: u8,
}

impl JoypadState {
    /// No button pressed.
    pub fn new() -> (state: Self)
        ensures
            state.packed == 0xff,
    {
        JoypadState { packed: 0xff }
    }

    /// Whether `button` is held.
    pub open spec fn is_pressed(&self, button: JoypadButton) -> bool {
        self.packed & (1u8 << spec_button_bit(button)) == 0
    }

    pub fn press(&mut self, button: JoypadButton)
        ensures
            final(self).packed == old(self).packed & !(1u8 << spec_button_bit(button)),
    {
        let bit = button_bit(button);
        self.packed = self.packed & !(1u8 << bit);
    }

    pub fn release(&mut self, button: JoypadButton)
        ensures
            final(self).packed == old(self).packed | (1u8 << spec_button_bit(button)),
    {
        let bit = button_bit(button);
        self.packed = self.packed | (1u8 << bit);
    }

    /// The byte the CPU reads from 0xFF00 after `select` was written there.
    pub fn read(&self, select: u8) -> (value: u8)
        ensures
            value == spec_joypad_read(self.packed, select),
    {
        let packed = self.packed;
        let dpad = packed & 0x0f;
        let buttons = (packed >> 4) & 0x0f;
        let mut result: u8 = 0x0f;
        if select & 0x10 == 0 {
            result = result & dpad;
        }
        if select & 0x20 == 0 {
            result = result & buttons;
        }
        0xc0 | (select & 0x30) | result
    }

    /// Whether a button of a selected group is held.
    pub fn any_pressed(&self, select: u8) -> (pressed: bool)
        ensures
            pressed == (spec_joypad_read(self.packed, select) & 0x0f != 0x0f),
    {
        let value = self.read(select);
        value & 0x0f != 0x0f
    }
}

impl Default for JoypadState {
    fn default() -> (state: Self)
        ensures
            state.packed == 0xff,
    {
        JoypadState::new()
    }
}

/// A pressed button is seen as held, and releasing it again restores the
/// state it had while the button was up; other buttons are not touched.
pub proof fn lemma_press_release(packed: u8, button: JoypadButton, other: JoypadButton)
    requires
        packed & (1u8 << spec_button_bit(button)) != 0,
    ensures
        (JoypadState { packed: packed & !(1u8 << spec_button_bit(button)) }).is_pressed(button),
        (packed & !(1u8 << spec_button_bit(button))) | (1u8 << spec_button_bit(button)) == packed,
        other != button ==> ((JoypadState {
            packed: packed & !(1u8 << spec_button_bit(button)),
        }).is_pressed(other) == (JoypadState { packed }).is_pressed(other)),
{
    let b = spec_button_bit(button);
    let o = spec_button_bit(other);
    assert(b < 8 && o < 8);
    assert(packed & (1u8 << b) != 0 ==> (packed & !(1u8 << b)) & (1u8 << b) == 0) by (bit_vector)
        requires
            b < 8,
    ;
    assert(packed & (1u8 << b) != 0 ==> (packed & !(1u8 << b)) | (1u8 << b) == packed)
        by (bit_vector)
        requires
            b < 8,
    ;
    assert(o != b ==> ((packed & !(1u8 << b)) & (1u8 << o) == 0) == (packed & (1u8 << o) == 0))
        by (bit_vector)
        requires
            b < 8,
            o < 8,
    ;
    assert(other != button ==> o != b);
}

/// A pressed button shows as a low line at 0xFF00 whenever its group is
/// selected: the d-pad with select bit 4 low, the buttons with bit 5 low.
pub proof fn lemma_pressed_button_reads_low(packed: u8, button: JoypadButton, select: u8)
    requires
        (JoypadState { packed }).is_pressed(button),
        spec_button_bit(button) < 4 ==> select & 0x10 == 0,
        spec_button_bit(button) >= 4 ==> select & 0x20 == 0,
    ensures
        spec_joypad_read(packed, select) & (1u8 << (spec_button_bit(button) % 4)) == 0,
{
    let b = spec_button_bit(button);
    assert(b < 8);
    assert(packed & (1u8 << b) == 0 && b < 4 && select & 0x10 == 0 ==> ({
        let dpad = packed & 0x0f;
        let buttons = (packed >> 4) & 0x0f;
        let with_dpad: u8 = if select & 0x10 == 0 { 0x0f & dpad } else { 0x0f };
        let lines: u8 = if select & 0x20 == 0 { with_dpad & buttons } else { with_dpad };
        (0xc0 | (select & 0x30) | lines) & (1u8 << (b % 4)) == 0
    })) by (bit_vector);
    assert(packed & (1u8 << b) == 0 && 4 <= b < 8 && select & 0x20 == 0 ==> ({
        let dpad = packed & 0x0f;
        let buttons = (packed >> 4) & 0x0f;
        let with_dpad: u8 = if select & 0x10 == 0 { 0x0f & dpad } else { 0x0f };
        let lines: u8 = if select & 0x20 == 0 { with_dpad & buttons } else { with_dpad };
        (0xc0 | (select & 0x30) | lines) & (1u8 << (b % 4)) == 0
    })) by (bit_vector);
}

/// The button bound to `key` in `entries`: the last entry for that key wins.
pub open spec fn binding_of(entries: Seq<(Seq<char>, JoypadButton)>, key: Seq<char>) -> Option<
    JoypadButton,
>
    decreases entries.len(),
{
    if entries.len() == 0 {
        None
    } else if entries.last().0 == key {
        Some(entries.last().1)
    } else {
        binding_of(entries.drop_last(), key)
    }
}

/// Key names (lower case) and the buttons they stand for.
#[derive(Clone, Debug)]
pub struct Keybindings {
    entries: Vec<(String, JoypadButton)>,
}

impl Keybindings {
    /// The entries, key names by their characters, in insertion order.
    pub closed spec fn entries(&self) -> Seq<(Seq<char>, JoypadButton)> {
        self.entries@.map_values(|e: (String, JoypadButton)| (e.0@, e.1))
    }

    /// The table of `pairs`, each key taken in lower case; where two keys
    /// agree, the later pair wins.
    pub fn from_pairs(pairs: Vec<(String, JoypadButton)>) -> (bindings: Self)
        ensures
            bindings.entries().len() == pairs@.len(),
            forall|i: int|
                0 <= i < pairs@.len() ==> #[trigger] bindings.entries()[i] == (
                lowercased(pairs@[i].0@),
                pairs@[i].1,
            ),
            forall|i: int|
                0 <= i < pairs@.len() && all_ascii(pairs@[i].0@) ==> #[trigger] bindings.entries()[i].0
                    == ascii_lowercase(pairs@[i].0@),
    {
        let mut entries: Vec<(String, JoypadButton)> = Vec::new();
        let mut i: usize = 0;
        while i < pairs.len()
            invariant
                i <= pairs@.len(),
                entries@.len() == i,
                forall|j: int|
                    0 <= j < i ==> #[trigger] entries@[j].0@ == lowercased(pairs@[j].0@)
                        && entries@[j].1 == pairs@[j].1 && (all_ascii(pairs@[j].0@) ==> entries@[j].0@
                        == ascii_lowercase(pairs@[j].0@)),
            decreases pairs@.len() - i,
        {
            let key = to_lowercase(pairs[i].0.as_str());
            entries.push((key, pairs[i].1));
            i = i + 1;
        }
        let bindings = Keybindings { entries };
        assert forall|j: int| 0 <= j < pairs@.len() implies #[trigger] bindings.entries()[j] == (
            lowercased(pairs@[j].0@),
            pairs@[j].1,
        ) by {}
        bindings
    }

    /// The button bound to `key_name`, compared without regard to case.
    pub fn lookup(&self, key_name: &str) -> (button: Option<JoypadButton>)
        ensures
            button == binding_of(self.entries(), lowercased(key_name@)),
            all_ascii(key_name@) ==> button == binding_of(self.entries(), ascii_lowercase(key_name@)),
    {
        let key = to_lowercase(key_name);
        let mut i: usize = self.entries.len();
        assert(self.entries().take(i as int) =~= self.entries());
        while i > 0
            invariant
                i <= self.entries@.len(),
                key@ == lowercased(key_name@),
                all_ascii(key_name@) ==> key@ == ascii_lowercase(key_name@),
                binding_of(self.entries(), key@) == binding_of(self.entries().take(i as int), key@),
            decreases i,
        {
            let ghost prefix = self.entries().take(i as int);
            assert(prefix.drop_last() == self.entries().take(i - 1));
            if self.entries[i - 1].0 == key {
                return Some(self.entries[i - 1].1);
            }
            i = i - 1;
        }
        assert(self.entries().take(0).len() == 0);
        None
    }

    /// The built-in table: the arrow keys for the d-pad, Z for A, X for B,
    /// Backspace for Select and Return for Start.
    pub fn default() -> (bindings: Self)
        ensures
            bindings.entries() == seq![
                ("right"@, JoypadButton::Right),
                ("left"@, JoypadButton::Left),
                ("up"@, JoypadButton::Up),
                ("down"@, JoypadButton::Down),
                ("z"@, JoypadButton::A),
                ("x"@, JoypadButton::B),
                ("backspace"@, JoypadButton::Select),
                ("return"@, JoypadButton::Start),
            ],
    {
        let mut entries: Vec<(String, JoypadButton)> = Vec::new();
        entries.push(("right".to_owned(), JoypadButton::Right));
        entries.push(("left".to_owned(), JoypadButton::Left));
        entries.push(("up".to_owned(), JoypadButton::Up));
        entries.push(("down".to_owned(), JoypadButton::Down));
        entries.push(("z".to_owned(), JoypadButton::A));
        entries.push(("x".to_owned(), JoypadButton::B));
        entries.push(("backspace".to_owned(), JoypadButton::Select));
        entries.push(("return".to_owned(), JoypadButton::Start));
        let bindings = Keybindings { entries };
        assert(bindings.entries() =~= seq![
            ("right"@, JoypadButton::Right),
            ("left"@, JoypadButton::Left),
            ("up"@, JoypadButton::Up),
            ("down"@, JoypadButton::Down),
            ("z"@, JoypadButton::A),
            ("x"@, JoypadButton::B),
            ("backspace"@, JoypadButton::Select),
            ("return"@, JoypadButton::Start),
        ]);
        bindings
    }
}

} // verus!
