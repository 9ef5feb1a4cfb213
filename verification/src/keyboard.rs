//! Keyboard scancode decoding: a state machine over the modifier keys
//! (shift, control, alt, caps-lock) and a fixed three-row layout table
//! translating raw scancodes into ASCII.
//!
//! Reading the scancode byte from the keyboard's I/O port is hardware
//! work and happens outside this crate; the functions here take the
//! scancode as an argument.

use vstd::prelude::*;

verus! {

/// A pair of keys which appear on both the left and the right side of
/// the keyboard, such as left shift and right shift.
#[derive(Clone, Copy, Debug, PartialEq, Eq, Structural)]
pub struct KeyPair {
    pub left: bool,
    pub right: bool,
}

impl KeyPair {
    /// Neither side pressed.
    pub fn new() -> (r: Self)
        ensures
            !r.left,
            !r.right,
    {
        KeyPair { left: false, right: false }
    }

    /// Whether either side of the pair is currently held down.
    pub fn is_pressed(&self) -> (r: bool)
        ensures
            r == (self.left || self.right),
    {
        self.left || self.right
    }
}

/// All supported keyboard modifiers.  Mutated only by [`Modifiers::update`]
/// on each scancode; persists across all keystrokes.
#[derive(Clone, Copy, Debug, PartialEq, Eq, Structural)]
pub struct Modifiers {
    pub shift: KeyPair,
    pub control: KeyPair,
    pub alt: KeyPair,
    pub caps_lock: bool,
}

/// The shifted counterpart of a non-letter symbol key, or the symbol
/// itself where shift does not change it.
pub open spec fn shifted_symbol(ascii: u8) -> u8 {
    match ascii {
        49u8 => 33u8,
        50u8 => 64u8,
        51u8 => 35u8,
        52u8 => 36u8,
        53u8 => 37u8,
        54u8 => 94u8,
        55u8 => 38u8,
        56u8 => 42u8,
        57u8 => 40u8,
        48u8 => 41u8,
        45u8 => 95u8,
        61u8 => 43u8,
        44u8 => 60u8,
        46u8 => 62u8,
        47u8 => 63u8,
        91u8 => 123u8,
        93u8 => 125u8,
        59u8 => 58u8,
        39u8 => 34u8,
        _ => ascii,
    }
}

impl Modifiers {
    /// Whether either shift key is held.
    pub open spec fn shift_pressed(&self) -> bool {
        self.shift.left || self.shift.right
    }

    /// Whether letters are to be uppercased: shift XOR caps-lock.
    pub open spec fn uppercase(&self) -> bool {
        self.shift_pressed() != self.caps_lock
    }

    /// What [`Modifiers::apply_to`] returns: letters are uppercased when
    /// shift XOR caps-lock holds; non-letter keys are replaced by their
    /// shifted counterpart only while shift is held (caps-lock does not
    /// affect them); everything else passes through unchanged.
    pub open spec fn spec_apply_to(&self, ascii: u8) -> u8 {
        if 97u8 <= ascii && ascii <= 122u8 {
            if self.uppercase() {
                (ascii - 97u8 + 65u8) as u8
            } else {
                ascii
            }
        } else if self.shift_pressed() {
            shifted_symbol(ascii)
        } else {
            ascii
        }
    }

    /// The modifier state after seeing one scancode: make codes set the
    /// corresponding key, break codes (make + 0x80) clear it, the
    /// caps-lock make code toggles the lock, and every other scancode
    /// leaves the state unchanged.
    pub open spec fn spec_update(&self, scancode: u8) -> Modifiers {
        match scancode {
            0x1D => Modifiers { control: KeyPair { left: true, ..self.control }, ..*self },
            0x2A => Modifiers { shift: KeyPair { left: true, ..self.shift }, ..*self },
            0x36 => Modifiers { shift: KeyPair { right: true, ..self.shift }, ..*self },
            0x38 => Modifiers { alt: KeyPair { left: true, ..self.alt }, ..*self },
            0x3A => Modifiers { caps_lock: !self.caps_lock, ..*self },
            0x9D => Modifiers { control: KeyPair { left: false, ..self.control }, ..*self },
            0xAA => Modifiers { shift: KeyPair { left: false, ..self.shift }, ..*self },
            0xB6 => Modifiers { shift: KeyPair { right: false, ..self.shift }, ..*self },
            0xB8 => Modifiers { alt: KeyPair { left: false, ..self.alt }, ..*self },
            _ => *self,
        }
    }

    /// All modifiers released, caps-lock off.
    pub fn new() -> (r: Self)
        ensures
            !r.shift.left,
            !r.shift.right,
            !r.control.left,
            !r.control.right,
            !r.alt.left,
            !r.alt.right,
            !r.caps_lock,
    {
        Modifiers {
            shift: KeyPair::new(),
            control: KeyPair::new(),
            alt: KeyPair::new(),
            caps_lock: false,
        }
    }

    /// Whether letters should be converted to uppercase under the current
    /// modifiers: shift XOR caps-lock.
    pub fn use_uppercase_letters(&self) -> (r: bool)
        ensures
            r == self.uppercase(),
    {
        self.shift.is_pressed() != self.caps_lock
    }

    /// Apply the current modifiers to an ASCII value from the layout table.
    pub fn apply_to(&self, ascii: u8) -> (r: u8)
        ensures
            r == self.spec_apply_to(ascii),
    {
        if 97u8 <= ascii && ascii <= 122u8 {
            if self.use_uppercase_letters() {
                return ascii - 97u8 + 65u8;
            }
        } else {
            if self.shift.is_pressed() {
                match ascii {
                    49u8 => return 33u8,
                    50u8 => return 64u8,
                    51u8 => return 35u8,
                    52u8 => return 36u8,
                    53u8 => return 37u8,
                    54u8 => return 94u8,
                    55u8 => return 38u8,
                    56u8 => return 42u8,
                    57u8 => return 40u8,
                    48u8 => return 41u8,
                    45u8 => return 95u8,
                    61u8 => return 43u8,
                    44u8 => return 60u8,
                    46u8 => return 62u8,
                    47u8 => return 63u8,
                    91u8 => return 123u8,
                    93u8 => return 125u8,
                    59u8 => return 58u8,
                    39u8 => return 34u8,
                    _ => {}
                }
            } else {
                return ascii;
            }
        }

        ascii
    }

    /// Update the modifier state for one scancode.
    pub fn update(&mut self, scancode: u8)
        ensures
            *final(self) == old(self).spec_update(scancode),
    {
        match scancode {
            0x1D => self.control.left = true,
            0x2A => self.shift.left = true,
            0x36 => self.shift.right = true,
            0x38 => self.alt.left = true,
            // Caps lock toggles on its make code only (leading edge).
            0x3A => self.caps_lock = !self.caps_lock,
            0x9D => self.control.left = false,
            0xAA => self.shift.left = false,
            0xB6 => self.shift.right = false,
            0xB8 => self.alt.left = false,
            _ => {}
        }
    }
}

/// The base ASCII value of a scancode under the fixed three-row layout
/// table (number row, qwerty row, home row, bottom row, plus space), or
/// none for a scancode the table does not recognize.  Scancode 0x0E maps
/// to the explicit placeholder 0x00 rather than a printable character.
pub open spec fn ascii_for(scancode: u8) -> Option<u8> {
    match scancode {
        0x01 => Some(0x1B),
        0x02 => Some(49u8),
        0x03 => Some(50u8),
        0x04 => Some(51u8),
        0x05 => Some(52u8),
        0x06 => Some(53u8),
        0x07 => Some(54u8),
        0x08 => Some(55u8),
        0x09 => Some(56u8),
        0x0A => Some(57u8),
        0x0B => Some(48u8),
        0x0C => Some(45u8),
        0x0D => Some(61u8),
        0x0E => Some(0x00),
        0x0F => Some(9u8),
        0x10 => Some(113u8),
        0x11 => Some(119u8),
        0x12 => Some(101u8),
        0x13 => Some(114u8),
        0x14 => Some(116u8),
        0x15 => Some(121u8),
        0x16 => Some(117u8),
        0x17 => Some(105u8),
        0x18 => Some(111u8),
        0x19 => Some(112u8),
        0x1A => Some(91u8),
        0x1B => Some(93u8),
        0x1C => Some(13u8),
        0x1E => Some(97u8),
        0x1F => Some(115u8),
        0x20 => Some(100u8),
        0x21 => Some(102u8),
        0x22 => Some(103u8),
        0x23 => Some(104u8),
        0x24 => Some(106u8),
        0x25 => Some(107u8),
        0x26 => Some(108u8),
        0x27 => Some(59u8),
        0x28 => Some(39u8),
        0x2C => Some(122u8),
        0x2D => Some(120u8),
        0x2E => Some(99u8),
        0x2F => Some(118u8),
        0x30 => Some(98u8),
        0x31 => Some(110u8),
        0x32 => Some(109u8),
        0x33 => Some(44u8),
        0x34 => Some(46u8),
        0x35 => Some(47u8),
        0x39 => Some(32u8),
        _ => None,
    }
}

/// Convert a scancode to its base ASCII value, if the layout table has one.
pub fn find_asii(scancode: u8) -> (r: Option<u8>)
    ensures
        r == ascii_for(scancode),
{
    match scancode {
        0x01 => Some(0x1B),
        0x02 => Some(49u8),
        0x03 => Some(50u8),
        0x04 => Some(51u8),
        0x05 => Some(52u8),
        0x06 => Some(53u8),
        0x07 => Some(54u8),
        0x08 => Some(55u8),
        0x09 => Some(56u8),
        0x0A => Some(57u8),
        0x0B => Some(48u8),
        0x0C => Some(45u8),
        0x0D => Some(61u8),
        0x0E => Some(0x00),
        0x0F => Some(9u8),
        0x10 => Some(113u8),
        0x11 => Some(119u8),
        0x12 => Some(101u8),
        0x13 => Some(114u8),
        0x14 => Some(116u8),
        0x15 => Some(121u8),
        0x16 => Some(117u8),
        0x17 => Some(105u8),
        0x18 => Some(111u8),
        0x19 => Some(112u8),
        0x1A => Some(91u8),
        0x1B => Some(93u8),
        0x1C => Some(13u8),
        0x1E => Some(97u8),
        0x1F => Some(115u8),
        0x20 => Some(100u8),
        0x21 => Some(102u8),
        0x22 => Some(103u8),
        0x23 => Some(104u8),
        0x24 => Some(106u8),
        0x25 => Some(107u8),
        0x26 => Some(108u8),
        0x27 => Some(59u8),
        0x28 => Some(39u8),
        0x2C => Some(122u8),
        0x2D => Some(120u8),
        0x2E => Some(99u8),
        0x2F => Some(118u8),
        0x30 => Some(98u8),
        0x31 => Some(110u8),
        0x32 => Some(109u8),
        0x33 => Some(44u8),
        0x34 => Some(46u8),
        0x35 => Some(47u8),
        0x39 => Some(32u8),
        _ => None,
    }
}

/// Decode one scancode read from the keyboard: update the modifier state,
/// then translate the scancode through the layout table and the updated
/// modifiers.  Unrecognized scancodes (including all break codes of
/// character keys) yield no character.
pub fn read_char(modifiers: &mut Modifiers, scancode: u8) -> (r: Option<char>)
    ensures
        *final(modifiers) == old(modifiers).spec_update(scancode),
        r == match ascii_for(scancode) {
            Some(ascii) => Some(final(modifiers).spec_apply_to(ascii) as char),
            None => None::<char>,
        },
{
    modifiers.update(scancode);

    if let Some(ascii) = find_asii(scancode) {
        Some(modifiers.apply_to(ascii) as char)
    } else {
        None
    }
}

/// Pressing and then releasing left shift leaves the other shift key as
/// it was; from a state where right shift is not held, `shift_pressed`
/// is false again afterwards.
pub proof fn lemma_shift_press_release(m: Modifiers)
    requires
        !m.shift.right,
    ensures
        !m.spec_update(0x2A).spec_update(0xAA).shift_pressed(),
{
}

/// Pressing caps-lock twice returns the caps-lock state to its original
/// value, whatever else is held.
pub proof fn lemma_caps_lock_twice(m: Modifiers)
    ensures
        m.spec_update(0x3A).spec_update(0x3A).caps_lock == m.caps_lock,
        m.spec_update(0x3A).spec_update(0x3A) == m,
{
}

/// Uppercasing is shift XOR caps-lock, over every combination of the two:
/// in particular, pressing caps-lock while shift is held turns
/// uppercasing off again.
pub proof fn lemma_shift_xor_caps_lock(m: Modifiers)
    ensures
        m.uppercase() == (m.shift_pressed() != m.caps_lock),
        m.spec_update(0x3A).uppercase() == (m.shift_pressed() != !m.caps_lock),
        m.shift_pressed() && !m.caps_lock ==> !m.spec_update(0x3A).uppercase(),
{
}

} // verus!

