//! The display-control register: three independent on/off flags (display,
//! cursor, blink) encoded into the single control command byte
//! `0x08 | blink_bit | cursor_bit | display_bit`.

use vstd::prelude::*;

verus! {

/// Visibility of the non-blinking cursor (an underscore drawn after the
/// cursor position, where the next character will appear).
#[derive(Copy, Clone, PartialEq, Eq, Structural, Debug)]
pub enum Cursor {
    /// Display the non-blinking cursor.
    On,
    /// Hide the non-blinking cursor.
    Off,
}

/// Whether the entire LCD panel is on or off.
#[derive(Copy, Clone, PartialEq, Eq, Structural, Debug)]
pub enum LcdDisplay {
    /// Turn the LCD display on.
    On,
    /// Turn the LCD display off.
    Off,
}

/// Visibility of the blinking block cursor.
#[derive(Copy, Clone, PartialEq, Eq, Structural, Debug)]
pub enum Blink {
    /// Turn the blinking block cursor on.
    On,
    /// Turn the blinking block cursor off.
    Off,
}

impl Cursor {
    /// The bit this flag contributes to the control byte.
    pub open spec fn bit(self) -> u8 {
        if self is On {
            0x02
        } else {
            0x00
        }
    }
}

impl LcdDisplay {
    /// The bit this flag contributes to the control byte.
    pub open spec fn bit(self) -> u8 {
        if self is On {
            0x04
        } else {
            0x00
        }
    }
}

impl Blink {
    /// The bit this flag contributes to the control byte.
    pub open spec fn bit(self) -> u8 {
        if self is On {
            0x01
        } else {
            0x00
        }
    }
}

/// The three control flags of the display controller. The encoded command
/// byte is always `0x08 | blink_bit | cursor_bit | display_bit`: the fixed
/// `0x08` marks the byte as a display-control instruction.
#[derive(Copy, Clone, PartialEq, Eq, Structural, Debug)]
pub struct DisplayControl {
    /// Non-blinking cursor visibility (bit 0x02).
    pub cursor: Cursor,
    /// Whole-panel on/off state (bit 0x04).
    pub display: LcdDisplay,
    /// Blinking block-cursor visibility (bit 0x01).
    pub blink: Blink,
}

impl DisplayControl {
    /// The state with all three flags off.
    pub open spec fn spec_new() -> DisplayControl {
        DisplayControl { cursor: Cursor::Off, display: LcdDisplay::Off, blink: Blink::Off }
    }

    /// The encoded control command byte.
    pub open spec fn spec_value(&self) -> u8 {
        0x08u8 | self.blink.bit() | self.cursor.bit() | self.display.bit()
    }

    /// This state with the display flag replaced.
    pub open spec fn with_display(self, display: LcdDisplay) -> DisplayControl {
        DisplayControl { display, ..self }
    }

    /// This state with the cursor flag replaced.
    pub open spec fn with_cursor(self, cursor: Cursor) -> DisplayControl {
        DisplayControl { cursor, ..self }
    }

    /// This state with the blink flag replaced.
    pub open spec fn with_blink(self, blink: Blink) -> DisplayControl {
        DisplayControl { blink, ..self }
    }

    /// Creates the register with all flags off.
    pub fn new() -> (r: Self)
        ensures
            r == DisplayControl::spec_new(),
    {
        DisplayControl { cursor: Cursor::Off, display: LcdDisplay::Off, blink: Blink::Off }
    }

    /// Encodes the flags into the control command byte
    /// `0x08 | blink_bit | cursor_bit | display_bit`.
    pub fn value(&self) -> (r: u8)
        ensures
            r == self.spec_value(),
    {
        let blink_bit: u8 = match self.blink {
            Blink::On => 0x01,
            Blink::Off => 0x00,
        };
        let cursor_bit: u8 = match self.cursor {
            Cursor::On => 0x02,
            Cursor::Off => 0x00,
        };
        let display_bit: u8 = match self.display {
            LcdDisplay::On => 0x04,
            LcdDisplay::Off => 0x00,
        };
        0x08 | blink_bit | cursor_bit | display_bit
    }
}

/// Law: for every combination of the three flags, the encoded control byte
/// `0x08 | blink_bit | cursor_bit | display_bit` equals the plain sum of the
/// base marker and the three bits — the flags occupy disjoint bit positions,
/// so each combination has its own value (cursor and display on, blink off,
/// gives `0x08 + 0x04 + 0x02 = 0x0E`).
pub proof fn lemma_value_encoding(c: DisplayControl)
    ensures
        c.spec_value() == 0x08 + c.blink.bit() + c.cursor.bit() + c.display.bit(),
{
    let b = c.blink.bit();
    let cu = c.cursor.bit();
    let d = c.display.bit();
    assert(0x08u8 | b | cu | d == 8 + b + cu + d) by (bit_vector)
        requires
            b == 0 || b == 1,
            cu == 0 || cu == 2,
            d == 0 || d == 4,
    ;
}

/// Law: setting the display flag is idempotent. Applying the same flag value
/// twice yields the same register state, and hence the same control command
/// byte, as applying it once — so two successive identical flag changes
/// transmit two identical control commands.
pub proof fn lemma_set_display_idempotent(c: DisplayControl, display: LcdDisplay)
    ensures
        c.with_display(display).with_display(display) == c.with_display(display),
        c.with_display(display).with_display(display).spec_value() == c.with_display(
            display,
        ).spec_value(),
{
}

/// Law: toggling the cursor flag on and back off restores the register —
/// and thus the control command byte — to its prior value, leaving the
/// display and blink flags untouched throughout.
pub proof fn lemma_cursor_toggle_round_trip(c: DisplayControl)
    requires
        c.cursor is Off,
    ensures
        c.with_cursor(Cursor::On).with_cursor(Cursor::Off) == c,
        c.with_cursor(Cursor::On).display == c.display,
        c.with_cursor(Cursor::On).blink == c.blink,
{
}

} // verus!
