//! Driver for 16x2 character LCD modules with an RGB backlight, spoken to
//! over I2C: an HD44780-compatible display controller plus a
//! PCA9633-compatible LED driver, each at its own 7-bit bus address.
//!
//! The driver turns every public operation into two-byte frames on the bus:
//! `[0x80, command]` and `[0x40, character]` to the display address, and
//! `[register, value]` to the backlight address. Each operation's contract
//! states exactly which frames it appends to the bus history.

mod bus;
mod display_control;
mod mock_bus;

pub use bus::{Delay, Frame, I2cBus};
pub use display_control::{
    lemma_cursor_toggle_round_trip, lemma_set_display_idempotent, lemma_value_encoding, Blink,
    Cursor, DisplayControl, LcdDisplay,
};
pub use mock_bus::{BusFault, NoopDelay, RecordingBus};

use vstd::prelude::*;

verus! {

// Selector bytes: the first byte of a display frame marks the second as a
// command or as character data.
const COMMAND_SELECT: u8 = 0x80;

const DATA_SELECT: u8 = 0x40;

const LCD_FUNCTIONSET: u8 = 0x20;

const LCD_4BITMODE: u8 = 0x00;

const LCD_2LINE: u8 = 0x08;

const LCD_5X8DOTS: u8 = 0x00;

const LCD_CLEARDISPLAY: u8 = 0x01;

const LCD_ENTRYMODESET: u8 = 0x04;

const LCD_ENTRYLEFT: u8 = 0x02;

const LCD_ENTRYSHIFTDECREMENT: u8 = 0x00;

const REG_MODE1: u8 = 0x00;

const REG_MODE2: u8 = 0x01;

const REG_OUTPUT: u8 = 0x08;

const REG_RED: u8 = 0x04;

const REG_GREEN: u8 = 0x03;

const REG_BLUE: u8 = 0x02;

/// A command frame on the display address: `[0x80, command]`.
pub open spec fn cmd_frame(address: u8, command: u8) -> Frame {
    (address, seq![0x80u8, command])
}

/// A character-data frame on the display address: `[0x40, code]`.
pub open spec fn data_frame(address: u8, code: u8) -> Frame {
    (address, seq![0x40u8, code])
}

/// A register write on the backlight address: `[register, value]`.
pub open spec fn reg_frame(rgb_address: u8, register: u8, value: u8) -> Frame {
    (rgb_address, seq![register, value])
}

/// The byte a character is sent as: its code point truncated to a byte.
/// Codes outside the controller's character ROM pass through unchecked.
pub open spec fn char_code(c: char) -> u8 {
    ((c as u32) % 256) as u8
}

/// The command byte that moves the cursor to column `x` of row `y`: row 0
/// starts at DDRAM address `0x80`, row 1 at `0xC0` (the second line's DDRAM
/// segment lies `0x40` above the first). Columns are passed through
/// unchecked.
pub open spec fn cursor_position_command(x: u8, y: u8) -> u8 {
    if y == 0 {
        x | 0x80
    } else {
        x | 0xC0
    }
}

/// The data frames a string is rendered as: one per character, in order.
pub open spec fn data_frames(address: u8, s: Seq<char>) -> Seq<Frame> {
    s.map_values(|c: char| data_frame(address, char_code(c)))
}

/// The exact frame sequence of power-on initialization: the function-set
/// command three times (the triple send resynchronizes a controller that may
/// wake in either bus width), display on, clear, entry mode left-to-right,
/// then the three backlight registers MODE1, OUTPUT, MODE2.
pub open spec fn init_frames(address: u8, rgb_address: u8) -> Seq<Frame> {
    seq![
        cmd_frame(address, 0x28),
        cmd_frame(address, 0x28),
        cmd_frame(address, 0x28),
        cmd_frame(address, 0x0C),
        cmd_frame(address, 0x01),
        cmd_frame(address, 0x06),
        reg_frame(rgb_address, 0x00, 0x00),
        reg_frame(rgb_address, 0x08, 0xFF),
        reg_frame(rgb_address, 0x01, 0x20),
    ]
}

/// The frame sequence of one backlight color change: the red, green and
/// blue PWM registers written in that fixed order.
pub open spec fn rgb_frames(rgb_address: u8, r: u8, g: u8, b: u8) -> Seq<Frame> {
    seq![
        reg_frame(rgb_address, 0x04, r),
        reg_frame(rgb_address, 0x03, g),
        reg_frame(rgb_address, 0x02, b),
    ]
}

/// The LCD driver: owns the bus exclusively, knows the two device
/// addresses, and tracks the control register so every flag change can
/// retransmit the full control byte.
pub struct Lcd<I: I2cBus> {
    /// The bus, moved in at construction and owned for the driver's life.
    pub i2c: I,
    /// The function-set payload: bus width, line count and font, fixed at
    /// construction for this hardware profile.
    pub show_function: u8,
    /// The current control flags, resent in full on every change.
    pub control: DisplayControl,
    /// 7-bit I2C address of the display controller.
    pub address: u8,
    /// 7-bit I2C address of the backlight driver.
    pub rgb_address: u8,
}

impl<I: I2cBus> Lcd<I> {
    /// Both drivers talk to the same devices with the same profile.
    pub open spec fn same_wiring(self, other: Lcd<I>) -> bool {
        &&& self.address == other.address
        &&& self.rgb_address == other.rgb_address
        &&& self.show_function == other.show_function
    }

    /// Creates the driver and runs the power-on initialization, which must
    /// complete before any other operation: on success the bus has carried
    /// exactly [`init_frames`] and the display is on with cursor and blink
    /// off. A failed write aborts initialization with the bus's error.
    pub fn new<D: Delay>(i2c: I, address: u8, rgb_address: u8, delay: &mut D) -> (r: Result<
        Lcd<I>,
        I::BusError,
    >)
        ensures
            r matches Ok(lcd) ==> {
                &&& lcd.address == address
                &&& lcd.rgb_address == rgb_address
                &&& lcd.show_function == 0x08
                &&& lcd.control == DisplayControl::spec_new().with_display(LcdDisplay::On)
                &&& lcd.i2c.frames() == i2c.frames() + init_frames(address, rgb_address)
            },
    {
        let show_function: u8 = LCD_4BITMODE | LCD_2LINE | LCD_5X8DOTS;
        proof {
            assert(0x00u8 | 0x08u8 | 0x00u8 == 0x08u8) by (bit_vector);
        }
        let mut display = Lcd {
            i2c,
            show_function,
            control: DisplayControl::new(),
            address,
            rgb_address,
        };
        match display.init(delay) {
            Ok(()) => Ok(display),
            Err(e) => Err(e),
        }
    }

    /// The power-on sequence the controller's datasheet mandates: settle,
    /// resynchronize with the function-set command three times, turn the
    /// display on, clear, fix the entry mode, then wake the backlight.
    fn init<D: Delay>(&mut self, delay: &mut D) -> (r: Result<(), I::BusError>)
        requires
            old(self).show_function == 0x08,
            old(self).control == DisplayControl::spec_new(),
        ensures
            final (self).same_wiring(*old(self)),
            r is Ok ==> final (self).control == old(self).control.with_display(LcdDisplay::On),
            r is Ok ==> final (self).i2c.frames() == old(self).i2c.frames() + init_frames(
                old(self).address,
                old(self).rgb_address,
            ),
    {
        let ghost orig = *self;

        // The controller needs at least 40 ms after power-on before it
        // accepts commands.
        delay.delay_ms(80);

        let function_set: u8 = LCD_FUNCTIONSET | self.show_function;
        proof {
            assert(0x20u8 | 0x08u8 == 0x28u8) by (bit_vector);
        }
        self.command(function_set)?;
        delay.delay_ms(5);

        self.command(function_set)?;
        delay.delay_ms(5);

        self.command(function_set)?;

        self.set_display(LcdDisplay::On)?;
        proof {
            assert(0x08u8 | 0x00u8 | 0x00u8 | 0x04u8 == 0x0Cu8) by (bit_vector);
        }

        self.clear(delay)?;

        let entry_mode: u8 = LCD_ENTRYMODESET | LCD_ENTRYLEFT | LCD_ENTRYSHIFTDECREMENT;
        proof {
            assert(0x04u8 | 0x02u8 | 0x00u8 == 0x06u8) by (bit_vector);
        }
        self.command(entry_mode)?;

        // Wake the backlight chip, route every LED channel to its PWM
        // register, and enable group dimming.
        self.set_reg(REG_MODE1, 0x00)?;
        self.set_reg(REG_OUTPUT, 0xFF)?;
        let r = self.set_reg(REG_MODE2, 0x20);
        if r.is_ok() {
            proof {
                assert(self.i2c.frames() =~= orig.i2c.frames() + init_frames(
                    orig.address,
                    orig.rgb_address,
                ));
            }
        }
        r
    }

    /// Clears the display. The controller needs 2 ms to finish the clear, so
    /// the delay runs even when the write failed.
    pub fn clear<D: Delay>(&mut self, delay: &mut D) -> (r: Result<(), I::BusError>)
        ensures
            final (self).same_wiring(*old(self)),
            final (self).control == old(self).control,
            r is Ok ==> final (self).i2c.frames() == old(self).i2c.frames().push(
                cmd_frame(old(self).address, 0x01),
            ),
            r is Err ==> final (self).i2c.frames() == old(self).i2c.frames(),
    {
        let result = self.command(LCD_CLEARDISPLAY);
        delay.delay_ms(2);
        result
    }

    /// Moves the cursor: one command frame carrying
    /// [`cursor_position_command`]`(x, y)`. Out-of-range columns pass
    /// through verbatim; bounding them is the caller's business.
    pub fn set_cursor_position(&mut self, x: u8, y: u8) -> (r: Result<(), I::BusError>)
        ensures
            final (self).same_wiring(*old(self)),
            final (self).control == old(self).control,
            r is Ok ==> final (self).i2c.frames() == old(self).i2c.frames().push(
                cmd_frame(old(self).address, cursor_position_command(x, y)),
            ),
            r is Err ==> final (self).i2c.frames() == old(self).i2c.frames(),
    {
        let col: u8 = if y == 0 {
            x | 0x80
        } else {
            x | 0xC0
        };
        self.command(col)
    }

    /// Turns the whole panel on or off: updates the flag, then retransmits
    /// the full control byte.
    pub fn set_display(&mut self, display: LcdDisplay) -> (r: Result<(), I::BusError>)
        ensures
            final (self).same_wiring(*old(self)),
            final (self).control == old(self).control.with_display(display),
            r is Ok ==> final (self).i2c.frames() == old(self).i2c.frames().push(
                cmd_frame(old(self).address, old(self).control.with_display(display).spec_value()),
            ),
            r is Err ==> final (self).i2c.frames() == old(self).i2c.frames(),
    {
        self.control.display = display;
        self.update_display_control()
    }

    /// Shows or hides the non-blinking cursor: updates the flag, then
    /// retransmits the full control byte.
    pub fn set_cursor(&mut self, cursor: Cursor) -> (r: Result<(), I::BusError>)
        ensures
            final (self).same_wiring(*old(self)),
            final (self).control == old(self).control.with_cursor(cursor),
            r is Ok ==> final (self).i2c.frames() == old(self).i2c.frames().push(
                cmd_frame(old(self).address, old(self).control.with_cursor(cursor).spec_value()),
            ),
            r is Err ==> final (self).i2c.frames() == old(self).i2c.frames(),
    {
        self.control.cursor = cursor;
        self.update_display_control()
    }

    /// Turns the blinking block cursor on or off: updates the flag, then
    /// retransmits the full control byte.
    pub fn set_blink(&mut self, blink: Blink) -> (r: Result<(), I::BusError>)
        ensures
            final (self).same_wiring(*old(self)),
            final (self).control == old(self).control.with_blink(blink),
            r is Ok ==> final (self).i2c.frames() == old(self).i2c.frames().push(
                cmd_frame(old(self).address, old(self).control.with_blink(blink).spec_value()),
            ),
            r is Err ==> final (self).i2c.frames() == old(self).i2c.frames(),
    {
        self.control.blink = blink;
        self.update_display_control()
    }

    /// Writes one character at the cursor, which then advances: one data
    /// frame carrying the character's code truncated to a byte.
    pub fn write_char(&mut self, c: char) -> (r: Result<(), I::BusError>)
        ensures
            final (self).same_wiring(*old(self)),
            final (self).control == old(self).control,
            r is Ok ==> final (self).i2c.frames() == old(self).i2c.frames().push(
                data_frame(old(self).address, char_code(c)),
            ),
            r is Err ==> final (self).i2c.frames() == old(self).i2c.frames(),
    {
        let code: u8 = ((c as u32) % 256) as u8;
        self.write_two(DATA_SELECT, code)
    }

    /// Writes a string from the cursor on: one data frame per character, in
    /// order. The first failed write stops the rest and surfaces the error;
    /// the characters already sent stay rendered.
    pub fn write_str(&mut self, s: &str) -> (r: Result<(), I::BusError>)
        ensures
            final (self).same_wiring(*old(self)),
            final (self).control == old(self).control,
            r is Ok ==> final (self).i2c.frames() == old(self).i2c.frames() + data_frames(
                old(self).address,
                s@,
            ),
            r is Err ==> exists|k: int|
                0 <= k < s@.len() && final (self).i2c.frames() == old(self).i2c.frames()
                    + data_frames(old(self).address, s@.take(k)),
    {
        let ghost orig = *self;
        let n = s.unicode_len();
        let mut i: usize = 0;
        while i < n
            invariant
                orig == *old(self),
                i <= n,
                n == s@.len(),
                self.same_wiring(orig),
                self.control == orig.control,
                self.i2c.frames() == orig.i2c.frames() + data_frames(
                    orig.address,
                    s@.take(i as int),
                ),
            decreases n - i,
        {
            let c = s.get_char(i);
            match self.write_char(c) {
                Ok(()) => {},
                Err(e) => {
                    proof {
                        assert(0 <= i < s@.len() && self.i2c.frames() == orig.i2c.frames()
                            + data_frames(orig.address, s@.take(i as int)));
                    }
                    return Err(e);
                },
            }
            proof {
                assert(self.i2c.frames() =~= orig.i2c.frames() + data_frames(
                    orig.address,
                    s@.take(i + 1 as int),
                ));
            }
            i = i + 1;
        }
        proof {
            assert(s@.take(n as int) =~= s@);
        }
        Ok(())
    }

    /// Sets the backlight color: the red, green and blue PWM registers
    /// written in that fixed order. A failure aborts the later channels and
    /// surfaces the error; channels already written keep their new value.
    pub fn set_rgb(&mut self, r: u8, g: u8, b: u8) -> (res: Result<(), I::BusError>)
        ensures
            final (self).same_wiring(*old(self)),
            final (self).control == old(self).control,
            res is Ok ==> final (self).i2c.frames() == old(self).i2c.frames() + rgb_frames(
                old(self).rgb_address,
                r,
                g,
                b,
            ),
            res is Err ==> exists|k: int|
                0 <= k < 3 && final (self).i2c.frames() == old(self).i2c.frames() + rgb_frames(
                    old(self).rgb_address,
                    r,
                    g,
                    b,
                ).take(k),
    {
        let ghost orig = *self;
        let ghost all = rgb_frames(orig.rgb_address, r, g, b);
        match self.set_reg(REG_RED, r) {
            Ok(()) => {},
            Err(e) => {
                proof {
                    assert(self.i2c.frames() =~= orig.i2c.frames() + all.take(0));
                }
                return Err(e);
            },
        }
        match self.set_reg(REG_GREEN, g) {
            Ok(()) => {},
            Err(e) => {
                proof {
                    assert(self.i2c.frames() =~= orig.i2c.frames() + all.take(1));
                }
                return Err(e);
            },
        }
        let res = self.set_reg(REG_BLUE, b);
        match res {
            Ok(()) => {
                proof {
                    assert(self.i2c.frames() =~= orig.i2c.frames() + all);
                }
                Ok(())
            },
            Err(e) => {
                proof {
                    assert(self.i2c.frames() =~= orig.i2c.frames() + all.take(2));
                }
                Err(e)
            },
        }
    }

    /// One register write to the backlight chip: the frame
    /// `[register, data]` on the backlight address.
    fn set_reg(&mut self, register: u8, data: u8) -> (r: Result<(), I::BusError>)
        ensures
            final (self).same_wiring(*old(self)),
            final (self).control == old(self).control,
            r is Ok ==> final (self).i2c.frames() == old(self).i2c.frames().push(
                reg_frame(old(self).rgb_address, register, data),
            ),
            r is Err ==> final (self).i2c.frames() == old(self).i2c.frames(),
    {
        let mut buf: Vec<u8> = Vec::new();
        buf.push(register);
        buf.push(data);
        proof {
            assert(buf@ =~= seq![register, data]);
        }
        self.i2c.write(self.rgb_address, buf.as_slice())
    }

    /// Retransmits the full control byte after a flag change.
    fn update_display_control(&mut self) -> (r: Result<(), I::BusError>)
        ensures
            final (self).same_wiring(*old(self)),
            final (self).control == old(self).control,
            r is Ok ==> final (self).i2c.frames() == old(self).i2c.frames().push(
                cmd_frame(old(self).address, old(self).control.spec_value()),
            ),
            r is Err ==> final (self).i2c.frames() == old(self).i2c.frames(),
    {
        let value = self.control.value();
        self.command(value)
    }

    /// One command frame to the display controller: `[0x80, value]`.
    fn command(&mut self, value: u8) -> (r: Result<(), I::BusError>)
        ensures
            final (self).same_wiring(*old(self)),
            final (self).control == old(self).control,
            r is Ok ==> final (self).i2c.frames() == old(self).i2c.frames().push(
                cmd_frame(old(self).address, value),
            ),
            r is Err ==> final (self).i2c.frames() == old(self).i2c.frames(),
    {
        self.write_two(COMMAND_SELECT, value)
    }

    /// One two-byte frame to the display controller's address.
    fn write_two(&mut self, byte1: u8, byte2: u8) -> (r: Result<(), I::BusError>)
        ensures
            final (self).same_wiring(*old(self)),
            final (self).control == old(self).control,
            r is Ok ==> final (self).i2c.frames() == old(self).i2c.frames().push(
                (old(self).address, seq![byte1, byte2]),
            ),
            r is Err ==> final (self).i2c.frames() == old(self).i2c.frames(),
    {
        let mut buf: Vec<u8> = Vec::new();
        buf.push(byte1);
        buf.push(byte2);
        proof {
            assert(buf@ =~= seq![byte1, byte2]);
        }
        self.i2c.write(self.address, buf.as_slice())
    }
}

} // verus!
