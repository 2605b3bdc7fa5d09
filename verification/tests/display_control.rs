use lcd_1602_i2c::{Blink, Cursor, DisplayControl, LcdDisplay};

#[test]
fn all_flags_off() {
    let control = DisplayControl::new();
    assert_eq!(0x08, control.value());
}

#[test]
fn cursur_on() {
    let mut control = DisplayControl::new();
    control.cursor = Cursor::On;
    assert_eq!(0x08 | 2, control.value());
}

#[test]
fn display_control_blink_on() {
    let mut control = DisplayControl::new();
    control.blink = Blink::On;
    assert_eq!(0x08 | 1, control.value());
}

#[test]
fn display_on() {
    let mut control = DisplayControl::new();
    control.display = LcdDisplay::On;
    assert_eq!(0x08 | 4, control.value());
}

#[test]
fn display_and_cursor_on() {
    let mut control = DisplayControl::new();
    control.display = LcdDisplay::On;
    control.cursor = Cursor::On;
    assert_eq!(0x08 | 4 | 2, control.value());
}

// Cursor and display on, blink off, gives 0x08 | 0x04 | 0x02 = 0x0E.
#[test]
fn cursor_and_display_encode_to_0x0e() {
    let mut control = DisplayControl::new();
    control.display = LcdDisplay::On;
    control.cursor = Cursor::On;
    assert_eq!(0x0E, control.value());
}
