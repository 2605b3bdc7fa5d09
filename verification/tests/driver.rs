use lcd_1602_i2c::{BusFault, Cursor, Lcd, LcdDisplay, NoopDelay, RecordingBus};

const ADDRESS: u8 = 0x3E;
const RGB_ADDRESS: u8 = 0x60;

fn ready_lcd() -> Lcd<RecordingBus> {
    let mut delay = NoopDelay;
    Lcd::new(RecordingBus::new(), ADDRESS, RGB_ADDRESS, &mut delay).unwrap()
}

// Initialization writes nine frames; everything after them belongs to the
// operation under test.
fn frames_after_init(lcd: &Lcd<RecordingBus>) -> &[(u8, Vec<u8>)] {
    &lcd.i2c.writes[9..]
}

#[test]
fn set_cursor_position_first_row() {
    let mut lcd = ready_lcd();
    lcd.set_cursor_position(3, 0).unwrap();
    assert_eq!(frames_after_init(&lcd), &[(ADDRESS, vec![0x80, 3 | 0x80])]);
}

#[test]
fn set_cursor_position_second_row() {
    let mut lcd = ready_lcd();
    lcd.set_cursor_position(5, 1).unwrap();
    assert_eq!(frames_after_init(&lcd), &[(ADDRESS, vec![0x80, 0xC5])]);
}

#[test]
fn clear_sends_clear_command() {
    let mut lcd = ready_lcd();
    lcd.clear(&mut NoopDelay).unwrap();
    assert_eq!(frames_after_init(&lcd), &[(ADDRESS, vec![0x80, 0x01])]);
}

#[test]
fn write_char_sends_one_data_frame() {
    let mut lcd = ready_lcd();
    lcd.write_char('Z').unwrap();
    assert_eq!(frames_after_init(&lcd), &[(ADDRESS, vec![0x40, 0x5A])]);
}

#[test]
fn write_str_two_chars() {
    let mut lcd = ready_lcd();
    lcd.write_str("AB").unwrap();
    assert_eq!(
        frames_after_init(&lcd),
        &[(ADDRESS, vec![0x40, b'A']), (ADDRESS, vec![0x40, b'B'])]
    );
}

#[test]
fn set_display_twice_sends_two_identical_commands() {
    let mut lcd = ready_lcd();
    lcd.set_display(LcdDisplay::On).unwrap();
    lcd.set_display(LcdDisplay::On).unwrap();
    assert_eq!(
        frames_after_init(&lcd),
        &[(ADDRESS, vec![0x80, 0x08 | 0x04]), (ADDRESS, vec![0x80, 0x08 | 0x04])]
    );
}

#[test]
fn cursor_toggle_restores_control_byte() {
    let mut lcd = ready_lcd();
    lcd.set_cursor(Cursor::On).unwrap();
    lcd.set_cursor(Cursor::Off).unwrap();
    // Post-initialization control byte is 0x0C; the toggle passes through
    // 0x0E and comes back to 0x0C with display and blink untouched.
    assert_eq!(
        frames_after_init(&lcd),
        &[(ADDRESS, vec![0x80, 0x0E]), (ADDRESS, vec![0x80, 0x0C])]
    );
}

#[test]
fn set_rgb_writes_red_green_blue_in_order() {
    let mut lcd = ready_lcd();
    lcd.set_rgb(1, 2, 3).unwrap();
    assert_eq!(
        frames_after_init(&lcd),
        &[
            (RGB_ADDRESS, vec![0x04, 1]),
            (RGB_ADDRESS, vec![0x03, 2]),
            (RGB_ADDRESS, vec![0x02, 3]),
        ]
    );
}

#[test]
fn new_surfaces_a_bus_fault_during_initialization() {
    let mut delay = NoopDelay;
    // The fourth initialization write fails.
    let r = Lcd::new(RecordingBus::failing_from(3), ADDRESS, RGB_ADDRESS, &mut delay);
    assert_eq!(r.err(), Some(BusFault));
}

#[test]
fn set_rgb_stops_at_the_first_failed_channel() {
    let mut delay = NoopDelay;
    // Initialization takes nine writes; the red channel is the tenth and
    // succeeds, the green channel fails.
    let mut lcd = Lcd::new(RecordingBus::failing_from(10), ADDRESS, RGB_ADDRESS, &mut delay)
        .unwrap();
    let r = lcd.set_rgb(7, 8, 9);
    assert_eq!(r, Err(BusFault));
    assert_eq!(frames_after_init(&lcd), &[(RGB_ADDRESS, vec![0x04, 7])]);
}

#[test]
fn write_str_keeps_characters_sent_before_a_fault() {
    let mut delay = NoopDelay;
    let mut lcd = Lcd::new(RecordingBus::failing_from(10), ADDRESS, RGB_ADDRESS, &mut delay)
        .unwrap();
    let r = lcd.write_str("AB");
    assert_eq!(r, Err(BusFault));
    assert_eq!(frames_after_init(&lcd), &[(ADDRESS, vec![0x40, b'A'])]);
}

#[test]
fn write_str_empty_sends_nothing() {
    let mut lcd = ready_lcd();
    lcd.write_str("").unwrap();
    assert_eq!(frames_after_init(&lcd), &[] as &[(u8, Vec<u8>)]);
}

#[test]
fn write_char_truncates_wide_code_points() {
    let mut lcd = ready_lcd();
    // U+0141 truncates to 0x41 on its way to the character ROM.
    lcd.write_char('\u{0141}').unwrap();
    assert_eq!(frames_after_init(&lcd), &[(ADDRESS, vec![0x40, 0x41])]);
}
