use alphanum4::render::Indicator;
use alphanum4::{
    lookup, AlphaNum4, DisplayBuffer, DEFAULT_DISPLAY_ADDR, DISPLAY_ADDR_1, DISPLAY_ADDR_2,
    DISPLAY_ADDR_3,
};
use ht16k33::i2c_mock::I2cMock;
use ht16k33::{DisplayData, DisplayDataAddress, LedLocation, HT16K33};

fn dark<const N: usize>() -> [DisplayBuffer; N] {
    [DisplayBuffer::new(); N]
}

fn text<const C: usize, const N: usize>(display: &AlphaNum4<'_, C, N>) -> String {
    display.content_buffer().chars.iter().collect()
}

fn memory<const C: usize, const N: usize>(display: &AlphaNum4<'_, C, N>) -> Vec<[u8; 16]> {
    display.displays().iter().map(|d| d.data).collect()
}

// What the driver's own buffers hold when each visible character is staged
// on a device LED by LED.
fn staged_on_devices(content: &str, controllers: usize) -> Vec<[u8; 16]> {
    let mut devices: Vec<HT16K33<I2cMock>> =
        (0..controllers).map(|i| HT16K33::new(I2cMock::new(), 0x70 + i as u8)).collect();
    for (index, ch) in content.chars().take(4 * controllers).enumerate() {
        let device = &mut devices[index / 4];
        if ch == '.' || ch == ':' {
            let location = LedLocation {
                row: DisplayDataAddress::from_bits_truncate(1),
                common: DisplayData::from_bits_truncate(1),
            };
            device.update_display_buffer(location, true);
            continue;
        }
        let mask = lookup(ch);
        let digit = (index % 4) as u8;
        for segment in 0..14u8 {
            let common = match segment {
                7 => 1,
                8 => 0,
                s if s > 6 => s - 7,
                s => s,
            };
            let row = digit + if segment > 6 { 4 } else { 0 };
            let location = LedLocation {
                row: DisplayDataAddress::from_bits_truncate(common * 2),
                common: DisplayData::from_bits_truncate(1 << row),
            };
            device.update_display_buffer(location, (mask >> segment) & 1 == 1);
        }
    }
    devices
        .iter()
        .map(|device| {
            let mut rows = [0u8; 16];
            for (row, data) in device.display_buffer().iter().enumerate() {
                rows[row] = data.bits();
            }
            rows
        })
        .collect()
}

#[test]
fn bus_addresses() {
    assert_eq!(DEFAULT_DISPLAY_ADDR, 0x70);
    assert_eq!(DISPLAY_ADDR_1, 0x71);
    assert_eq!(DISPLAY_ADDR_2, 0x72);
    assert_eq!(DISPLAY_ADDR_3, 0x73);
}

#[test]
fn new_display_is_blank_and_keeps_its_memory() {
    let mut first = DisplayBuffer::new();
    first.data[5] = 0x42;
    let display: AlphaNum4<6, 2> = AlphaNum4::new([first, DisplayBuffer::new()]);
    assert_eq!(text(&display), "      ");
    assert_eq!(display.display_at(0).data[5], 0x42);
    assert_eq!(display.display_at(1).data, [0u8; 16]);
    assert_eq!(display.displays().len(), 2);
}

#[test]
fn print_str_then_rotate_left() {
    let mut display: AlphaNum4<8, 2> = AlphaNum4::new(dark());
    display.print_str("Hi Mom!!");
    assert_eq!(text(&display), "Hi Mom!!");
    display.rotate_left(3);
    assert_eq!(text(&display), "Mom!!Hi ");
}

#[test]
fn print_str_then_shift_left() {
    let mut display: AlphaNum4<8, 2> = AlphaNum4::new(dark());
    display.print_str("Hi Mom!!");
    display.shift_left(3);
    assert_eq!(text(&display), "Mom!!   ");
    assert_eq!(&text(&display)[..4], "Mom!");
}

#[test]
fn print_str_then_rotate_right() {
    let mut display: AlphaNum4<8, 2> = AlphaNum4::new(dark());
    display.print_str("Hi Mom!!");
    display.rotate_right(3);
    assert_eq!(text(&display), "m!!Hi Mo");
}

#[test]
fn print_str_then_shift_right() {
    let mut display: AlphaNum4<8, 2> = AlphaNum4::new(dark());
    display.print_str("Hi Mom!!");
    display.shift_right(3);
    assert_eq!(text(&display), "   Hi Mo");
}

#[test]
fn rotate_left_then_right_restores_content_and_memory() {
    for shift in 0..=8usize {
        let mut display: AlphaNum4<8, 2> = AlphaNum4::new(dark());
        display.print_str("Hi Mom!!");
        let before = memory(&display);
        display.rotate_left(shift);
        display.rotate_right(shift);
        assert_eq!(text(&display), "Hi Mom!!", "shift {shift}");
        assert_eq!(memory(&display), before, "shift {shift}");
    }
}

#[test]
fn full_rotation_keeps_the_content() {
    let mut display: AlphaNum4<8, 2> = AlphaNum4::new(dark());
    display.print_str("Hi Mom!!");
    display.rotate_left(8);
    assert_eq!(text(&display), "Hi Mom!!");
    display.rotate_left(0);
    assert_eq!(text(&display), "Hi Mom!!");
    display.rotate_right(8);
    assert_eq!(text(&display), "Hi Mom!!");
}

#[test]
fn print_str_drops_what_does_not_fit() {
    let mut display: AlphaNum4<8, 2> = AlphaNum4::new(dark());
    display.print_str("Hello, world! This is long.");
    assert_eq!(text(&display), "Hello, w");
    assert_eq!(memory(&display), staged_on_devices("Hello, w", 2));
}

#[test]
fn print_str_blanks_the_rest() {
    let mut display: AlphaNum4<8, 2> = AlphaNum4::new(dark());
    display.print_str("Hi Mom!!");
    display.print_str("Yo");
    assert_eq!(text(&display), "Yo      ");
    assert_eq!(memory(&display), staged_on_devices("Yo      ", 2));
}

#[test]
fn print_str_stages_what_the_driver_would_hold() {
    for content in ["Hi Mom!!", "01234567", "AbCdEfGh", "~!@#$%^&", "   x    ", "\u{7f}é  ZZZZ"] {
        let mut display: AlphaNum4<8, 2> = AlphaNum4::new(dark());
        display.print_str(content);
        assert_eq!(memory(&display), staged_on_devices(content, 2), "{content:?}");
    }
}

#[test]
fn print_str_with_indicator_characters() {
    let mut display: AlphaNum4<8, 2> = AlphaNum4::new(dark());
    display.print_str("12:45.AB");
    assert_eq!(memory(&display), staged_on_devices("12:45.AB", 2));
    assert_eq!(display.display_at(0).data[1], 1);
    assert_eq!(display.display_at(1).data[1], 1);
}

#[test]
fn content_past_the_window_is_kept_and_comes_into_view() {
    let mut display: AlphaNum4<8, 1> = AlphaNum4::new(dark());
    display.print_str("Hi Mom!!");
    assert_eq!(text(&display), "Hi Mom!!");
    assert_eq!(memory(&display), staged_on_devices("Hi M", 1));
    display.shift_left(4);
    assert_eq!(text(&display), "om!!    ");
    assert_eq!(memory(&display), staged_on_devices("om!!", 1));
}

#[test]
fn window_wider_than_the_content() {
    let mut display: AlphaNum4<3, 2> = AlphaNum4::new(dark());
    display.print_str("abcdef");
    assert_eq!(text(&display), "abc");
    let on_devices = staged_on_devices("abc", 2);
    assert_eq!(memory(&display), on_devices);
    assert_eq!(display.display_at(1).data, [0u8; 16]);
}

#[test]
fn print_char_changes_one_position() {
    let mut display: AlphaNum4<8, 2> = AlphaNum4::new(dark());
    display.print_str("Hi Mom!!");
    let before = memory(&display);
    display.print_char('X', 5);
    assert_eq!(text(&display), "Hi MoX!!");
    let after = memory(&display);
    assert_eq!(after[0], before[0]);
    assert_eq!(after, staged_on_devices("Hi MoX!!", 2));
    // Only the LEDs of the second digit of the second controller may differ.
    for address in 0..16 {
        let changed = before[1][address] ^ after[1][address];
        assert_eq!(changed & !0b0010_0010, 0, "address {address}");
        if address % 2 == 1 || address > 12 {
            assert_eq!(changed, 0, "address {address}");
        }
    }
}

#[test]
fn print_char_keeps_the_indicator() {
    let mut display: AlphaNum4<4, 1> = AlphaNum4::new(dark());
    display.set_indicator(0, Indicator::Colon, true);
    for index in 0..4u8 {
        display.print_char('8', index);
        assert_eq!(display.display().data[1], 1);
        display.print_char(' ', index);
        assert_eq!(display.display().data[1], 1);
    }
    display.set_indicator(0, Indicator::Colon, false);
    display.print_char('8', 0);
    assert_eq!(display.display().data[1], 0);
}

#[test]
fn set_indicator_toggles_one_bit_of_one_controller() {
    let mut display: AlphaNum4<8, 2> = AlphaNum4::new(dark());
    display.print_str("Hi Mom!!");
    let before = memory(&display);
    for kind in [Indicator::DecimalPoint, Indicator::Colon] {
        display.set_indicator(1, kind, true);
        let lit = memory(&display);
        assert_eq!(lit[0], before[0]);
        let mut expected = before[1];
        expected[1] = 1;
        assert_eq!(lit[1], expected);
        display.set_indicator(1, kind, false);
        assert_eq!(memory(&display), before);
    }
    assert_eq!(text(&display), "Hi Mom!!");
}

#[test]
fn new_with_font_uses_the_custom_table() {
    let mut table = [0u16; 96];
    table[('A' as usize) - ('!' as usize) + 1] = 0b1;
    table[95] = 0b10;
    let mut display: AlphaNum4<4, 1> = AlphaNum4::new_with_font(dark(), &table);
    display.print_str("A\u{7f}");
    let mut expected = [0u8; 16];
    expected[0] = 0b0001;
    expected[2] = 0b0010;
    assert_eq!(display.display().data, expected);
    assert_eq!(text(&display), "A\u{7f}  ");
}

#[test]
fn display_accessors_reach_the_same_memory() {
    let mut display: AlphaNum4<4, 1> = AlphaNum4::new(dark());
    display.display_mut().data[15] = 0xaa;
    assert_eq!(display.display().data[15], 0xaa);
    assert_eq!(display.display_at(0).data[15], 0xaa);
    display.display_at_mut(0).data[14] = 0x55;
    assert_eq!(display.displays()[0].data[14], 0x55);
    display.displays_mut()[0].data[13] = 0x11;
    assert_eq!(display.display().data[13], 0x11);
    // Bytes that no segment is wired to survive a print.
    display.print_str("8888");
    assert_eq!(display.display().data[15], 0xaa);
    assert_eq!(display.display().data[14], 0x55);
    assert_eq!(display.display().data[13], 0x11);
}

#[test]
fn four_controllers_show_sixteen_characters() {
    let mut display: AlphaNum4<16, 4> = AlphaNum4::new(dark());
    display.print_str("0123456789ABCDEF");
    assert_eq!(memory(&display), staged_on_devices("0123456789ABCDEF", 4));
    display.rotate_left(5);
    assert_eq!(text(&display), "56789ABCDEF01234");
    assert_eq!(memory(&display), staged_on_devices("56789ABCDEF01234", 4));
}
