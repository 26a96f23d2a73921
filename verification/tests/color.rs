use vga_buffer::{Color, ColorCode, ScreenChar};

fn palette() -> [Color; 16] {
    [
        Color::Black,
        Color::Blue,
        Color::Green,
        Color::Cyan,
        Color::Red,
        Color::Magenta,
        Color::Brown,
        Color::LightGray,
        Color::DarkGray,
        Color::LightBlue,
        Color::LightGreen,
        Color::LightCyan,
        Color::LightRed,
        Color::Pink,
        Color::Yellow,
        Color::White,
    ]
}

#[test]
fn color_codes_are_the_device_indices() {
    assert_eq!(Color::Black.code(), 0);
    assert_eq!(Color::Blue.code(), 1);
    assert_eq!(Color::Green.code(), 2);
    assert_eq!(Color::Cyan.code(), 3);
    assert_eq!(Color::Red.code(), 4);
    assert_eq!(Color::Magenta.code(), 5);
    assert_eq!(Color::Brown.code(), 6);
    assert_eq!(Color::LightGray.code(), 7);
    assert_eq!(Color::DarkGray.code(), 8);
    assert_eq!(Color::LightBlue.code(), 9);
    assert_eq!(Color::LightGreen.code(), 10);
    assert_eq!(Color::LightCyan.code(), 11);
    assert_eq!(Color::LightRed.code(), 12);
    assert_eq!(Color::Pink.code(), 13);
    assert_eq!(Color::Yellow.code(), 14);
    assert_eq!(Color::White.code(), 15);
}

#[test]
fn color_codes_follow_the_palette_order() {
    let colors = palette();
    let mut index: usize = 0;
    while index < colors.len() {
        assert_eq!(colors[index].code() as usize, index);
        index += 1;
    }
}

#[test]
fn color_code_packs_background_high_and_foreground_low() {
    assert_eq!(ColorCode::new(Color::Yellow, Color::Black), ColorCode(0x0E));
    assert_eq!(ColorCode::new(Color::White, Color::Blue), ColorCode(0x1F));
    assert_eq!(ColorCode::new(Color::Black, Color::White), ColorCode(0xF0));
    assert_eq!(ColorCode::new(Color::LightGray, Color::Red), ColorCode(0x47));
    assert_eq!(ColorCode::new(Color::Black, Color::Black), ColorCode(0x00));
    assert_eq!(ColorCode::new(Color::White, Color::White), ColorCode(0xFF));
}

#[test]
fn color_code_nibbles_give_both_colors_back() {
    for foreground in palette() {
        for background in palette() {
            let byte: u8 = ColorCode::new(foreground, background).0;
            assert_eq!(byte & 0x0F, foreground.code());
            assert_eq!((byte >> 4) & 0x0F, background.code());
            assert_eq!(byte, (background.code() << 4) | foreground.code());
        }
    }
}

#[test]
fn color_code_reaches_every_attribute_byte_once() {
    let mut seen = [false; 256];
    for foreground in palette() {
        for background in palette() {
            let byte: u8 = ColorCode::new(foreground, background).0;
            assert!(!seen[byte as usize]);
            seen[byte as usize] = true;
        }
    }
    assert!(seen.iter().all(|hit| *hit));
}

#[test]
fn colors_compare_and_copy() {
    let yellow = Color::Yellow;
    let copy = yellow;
    assert_eq!(yellow, copy);
    assert_ne!(Color::Yellow, Color::Brown);
    assert_eq!(format!("{:?}", Color::LightCyan), "LightCyan");
}

#[test]
fn blank_cell_is_a_space_in_the_given_colors() {
    let colors = ColorCode::new(Color::Green, Color::Blue);
    let cell = ScreenChar::blank(colors);
    assert_eq!(cell.ascii_character, b' ');
    assert_eq!(cell.color_code, colors);
}

#[test]
fn cell_is_stored_character_first_attribute_second() {
    let cell = ScreenChar {
        ascii_character: b'A',
        color_code: ColorCode::new(Color::Yellow, Color::Black),
    };
    assert_eq!(cell.to_bytes(), [0x41, 0x0E]);
    let other = ScreenChar {
        ascii_character: 0xFE,
        color_code: ColorCode::new(Color::White, Color::Red),
    };
    assert_eq!(other.to_bytes(), [0xFE, 0x4F]);
}

#[test]
fn cell_is_decoded_from_its_two_bytes() {
    let cell = ScreenChar::from_bytes([b'z', 0x1F]);
    assert_eq!(cell.ascii_character, b'z');
    assert_eq!(cell.color_code, ColorCode::new(Color::White, Color::Blue));
}

#[test]
fn cell_bytes_round_trip_for_every_pair_of_bytes() {
    let mut first: u16 = 0;
    while first < 256 {
        let mut second: u16 = 0;
        while second < 256 {
            let bytes = [first as u8, second as u8];
            let cell = ScreenChar::from_bytes(bytes);
            assert_eq!(cell.to_bytes(), bytes);
            assert_eq!(ScreenChar::from_bytes(cell.to_bytes()), cell);
            second += 1;
        }
        first += 1;
    }
}
