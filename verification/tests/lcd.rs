use emiu::lcd::Command;
use emiu::lcd::Lcd;
use emiu::lcd::Register;
use emiu::lcd::Voltage;
use emiu::screen::Pixel;

const COMMAND: u32 = 0;
const DATA: u32 = 1;

fn set_window(lcd: &mut Lcd, columns: (u8, u8), pages: (u8, u8)) {
    lcd.write_u8(COMMAND, 0x15);
    lcd.write_u8(DATA, columns.0);
    lcd.write_u8(DATA, columns.1);
    lcd.write_u8(COMMAND, 0x75);
    lcd.write_u8(DATA, pages.0);
    lcd.write_u8(DATA, pages.1);
}

#[test]
fn lcd_command_codes_depend_on_ext() {
    assert_eq!(Command::from_val(false, 0xAF), Some(Command::DisplayOn));
    assert_eq!(Command::from_val(false, 0xAE), Some(Command::DisplayOff));
    assert_eq!(Command::from_val(false, 0x75), Some(Command::PageAddressSet));
    assert_eq!(Command::from_val(false, 0x15), Some(Command::ColumnAddressSet));
    assert_eq!(Command::from_val(false, 0x5C), Some(Command::WritingToMemory));
    assert_eq!(Command::from_val(false, 0x81), Some(Command::EcControl));
    assert_eq!(Command::from_val(false, 0x20), Some(Command::PowerControl));
    assert_eq!(Command::from_val(true, 0x20), Some(Command::Frame1PwmSet));
    assert_eq!(Command::from_val(true, 0x23), Some(Command::Frame4PwmSet));
    assert_eq!(Command::from_val(true, 0xF4), Some(Command::InternalInitializePreparation));
    assert_eq!(Command::from_val(true, 0xAF), None);
    assert_eq!(Command::from_val(false, 0x32), None);
    assert_eq!(Command::from_val(false, 0x30), Some(Command::ExtOff));
    assert_eq!(Command::from_val(true, 0x30), Some(Command::ExtOff));
    assert_eq!(Command::from_val(false, 0x31), Some(Command::ExtOn));
    assert_eq!(Command::from_val(true, 0x31), Some(Command::ExtOn));
    assert_eq!(Command::from_val(false, 0x00), None);
}

#[test]
fn lcd_registers_alternate_by_address() {
    assert_eq!(Register::from_address(0), Register::Command);
    assert_eq!(Register::from_address(1), Register::Data);
    assert_eq!(Register::from_address(0x1234), Register::Command);
    assert_eq!(Register::from_address(0x1235), Register::Data);
}

#[test]
fn voltage_is_a_register_of_nine_bits() {
    assert_eq!(Voltage::max(), 511);
    assert_eq!(Voltage::new(0xFFFF).get(), 511);
    let mut voltage = Voltage::new(0);
    voltage.set(0x2A5);
    assert_eq!(voltage.get(), 0xA5);
    voltage.set_p1(0xFF);
    assert_eq!(voltage.get(), 0xBF);
    voltage.set_p2(0xFD);
    assert_eq!(voltage.get(), 0x17F);
    voltage.set_p1(0x12);
    assert_eq!(voltage.get(), 0x152);
    voltage.set_p2(0);
    assert_eq!(voltage.get(), 0x12);
}

#[test]
fn lcd_reads_as_ff() {
    let mut lcd = Lcd::new();
    assert_eq!(lcd.read_u8(0), 0xFF);
    assert_eq!(lcd.read_u8(1), 0xFF);
}

#[test]
fn lcd_frame_emission() {
    let mut lcd = Lcd::new();
    lcd.write_u8(COMMAND, 0x30);
    lcd.write_u8(COMMAND, 0xAF);
    set_window(&mut lcd, (0, 97), (0, 66));
    lcd.write_u8(COMMAND, 0x5C);
    let pixels = 98 * 67;
    for pixel in 0..pixels {
        let byte = if pixel % 2 == 0 { 0x0F } else { 0xF0 };
        lcd.write_u8(DATA, byte);
        if pixel + 1 < pixels {
            assert!(lcd.take_frames().is_empty());
        }
        lcd.write_u8(DATA, byte);
        if pixel + 1 < pixels {
            assert!(lcd.take_frames().is_empty());
        }
    }
    let frames = lcd.take_frames();
    assert_eq!(frames.len(), 1);
    let frame = &frames[0];
    assert_eq!(frame.len(), pixels);
    for (position, pixel) in frame.iter().enumerate() {
        if position % 2 == 0 {
            assert_eq!(*pixel, Pixel { red: 0, green: 255, blue: 0 });
        } else {
            assert_eq!(*pixel, Pixel { red: 255, green: 0, blue: 255 });
        }
    }
    assert!(lcd.take_frames().is_empty());
}

#[test]
fn lcd_bytes_alternating_within_a_pixel_decode_by_channel() {
    let mut lcd = Lcd::new();
    lcd.write_u8(COMMAND, 0xAF);
    set_window(&mut lcd, (0, 97), (0, 66));
    lcd.write_u8(COMMAND, 0x5C);
    for _ in 0..98 * 67 {
        lcd.write_u8(DATA, 0x0F);
        lcd.write_u8(DATA, 0xF0);
    }
    let frames = lcd.take_frames();
    assert_eq!(frames.len(), 1);
    for pixel in frames[0].iter() {
        assert_eq!(*pixel, Pixel { red: 0, green: 0, blue: 255 });
    }
}

#[test]
fn lcd_display_off_emits_black() {
    let mut lcd = Lcd::new();
    set_window(&mut lcd, (0, 0), (0, 0));
    lcd.write_u8(COMMAND, 0x5C);
    lcd.write_u8(DATA, 0x00);
    lcd.write_u8(DATA, 0x00);
    let frames = lcd.take_frames();
    assert_eq!(frames.len(), 1);
    assert_eq!(frames[0].len(), 98 * 67);
    for pixel in frames[0].iter() {
        assert_eq!(*pixel, Pixel { red: 0, green: 0, blue: 0 });
    }
}

#[test]
fn lcd_small_window_fills_the_start_of_the_frame() {
    let mut lcd = Lcd::new();
    lcd.write_u8(COMMAND, 0xAF);
    set_window(&mut lcd, (2, 3), (1, 2));
    lcd.write_u8(COMMAND, 0x5C);
    let bytes = [0x00u8, 0x00, 0x0F, 0xFF, 0x05, 0x5A, 0x0A, 0xA5];
    for (i, byte) in bytes.iter().enumerate() {
        lcd.write_u8(DATA, *byte);
        if i + 1 < bytes.len() {
            assert!(lcd.take_frames().is_empty());
        }
    }
    let frames = lcd.take_frames();
    assert_eq!(frames.len(), 1);
    let frame = &frames[0];
    assert_eq!(frame[0], Pixel { red: 255, green: 255, blue: 255 });
    assert_eq!(frame[1], Pixel { red: 0, green: 0, blue: 0 });
    assert_eq!(frame[2], Pixel { red: 170, green: 170, blue: 85 });
    assert_eq!(frame[3], Pixel { red: 85, green: 85, blue: 170 });
    // Beyond the window the frame is black.
    assert_eq!(frame[4], Pixel { red: 0, green: 0, blue: 0 });
    assert_eq!(frame[98 * 67 - 1], Pixel { red: 0, green: 0, blue: 0 });
    // The cursor is back at the start of the window: one more round emits again.
    for byte in bytes.iter() {
        lcd.write_u8(DATA, *byte);
    }
    assert_eq!(lcd.take_frames().len(), 1);
}

#[test]
fn lcd_contrast_scales_the_channels() {
    let mut lcd = Lcd::new();
    lcd.write_u8(COMMAND, 0xAF);
    set_window(&mut lcd, (0, 0), (0, 0));
    lcd.write_u8(COMMAND, 0x5C);
    lcd.write_u8(DATA, 0x00);
    lcd.write_u8(DATA, 0x3C);
    assert_eq!(lcd.take_frames()[0][0], Pixel { red: 255, green: 204, blue: 51 });
    // Voltage 19: the channels are scaled by 18 / 36.
    lcd.write_u8(COMMAND, 0x81);
    lcd.write_u8(DATA, 19);
    assert!(lcd.take_frames().is_empty());
    lcd.write_u8(DATA, 0);
    let frames = lcd.take_frames();
    assert_eq!(frames.len(), 1);
    assert_eq!(frames[0][0], Pixel { red: 127, green: 102, blue: 25 });
    // Voltage 1 and below: black.
    lcd.write_u8(COMMAND, 0x81);
    lcd.write_u8(DATA, 1);
    lcd.write_u8(DATA, 0);
    assert_eq!(lcd.take_frames()[0][0], Pixel { red: 0, green: 0, blue: 0 });
    // Voltage 36 and above: full contrast.
    lcd.write_u8(COMMAND, 0x81);
    lcd.write_u8(DATA, 36);
    lcd.write_u8(DATA, 0);
    assert_eq!(lcd.take_frames()[0][0], Pixel { red: 255, green: 204, blue: 51 });
    // The second byte loads the bits 6 to 8.
    lcd.write_u8(COMMAND, 0x81);
    lcd.write_u8(DATA, 0);
    lcd.write_u8(DATA, 1);
    assert_eq!(lcd.take_frames()[0][0], Pixel { red: 255, green: 204, blue: 51 });
    // A third byte does nothing.
    lcd.write_u8(DATA, 0);
    assert!(lcd.take_frames().is_empty());
}

#[test]
fn lcd_ignores_data_without_a_command_and_unknown_commands() {
    let mut lcd = Lcd::new();
    lcd.write_u8(DATA, 0x12);
    lcd.write_u8(COMMAND, 0x00);
    lcd.write_u8(DATA, 0x12);
    assert!(lcd.take_frames().is_empty());
}

#[test]
fn lcd_extended_commands_need_ext_on() {
    let mut lcd = Lcd::new();
    // In the extended set 0x5C selects nothing, so the data is not stored.
    lcd.write_u8(COMMAND, 0x31);
    lcd.write_u8(COMMAND, 0x5C);
    lcd.write_u8(DATA, 0x00);
    lcd.write_u8(DATA, 0x00);
    assert!(lcd.take_frames().is_empty());
    lcd.write_u8(COMMAND, 0x30);
    lcd.write_u8(COMMAND, 0x5C);
    lcd.write_u8(DATA, 0x00);
    lcd.write_u8(DATA, 0x00);
    assert_eq!(lcd.take_frames().len(), 1);
}

#[test]
fn lcd_drops_bytes_while_the_cursor_is_outside_the_ram() {
    let mut lcd = Lcd::new();
    lcd.write_u8(COMMAND, 0xAF);
    set_window(&mut lcd, (0, 97), (200, 201));
    lcd.write_u8(COMMAND, 0x5C);
    for _ in 0..1000 {
        lcd.write_u8(DATA, 0x55);
    }
    assert!(lcd.take_frames().is_empty());
}

#[test]
fn pixel_packs_as_rgb() {
    assert_eq!(Pixel { red: 0x12, green: 0x34, blue: 0x56 }.to_rgb_u32(), 0x0012_3456);
    assert_eq!(Pixel { red: 255, green: 255, blue: 255 }.to_rgb_u32(), 0x00FF_FFFF);
    assert_eq!(Pixel { red: 0, green: 0, blue: 0 }.to_rgb_u32(), 0);
}
