use emiu::flash::CHIP_CAPACITY;
use emiu::handheld::AddressType;
use emiu::handheld::ConfigurationError;
use emiu::handheld::Handheld;
use emiu::handheld::HandheldAddressSpace;
use emiu::handheld::OTP_SIZE;
use emiu::handheld::SYSTEM_FREQ;
use emiu::st2205u::bank;

fn images() -> (Vec<u8>, Vec<u8>) {
    (vec![0u8; OTP_SIZE], vec![0u8; CHIP_CAPACITY])
}

/// A handheld whose boot ROM holds `program` from its first byte on, and
/// the reset vector that points there.
fn booted(program: &[u8], flash_fill: u8) -> Handheld {
    let mut otp = vec![0u8; OTP_SIZE];
    otp[..program.len()].copy_from_slice(program);
    otp[0x3FFC] = 0x00;
    otp[0x3FFD] = 0x40;
    Handheld::new(&otp, &vec![flash_fill; CHIP_CAPACITY]).unwrap()
}

#[test]
fn reset_loads_the_program_counter_from_the_vector() {
    let (mut otp, flash) = images();
    otp[0x3FFC] = 0x34;
    otp[0x3FFD] = 0x12;
    let handheld = Handheld::new(&otp, &flash).unwrap();
    assert_eq!(handheld.mcu.core.registers.pc, 0x1234);
    assert!(!handheld.mcu.core.interrupted());
    assert_eq!(handheld.mcu.core.cycles, 0);
    assert_eq!(handheld.mcu.core.cycles_per_second(), SYSTEM_FREQ / 2);
}

#[test]
fn handheld_rejects_images_of_the_wrong_size() {
    let (otp, flash) = images();
    match Handheld::new(&otp[1..], &flash) {
        Err(why) => assert_eq!(why, ConfigurationError::InvalidOtpSize(OTP_SIZE - 1)),
        Ok(_) => panic!("a short boot ROM was accepted"),
    }
    match Handheld::new(&otp, &flash[..100]) {
        Err(why) => assert_eq!(why, ConfigurationError::InvalidFlashSize(100)),
        Ok(_) => panic!("a short flash image was accepted"),
    }
    // The boot ROM is checked first.
    match HandheldAddressSpace::new(&[], &[]) {
        Err(why) => assert_eq!(why, ConfigurationError::InvalidOtpSize(0)),
        Ok(_) => panic!("empty images were accepted"),
    }
    assert!(Handheld::new(&otp, &flash).is_ok());
}

#[test]
fn machine_addresses_select_the_devices() {
    assert_eq!(AddressType::parse_machine_addr(0), (AddressType::Otp, 0));
    assert_eq!(AddressType::parse_machine_addr(0x1F_FFFF), (AddressType::Otp, 0x1F_FFFF));
    assert_eq!(AddressType::parse_machine_addr(3 << 21), (AddressType::Video, 0));
    assert_eq!(AddressType::parse_machine_addr((3 << 21) | 1), (AddressType::Video, 1));
    assert_eq!(AddressType::parse_machine_addr(31 << 21), (AddressType::Otp, 0));
    assert_eq!(AddressType::parse_machine_addr(1 << 21), (AddressType::Flash, 0));
    assert_eq!(AddressType::parse_machine_addr((1 << 25) | 0x1234), (AddressType::Flash, 0x1234));
    // The bits above bit 25 are ignored.
    assert_eq!(AddressType::parse_machine_addr((1 << 26) | 5), (AddressType::Otp, 5));
}

#[test]
fn machine_repeats_the_boot_rom_and_ignores_writes_to_it() {
    let (mut otp, flash) = images();
    otp[7] = 0x99;
    let mut machine = HandheldAddressSpace::new(&otp, &flash).unwrap();
    assert_eq!(machine.read_u8(7), 0x99);
    assert_eq!(machine.read_u8(7 + OTP_SIZE as u32), 0x99);
    machine.write_u8(7, 0x11);
    assert_eq!(machine.read_u8(7), 0x99);
    assert_eq!(machine.read_u8(3 << 21), 0xFF);
}

#[test]
fn bank_indirection() {
    let (mut otp, flash) = images();
    otp[0] = 0x5A;
    let mut handheld = Handheld::new(&otp, &flash).unwrap();
    let space = &mut handheld.mcu.core.address_space;
    bank::set_prr(space, 0x0002);
    assert_eq!(space.read_u8(0x4000), 0x5A);
    bank::set_prr(space, 0x8000);
    space.write_u8(0x4000, 0xAB);
    assert_eq!(space.read_u8(0x4000), 0xAB);
    // The window shows the on-chip RAM, which the data window shows too.
    bank::set_drr(space, 0x8000);
    assert_eq!(space.read_u8(0xC000), 0xAB);
    // The boot ROM is as it was.
    bank::set_prr(space, 0x0000);
    assert_eq!(space.read_u8(0x4000), 0x5A);
}

#[test]
fn only_the_low_16_bits_of_a_processor_address_count() {
    let mut handheld = booted(&[], 0);
    let space = &mut handheld.mcu.core.address_space;
    space.write_u8(0x0200, 0x77);
    assert_eq!(space.read_u8(0x1_0200), 0x77);
    space.write_u8(0x3_0201, 0x78);
    assert_eq!(space.read_u8(0x0201), 0x78);
    // A word at the last address takes its high byte from the first
    // address, which is port A: no button is held down.
    bank::set_drr(space, 0x8000);
    space.write_u8(0xFFFF, 0x34);
    assert_eq!(space.read_u16_le(0xFFFF), 0xFF34);
}

#[test]
fn flash_byte_program_through_the_data_window() {
    let mut handheld = booted(&[], 0xFF);
    let space = &mut handheld.mcu.core.address_space;
    // Machine address 0x800000 selects the flash; DRR counts in units of 0x8000.
    bank::set_drr(space, 0x0100);
    space.write_u8(0x8AAA, 0xAA);
    space.write_u8(0x8555, 0x55);
    space.write_u8(0x8AAA, 0xA0);
    space.write_u8(0x8100, 0x42);
    assert_eq!(space.machine_addr_space.flash().stored(0x0100), 0x42);
    assert_eq!(space.read_u8(0x8100), 0xC0);
    assert_eq!(space.read_u8(0x8101), 0xFF);
    assert_eq!(space.read_u8(0x8100), 0x42);
}

#[test]
fn chip_erase_through_the_data_window() {
    let mut handheld = booted(&[], 0x00);
    {
        let space = &mut handheld.mcu.core.address_space;
        bank::set_drr(space, 0x0100);
        space.write_u8(0x8AAA, 0xAA);
        space.write_u8(0x8555, 0x55);
        space.write_u8(0x8AAA, 0x80);
        space.write_u8(0x8AAA, 0xAA);
        space.write_u8(0x8555, 0x55);
        space.write_u8(0x8AAA, 0x10);
    }
    let dump = handheld.make_flash_dump();
    assert_eq!(dump.len(), 2_097_152);
    assert!(dump.iter().all(|byte| *byte == 0xFF));
}

#[test]
fn flash_dump_holds_the_image() {
    let (otp, mut flash) = images();
    for (i, byte) in flash.iter_mut().enumerate() {
        *byte = (i % 251) as u8;
    }
    let mut handheld = Handheld::new(&otp, &flash).unwrap();
    assert_eq!(handheld.make_flash_dump(), flash);
}

#[test]
fn base_timer_interrupt_end_to_end() {
    // LDA #$40; STA IENAL; LDA #$01; STA BTEN; then a loop of long
    // no-operations.
    let mut program = vec![0xA9, 0x40, 0x85, 0x3E, 0xA9, 0x01, 0x85, 0x2A];
    let loop_start = 0x4000 + program.len() as u16;
    for _ in 0..64 {
        program.extend_from_slice(&[0x5C, 0x00, 0x00]);
    }
    program.extend_from_slice(&[0x4C, (loop_start & 0xFF) as u8, (loop_start >> 8) as u8]);
    let mut otp = vec![0u8; OTP_SIZE];
    otp[..program.len()].copy_from_slice(&program);
    otp[0x3FFC] = 0x00;
    otp[0x3FFD] = 0x40;
    // The vector of the base timer names a handler that only returns.
    otp[0x3FEC] = 0x00;
    otp[0x3FED] = 0x50;
    otp[0x1000] = 0x40;
    let mut handheld = Handheld::new(&otp, &vec![0u8; CHIP_CAPACITY]).unwrap();
    let mcu = &mut handheld.mcu;
    let mut dispatches = 0;
    let mut last_cycles = 0;
    while mcu.core.oscillator_cycles() < 8_000_000 + 64 {
        let pc_before = mcu.core.registers.pc;
        let was_interrupted = mcu.core.interrupted();
        mcu.step(None);
        assert!(mcu.core.cycles > last_cycles);
        last_cycles = mcu.core.cycles;
        if mcu.core.interrupted() && !was_interrupted {
            dispatches += 1;
            assert!(mcu.core.oscillator_cycles() >= 8_000_000);
            assert_eq!(mcu.core.registers.pc, 0x5000);
            let sp = mcu.core.registers.sp;
            assert_eq!(sp, 0xFD);
            // The handler returns to where the loop was.
            mcu.step(None);
            assert!(!mcu.core.interrupted());
            assert_eq!(mcu.core.registers.sp, 0x00);
            assert!(mcu.core.registers.pc >= loop_start);
            assert!(pc_before >= loop_start);
        }
    }
    assert_eq!(dispatches, 1);
    // The request stays visible to the firmware.
    assert_eq!(mcu.core.address_space.read_u8(0x3C) & 0x40, 0x40);
    assert_eq!(mcu.core.address_space.read_u8(0x2B), 0x01);
}

#[test]
fn configuration_errors_in_words() {
    assert_eq!(
        ConfigurationError::InvalidOtpSize(100).to_string(),
        "The OTP is invalid because it is 100 bytes, but must be 16384 bytes"
    );
    assert_eq!(
        ConfigurationError::InvalidFlashSize(0).to_string(),
        "The flash is invalid because it is 0 bytes, but must be 2097152 bytes"
    );
    assert_eq!(
        ConfigurationError::InvalidFlashSize(2_097_153).to_string(),
        "The flash is invalid because it is 2097153 bytes, but must be 2097152 bytes"
    );
}

#[test]
fn lcd_is_reached_through_the_data_window() {
    let mut handheld = booted(&[], 0);
    {
        let space = &mut handheld.mcu.core.address_space;
        // Machine address 0x600000 selects the LCD controller.
        bank::set_drr(space, 0x00C0);
        assert_eq!(space.read_u8(0x8000), 0xFF);
        // Display on; a window of one cell; two bytes of display data.
        space.write_u8(0x8000, 0xAF);
        space.write_u8(0x8000, 0x5C);
        space.write_u8(0x8001, 0x0F);
        space.write_u8(0x8001, 0xF0);
    }
    let frames = handheld.mcu.core.address_space.machine_addr_space.take_frames();
    assert_eq!(frames.len(), 1);
    assert_eq!(frames[0].len(), 98 * 67);
    assert_eq!(frames[0][0].to_rgb_u32(), 0x0000_00FF);
    assert_eq!(frames[0][1].to_rgb_u32(), 0);
    assert!(handheld.mcu.core.address_space.machine_addr_space.take_frames().is_empty());
}

#[test]
fn dma_feeds_the_lcd_from_ram() {
    let mut handheld = booted(&[], 0);
    {
        let space = &mut handheld.mcu.core.address_space;
        bank::set_drr(space, 0x00C0);
        space.write_u8(0x8000, 0xAF);
        space.write_u8(0x8000, 0x5C);
        space.write_u8(0x0200, 0x00);
        space.write_u8(0x0201, 0x00);
        // Source: RAM at 0x0200, moving; destination: the data register
        // of the LCD controller, fixed.
        space.write_u8(0x5E, 0);
        space.write_u8(0x59, 0x02);
        space.write_u8(0x5B, 0x80);
        space.write_u8(0x5E, 1);
        space.write_u8(0x58, 0x01);
        space.write_u8(0x5A, 0xC0);
        space.write_u8(0x5F, 0b1000);
        space.write_u8(0x5C, 6);
        space.write_u8(0x5D, 0);
        // DRR is as it was.
        assert_eq!(bank::drr(space), 0x78C0);
    }
    // Six bytes into a window of one cell: three frames.
    let frames = handheld.mcu.core.address_space.machine_addr_space.take_frames();
    assert_eq!(frames.len(), 3);
    assert_eq!(frames[0][0].to_rgb_u32(), 0x00FF_FFFF);
    assert_eq!(frames[2][0].to_rgb_u32(), 0x00FF_FFFF);
}

#[test]
fn machine_area_is_read_byte_by_byte() {
    let mut otp = vec![0u8; OTP_SIZE];
    otp[0x10] = 0xAA;
    otp[0x11] = 0xBB;
    let mut handheld = Handheld::new(&otp, &vec![0x33u8; CHIP_CAPACITY]).unwrap();
    assert_eq!(handheld.mcu.read_machine_area(0x0F, 4), vec![0x00, 0xAA, 0xBB, 0x00]);
    assert_eq!(handheld.mcu.read_machine_area(1 << 21, 2), vec![0x33, 0x33]);
    assert_eq!(handheld.mcu.read_machine_area(3 << 21, 1), vec![0xFF]);
    assert!(handheld.mcu.read_machine_area(0, 0).is_empty());
}

#[test]
fn reset_again_reloads_the_program_counter() {
    let mut handheld = booted(&[0xEA, 0xEA, 0xEA], 0);
    handheld.mcu.step(None);
    handheld.mcu.step(None);
    assert_eq!(handheld.mcu.core.registers.pc, 0x4002);
    handheld.mcu.core.set_interrupted(true);
    handheld.mcu.reset();
    assert_eq!(handheld.mcu.core.registers.pc, 0x4000);
    assert!(!handheld.mcu.core.interrupted());
    assert_eq!(handheld.mcu.core.cycles, 4);
}
