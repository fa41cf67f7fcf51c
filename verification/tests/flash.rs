use emiu::flash::CommandWrite;
use emiu::flash::Flash;
use emiu::flash::RingBuf;
use emiu::flash::CHIP_CAPACITY;

fn chip(fill: u8) -> Flash {
    Flash::new(&vec![fill; CHIP_CAPACITY]).unwrap()
}

fn unlock_erase(flash: &mut Flash) {
    flash.write_u8(0xAAA, 0xAA);
    flash.write_u8(0x555, 0x55);
    flash.write_u8(0xAAA, 0x80);
    flash.write_u8(0xAAA, 0xAA);
    flash.write_u8(0x555, 0x55);
}

fn program(flash: &mut Flash, address: u32, value: u8) {
    flash.write_u8(0xAAA, 0xAA);
    flash.write_u8(0x555, 0x55);
    flash.write_u8(0xAAA, 0xA0);
    flash.write_u8(address, value);
}

#[test]
fn flash_rejects_an_image_of_the_wrong_size() {
    match Flash::new(&[0u8; 16]) {
        Ok(_) => panic!("a short image was accepted"),
        Err(why) => assert_eq!(why, "Flash invalid"),
    }
    assert!(Flash::new(&vec![0u8; CHIP_CAPACITY + 1]).is_err());
    assert!(Flash::new(&vec![0u8; CHIP_CAPACITY]).is_ok());
    assert_eq!(Flash::len(), 2_097_152);
}

#[test]
fn flash_reads_its_image_modulo_its_size() {
    let mut image = vec![0u8; CHIP_CAPACITY];
    image[5] = 0x77;
    let mut flash = Flash::new(&image).unwrap();
    assert_eq!(flash.read_u8(5), 0x77);
    assert_eq!(flash.read_u8(5 + CHIP_CAPACITY as u32), 0x77);
    assert_eq!(flash.stored(5 + 3 * CHIP_CAPACITY), 0x77);
}

#[test]
fn flash_byte_program_stores_and_reports_status() {
    let mut flash = chip(0xFF);
    program(&mut flash, 0x0100, 0x42);
    assert_eq!(flash.stored(0x0100), 0x42);
    // At the address of the command the chip reports its status.
    assert_eq!(flash.read_u8(0x0100), 0xC0);
    assert_eq!(flash.read_u8(0x0100), 0xC0);
    // A read elsewhere returns data and ends the report.
    assert_eq!(flash.read_u8(0x0101), 0xFF);
    assert_eq!(flash.read_u8(0x0100), 0x42);
}

#[test]
fn flash_status_ends_with_the_next_write() {
    let mut flash = chip(0xFF);
    program(&mut flash, 0x0100, 0x42);
    flash.write_u8(0xAAA, 0xAA);
    assert_eq!(flash.read_u8(0x0100), 0x42);
}

#[test]
fn flash_program_overwrites_the_byte() {
    let mut flash = chip(0x0F);
    program(&mut flash, 0x20, 0xF0);
    assert_eq!(flash.stored(0x20), 0xF0);
    assert_eq!(flash.stored(0x21), 0x0F);
}

#[test]
fn flash_chip_erase_sets_every_byte() {
    let mut image = vec![0u8; CHIP_CAPACITY];
    image[0] = 0x12;
    image[CHIP_CAPACITY - 1] = 0x34;
    let mut flash = Flash::new(&image).unwrap();
    unlock_erase(&mut flash);
    flash.write_u8(0xAAA, 0x10);
    for address in 0..CHIP_CAPACITY {
        assert_eq!(flash.stored(address), 0xFF);
    }
    assert_eq!(flash.read_u8(0xAAA), 0xC0);
    assert_eq!(flash.read_u8(0), 0xFF);
}

#[test]
fn flash_two_chip_erases_leave_every_byte_erased() {
    let mut flash = chip(0x00);
    unlock_erase(&mut flash);
    flash.write_u8(0xAAA, 0x10);
    unlock_erase(&mut flash);
    flash.write_u8(0xAAA, 0x10);
    for address in 0..CHIP_CAPACITY {
        assert_eq!(flash.stored(address), 0xFF);
    }
}

#[test]
fn flash_program_then_sector_erase_reads_erased() {
    let mut flash = chip(0x00);
    program(&mut flash, 0x3456, 0x42);
    assert_eq!(flash.stored(0x3456), 0x42);
    unlock_erase(&mut flash);
    flash.write_u8(0x3000, 0x50);
    assert_eq!(flash.read_u8(0x3456), 0xFF);
    assert_eq!(flash.stored(0x3000), 0xFF);
    assert_eq!(flash.stored(0x3FFF), 0xFF);
    // The sectors next to it keep their bytes.
    assert_eq!(flash.stored(0x2FFF), 0x00);
    assert_eq!(flash.stored(0x4000), 0x00);
}

#[test]
fn flash_sector_erase_at_the_byte_reports_status_there() {
    let mut flash = chip(0x00);
    program(&mut flash, 0x3456, 0x42);
    unlock_erase(&mut flash);
    flash.write_u8(0x3456, 0x50);
    assert_eq!(flash.read_u8(0x3456), 0xC0);
    assert_eq!(flash.stored(0x3456), 0xFF);
}

#[test]
fn flash_block_erase_sets_its_block() {
    let mut flash = chip(0x11);
    unlock_erase(&mut flash);
    flash.write_u8(0x2_1234, 0x30);
    assert_eq!(flash.stored(0x2_0000), 0xFF);
    assert_eq!(flash.stored(0x2_FFFF), 0xFF);
    assert_eq!(flash.stored(0x1_FFFF), 0x11);
    assert_eq!(flash.stored(0x3_0000), 0x11);
}

#[test]
fn flash_unknown_erase_command_changes_no_byte() {
    let mut flash = chip(0x11);
    unlock_erase(&mut flash);
    flash.write_u8(0x1234, 0x99);
    assert_eq!(flash.stored(0x1234), 0x11);
    // The command is over: status at its address, and the history is empty.
    assert_eq!(flash.read_u8(0x1234), 0xC0);
    flash.write_u8(0xAAA, 0x10);
    assert_eq!(flash.stored(0), 0x11);
}

#[test]
fn flash_broken_unlock_sequence_is_no_command() {
    let mut flash = chip(0x11);
    flash.write_u8(0xAAA, 0xAA);
    flash.write_u8(0x555, 0x55);
    flash.write_u8(0xAAA, 0xA1);
    flash.write_u8(0x0100, 0x42);
    assert_eq!(flash.stored(0x0100), 0x11);
    assert_eq!(flash.read_u8(0x0100), 0x11);
}

#[test]
fn ring_buffer_keeps_the_newest_values() {
    let mut ring = RingBuf::<3>::new();
    assert_eq!(ring.size(), 3);
    assert_eq!(ring.get_from_back(0), None);
    for value in 1..=4u8 {
        ring.push(CommandWrite { address: value as u32, value });
    }
    assert_eq!(ring.get_from_back(0), Some(CommandWrite { address: 4, value: 4 }));
    assert_eq!(ring.get_from_back(1), Some(CommandWrite { address: 3, value: 3 }));
    assert_eq!(ring.get_from_back(2), Some(CommandWrite { address: 2, value: 2 }));
    // The index is taken modulo the size.
    assert_eq!(ring.get_from_back(3), Some(CommandWrite { address: 4, value: 4 }));
    ring.clear();
    assert_eq!(ring.get_from_back(0), None);
    assert_eq!(ring.get_from_back(2), None);
}

#[test]
fn ring_buffer_ends_with_the_values_pushed_last() {
    let mut ring = RingBuf::<4>::new();
    let a = CommandWrite { address: 1, value: 10 };
    let b = CommandWrite { address: 2, value: 20 };
    let c = CommandWrite { address: 3, value: 30 };
    assert!(ring.ends_with(&[]));
    assert!(!ring.ends_with(&[a]));
    ring.push(a);
    ring.push(b);
    ring.push(c);
    assert!(ring.ends_with(&[c]));
    assert!(ring.ends_with(&[b, c]));
    assert!(ring.ends_with(&[a, b, c]));
    assert!(!ring.ends_with(&[a, c]));
    assert!(!ring.ends_with(&[c, b]));
    // A pattern as long as the buffer never matches.
    ring.push(a);
    assert!(!ring.ends_with(&[a, b, c, a]));
    assert!(ring.ends_with(&[b, c, a]));
}
