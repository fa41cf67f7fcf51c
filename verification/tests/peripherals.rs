use emiu::flash::CHIP_CAPACITY;
use emiu::gpio::GpioButton;
use emiu::gpio::GpioButtonState;
use emiu::handheld::Handheld;
use emiu::handheld::OTP_SIZE;
use emiu::reg::U16Register;
use emiu::reg::U8Register;
use emiu::st2205u::addr_space::Region;
use emiu::st2205u::addr_space::St2205uAddressSpace;
use emiu::st2205u::bank;
use emiu::st2205u::base_timer;
use emiu::st2205u::dma;
use emiu::st2205u::gpio;
use emiu::st2205u::interrupt;
use emiu::st2205u::interrupt::Interrupt;
use emiu::st2205u::psg;
use emiu::st2205u::psg::Multiplicator;
use emiu::st2205u::psg::PsgChannel;
use emiu::st2205u::psg::PsgModeState;
use emiu::st2205u::psg::PsgVolume;
use emiu::st2205u::psg::Psgc;
use emiu::st2205u::timer::TimerBlocksState;
use emiu::st2205u::timer::TimerIndex;
use emiu::st2205u::vector;

fn space() -> St2205uAddressSpace {
    Handheld::new(&vec![0u8; OTP_SIZE], &vec![0u8; CHIP_CAPACITY]).unwrap().mcu.core.address_space
}

#[test]
fn byte_register_keeps_the_bits_of_its_mask() {
    let mut register = U8Register::new(0xFF, 0x0F);
    assert_eq!(register.get(), 0x0F);
    assert_eq!(register.read(), 0xFF);
    assert_eq!(register.mask(), 0x0F);
    register.set(0xA5);
    assert_eq!(register.get(), 0x05);
    assert_eq!(register.read(), 0xF5);
}

#[test]
fn word_register_is_two_byte_registers() {
    let mut register = U16Register::new(0xFFFF, 0x9FFF);
    assert_eq!(register.u16(), 0x9FFF);
    assert_eq!(register.mask_u16(), 0x9FFF);
    assert_eq!((register.l_mask(), register.h_mask()), (0xFF, 0x9F));
    register.set_u16(0x1234);
    assert_eq!((register.l(), register.h()), (0x34, 0x12));
    register.set_l(0xAB);
    register.set_h(0xFF);
    assert_eq!(register.u16(), 0x9FAB);
}

#[test]
fn bank_registers_after_power_on() {
    let space = space();
    assert_eq!(bank::brr(&space), 0xE000);
    assert_eq!(bank::prr(&space), 0x7000);
    assert_eq!(bank::irr(&space), 0x7000);
    assert_eq!(bank::drr(&space), 0x7800);
}

#[test]
fn bank_round_trip() {
    let mut space = space();
    for value in [0x0000u16, 0xFFFF, 0x1234, 0x8001, 0x7FFE, 0xA5A5] {
        bank::set_brr(&mut space, value);
        assert_eq!(bank::brr(&space), (value & 0x9FFF) | 0x6000);
        assert_eq!(bank::read_brrl(&space), (value & 0xFF) as u8);
        assert_eq!(bank::read_brrh(&space), (((value & 0x9FFF) | 0x6000) >> 8) as u8);
        bank::set_prr(&mut space, value);
        assert_eq!(bank::prr(&space), (value & 0x8FFF) | 0x7000);
        bank::set_irr(&mut space, value);
        assert_eq!(bank::irr(&space), (value & 0x8FFF) | 0x7000);
        bank::set_drr(&mut space, value);
        assert_eq!(bank::drr(&space), (value & 0x87FF) | 0x7800);
        assert_eq!(bank::read_drrl(&space), (value & 0xFF) as u8);
        assert_eq!(bank::read_drrh(&space), (((value & 0x87FF) | 0x7800) >> 8) as u8);
    }
    bank::write_prrl(&mut space, 0x21);
    bank::write_prrh(&mut space, 0x43);
    assert_eq!(bank::read_prrl(&space), 0x21);
    assert_eq!(bank::read_prrh(&space), 0x73);
    bank::write_irrh(&mut space, 0x85);
    bank::write_irrl(&mut space, 0x00);
    assert_eq!((bank::read_irrl(&space), bank::read_irrh(&space)), (0x00, 0xF5));
    bank::write_brrl(&mut space, 0x01);
    bank::write_brrh(&mut space, 0xFF);
    assert_eq!(bank::brr(&space), 0xFF01);
    bank::write_drrl(&mut space, 0x02);
    bank::write_drrh(&mut space, 0x00);
    assert_eq!(bank::drr(&space), 0x7802);
}

#[test]
fn bank_registers_are_reached_through_their_addresses() {
    let mut space = space();
    space.write_u8(0x32, 0x21);
    space.write_u8(0x33, 0xFF);
    assert_eq!(space.read_u8(0x32), 0x21);
    assert_eq!(space.read_u8(0x33), 0xFF);
    assert_eq!(bank::prr(&space), 0xFF21);
    assert_eq!(space.read_u8(0x37), 0xE0);
    // An address without a register reads zero and ignores writes.
    space.write_u8(0x7F, 0x55);
    assert_eq!(space.read_u8(0x7F), 0);
}

#[test]
fn address_partition_is_total() {
    let mut counts = [0usize; 5];
    for address in 0..=0xFFFFu16 {
        let index = match Region::containing(address) {
            Region::Registers => 0,
            Region::LowRam => 1,
            Region::BrrWindow => 2,
            Region::PrrWindow => 3,
            Region::DrrWindow => 4,
        };
        counts[index] += 1;
    }
    assert_eq!(counts, [0x80, 0x1F80, 0x2000, 0x4000, 0x8000]);
    assert_eq!(Region::containing(0x007F), Region::Registers);
    assert_eq!(Region::containing(0x0080), Region::LowRam);
    assert_eq!(Region::containing(0x1FFF), Region::LowRam);
    assert_eq!(Region::containing(0x2000), Region::BrrWindow);
    assert_eq!(Region::containing(0x3FFF), Region::BrrWindow);
    assert_eq!(Region::containing(0x4000), Region::PrrWindow);
    assert_eq!(Region::containing(0x7FFF), Region::PrrWindow);
    assert_eq!(Region::containing(0x8000), Region::DrrWindow);
}

#[test]
fn interrupt_window_follows_the_latch() {
    let mut otp = vec![0u8; OTP_SIZE];
    otp[0] = 0x11;
    let mut space = Handheld::new(&otp, &vec![0x22u8; CHIP_CAPACITY]).unwrap().mcu.core.address_space;
    // PRR shows the flash, IRR the boot ROM.
    bank::set_prr(&mut space, 0x0200);
    assert_eq!(space.read_u8(0x4000), 0x22);
    space.set_interrupted(true);
    assert!(space.interrupted());
    assert_eq!(space.read_u8(0x4000), 0x11);
    space.set_interrupted(false);
    assert_eq!(space.read_u8(0x4000), 0x22);
}

#[test]
fn interrupt_priority_is_the_lowest_bit() {
    let mut state = interrupt::State::new();
    assert_eq!(state.highest_priority_interrupt(), None);
    interrupt::write_ienal(&mut state, 0xFF);
    interrupt::write_ienah(&mut state, 0xFF);
    // Bit 13 does not exist and reads as 1.
    assert_eq!((interrupt::read_ienal(&state), interrupt::read_ienah(&state)), (0xFF, 0xFF));
    state.assert_interrupt(Interrupt::Rtc);
    assert_eq!(state.highest_priority_interrupt(), Some(Interrupt::Rtc));
    state.assert_interrupt(Interrupt::BaseTimer);
    assert_eq!(state.highest_priority_interrupt(), Some(Interrupt::BaseTimer));
    state.assert_interrupt(Interrupt::Timer1);
    state.assert_interrupt(Interrupt::Pcm);
    assert_eq!(state.highest_priority_interrupt(), Some(Interrupt::Timer1));
    assert_eq!((interrupt::read_ireql(&state), interrupt::read_ireqh(&state)), (0x44, 0xE0));
    state.clear_interrupt_request(Interrupt::Timer1);
    assert_eq!(state.highest_priority_interrupt(), Some(Interrupt::BaseTimer));
    // The firmware still sees the request that was dispatched.
    assert_eq!(interrupt::read_ireql(&state), 0x44);
    state.clear_interrupt_request(Interrupt::BaseTimer);
    assert_eq!(state.highest_priority_interrupt(), Some(Interrupt::Pcm));
    state.clear_interrupt_request(Interrupt::Pcm);
    state.clear_interrupt_request(Interrupt::Rtc);
    assert_eq!(state.highest_priority_interrupt(), None);
    state.assert_interrupt(Interrupt::Intx);
    assert_eq!(state.highest_priority_interrupt(), Some(Interrupt::Intx));
}

#[test]
fn interrupt_that_is_not_enabled_is_dropped() {
    let mut state = interrupt::State::new();
    state.assert_interrupt(Interrupt::Timer0);
    assert_eq!(state.highest_priority_interrupt(), None);
    assert_eq!(interrupt::read_ireql(&state), 0);
    interrupt::write_ienal(&mut state, 0x02);
    state.assert_interrupt(Interrupt::Timer0);
    state.assert_interrupt(Interrupt::Timer1);
    assert_eq!(state.highest_priority_interrupt(), Some(Interrupt::Timer0));
    assert_eq!(interrupt::read_ireql(&state), 0x02);
}

#[test]
fn writing_zero_bits_clears_visible_requests() {
    let mut state = interrupt::State::new();
    interrupt::write_ienal(&mut state, 0xFF);
    interrupt::write_ienah(&mut state, 0xFF);
    state.assert_interrupt(Interrupt::Timer0);
    state.assert_interrupt(Interrupt::LcdBuffer);
    state.assert_interrupt(Interrupt::Usb);
    state.assert_interrupt(Interrupt::SpiTxEmpty);
    interrupt::write_ireql(&mut state, 0x7F);
    assert_eq!(interrupt::read_ireql(&state), 0x02);
    interrupt::write_ireqh(&mut state, 0xEF);
    assert_eq!(interrupt::read_ireqh(&state), 0x21);
    // The dispatcher keeps its own copy.
    assert_eq!(state.highest_priority_interrupt(), Some(Interrupt::Timer0));
    state.set_interrupted(true);
    assert!(state.interrupted());
}

#[test]
fn interrupt_vectors() {
    assert_eq!(vector::interrupt_vector(Interrupt::Intx), 0x7FF8);
    assert_eq!(vector::interrupt_vector(Interrupt::Timer0), 0x7FF6);
    assert_eq!(vector::interrupt_vector(Interrupt::Timer3), 0x7FF0);
    assert_eq!(vector::interrupt_vector(Interrupt::PortATransition), 0x7FEE);
    assert_eq!(vector::interrupt_vector(Interrupt::BaseTimer), 0x7FEC);
    assert_eq!(vector::interrupt_vector(Interrupt::LcdBuffer), 0x7FEA);
    assert_eq!(vector::interrupt_vector(Interrupt::Usb), 0x7FE0);
    assert_eq!(vector::interrupt_vector(Interrupt::Pcm), 0x7FDC);
    assert_eq!(vector::interrupt_vector(Interrupt::Rtc), 0x7FDA);
    assert_eq!((vector::RESET, vector::BRK), (0x7FFC, 0x7FFE));
}

#[test]
fn base_timer_counts_at_8192_hz() {
    let mut timer = base_timer::State::new(16_000_000);
    let mut counter = 0u64;
    let mut elapsed = 0u64;
    while elapsed < 100_000 {
        elapsed += 7;
        timer.set_elapsed_ticks(elapsed);
        timer.update();
        assert_eq!(timer.counter, elapsed * 8192 / 16_000_000);
        assert!(timer.counter == counter || timer.counter == counter + 1);
        counter = timer.counter;
    }
    assert_eq!(counter, 51);
    // The first tick is due at cycle 1954, the next at 3907.
    let mut timer = base_timer::State::new(16_000_000);
    timer.set_elapsed_ticks(1953);
    timer.update();
    assert_eq!(timer.counter, 0);
    timer.set_elapsed_ticks(1954);
    timer.update();
    assert_eq!(timer.counter, 1);
    timer.set_elapsed_ticks(3906);
    timer.update();
    assert_eq!(timer.counter, 1);
    timer.set_elapsed_ticks(3907);
    timer.update();
    assert_eq!(timer.counter, 2);
    // An update counts one tick at most.
    timer.set_elapsed_ticks(1_000_000);
    timer.update();
    assert_eq!(timer.counter, 3);
}

#[test]
fn base_timer_raises_enabled_requests() {
    let mut timer = base_timer::State::new(8192);
    base_timer::write_bten(&mut timer, 0b0100_0010);
    assert_eq!(base_timer::read_bten(&timer), 0b0100_0010);
    let mut fired = Vec::new();
    for cycle in 1..=512u64 {
        timer.set_elapsed_ticks(cycle);
        if timer.update() {
            fired.push((cycle, base_timer::read_btreq(&timer)));
            base_timer::write_btreq(&mut timer, 0xFF);
            assert_eq!(base_timer::read_btreq(&timer), 0);
        }
    }
    // Request 6 fires at 2048 Hz, every 4 ticks; request 1 at 32 Hz, every 256.
    assert_eq!(fired.len(), 128);
    assert_eq!(fired[0], (4, 0b0100_0000));
    assert_eq!(fired[63], (256, 0b0100_0010));
    assert_eq!(fired[127], (512, 0b0100_0010));
    // Writing a 1 clears the request, a 0 leaves it.
    timer.set_elapsed_ticks(768);
    let mut more = 0;
    while timer.counter < 768 {
        if timer.update() {
            more += 1;
        }
    }
    assert_eq!(more, 64);
    assert_eq!(base_timer::read_btreq(&timer), 0b0100_0010);
    base_timer::write_btreq(&mut timer, 0b0000_0010);
    assert_eq!(base_timer::read_btreq(&timer), 0b0100_0000);
}

#[test]
fn base_timer_programmable_request() {
    let mut timer = base_timer::State::new(8192);
    base_timer::write_bten(&mut timer, 0x80);
    base_timer::write_btc(&mut timer, 64);
    assert_eq!(base_timer::read_btc(&timer), 64);
    let mut fired = 0;
    for cycle in 1..=1024u64 {
        timer.set_elapsed_ticks(cycle);
        if timer.update() {
            fired += 1;
            assert_eq!(cycle % 128, 0);
        }
    }
    assert_eq!(fired, 8);
    // With BTC at zero the request fires on every tick.
    base_timer::write_btc(&mut timer, 0);
    timer.set_elapsed_ticks(1025);
    assert!(timer.update());
}

#[test]
fn timers_count_overflow_and_reload() {
    let mut timers = TimerBlocksState::new();
    // Timer 1: counter 0xFFE, reload, SYSCK/2.
    timers.write_txcl(TimerIndex::T1, 0xFE);
    timers.write_txch(TimerIndex::T1, 0x8F);
    assert_eq!(timers.read_txcl(TimerIndex::T1), 0xFE);
    assert_eq!(timers.read_txch(TimerIndex::T1), 0x8F);
    // Timer 3: counter 0xFFF, no reload, SYSCK/4.
    timers.write_txcl(TimerIndex::T3, 0xFF);
    timers.write_txch(TimerIndex::T3, 0x1F);
    assert_eq!(timers.read_txch(TimerIndex::T3), 0x1F);
    timers.write_tien(0b1010);
    assert_eq!(timers.read_tien(), 0b1010);
    timers.set_elapsed_ticks(1);
    assert_eq!(timers.update(), 0);
    timers.set_elapsed_ticks(2);
    assert_eq!(timers.update(), 0);
    assert_eq!(timers.read_txcl(TimerIndex::T1), 0xFF);
    timers.set_elapsed_ticks(4);
    assert_eq!(timers.update(), 0b1010);
    // Timer 1 starts again at its reload value, timer 3 at zero.
    assert_eq!(timers.read_txcl(TimerIndex::T1), 0xFE);
    assert_eq!(timers.read_txch(TimerIndex::T1), 0x8F);
    assert_eq!(timers.read_txcl(TimerIndex::T3), 0x00);
    assert_eq!(timers.read_txch(TimerIndex::T3), 0x10);
    // A timer that is not enabled does not count.
    assert_eq!(timers.read_txcl(TimerIndex::T0), 0);
    // The clock sources 6 and 7 never count.
    timers.write_txch(TimerIndex::T1, 0x60);
    timers.set_elapsed_ticks(4096);
    assert_eq!(timers.update(), 0);
    assert_eq!(timers.read_txcl(TimerIndex::T1), 0xFE);
    assert_eq!(timers.read_txcl(TimerIndex::T3), 0x01);
}

#[test]
fn timer_clock_sources() {
    for (select, divisor) in [(0u8, 2u64), (1, 4), (2, 8), (3, 32), (4, 1024), (5, 4096)] {
        let mut timers = TimerBlocksState::new();
        timers.write_txch(TimerIndex::T0, select << 4);
        timers.write_tien(1);
        timers.set_elapsed_ticks(divisor);
        timers.update();
        assert_eq!(timers.read_txcl(TimerIndex::T0), 1);
        timers.set_elapsed_ticks(divisor + 1);
        timers.update();
        assert_eq!(timers.read_txcl(TimerIndex::T0), 1);
        timers.set_elapsed_ticks(divisor / 2);
        timers.update();
        assert_eq!(timers.read_txcl(TimerIndex::T0), 1);
    }
}

#[test]
fn ports_read_the_buttons_active_low() {
    let mut ports = gpio::State::new();
    assert_eq!(gpio::read_pa(&ports), 0xFF);
    assert_eq!(gpio::read_pb(&ports), 0xFF);
    let mut buttons = GpioButtonState::default();
    buttons.set(GpioButton::Up, true);
    buttons.set(GpioButton::Menu, true);
    buttons.set(GpioButton::Action, true);
    assert!(buttons.get(GpioButton::Menu));
    assert!(!buttons.get(GpioButton::Down));
    assert!(ports.update_gpio_inputs(Some(buttons)));
    assert_eq!(gpio::read_pa(&ports), !0b0010_0001);
    assert_eq!(gpio::read_pb(&ports), !0b0001_0000);
    // The same state again is no transition, and no update is none.
    assert!(!ports.update_gpio_inputs(Some(buttons)));
    assert!(!ports.update_gpio_inputs(None));
    // A change on port B alone is no transition of port A.
    buttons.set(GpioButton::Mute, true);
    buttons.set(GpioButton::Action, false);
    assert!(!ports.update_gpio_inputs(Some(buttons)));
    assert_eq!(gpio::read_pb(&ports), !0b0010_0000);
    buttons.set(GpioButton::UpsideDown, true);
    assert!(ports.update_gpio_inputs(Some(buttons)));
    assert_eq!(gpio::read_pa(&ports), !0b1010_0001);
}

#[test]
fn button_bits_are_frozen() {
    let order = [
        GpioButton::Up,
        GpioButton::Down,
        GpioButton::Left,
        GpioButton::Right,
        GpioButton::Power,
        GpioButton::Menu,
        GpioButton::UpsideUp,
        GpioButton::UpsideDown,
        GpioButton::ScreenTopLeft,
        GpioButton::ScreenTopRight,
        GpioButton::ScreenBottomLeft,
        GpioButton::ScreenBottomRight,
        GpioButton::Action,
        GpioButton::Mute,
    ];
    for (bit, button) in order.iter().enumerate() {
        let mut ports = gpio::State::new();
        let mut buttons = GpioButtonState::default();
        buttons.set(*button, true);
        ports.update_gpio_inputs(Some(buttons));
        let word = (!gpio::read_pa(&ports)) as u16 | (((!gpio::read_pb(&ports)) as u16) << 8);
        assert_eq!(word, 1 << bit);
    }
}

#[test]
fn port_registers_keep_what_is_written() {
    let mut ports = gpio::State::new();
    assert_eq!(gpio::read_pc(&ports), 0xFF);
    assert_eq!(gpio::read_pca(&ports), 0x00);
    assert_eq!(gpio::read_pmcr(&ports), 0x80);
    gpio::write_pc(&mut ports, 0x12);
    gpio::write_pd(&mut ports, 0x13);
    gpio::write_pe(&mut ports, 0x14);
    gpio::write_pf(&mut ports, 0x15);
    gpio::write_psc(&mut ports, 0x16);
    gpio::write_pse(&mut ports, 0x17);
    gpio::write_pca(&mut ports, 0x18);
    gpio::write_pcb(&mut ports, 0x19);
    gpio::write_pcc(&mut ports, 0x1A);
    gpio::write_pcd(&mut ports, 0x1B);
    gpio::write_pce(&mut ports, 0x1C);
    gpio::write_pcf(&mut ports, 0x1D);
    gpio::write_pfc(&mut ports, 0x1E);
    gpio::write_pfd(&mut ports, 0x1F);
    gpio::write_pmcr(&mut ports, 0x20);
    gpio::write_pcl(&mut ports, 0x21);
    assert_eq!(gpio::read_pc(&ports), 0x12);
    assert_eq!(gpio::read_pd(&ports), 0x13);
    assert_eq!(gpio::read_pe(&ports), 0x14);
    assert_eq!(gpio::read_pf(&ports), 0x15);
    assert_eq!(gpio::read_psc(&ports), 0x16);
    assert_eq!(gpio::read_pse(&ports), 0x17);
    assert_eq!(gpio::read_pca(&ports), 0x18);
    assert_eq!(gpio::read_pcb(&ports), 0x19);
    assert_eq!(gpio::read_pcc(&ports), 0x1A);
    assert_eq!(gpio::read_pcd(&ports), 0x1B);
    assert_eq!(gpio::read_pce(&ports), 0x1C);
    assert_eq!(gpio::read_pcf(&ports), 0x1D);
    assert_eq!(gpio::read_pfc(&ports), 0x1E);
    // Bit 0 of PFD does not exist and reads as 1.
    assert_eq!(gpio::read_pfd(&ports), 0x1F);
    assert_eq!(gpio::read_pmcr(&ports), 0x20);
    assert_eq!(gpio::read_pcl(&ports), 0x21);
    // Writes to the data registers of the ports A, B and L have no effect.
    gpio::write_pa(&mut ports, 0x00);
    gpio::write_pb(&mut ports, 0x00);
    gpio::write_pl(&mut ports, 0x00);
    assert_eq!(gpio::read_pa(&ports), 0xFF);
    assert_eq!(gpio::read_pb(&ports), 0xFF);
    assert_eq!(gpio::read_pl(&ports), 0xFF);
}

#[test]
fn dma_copies_between_ram_regions() {
    let mut space = space();
    bank::set_drr(&mut space, 0x0123);
    for i in 0..16u32 {
        space.write_u8(0x0200 + i, 0xA0 + i as u8);
    }
    // Source: RAM at 0x0200; destination: RAM at 0x0300.
    dma::write_dsel(&mut space, 0);
    dma::write_dptrl(&mut space, 0x00);
    dma::write_dptrh(&mut space, 0x02);
    dma::write_dbkrl(&mut space, 0x00);
    dma::write_dbkrh(&mut space, 0x80);
    dma::write_dsel(&mut space, 1);
    dma::write_dptrl(&mut space, 0x00);
    dma::write_dptrh(&mut space, 0x03);
    dma::write_dbkrl(&mut space, 0x00);
    dma::write_dbkrh(&mut space, 0x80);
    // The bits that do not exist read as 1.
    assert_eq!(dma::read_dsel(&mut space), 0xFD);
    assert_eq!(dma::read_dptrh(&mut space), 0x83);
    assert_eq!(dma::read_dbkrh(&mut space), 0xF8);
    // The source pointer returns to its start, the destination pointer stays.
    dma::write_dmod(&mut space, 0b0001);
    assert_eq!(dma::read_dmod(&mut space), 0xC1);
    dma::write_dcntl(&mut space, 16);
    assert_eq!(dma::read_dcntl(&mut space), 16);
    dma::write_dcnth(&mut space, 0);
    assert_eq!(dma::read_dcnth(&mut space), 0x80);
    for i in 0..16u32 {
        assert_eq!(space.read_u8(0x0300 + i), 0xA0 + i as u8);
    }
    assert_eq!(space.read_u8(0x0310), 0);
    assert_eq!((dma::read_dptrl(&mut space), dma::read_dptrh(&mut space)), (0x10, 0x83));
    dma::write_dsel(&mut space, 0);
    assert_eq!((dma::read_dptrl(&mut space), dma::read_dptrh(&mut space)), (0x00, 0x82));
    assert_eq!((dma::read_dbkrl(&mut space), dma::read_dbkrh(&mut space)), (0x00, 0xF8));
    // DRR is as before.
    assert_eq!(bank::drr(&space), 0x7923);
}

#[test]
fn dma_with_a_fixed_source_fills() {
    let mut space = space();
    space.write_u8(0x58, 0x00);
    space.write_u8(0x59, 0x02);
    space.write_u8(0x5B, 0x80);
    space.write_u8(0x5E, 1);
    space.write_u8(0x58, 0x80);
    space.write_u8(0x59, 0x02);
    space.write_u8(0x5B, 0x80);
    space.write_u8(0x5F, 0b0010);
    space.write_u8(0x0200, 0x5A);
    space.write_u8(0x5C, 4);
    space.write_u8(0x5D, 0);
    for i in 0..4u32 {
        assert_eq!(space.read_u8(0x0280 + i), 0x5A);
    }
    assert_eq!(space.read_u8(0x0284), 0);
    assert_eq!(space.read_u8(0x5C), 4);
}

#[test]
fn dma_reads_the_boot_rom() {
    let mut otp = vec![0u8; OTP_SIZE];
    for (i, byte) in otp.iter_mut().enumerate().take(8) {
        *byte = 0x10 + i as u8;
    }
    let mut space = Handheld::new(&otp, &vec![0u8; CHIP_CAPACITY]).unwrap().mcu.core.address_space;
    dma::write_dsel(&mut space, 1);
    dma::write_dptrh(&mut space, 0x04);
    dma::write_dbkrh(&mut space, 0x80);
    dma::write_dcntl(&mut space, 8);
    dma::write_dcnth(&mut space, 0);
    for i in 0..8u32 {
        assert_eq!(space.read_u8(0x0400 + i), 0x10 + i as u8);
    }
}

#[test]
fn sound_channels_queue_samples() {
    let mut sound = psg::State::new();
    assert_eq!(sound.read_psgm(), 0);
    assert_eq!(sound.read_psgxb(PsgChannel::Channel0), 0x20);
    for sample in 0..7u8 {
        sound.write_psgxa(PsgChannel::Channel0, sample);
    }
    assert_eq!(sound.read_psgxb(PsgChannel::Channel0), 0x27);
    sound.write_psgxa(PsgChannel::Channel0, 7);
    assert_eq!(sound.read_psgxb(PsgChannel::Channel0), 8);
    // Port B does nothing on a PCM channel.
    sound.write_psgxb(PsgChannel::Channel0, 1);
    assert_eq!(sound.read_psgxb(PsgChannel::Channel0), 8);
    sound.pop_current_sample(PsgChannel::Channel0);
    assert_eq!(sound.read_psgxb(PsgChannel::Channel0), 0x27);
    assert_eq!(sound.read_psgxb(PsgChannel::Channel1), 0x20);
}

#[test]
fn sound_modes_are_two_bits_each() {
    let mut sound = psg::State::new();
    sound.write_psgxa(PsgChannel::Channel2, 1);
    sound.write_psgm(0b11_00_01_11);
    assert_eq!(sound.read_psgm(), 0b11_00_01_11);
    // The channels start anew.
    assert_eq!(sound.read_psgxb(PsgChannel::Channel2), 0x20);
    // A tone channel reports nothing and ignores writes.
    assert_eq!(sound.read_psgxb(PsgChannel::Channel1), 0);
    sound.write_psgxa(PsgChannel::Channel1, 5);
    assert_eq!(sound.read_psgxb(PsgChannel::Channel1), 0);
    // The mode 2 selects a PCM channel.
    sound.write_psgm(0b10_10_10_10);
    assert_eq!(sound.read_psgm(), 0);
}

#[test]
fn sound_mixer_exact_values() {
    let mut sound = psg::State::new();
    assert_eq!(psg::MIX_DENOMINATOR, 129_024);
    // Four PCM channels at the middle level and volume zero.
    assert_eq!(sound.get_mix(), 0);
    sound.write_volx(PsgChannel::Channel0, 0xFF);
    assert_eq!(sound.read_volx(PsgChannel::Channel0), 63);
    // Channel 0 at PCM 255: (255 - 128) / 512 at full volume, over 4.
    sound.write_psgxa(PsgChannel::Channel0, 255);
    sound.pop_current_sample(PsgChannel::Channel0);
    assert_eq!(sound.get_mix(), 127 * 63);
    // An empty FIFO plays zero: (0 - 128) / 512.
    sound.pop_current_sample(PsgChannel::Channel0);
    assert_eq!(sound.get_mix(), -128 * 63);
    // ADPCM: differences add up and are limited to -255..=256.
    sound.write_psgm(0b11_11_11_11);
    for channel in [
        PsgChannel::Channel0,
        PsgChannel::Channel1,
        PsgChannel::Channel2,
        PsgChannel::Channel3,
    ] {
        sound.write_volx(channel, 63);
        sound.write_psgxa(channel, 200);
        sound.write_psgxa(channel, 100);
        sound.pop_current_sample(channel);
    }
    assert_eq!(sound.get_mix(), 4 * 2 * 200 * 63);
    for channel in [
        PsgChannel::Channel0,
        PsgChannel::Channel1,
        PsgChannel::Channel2,
        PsgChannel::Channel3,
    ] {
        sound.pop_current_sample(channel);
    }
    // Full scale.
    assert_eq!(sound.get_mix(), psg::MIX_DENOMINATOR);
    sound.write_psgxb(PsgChannel::Channel3, 255);
    sound.write_psgxb(PsgChannel::Channel3, 255);
    sound.write_psgxb(PsgChannel::Channel3, 1);
    sound.pop_current_sample(PsgChannel::Channel3);
    sound.pop_current_sample(PsgChannel::Channel3);
    assert_eq!(sound.get_mix(), 3 * 2 * 256 * 63 - 2 * 255 * 63);
    sound.pop_current_sample(PsgChannel::Channel3);
    assert_eq!(sound.get_mix(), 3 * 2 * 256 * 63 - 2 * 255 * 63);
}

#[test]
fn sound_mixer_stays_within_full_scale() {
    for mode in [0b00_00_00_00u8, 0b11_11_11_11, 0b11_00_11_00, 0b01_01_01_01] {
        for volume in [0u8, 1, 31, 63] {
            for (a, b) in [(255u8, 0u8), (0, 255), (255, 255), (0, 0), (128, 1)] {
                let mut sound = psg::State::new();
                sound.write_psgm(mode);
                for channel in [
                    PsgChannel::Channel0,
                    PsgChannel::Channel1,
                    PsgChannel::Channel2,
                    PsgChannel::Channel3,
                ] {
                    sound.write_volx(channel, volume);
                    sound.write_psgxa(channel, a);
                    sound.write_psgxa(channel, a);
                    sound.write_psgxb(channel, b);
                    sound.write_psgxb(channel, b);
                    for _ in 0..5 {
                        sound.pop_current_sample(channel);
                        let mix = sound.get_mix();
                        assert!(-psg::MIX_DENOMINATOR <= mix && mix <= psg::MIX_DENOMINATOR);
                    }
                }
            }
        }
    }
}

#[test]
fn sound_channel_defaults() {
    match PsgModeState::default_pcmdac() {
        PsgModeState::PcmDac { fifo, current_sample } => {
            assert!(fifo.is_empty());
            assert_eq!(current_sample, 128);
        },
        _ => panic!("not a PCM channel"),
    }
    match PsgModeState::default_adpcmdac() {
        PsgModeState::AdpcmDac { fifo, current_sample } => {
            assert!(fifo.is_empty());
            assert_eq!(current_sample, 0);
        },
        _ => panic!("not an ADPCM channel"),
    }
    let mut volume = PsgVolume::new();
    assert_eq!(volume.get_u8(), 0);
    volume.set_u8(0x7F);
    assert_eq!(volume.get_u8(), 0x3F);
}

#[test]
fn sound_control_register_packs_its_flags() {
    let mut control = Psgc::new();
    assert_eq!(control.read_psgc(), 0);
    control.write_psgc(0xFF);
    // The bits 1 and 2 do not exist.
    assert_eq!(control.read_psgc(), 0xF9);
    control.write_psgc(0b0101_0001);
    assert_eq!(control.read_psgc(), 0b0101_0001);
    assert!(control.mute && control.p0en && control.p2en && !control.p1en && !control.pcmen);
    let mut sound = psg::State::new();
    sound.write_psgc(0x18);
    assert_eq!(sound.read_psgc(), 0x18);
}

#[test]
fn multiplier_multiplies_16_by_8_bits() {
    let mut multiplier = Multiplicator::new();
    // The first write to MULH loads the high byte, the second the low byte.
    multiplier.write_mulh(0x12);
    multiplier.write_mulh(0x34);
    multiplier.write_mull(0x02);
    assert_eq!((multiplier.read_mulh(), multiplier.read_mull()), (0x24, 0x68));
    // The product keeps its low 16 bits.
    multiplier.write_mull(0xFF);
    assert_eq!((multiplier.read_mulh(), multiplier.read_mull()), (0x21, 0xCC));
    let mut sound = psg::State::new();
    sound.write_mulh(0x01);
    sound.write_mulh(0x00);
    sound.write_mull(0x03);
    assert_eq!((sound.read_mulh(), sound.read_mull()), (0x03, 0x00));
}

#[test]
fn sound_registers_are_reached_through_their_addresses() {
    let mut space = space();
    space.write_u8(0x18, 0x7F);
    assert_eq!(space.read_u8(0x18), 0x3F);
    space.write_u8(0x10, 0x80);
    assert_eq!(space.read_u8(0x11), 0x21);
    assert_eq!(space.read_u8(0x10), 0);
    space.write_u8(0x1F, 0x03);
    assert_eq!(space.read_u8(0x1F), 0x03);
    space.write_u8(0x1E, 0x01);
    assert_eq!(space.read_u8(0x1E), 0x01);
    space.write_u8(0x4D, 0x00);
    space.write_u8(0x4D, 0x07);
    space.write_u8(0x4C, 0x06);
    assert_eq!((space.read_u8(0x4D), space.read_u8(0x4C)), (0x00, 0x2A));
}

#[test]
fn timer_interrupt_clocks_its_sound_channel() {
    // LDA #$02; STA IENAL; LDA #$FF; STA T0CL; LDA #$0F; STA T0CH; LDA #$63;
    // STA PSG0A; LDA #$3F; STA VOL0; LDA #$01; STA TIEN; then no-operations.
    let mut program = vec![
        0xA9, 0x02, 0x85, 0x3E, 0xA9, 0xFF, 0x85, 0x20, 0xA9, 0x0F, 0x85, 0x21, 0xA9, 0x63, 0x85,
        0x10, 0xA9, 0x3F, 0x85, 0x18, 0xA9, 0x01, 0x85, 0x28,
    ];
    program.resize(64, 0xEA);
    let mut otp = vec![0u8; OTP_SIZE];
    otp[..program.len()].copy_from_slice(&program);
    otp[0x3FFC] = 0x00;
    otp[0x3FFD] = 0x40;
    otp[0x3FF6] = 0x00;
    otp[0x3FF7] = 0x60;
    let mut handheld = Handheld::new(&otp, &vec![0u8; CHIP_CAPACITY]).unwrap();
    let mcu = &mut handheld.mcu;
    let mut mix = 0;
    while !mcu.core.interrupted() {
        mix = mcu.step(None);
        assert!(mcu.core.cycles < 200);
    }
    // The timer overflowed: its channel plays the sample queued, and the
    // processor is in the handler of timer 0.
    assert_eq!(mix, (0x63 - 128) * 63);
    assert_eq!(mcu.core.registers.pc, 0x6000);
    assert_eq!(mcu.core.address_space.read_u8(0x11), 0x20);
    assert_eq!(mcu.core.address_space.read_u8(0x20), 0x00);
}

#[test]
fn port_a_transition_raises_its_interrupt() {
    let mut program = vec![0xA9, 0x20, 0x85, 0x3E];
    program.resize(64, 0xEA);
    let mut otp = vec![0u8; OTP_SIZE];
    otp[..program.len()].copy_from_slice(&program);
    otp[0x3FFC] = 0x00;
    otp[0x3FFD] = 0x40;
    otp[0x3FEE] = 0x34;
    otp[0x3FEF] = 0x52;
    let mut handheld = Handheld::new(&otp, &vec![0u8; CHIP_CAPACITY]).unwrap();
    let mcu = &mut handheld.mcu;
    mcu.step(None);
    mcu.step(None);
    let mut buttons = GpioButtonState::default();
    buttons.set(GpioButton::Mute, true);
    mcu.step(Some(buttons));
    assert!(!mcu.core.interrupted());
    buttons.set(GpioButton::Left, true);
    let pc = mcu.core.registers.pc;
    mcu.step(Some(buttons));
    assert!(mcu.core.interrupted());
    assert_eq!(mcu.core.registers.pc, 0x5234);
    assert_eq!(mcu.core.address_space.read_u8(0x00), !0b0000_0100);
    // The return address is that of the instruction after the one that ran.
    assert_eq!(mcu.core.address_space.read_u8(0x01FF), (pc + 1) as u8);
    // While the handler runs no other interrupt is dispatched.
    buttons.set(GpioButton::Left, false);
    mcu.step(Some(buttons));
    assert_eq!(mcu.core.registers.pc, 0x5235);
    // With interrupts disabled nothing is dispatched either.
    mcu.core.set_interrupted(false);
    mcu.core.flags.interrupt_disable = true;
    mcu.step(None);
    assert!(!mcu.core.interrupted());
    mcu.core.flags.interrupt_disable = false;
    mcu.step(None);
    assert!(mcu.core.interrupted());
    assert_eq!(mcu.core.registers.pc, 0x5234);
}
