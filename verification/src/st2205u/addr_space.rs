//! The address space of 16 bits that the processor core sees: the control
//! registers, the on-chip RAM and the three banked windows, through which
//! the bank registers reach the address space of the machine.

use vstd::prelude::*;
use crate::handheld::HandheldAddressSpace;
use crate::handheld::MachineView;
use crate::memory::AddressSpace;
use crate::reg::word;
use crate::st2205u::bank;
use crate::st2205u::base_timer;
use crate::st2205u::clock::Clock;
use crate::st2205u::dma;
use crate::st2205u::gpio;
use crate::st2205u::gpio::port_value;
use crate::st2205u::interrupt;
use crate::st2205u::psg;
use crate::st2205u::psg::Psgc;
use crate::st2205u::psg::PsgChannel;
use crate::st2205u::psg::PsgView;
use crate::st2205u::timer;
use crate::st2205u::timer::TimerIndex;
use crate::st2205u::wdc_65c02::interrupt::HandlesInterrupt;

verus! {

/// Number of bytes of on-chip RAM.
pub const RAM_SIZE: usize = 0x8000;

/// The first address that is no control register.
pub const REGISTERS_END: u16 = 0x0080;

/// The first address of the window of BRR.
pub const BRR_START: u16 = 0x2000;

/// The first address of the window of PRR, or of IRR while an interrupt
/// is serviced.
pub const PRR_START: u16 = 0x4000;

/// The first address of the window of DRR.
pub const DRR_START: u16 = 0x8000;

/// The number of bytes in the window of BRR. BRR counts in units of it.
pub const BRR_WINDOW: u16 = 0x2000;

/// The number of bytes in the window of PRR. PRR and IRR count in units of it.
pub const PRR_WINDOW: u16 = 0x4000;

/// The number of bytes in the window of DRR. DRR counts in units of it.
pub const DRR_WINDOW: u16 = 0x8000;

/// From this value on a bank register selects the on-chip RAM: its bit 15.
pub const BANK_RAM: u16 = 0x8000;

/// Port A data.
pub const PA: u16 = 0x0000;

/// Port B data.
pub const PB: u16 = 0x0001;

/// Port C data.
pub const PC: u16 = 0x0002;

/// Port D data.
pub const PD: u16 = 0x0003;

/// Port E data.
pub const PE: u16 = 0x0004;

/// Port F data.
pub const PF: u16 = 0x0005;

/// Port C type select.
pub const PSC: u16 = 0x0006;

/// Port E type select.
pub const PSE: u16 = 0x0007;

/// Port A direction.
pub const PCA: u16 = 0x0008;

/// Port B direction.
pub const PCB: u16 = 0x0009;

/// Port C direction.
pub const PCC: u16 = 0x000A;

/// Port D direction.
pub const PCD: u16 = 0x000B;

/// Port E direction.
pub const PCE: u16 = 0x000C;

/// Port F direction.
pub const PCF: u16 = 0x000D;

/// Port C function select.
pub const PFC: u16 = 0x000E;

/// Port D function select.
pub const PFD: u16 = 0x000F;

/// Data port A of sound channel 0.
pub const PSG0A: u16 = 0x0010;

/// Data port B of sound channel 0.
pub const PSG0B: u16 = 0x0011;

/// Data port A of sound channel 1.
pub const PSG1A: u16 = 0x0012;

/// Data port B of sound channel 1.
pub const PSG1B: u16 = 0x0013;

/// Data port A of sound channel 2.
pub const PSG2A: u16 = 0x0014;

/// Data port B of sound channel 2.
pub const PSG2B: u16 = 0x0015;

/// Data port A of sound channel 3.
pub const PSG3A: u16 = 0x0016;

/// Data port B of sound channel 3.
pub const PSG3B: u16 = 0x0017;

/// Volume of sound channel 0.
pub const VOL0: u16 = 0x0018;

/// Volume of sound channel 1.
pub const VOL1: u16 = 0x0019;

/// Volume of sound channel 2.
pub const VOL2: u16 = 0x001A;

/// Volume of sound channel 3.
pub const VOL3: u16 = 0x001B;

/// Sound generator control.
pub const PSGC: u16 = 0x001E;

/// Sound generator modes.
pub const PSGM: u16 = 0x001F;

/// Timer 0 control, low byte.
pub const T0CL: u16 = 0x0020;

/// Timer 0 control, high byte.
pub const T0CH: u16 = 0x0021;

/// Timer 1 control, low byte.
pub const T1CL: u16 = 0x0022;

/// Timer 1 control, high byte.
pub const T1CH: u16 = 0x0023;

/// Timer 2 control, low byte.
pub const T2CL: u16 = 0x0024;

/// Timer 2 control, high byte.
pub const T2CH: u16 = 0x0025;

/// Timer 3 control, low byte.
pub const T3CL: u16 = 0x0026;

/// Timer 3 control, high byte.
pub const T3CH: u16 = 0x0027;

/// Timer enable.
pub const TIEN: u16 = 0x0028;

/// Base timer enable.
pub const BTEN: u16 = 0x002A;

/// Base timer requests.
pub const BTREQ: u16 = 0x002B;

/// Base timer programmable frequency.
pub const BTC: u16 = 0x002C;

/// Interrupt bank register, low byte.
pub const IRRL: u16 = 0x0030;

/// Interrupt bank register, high byte.
pub const IRRH: u16 = 0x0031;

/// Program bank register, low byte.
pub const PRRL: u16 = 0x0032;

/// Program bank register, high byte.
pub const PRRH: u16 = 0x0033;

/// Data bank register, low byte.
pub const DRRL: u16 = 0x0034;

/// Data bank register, high byte.
pub const DRRH: u16 = 0x0035;

/// Base bank register, low byte.
pub const BRRL: u16 = 0x0036;

/// Base bank register, high byte.
pub const BRRH: u16 = 0x0037;

/// Port miscellaneous control.
pub const PMCR: u16 = 0x003A;

/// Interrupt requests, low byte.
pub const IREQL: u16 = 0x003C;

/// Interrupt requests, high byte.
pub const IREQH: u16 = 0x003D;

/// Interrupt enable, low byte.
pub const IENAL: u16 = 0x003E;

/// Interrupt enable, high byte.
pub const IENAH: u16 = 0x003F;

/// Multiplier, low byte.
pub const MULL: u16 = 0x004C;

/// Multiplier, high byte.
pub const MULH: u16 = 0x004D;

/// Port L data.
pub const PL: u16 = 0x004E;

/// Port L direction.
pub const PCL: u16 = 0x004F;

/// DMA pointer, low byte.
pub const DPTRL: u16 = 0x0058;

/// DMA pointer, high byte.
pub const DPTRH: u16 = 0x0059;

/// DMA bank, low byte.
pub const DBKRL: u16 = 0x005A;

/// DMA bank, high byte.
pub const DBKRH: u16 = 0x005B;

/// DMA length, low byte.
pub const DCNTL: u16 = 0x005C;

/// DMA length, high byte; a write starts the transfer.
pub const DCNTH: u16 = 0x005D;

/// DMA register select.
pub const DSEL: u16 = 0x005E;

/// DMA mode.
pub const DMOD: u16 = 0x005F;


/// The parts of the processor's address space.
#[derive(Clone, Copy, Debug, PartialEq, Eq, Structural)]
pub enum Region {
    /// `0x0000..=0x007F`: the control registers.
    Registers,
    /// `0x0080..=0x1FFF`: the low on-chip RAM.
    LowRam,
    /// `0x2000..=0x3FFF`: the window of BRR.
    BrrWindow,
    /// `0x4000..=0x7FFF`: the window of PRR, or of IRR while an interrupt is serviced.
    PrrWindow,
    /// `0x8000..=0xFFFF`: the window of DRR.
    DrrWindow,
}

impl Region {
    /// Whether `address` lies in the region.
    pub open spec fn holds(self, address: u16) -> bool {
        match self {
            Region::Registers => address < REGISTERS_END,
            Region::LowRam => REGISTERS_END <= address < BRR_START,
            Region::BrrWindow => BRR_START <= address < PRR_START,
            Region::PrrWindow => PRR_START <= address < DRR_START,
            Region::DrrWindow => DRR_START <= address,
        }
    }

    /// The region that `address` lies in.
    pub open spec fn of(address: u16) -> Region {
        if address < REGISTERS_END {
            Region::Registers
        } else if address < BRR_START {
            Region::LowRam
        } else if address < PRR_START {
            Region::BrrWindow
        } else if address < DRR_START {
            Region::PrrWindow
        } else {
            Region::DrrWindow
        }
    }

    /// The region that `address` lies in.
    pub fn containing(address: u16) -> (region: Region)
        ensures
            region == Self::of(address),
            region.holds(address),
    {
        if address < REGISTERS_END {
            Region::Registers
        } else if address < BRR_START {
            Region::LowRam
        } else if address < PRR_START {
            Region::BrrWindow
        } else if address < DRR_START {
            Region::PrrWindow
        } else {
            Region::DrrWindow
        }
    }
}

/// Every address of 16 bits lies in exactly one region.
pub proof fn lemma_partition_total(address: u16)
    ensures
        Region::of(address).holds(address),
        forall|region: Region| region.holds(address) ==> region == Region::of(address),
{
}

/// What an address outside the control registers reaches.
pub enum Target {
    /// The byte of on-chip RAM with this index.
    Ram(int),
    /// This address of the machine.
    Machine(u32),
}

/// The address space of the microcontroller as contracts see it.
pub struct SpaceView {
    pub machine: MachineView,
    pub ram: Seq<u8>,
    pub banks: bank::State,
    pub dma: dma::State,
    pub gpio: gpio::State,
    pub base_timer: base_timer::State,
    pub timer: timer::TimerBlocksState,
    pub interrupt: interrupt::State,
    pub psg: PsgView,
}

impl SpaceView {
    /// What a read of the control register at `address` returns. A read
    /// of an address without a register returns zero.
    #[verifier::opaque]
    pub open spec fn register_value(self, address: u16) -> u8 {
        if address == PA {
            port_value(0, self.gpio.last_state) as u8
        } else if address == PB {
            port_value(8, self.gpio.last_state) as u8
        } else if address == PC {
            self.gpio.pc.read_ones()
        } else if address == PD {
            self.gpio.pd.read_ones()
        } else if address == PE {
            self.gpio.pe.read_ones()
        } else if address == PF {
            self.gpio.pf.read_ones()
        } else if address == PSC {
            self.gpio.psc.read_ones()
        } else if address == PSE {
            self.gpio.pse.read_ones()
        } else if address == PCA {
            self.gpio.pca.read_ones()
        } else if address == PCB {
            self.gpio.pcb.read_ones()
        } else if address == PCC {
            self.gpio.pcc.read_ones()
        } else if address == PCD {
            self.gpio.pcd.read_ones()
        } else if address == PCE {
            self.gpio.pce.read_ones()
        } else if address == PCF {
            self.gpio.pcf.read_ones()
        } else if address == PFC {
            self.gpio.pfc.read_ones()
        } else if address == PFD {
            self.gpio.pfd.read_ones()
        } else if address == PSG0A {
            0
        } else if address == PSG0B {
            self.psg.channels[0].status() as u8
        } else if address == PSG1A {
            0
        } else if address == PSG1B {
            self.psg.channels[1].status() as u8
        } else if address == PSG2A {
            0
        } else if address == PSG2B {
            self.psg.channels[2].status() as u8
        } else if address == PSG3A {
            0
        } else if address == PSG3B {
            self.psg.channels[3].status() as u8
        } else if address == VOL0 {
            self.psg.volumes[0]
        } else if address == VOL1 {
            self.psg.volumes[1]
        } else if address == VOL2 {
            self.psg.volumes[2]
        } else if address == VOL3 {
            self.psg.volumes[3]
        } else if address == PSGC {
            self.psg.psgc.value() as u8
        } else if address == PSGM {
            self.psg.psgm() as u8
        } else if address == T0CL {
            self.timer.get(TimerIndex::T0).low()
        } else if address == T0CH {
            self.timer.get(TimerIndex::T0).high()
        } else if address == T1CL {
            self.timer.get(TimerIndex::T1).low()
        } else if address == T1CH {
            self.timer.get(TimerIndex::T1).high()
        } else if address == T2CL {
            self.timer.get(TimerIndex::T2).low()
        } else if address == T2CH {
            self.timer.get(TimerIndex::T2).high()
        } else if address == T3CL {
            self.timer.get(TimerIndex::T3).low()
        } else if address == T3CH {
            self.timer.get(TimerIndex::T3).high()
        } else if address == TIEN {
            self.timer.tien()
        } else if address == BTEN {
            self.base_timer.bten.read_ones()
        } else if address == BTREQ {
            self.base_timer.btreq.read_ones()
        } else if address == BTC {
            self.base_timer.btc.read_ones()
        } else if address == IRRL {
            self.banks.irr.read_l_ones()
        } else if address == IRRH {
            self.banks.irr.read_h_ones()
        } else if address == PRRL {
            self.banks.prr.read_l_ones()
        } else if address == PRRH {
            self.banks.prr.read_h_ones()
        } else if address == DRRL {
            self.banks.drr.read_l_ones()
        } else if address == DRRH {
            self.banks.drr.read_h_ones()
        } else if address == BRRL {
            self.banks.brr.read_l_ones()
        } else if address == BRRH {
            self.banks.brr.read_h_ones()
        } else if address == PMCR {
            self.gpio.pmcr.read_ones()
        } else if address == IREQL {
            self.interrupt.ireq.read_l_ones()
        } else if address == IREQH {
            self.interrupt.ireq.read_h_ones()
        } else if address == IENAL {
            self.interrupt.iena.read_l_ones()
        } else if address == IENAH {
            self.interrupt.iena.read_h_ones()
        } else if address == MULL {
            self.psg.multiplicator.external_mull
        } else if address == MULH {
            self.psg.multiplicator.external_mulh
        } else if address == PL {
            self.gpio.pl.read_ones()
        } else if address == PCL {
            self.gpio.pcl.read_ones()
        } else if address == DPTRL {
            self.dma.dptrl()
        } else if address == DPTRH {
            self.dma.dptrh()
        } else if address == DBKRL {
            self.dma.dbkrl()
        } else if address == DBKRH {
            self.dma.dbkrh()
        } else if address == DCNTL {
            self.dma.dcntl()
        } else if address == DCNTH {
            self.dma.dcnth()
        } else if address == DSEL {
            self.dma.dsel.read_ones()
        } else if address == DMOD {
            self.dma.dmod.read_ones()
        } else {
            0
        }
    }

    /// The address space after a write of `value` to the control register
    /// at `address`. A write to an address without a register is ignored.
    #[verifier::opaque]
    pub open spec fn after_register_write(self, address: u16, value: u8) -> SpaceView {
        if address == PA {
            self
        } else if address == PB {
            self
        } else if address == PC {
            SpaceView { gpio: gpio::State { pc: self.gpio.pc.with(value), ..self.gpio }, ..self }
        } else if address == PD {
            SpaceView { gpio: gpio::State { pd: self.gpio.pd.with(value), ..self.gpio }, ..self }
        } else if address == PE {
            SpaceView { gpio: gpio::State { pe: self.gpio.pe.with(value), ..self.gpio }, ..self }
        } else if address == PF {
            SpaceView { gpio: gpio::State { pf: self.gpio.pf.with(value), ..self.gpio }, ..self }
        } else if address == PSC {
            SpaceView { gpio: gpio::State { psc: self.gpio.psc.with(value), ..self.gpio }, ..self }
        } else if address == PSE {
            SpaceView { gpio: gpio::State { pse: self.gpio.pse.with(value), ..self.gpio }, ..self }
        } else if address == PCA {
            SpaceView { gpio: gpio::State { pca: self.gpio.pca.with(value), ..self.gpio }, ..self }
        } else if address == PCB {
            SpaceView { gpio: gpio::State { pcb: self.gpio.pcb.with(value), ..self.gpio }, ..self }
        } else if address == PCC {
            SpaceView { gpio: gpio::State { pcc: self.gpio.pcc.with(value), ..self.gpio }, ..self }
        } else if address == PCD {
            SpaceView { gpio: gpio::State { pcd: self.gpio.pcd.with(value), ..self.gpio }, ..self }
        } else if address == PCE {
            SpaceView { gpio: gpio::State { pce: self.gpio.pce.with(value), ..self.gpio }, ..self }
        } else if address == PCF {
            SpaceView { gpio: gpio::State { pcf: self.gpio.pcf.with(value), ..self.gpio }, ..self }
        } else if address == PFC {
            SpaceView { gpio: gpio::State { pfc: self.gpio.pfc.with(value), ..self.gpio }, ..self }
        } else if address == PFD {
            SpaceView { gpio: gpio::State { pfd: self.gpio.pfd.with(value), ..self.gpio }, ..self }
        } else if address == PSG0A {
            SpaceView { psg: self.psg.with_channel(0, self.psg.channels[0].after_a(value)), ..self }
        } else if address == PSG0B {
            SpaceView { psg: self.psg.with_channel(0, self.psg.channels[0].after_b(value)), ..self }
        } else if address == PSG1A {
            SpaceView { psg: self.psg.with_channel(1, self.psg.channels[1].after_a(value)), ..self }
        } else if address == PSG1B {
            SpaceView { psg: self.psg.with_channel(1, self.psg.channels[1].after_b(value)), ..self }
        } else if address == PSG2A {
            SpaceView { psg: self.psg.with_channel(2, self.psg.channels[2].after_a(value)), ..self }
        } else if address == PSG2B {
            SpaceView { psg: self.psg.with_channel(2, self.psg.channels[2].after_b(value)), ..self }
        } else if address == PSG3A {
            SpaceView { psg: self.psg.with_channel(3, self.psg.channels[3].after_a(value)), ..self }
        } else if address == PSG3B {
            SpaceView { psg: self.psg.with_channel(3, self.psg.channels[3].after_b(value)), ..self }
        } else if address == VOL0 {
            SpaceView { psg: PsgView { volumes: self.psg.volumes.update(0, (value % 64) as u8), ..self.psg }, ..self }
        } else if address == VOL1 {
            SpaceView { psg: PsgView { volumes: self.psg.volumes.update(1, (value % 64) as u8), ..self.psg }, ..self }
        } else if address == VOL2 {
            SpaceView { psg: PsgView { volumes: self.psg.volumes.update(2, (value % 64) as u8), ..self.psg }, ..self }
        } else if address == VOL3 {
            SpaceView { psg: PsgView { volumes: self.psg.volumes.update(3, (value % 64) as u8), ..self.psg }, ..self }
        } else if address == PSGC {
            SpaceView { psg: PsgView { psgc: Psgc::of_value(value), ..self.psg }, ..self }
        } else if address == PSGM {
            SpaceView { psg: self.psg.with_psgm(value), ..self }
        } else if address == T0CL {
            SpaceView { timer: self.timer.with(TimerIndex::T0, self.timer.get(TimerIndex::T0).with_low(value)), ..self }
        } else if address == T0CH {
            SpaceView { timer: self.timer.with(TimerIndex::T0, self.timer.get(TimerIndex::T0).with_high(value)), ..self }
        } else if address == T1CL {
            SpaceView { timer: self.timer.with(TimerIndex::T1, self.timer.get(TimerIndex::T1).with_low(value)), ..self }
        } else if address == T1CH {
            SpaceView { timer: self.timer.with(TimerIndex::T1, self.timer.get(TimerIndex::T1).with_high(value)), ..self }
        } else if address == T2CL {
            SpaceView { timer: self.timer.with(TimerIndex::T2, self.timer.get(TimerIndex::T2).with_low(value)), ..self }
        } else if address == T2CH {
            SpaceView { timer: self.timer.with(TimerIndex::T2, self.timer.get(TimerIndex::T2).with_high(value)), ..self }
        } else if address == T3CL {
            SpaceView { timer: self.timer.with(TimerIndex::T3, self.timer.get(TimerIndex::T3).with_low(value)), ..self }
        } else if address == T3CH {
            SpaceView { timer: self.timer.with(TimerIndex::T3, self.timer.get(TimerIndex::T3).with_high(value)), ..self }
        } else if address == TIEN {
            SpaceView { timer: self.timer.with_tien(value), ..self }
        } else if address == BTEN {
            SpaceView { base_timer: base_timer::State { bten: self.base_timer.bten.with(value), ..self.base_timer }, ..self }
        } else if address == BTREQ {
            SpaceView { base_timer: base_timer::State { btreq: self.base_timer.btreq.with(self.base_timer.btreq.val & !value), ..self.base_timer }, ..self }
        } else if address == BTC {
            SpaceView { base_timer: base_timer::State { btc: self.base_timer.btc.with(value), ..self.base_timer }, ..self }
        } else if address == IRRL {
            SpaceView { banks: bank::State { irr: self.banks.irr.with_l(value), ..self.banks }, ..self }
        } else if address == IRRH {
            SpaceView { banks: bank::State { irr: self.banks.irr.with_h(value), ..self.banks }, ..self }
        } else if address == PRRL {
            SpaceView { banks: bank::State { prr: self.banks.prr.with_l(value), ..self.banks }, ..self }
        } else if address == PRRH {
            SpaceView { banks: bank::State { prr: self.banks.prr.with_h(value), ..self.banks }, ..self }
        } else if address == DRRL {
            SpaceView { banks: bank::State { drr: self.banks.drr.with_l(value), ..self.banks }, ..self }
        } else if address == DRRH {
            SpaceView { banks: bank::State { drr: self.banks.drr.with_h(value), ..self.banks }, ..self }
        } else if address == BRRL {
            SpaceView { banks: bank::State { brr: self.banks.brr.with_l(value), ..self.banks }, ..self }
        } else if address == BRRH {
            SpaceView { banks: bank::State { brr: self.banks.brr.with_h(value), ..self.banks }, ..self }
        } else if address == PMCR {
            SpaceView { gpio: gpio::State { pmcr: self.gpio.pmcr.with(value), ..self.gpio }, ..self }
        } else if address == IREQL {
            SpaceView { interrupt: interrupt::State { ireq: self.interrupt.ireq.with_l(self.interrupt.ireq.l.val & value), ..self.interrupt }, ..self }
        } else if address == IREQH {
            SpaceView { interrupt: interrupt::State { ireq: self.interrupt.ireq.with_h(self.interrupt.ireq.h.val & value), ..self.interrupt }, ..self }
        } else if address == IENAL {
            SpaceView { interrupt: interrupt::State { iena: self.interrupt.iena.with_l(value), ..self.interrupt }, ..self }
        } else if address == IENAH {
            SpaceView { interrupt: interrupt::State { iena: self.interrupt.iena.with_h(value), ..self.interrupt }, ..self }
        } else if address == MULL {
            SpaceView { psg: PsgView { multiplicator: self.psg.multiplicator.with_mull(value), ..self.psg }, ..self }
        } else if address == MULH {
            SpaceView { psg: PsgView { multiplicator: self.psg.multiplicator.with_mulh(value), ..self.psg }, ..self }
        } else if address == PL {
            self
        } else if address == PCL {
            SpaceView { gpio: gpio::State { pcl: self.gpio.pcl.with(value), ..self.gpio }, ..self }
        } else if address == DPTRL {
            SpaceView { dma: self.dma.with_dptrl(value), ..self }
        } else if address == DPTRH {
            SpaceView { dma: self.dma.with_dptrh(value), ..self }
        } else if address == DBKRL {
            SpaceView { dma: self.dma.with_dbkrl(value), ..self }
        } else if address == DBKRH {
            SpaceView { dma: self.dma.with_dbkrh(value), ..self }
        } else if address == DCNTL {
            SpaceView { dma: self.dma.with_dcntl(value), ..self }
        } else if address == DCNTH {
            (SpaceView { dma: self.dma.with_dcnth(value), ..self }).after_dma()
        } else if address == DSEL {
            SpaceView { dma: dma::State { dsel: self.dma.dsel.with(value), ..self.dma }, ..self }
        } else if address == DMOD {
            SpaceView { dma: dma::State { dmod: self.dma.dmod.with(value), ..self.dma }, ..self }
        } else {
            self
        }
    }

    /// The bank register that maps `address`, as the window sees it, and
    /// the size of its window.
    pub open spec fn bank(self, address: u16) -> (u16, u16) {
        match Region::of(address) {
            Region::BrrWindow => (self.banks.brr.read_ones(), BRR_WINDOW),
            Region::PrrWindow => if self.interrupt.interrupted {
                (self.banks.irr.read_ones(), PRR_WINDOW)
            } else {
                (self.banks.prr.read_ones(), PRR_WINDOW)
            },
            _ => (self.banks.drr.read_ones(), DRR_WINDOW),
        }
    }

    /// What `address`, which is no control register, reaches: the low
    /// RAM itself; through a window the on-chip RAM where bit 15 of the
    /// bank register is set, and else the machine address made of the
    /// bank register, in units of the window, and the place in the window.
    pub open spec fn target(self, address: u16) -> Target {
        if address < BRR_START {
            Target::Ram(address as int % (RAM_SIZE as int))
        } else {
            let (register, window) = self.bank(address);
            if register >= BANK_RAM {
                Target::Ram(address as int % (RAM_SIZE as int))
            } else {
                Target::Machine((register * window + address % window) as u32)
            }
        }
    }

    /// What a read of `address`, which is no control register, returns.
    pub open spec fn memory_value(self, address: u16) -> u8 {
        match self.target(address) {
            Target::Ram(index) => self.ram[index],
            Target::Machine(machine_address) => self.machine.read_value(machine_address),
        }
    }

    /// The address space after a read of `address`, which is no control register.
    pub open spec fn after_memory_read(self, address: u16) -> SpaceView {
        match self.target(address) {
            Target::Ram(index) => self,
            Target::Machine(machine_address) => SpaceView {
                machine: self.machine.after_read(machine_address),
                ..self
            },
        }
    }

    /// The address space after a write of `value` to `address`, which is
    /// no control register.
    pub open spec fn after_memory_write(self, address: u16, value: u8) -> SpaceView {
        match self.target(address) {
            Target::Ram(index) => SpaceView { ram: self.ram.update(index, value), ..self },
            Target::Machine(machine_address) => SpaceView {
                machine: self.machine.after_write(machine_address, value),
                ..self
            },
        }
    }

    /// The 16 bits of `address` that the microcontroller decodes.
    pub open spec fn decoded(address: u32) -> u16 {
        (address % 0x10000) as u16
    }

    /// What a read of `address` returns.
    #[verifier::opaque]
    pub open spec fn read_value(self, address: u32) -> u8 {
        let decoded = Self::decoded(address);
        if decoded < REGISTERS_END {
            self.register_value(decoded)
        } else {
            self.memory_value(decoded)
        }
    }

    /// The address space after a read of `address`. A read of a control
    /// register changes nothing.
    #[verifier::opaque]
    pub open spec fn after_read(self, address: u32) -> SpaceView {
        let decoded = Self::decoded(address);
        if decoded < REGISTERS_END {
            self
        } else {
            self.after_memory_read(decoded)
        }
    }

    /// The address space after a write of `value` to `address`.
    #[verifier::opaque]
    pub open spec fn after_write(self, address: u32, value: u8) -> SpaceView {
        let decoded = Self::decoded(address);
        if decoded < REGISTERS_END {
            self.after_register_write(decoded, value)
        } else {
            self.after_memory_write(decoded, value)
        }
    }

    /// The little-endian word read at `address`: the low byte first.
    pub open spec fn read_word(self, address: u32) -> u16 {
        word(
            self.read_value(address),
            self.after_read(address).read_value((address + 1) as u32),
        )
    }

    /// The address space after the two reads of a word at `address`.
    pub open spec fn after_read_word(self, address: u32) -> SpaceView {
        self.after_read(address).after_read((address + 1) as u32)
    }

    /// The address space with the interrupt latch set to `interrupted`.
    pub open spec fn with_interrupted(self, interrupted: bool) -> SpaceView {
        SpaceView { interrupt: interrupt::State { interrupted, ..self.interrupt }, ..self }
    }

    /// The address space after it was told the elapsed cycles of both clocks.
    pub open spec fn with_clocks(self, oscx: u64, sysck: u64) -> SpaceView {
        SpaceView {
            base_timer: base_timer::State { elapsed_ticks: oscx, ..self.base_timer },
            timer: timer::TimerBlocksState { elapsed_ticks: sysck, ..self.timer },
            ..self
        }
    }
}

/// An access to the low on-chip RAM reads and writes the byte of RAM with
/// the index of the address, whatever the bank registers hold, and a
/// read changes nothing.
pub proof fn lemma_low_ram_access(mem: SpaceView, address: u16, value: u8)
    requires
        REGISTERS_END <= address < BRR_START,
    ensures
        mem.read_value(address as u32) == mem.ram[address as int],
        mem.after_read(address as u32) == mem,
        mem.after_write(address as u32, value) == (SpaceView {
            ram: mem.ram.update(address as int, value),
            ..mem
        }),
{
    reveal(SpaceView::read_value);
    reveal(SpaceView::after_read);
    reveal(SpaceView::after_write);
}

/// The address space of the microcontroller. It has 16 bits, and reaches
/// the larger address space of the machine through its bank registers.
pub struct St2205uAddressSpace {
    pub machine_addr_space: HandheldAddressSpace,
    pub ram: Vec<u8>,
    pub banks: bank::State,
    pub dma: dma::State,
    pub gpio: gpio::State,
    pub base_timer: base_timer::State,
    pub timer: timer::TimerBlocksState,
    pub interrupt: interrupt::State,
    pub psg: psg::State,
}

impl View for St2205uAddressSpace {
    type V = SpaceView;

    open spec fn view(&self) -> SpaceView {
        SpaceView {
            machine: self.machine_addr_space@,
            ram: self.ram@,
            banks: self.banks,
            dma: self.dma,
            gpio: self.gpio,
            base_timer: self.base_timer,
            timer: self.timer,
            interrupt: self.interrupt,
            psg: self.psg@,
        }
    }
}

impl St2205uAddressSpace {
    /// The invariant of the address space and of all its parts.
    pub open spec fn inv(&self) -> bool {
        &&& self.machine_addr_space.inv()
        &&& self.ram@.len() == RAM_SIZE
        &&& self.banks.wf()
        &&& self.dma.wf()
        &&& self.base_timer.wf()
        &&& self.timer.wf()
        &&& self.interrupt.wf()
        &&& self.psg.inv()
    }

    /// The address space after power-on over the machine `machine`.
    pub open spec fn initial(machine: MachineView, frequency: u64) -> SpaceView {
        SpaceView {
            machine,
            ram: Seq::new(RAM_SIZE as nat, |i: int| 0u8),
            banks: bank::State::initial(),
            dma: dma::State::initial(),
            gpio: gpio::State::initial(),
            base_timer: base_timer::State::initial(frequency),
            timer: timer::TimerBlocksState::initial(),
            interrupt: interrupt::State::initial(),
            psg: PsgView::initial(),
        }
    }

    /// The microcontroller's address space over the machine
    /// `machine_addr_space`, clocked at `frequency` Hz.
    pub fn new(machine_addr_space: HandheldAddressSpace, frequency: u64) -> (space: Self)
        requires
            machine_addr_space.inv(),
            frequency >= base_timer::TIMER_FREQUENCY,
        ensures
            space.inv(),
            space@ == Self::initial(machine_addr_space@, frequency),
    {
        let mut ram: Vec<u8> = Vec::new();
        let mut i: usize = 0;
        while i < RAM_SIZE
            invariant
                i <= RAM_SIZE,
                ram@.len() == i,
                forall|j: int| 0 <= j < i ==> ram@[j] == 0u8,
            decreases RAM_SIZE - i,
        {
            ram.push(0);
            i = i + 1;
        }
        let space = St2205uAddressSpace {
            machine_addr_space,
            ram,
            banks: bank::State::new(),
            dma: dma::State::new(),
            gpio: gpio::State::new(),
            base_timer: base_timer::State::new(frequency),
            timer: timer::TimerBlocksState::new(),
            interrupt: interrupt::State::new(),
            psg: psg::State::new(),
        };
        assert(space@.ram =~= Seq::new(RAM_SIZE as nat, |i: int| 0u8));
        space
    }

    /// Reads a control register. Nothing changes.
    fn read_register(&mut self, address: u16) -> (value: u8)
        requires
            old(self).inv(),
        ensures
            *final(self) == *old(self),
            value == old(self)@.register_value(address),
    {
        proof {
            self.psg.lemma_inv();
            reveal(SpaceView::register_value);
        }
        match address {
            0x0000 => gpio::read_pa(&self.gpio),
            0x0001 => gpio::read_pb(&self.gpio),
            0x0002 => gpio::read_pc(&self.gpio),
            0x0003 => gpio::read_pd(&self.gpio),
            0x0004 => gpio::read_pe(&self.gpio),
            0x0005 => gpio::read_pf(&self.gpio),
            0x0006 => gpio::read_psc(&self.gpio),
            0x0007 => gpio::read_pse(&self.gpio),
            0x0008 => gpio::read_pca(&self.gpio),
            0x0009 => gpio::read_pcb(&self.gpio),
            0x000A => gpio::read_pcc(&self.gpio),
            0x000B => gpio::read_pcd(&self.gpio),
            0x000C => gpio::read_pce(&self.gpio),
            0x000D => gpio::read_pcf(&self.gpio),
            0x000E => gpio::read_pfc(&self.gpio),
            0x000F => gpio::read_pfd(&self.gpio),
            0x0011 => self.psg.read_psgxb(PsgChannel::Channel0),
            0x0013 => self.psg.read_psgxb(PsgChannel::Channel1),
            0x0015 => self.psg.read_psgxb(PsgChannel::Channel2),
            0x0017 => self.psg.read_psgxb(PsgChannel::Channel3),
            0x0018 => self.psg.read_volx(PsgChannel::Channel0),
            0x0019 => self.psg.read_volx(PsgChannel::Channel1),
            0x001A => self.psg.read_volx(PsgChannel::Channel2),
            0x001B => self.psg.read_volx(PsgChannel::Channel3),
            0x001E => self.psg.read_psgc(),
            0x001F => self.psg.read_psgm(),
            0x0020 => self.timer.read_txcl(TimerIndex::T0),
            0x0021 => self.timer.read_txch(TimerIndex::T0),
            0x0022 => self.timer.read_txcl(TimerIndex::T1),
            0x0023 => self.timer.read_txch(TimerIndex::T1),
            0x0024 => self.timer.read_txcl(TimerIndex::T2),
            0x0025 => self.timer.read_txch(TimerIndex::T2),
            0x0026 => self.timer.read_txcl(TimerIndex::T3),
            0x0027 => self.timer.read_txch(TimerIndex::T3),
            0x0028 => self.timer.read_tien(),
            0x002A => base_timer::read_bten(&self.base_timer),
            0x002B => base_timer::read_btreq(&self.base_timer),
            0x002C => base_timer::read_btc(&self.base_timer),
            0x0030 => bank::read_irrl(self),
            0x0031 => bank::read_irrh(self),
            0x0032 => bank::read_prrl(self),
            0x0033 => bank::read_prrh(self),
            0x0034 => bank::read_drrl(self),
            0x0035 => bank::read_drrh(self),
            0x0036 => bank::read_brrl(self),
            0x0037 => bank::read_brrh(self),
            0x003A => gpio::read_pmcr(&self.gpio),
            0x003C => interrupt::read_ireql(&self.interrupt),
            0x003D => interrupt::read_ireqh(&self.interrupt),
            0x003E => interrupt::read_ienal(&self.interrupt),
            0x003F => interrupt::read_ienah(&self.interrupt),
            0x004C => self.psg.read_mull(),
            0x004D => self.psg.read_mulh(),
            0x004E => gpio::read_pl(&self.gpio),
            0x004F => gpio::read_pcl(&self.gpio),
            0x0058 => dma::read_dptrl(self),
            0x0059 => dma::read_dptrh(self),
            0x005A => dma::read_dbkrl(self),
            0x005B => dma::read_dbkrh(self),
            0x005C => dma::read_dcntl(self),
            0x005D => dma::read_dcnth(self),
            0x005E => dma::read_dsel(self),
            0x005F => dma::read_dmod(self),
            _ => 0,
        }
    }

    /// Writes a control register.
    fn write_register(&mut self, address: u16, value: u8)
        requires
            old(self).inv(),
        ensures
            final(self).inv(),
            final(self)@ == old(self)@.after_register_write(address, value),
    {
        proof {
            self.psg.lemma_inv();
            reveal(SpaceView::after_register_write);
        }
        match address {
            0x0000 => {
                gpio::write_pa(&mut self.gpio, value);
                return ;
            },
            0x0001 => {
                gpio::write_pb(&mut self.gpio, value);
                return ;
            },
            0x0002 => {
                gpio::write_pc(&mut self.gpio, value);
                return ;
            },
            0x0003 => {
                gpio::write_pd(&mut self.gpio, value);
                return ;
            },
            0x0004 => {
                gpio::write_pe(&mut self.gpio, value);
                return ;
            },
            0x0005 => {
                gpio::write_pf(&mut self.gpio, value);
                return ;
            },
            0x0006 => {
                gpio::write_psc(&mut self.gpio, value);
                return ;
            },
            0x0007 => {
                gpio::write_pse(&mut self.gpio, value);
                return ;
            },
            0x0008 => {
                gpio::write_pca(&mut self.gpio, value);
                return ;
            },
            0x0009 => {
                gpio::write_pcb(&mut self.gpio, value);
                return ;
            },
            0x000A => {
                gpio::write_pcc(&mut self.gpio, value);
                return ;
            },
            0x000B => {
                gpio::write_pcd(&mut self.gpio, value);
                return ;
            },
            0x000C => {
                gpio::write_pce(&mut self.gpio, value);
                return ;
            },
            0x000D => {
                gpio::write_pcf(&mut self.gpio, value);
                return ;
            },
            0x000E => {
                gpio::write_pfc(&mut self.gpio, value);
                return ;
            },
            0x000F => {
                gpio::write_pfd(&mut self.gpio, value);
                return ;
            },
            0x0010 => {
                self.psg.write_psgxa(PsgChannel::Channel0, value);
                return ;
            },
            0x0011 => {
                self.psg.write_psgxb(PsgChannel::Channel0, value);
                return ;
            },
            0x0012 => {
                self.psg.write_psgxa(PsgChannel::Channel1, value);
                return ;
            },
            0x0013 => {
                self.psg.write_psgxb(PsgChannel::Channel1, value);
                return ;
            },
            0x0014 => {
                self.psg.write_psgxa(PsgChannel::Channel2, value);
                return ;
            },
            0x0015 => {
                self.psg.write_psgxb(PsgChannel::Channel2, value);
                return ;
            },
            0x0016 => {
                self.psg.write_psgxa(PsgChannel::Channel3, value);
                return ;
            },
            0x0017 => {
                self.psg.write_psgxb(PsgChannel::Channel3, value);
                return ;
            },
            0x0018 => {
                self.psg.write_volx(PsgChannel::Channel0, value);
                return ;
            },
            0x0019 => {
                self.psg.write_volx(PsgChannel::Channel1, value);
                return ;
            },
            0x001A => {
                self.psg.write_volx(PsgChannel::Channel2, value);
                return ;
            },
            0x001B => {
                self.psg.write_volx(PsgChannel::Channel3, value);
                return ;
            },
            0x001E => {
                self.psg.write_psgc(value);
                return ;
            },
            0x001F => {
                self.psg.write_psgm(value);
                return ;
            },
            0x0020 => {
                self.timer.write_txcl(TimerIndex::T0, value);
                return ;
            },
            0x0021 => {
                self.timer.write_txch(TimerIndex::T0, value);
                return ;
            },
            0x0022 => {
                self.timer.write_txcl(TimerIndex::T1, value);
                return ;
            },
            0x0023 => {
                self.timer.write_txch(TimerIndex::T1, value);
                return ;
            },
            0x0024 => {
                self.timer.write_txcl(TimerIndex::T2, value);
                return ;
            },
            0x0025 => {
                self.timer.write_txch(TimerIndex::T2, value);
                return ;
            },
            0x0026 => {
                self.timer.write_txcl(TimerIndex::T3, value);
                return ;
            },
            0x0027 => {
                self.timer.write_txch(TimerIndex::T3, value);
                return ;
            },
            0x0028 => {
                self.timer.write_tien(value);
                return ;
            },
            0x002A => {
                base_timer::write_bten(&mut self.base_timer, value);
                return ;
            },
            0x002B => {
                base_timer::write_btreq(&mut self.base_timer, value);
                return ;
            },
            0x002C => {
                base_timer::write_btc(&mut self.base_timer, value);
                return ;
            },
            0x0030 => {
                bank::write_irrl(self, value);
                return ;
            },
            0x0031 => {
                bank::write_irrh(self, value);
                return ;
            },
            0x0032 => {
                bank::write_prrl(self, value);
                return ;
            },
            0x0033 => {
                bank::write_prrh(self, value);
                return ;
            },
            0x0034 => {
                bank::write_drrl(self, value);
                return ;
            },
            0x0035 => {
                bank::write_drrh(self, value);
                return ;
            },
            0x0036 => {
                bank::write_brrl(self, value);
                return ;
            },
            0x0037 => {
                bank::write_brrh(self, value);
                return ;
            },
            0x003A => {
                gpio::write_pmcr(&mut self.gpio, value);
                return ;
            },
            0x003C => {
                interrupt::write_ireql(&mut self.interrupt, value);
                return ;
            },
            0x003D => {
                interrupt::write_ireqh(&mut self.interrupt, value);
                return ;
            },
            0x003E => {
                interrupt::write_ienal(&mut self.interrupt, value);
                return ;
            },
            0x003F => {
                interrupt::write_ienah(&mut self.interrupt, value);
                return ;
            },
            0x004C => {
                self.psg.write_mull(value);
                return ;
            },
            0x004D => {
                self.psg.write_mulh(value);
                return ;
            },
            0x004E => {
                gpio::write_pl(&mut self.gpio, value);
                return ;
            },
            0x004F => {
                gpio::write_pcl(&mut self.gpio, value);
                return ;
            },
            0x0058 => {
                dma::write_dptrl(self, value);
                return ;
            },
            0x0059 => {
                dma::write_dptrh(self, value);
                return ;
            },
            0x005A => {
                dma::write_dbkrl(self, value);
                return ;
            },
            0x005B => {
                dma::write_dbkrh(self, value);
                return ;
            },
            0x005C => {
                dma::write_dcntl(self, value);
                return ;
            },
            0x005D => {
                dma::write_dcnth(self, value);
                return ;
            },
            0x005E => {
                dma::write_dsel(self, value);
                return ;
            },
            0x005F => {
                dma::write_dmod(self, value);
                return ;
            },
            _ => {},
        }
    }

    fn read_ram(&self, address: u16) -> (value: u8)
        requires
            self.inv(),
        ensures
            value == self@.ram[address as int % (RAM_SIZE as int)],
    {
        self.ram[(address as usize) % RAM_SIZE]
    }

    fn write_ram(&mut self, address: u16, value: u8)
        requires
            old(self).inv(),
        ensures
            final(self).inv(),
            final(self)@ == (SpaceView {
                ram: old(self)@.ram.update(address as int % (RAM_SIZE as int), value),
                ..old(self)@
            }),
    {
        let at = (address as usize) % RAM_SIZE;
        self.ram[at] = value;
    }

    /// The bank register that maps `address`, and the size of its window.
    fn bank_for(&self, address: u16) -> (bank: (u16, u16))
        requires
            address >= BRR_START,
        ensures
            bank == self@.bank(address),
            bank.1 == BRR_WINDOW || bank.1 == PRR_WINDOW || bank.1 == DRR_WINDOW,
    {
        if address < PRR_START {
            (bank::brr(self), BRR_WINDOW)
        } else if address < DRR_START {
            if self.interrupt.interrupted() {
                (bank::irr(self), PRR_WINDOW)
            } else {
                (bank::prr(self), PRR_WINDOW)
            }
        } else {
            (bank::drr(self), DRR_WINDOW)
        }
    }

    /// Reads from `address`, which is no control register.
    pub fn read_memory(&mut self, address: u16) -> (value: u8)
        requires
            old(self).inv(),
            address >= REGISTERS_END,
        ensures
            final(self).inv(),
            value == old(self)@.memory_value(address),
            final(self)@ == old(self)@.after_memory_read(address),
            final(self).banks == old(self).banks,
            final(self).dma == old(self).dma,
            final(self).interrupt == old(self).interrupt,
    {
        if address < BRR_START {
            return self.read_ram(address);
        }
        let (register, window) = self.bank_for(address);
        if register >= BANK_RAM {
            // The on-chip RAM, where the uppermost bit of the bank register is set.
            self.read_ram(address)
        } else {
            // Else an address of the machine, which only keeps the bits of
            // the address that lie inside the window.
            assert(register * window <= 0x7FFF * 0x8000) by (nonlinear_arith)
                requires
                    0 <= register <= 0x7FFF,
                    0 <= window <= 0x8000,
            ;
            let machine_addr: u32 = (register as u32) * (window as u32) + (address % window) as u32;
            self.machine_addr_space.read_u8(machine_addr)
        }
    }

    /// Writes to `address`, which is no control register.
    pub fn write_memory(&mut self, address: u16, value: u8)
        requires
            old(self).inv(),
            address >= REGISTERS_END,
        ensures
            final(self).inv(),
            final(self)@ == old(self)@.after_memory_write(address, value),
            final(self).banks == old(self).banks,
            final(self).dma == old(self).dma,
    {
        if address < BRR_START {
            self.write_ram(address, value);
            return ;
        }
        let (register, window) = self.bank_for(address);
        if register >= BANK_RAM {
            self.write_ram(address, value);
        } else {
            assert(register * window <= 0x7FFF * 0x8000) by (nonlinear_arith)
                requires
                    0 <= register <= 0x7FFF,
                    0 <= window <= 0x8000,
            ;
            let machine_addr: u32 = (register as u32) * (window as u32) + (address % window) as u32;
            self.machine_addr_space.write_u8(machine_addr, value);
        }
    }

    /// Reads the byte at `address`, of which the low 16 bits count.
    pub fn read_u8(&mut self, address: u32) -> (value: u8)
        requires
            old(self).inv(),
        ensures
            final(self).inv(),
            value == old(self)@.read_value(address),
            final(self)@ == old(self)@.after_read(address),
            final(self).interrupt == old(self).interrupt,
    {
        proof {
            reveal(SpaceView::read_value);
            reveal(SpaceView::after_read);
        }
        let decoded: u16 = (address % 0x10000) as u16;
        if decoded < REGISTERS_END {
            self.read_register(decoded)
        } else {
            self.read_memory(decoded)
        }
    }

    /// Writes `value` to `address`, of which the low 16 bits count.
    pub fn write_u8(&mut self, address: u32, value: u8)
        requires
            old(self).inv(),
        ensures
            final(self).inv(),
            final(self)@ == old(self)@.after_write(address, value),
    {
        proof {
            reveal(SpaceView::after_write);
        }
        let decoded: u16 = (address % 0x10000) as u16;
        if decoded < REGISTERS_END {
            self.write_register(decoded, value)
        } else {
            self.write_memory(decoded, value)
        }
    }

    /// Reads a little-endian word: the low byte at `address`, the high
    /// byte at the address after it.
    pub fn read_u16_le(&mut self, address: u32) -> (value: u16)
        requires
            old(self).inv(),
            address < u32::MAX,
        ensures
            final(self).inv(),
            value == old(self)@.read_word(address),
            final(self)@ == old(self)@.after_read_word(address),
    {
        let low = self.read_u8(address);
        let high = self.read_u8(address + 1);
        (low as u16) | ((high as u16) << 8)
    }

    /// Sets the latch that tells whether an interrupt is serviced.
    pub fn set_interrupted(&mut self, interrupted: bool)
        ensures
            *final(self) == (St2205uAddressSpace {
                interrupt: interrupt::State { interrupted, ..old(self).interrupt },
                ..*old(self)
            }),
    {
        self.interrupt.set_interrupted(interrupted);
    }

    /// Whether an interrupt is serviced.
    pub fn interrupted(&self) -> (interrupted: bool)
        ensures
            interrupted == self.interrupt.interrupted,
    {
        self.interrupt.interrupted()
    }

    /// Tells the timers the elapsed cycles of the oscillator and of the
    /// instruction clock.
    pub fn set_clocks(&mut self, oscx: u64, sysck: u64)
        ensures
            *final(self) == (St2205uAddressSpace {
                base_timer: base_timer::State { elapsed_ticks: oscx, ..old(self).base_timer },
                timer: timer::TimerBlocksState { elapsed_ticks: sysck, ..old(self).timer },
                ..*old(self)
            }),
    {
        self.base_timer.set_elapsed_ticks(oscx);
        self.timer.set_elapsed_ticks(sysck);
    }
}

impl HandlesInterrupt for St2205uAddressSpace {
    open spec fn servicing(&self) -> bool {
        self.interrupt.interrupted
    }

    fn set_interrupted(&mut self, interrupted: bool)
        ensures
            final(self)@ == old(self)@.with_interrupted(interrupted),
    {
        St2205uAddressSpace::set_interrupted(self, interrupted)
    }

    fn interrupted(&self) -> (interrupted: bool) {
        St2205uAddressSpace::interrupted(self)
    }
}

impl AddressSpace for St2205uAddressSpace {
    type Model = SpaceView;

    open spec fn model(&self) -> SpaceView {
        self@
    }

    open spec fn wf(&self) -> bool {
        self.inv()
    }

    open spec fn read_value(model: SpaceView, address: u32) -> u8 {
        model.read_value(address)
    }

    open spec fn after_read(model: SpaceView, address: u32) -> SpaceView {
        model.after_read(address)
    }

    open spec fn after_write(model: SpaceView, address: u32, value: u8) -> SpaceView {
        model.after_write(address, value)
    }

    fn read_u8(&mut self, address: u32) -> (value: u8) {
        St2205uAddressSpace::read_u8(self, address)
    }

    fn write_u8(&mut self, address: u32, value: u8) {
        St2205uAddressSpace::write_u8(self, address, value)
    }
}

impl Clock for St2205uAddressSpace {
    fn set_clocks(&mut self, oscx: u64, sysck: u64)
        ensures
            final(self)@ == old(self)@.with_clocks(oscx, sysck),
    {
        St2205uAddressSpace::set_clocks(self, oscx, sysck)
    }
}

} // verus!
