//! The handheld: an ST2205U wired to its boot ROM, a flash chip and an LCD
//! controller under one machine address space of 26 bits.

use vstd::prelude::*;
use vstd::string::*;
use vstd::slice::slice_to_vec;
use crate::flash::Flash;
use crate::flash::FlashView;
use crate::flash::CHIP_CAPACITY;
use crate::lcd::Lcd;
use crate::lcd::LcdView;
use crate::memory::AddressSpace;
use crate::st2205u::mcu::Mcu;
use crate::st2205u::wdc_65c02::cpu::CoreView;

verus! {

/// Frequency of the system oscillator in Hz.
pub const SYSTEM_FREQ: u64 = 16_000_000;

/// Number of bytes of the one-time-programmable boot ROM.
pub const OTP_SIZE: usize = 0x4000;

/// Number of bytes that the low 21 address bits select.
pub const REGION_SIZE: u32 = 0x200000;

/// The device that a machine address selects.
#[derive(Clone, Copy, Debug, PartialEq, Eq, Structural)]
pub enum AddressType {
    Video,
    Otp,
    Flash,
}

impl AddressType {
    /// The selection bits of a machine address: bits 21 to 25.
    pub open spec fn selection_bits(address: u32) -> int {
        (address as int / REGION_SIZE as int) % 32
    }

    /// The device that `address` selects: the LCD for `0b00011`, the boot
    /// ROM for `0b00000` and `0b11111`, the flash for all else.
    pub open spec fn region(address: u32) -> AddressType {
        let selection = Self::selection_bits(address);
        if selection == 0b00011 {
            AddressType::Video
        } else if selection == 0b00000 || selection == 0b11111 {
            AddressType::Otp
        } else {
            AddressType::Flash
        }
    }

    /// The low 21 bits of a machine address.
    pub open spec fn offset(address: u32) -> u32 {
        (address % REGION_SIZE) as u32
    }

    /// Splits a machine address into the device and the address inside it.
    pub fn parse_machine_addr(address: u32) -> (parsed: (Self, u32))
        ensures
            parsed.0 == Self::region(address),
            parsed.1 == Self::offset(address),
    {
        let selection_bits = (address / REGION_SIZE) % 32;
        let address_bits = address % REGION_SIZE;
        let addr_type = if selection_bits == 0b00011 {
            AddressType::Video
        } else if selection_bits == 0b00000 || selection_bits == 0b11111 {
            AddressType::Otp
        } else {
            AddressType::Flash
        };
        (addr_type, address_bits)
    }
}

/// Why a handheld cannot be built from the images given.
#[derive(Clone, Copy, Debug, PartialEq, Eq, Structural)]
pub enum ConfigurationError {
    /// The boot ROM image has this many bytes, not `OTP_SIZE`.
    InvalidOtpSize(usize),
    /// The flash image has this many bytes, not `CHIP_CAPACITY`.
    InvalidFlashSize(usize),
}

impl ConfigurationError {
    /// The error in words.
    pub open spec fn text(self) -> Seq<char> {
        match self {
            ConfigurationError::InvalidOtpSize(size) => "The OTP is invalid because it is "@
                + crate::hex::decimal(size as nat) + " bytes, but must be 16384 bytes"@,
            ConfigurationError::InvalidFlashSize(size) => "The flash is invalid because it is "@
                + crate::hex::decimal(size as nat) + " bytes, but must be 2097152 bytes"@,
        }
    }

    /// The error in words.
    pub fn to_string(&self) -> (text: String)
        ensures
            text@ == self.text(),
    {
        match self {
            ConfigurationError::InvalidOtpSize(size) => {
                let number = crate::hex::to_decimal(*size);
                String::from_str("The OTP is invalid because it is ").concat(
                    number.as_str(),
                ).concat(" bytes, but must be 16384 bytes")
            },
            ConfigurationError::InvalidFlashSize(size) => {
                let number = crate::hex::to_decimal(*size);
                String::from_str("The flash is invalid because it is ").concat(
                    number.as_str(),
                ).concat(" bytes, but must be 2097152 bytes")
            },
        }
    }
}

/// The machine address space as contracts see it.
pub struct MachineView {
    pub otp: Seq<u8>,
    pub flash: FlashView,
    pub lcd: LcdView,
}

impl MachineView {
    /// What a read of `address` returns.
    pub open spec fn read_value(self, address: u32) -> u8 {
        let offset = AddressType::offset(address);
        match AddressType::region(address) {
            AddressType::Video => 0xFF,
            AddressType::Otp => self.otp[(offset as int) % (self.otp.len() as int)],
            AddressType::Flash => self.flash.read_value(offset),
        }
    }

    /// The machine after a read of `address`.
    pub open spec fn after_read(self, address: u32) -> MachineView {
        match AddressType::region(address) {
            AddressType::Flash => MachineView {
                flash: self.flash.after_read(AddressType::offset(address)),
                ..self
            },
            _ => self,
        }
    }

    /// The machine after reads of the `count` addresses from `start`
    /// on, in rising order.
    pub open spec fn after_reads(self, start: u32, count: nat) -> MachineView
        decreases count,
    {
        if count == 0 {
            self
        } else {
            self.after_reads(start, (count - 1) as nat).after_read((start + count - 1) as u32)
        }
    }

    /// What reads of the `count` addresses from `start` on return, in
    /// rising order.
    pub open spec fn read_area(self, start: u32, count: nat) -> Seq<u8> {
        Seq::new(
            count,
            |i: int| self.after_reads(start, i as nat).read_value((start + i) as u32),
        )
    }

    /// The machine after a write of `value` to `address`. The boot ROM
    /// ignores writes.
    pub open spec fn after_write(self, address: u32, value: u8) -> MachineView {
        let offset = AddressType::offset(address);
        match AddressType::region(address) {
            AddressType::Video => MachineView { lcd: self.lcd.after_write(offset, value), ..self },
            AddressType::Otp => self,
            AddressType::Flash => MachineView {
                flash: self.flash.after_write(offset, value),
                ..self
            },
        }
    }
}

/// The devices outside the microcontroller.
pub struct HandheldAddressSpace {
    otp: Vec<u8>,
    flash: Flash,
    lcd: Lcd,
}

impl View for HandheldAddressSpace {
    type V = MachineView;

    closed spec fn view(&self) -> MachineView {
        MachineView { otp: self.otp@, flash: self.flash@, lcd: self.lcd@ }
    }
}

impl HandheldAddressSpace {
    pub closed spec fn inv(&self) -> bool {
        &&& self.otp@.len() == OTP_SIZE
        &&& self.flash.inv()
        &&& self.lcd.inv()
    }

    /// What follows from `inv` for the view.
    pub proof fn lemma_inv(&self)
        requires
            self.inv(),
        ensures
            self@.otp.len() == OTP_SIZE,
            self@.flash.data.len() == CHIP_CAPACITY,
            self@.flash.history.len() == crate::flash::HISTORY,
            self@.lcd.ddram.len() == crate::lcd::DDRAM_SIZE,
            self@.lcd.ddram_ptr <= crate::lcd::DDRAM_PTR_LIMIT,
            self@.lcd.byte_since_command <= 2,
            self@.lcd.voltage <= crate::lcd::VOLTAGE_MAX,
    {
        self.flash.lemma_inv();
        self.lcd.lemma_inv();
    }

    /// The flash chip.
    pub fn flash(&self) -> (flash: &Flash)
        requires
            self.inv(),
        ensures
            flash.inv(),
            flash@ == self@.flash,
    {
        &self.flash
    }

    /// Hands out the frames that the LCD controller emitted since the last
    /// call, oldest first.
    pub fn take_frames(&mut self) -> (frames: Vec<Vec<crate::screen::Pixel>>)
        requires
            old(self).inv(),
        ensures
            final(self).inv(),
            crate::lcd::frames_view(frames@) == old(self)@.lcd.frames,
            final(self)@ == (MachineView {
                lcd: LcdView { frames: Seq::empty(), ..old(self)@.lcd },
                ..old(self)@
            }),
    {
        self.lcd.take_frames()
    }

    /// The machine with the boot ROM `otp` and the flash image `flash`.
    /// The sizes are checked in this order.
    pub fn new(otp: &[u8], flash: &[u8]) -> (machine: Result<Self, ConfigurationError>)
        ensures
            machine.is_ok() <==> otp@.len() == OTP_SIZE && flash@.len() == CHIP_CAPACITY,
            machine matches Ok(m) ==> m.inv() && m@.otp == otp@ && m@.flash.data == flash@
                && m@.flash == Flash::initial(flash@) && m@.lcd == Lcd::initial(),
            machine matches Err(why) ==> why == if otp@.len() != OTP_SIZE {
                ConfigurationError::InvalidOtpSize(otp@.len() as usize)
            } else {
                ConfigurationError::InvalidFlashSize(flash@.len() as usize)
            },
    {
        if otp.len() != OTP_SIZE {
            return Err(ConfigurationError::InvalidOtpSize(otp.len()));
        }
        let flash_chip = match Flash::new(flash) {
            Ok(chip) => chip,
            Err(_) => {
                return Err(ConfigurationError::InvalidFlashSize(flash.len()));
            },
        };
        Ok(HandheldAddressSpace { otp: slice_to_vec(otp), flash: flash_chip, lcd: Lcd::new() })
    }
}

impl HandheldAddressSpace {
    /// Reads from the device that `address` selects.
    pub fn read_u8(&mut self, address: u32) -> (value: u8)
        requires
            old(self).inv(),
        ensures
            final(self).inv(),
            value == old(self)@.read_value(address),
            final(self)@ == old(self)@.after_read(address),
    {
        proof {
            self.flash.lemma_inv();
        }
        let (region, offset) = AddressType::parse_machine_addr(address);
        match region {
            AddressType::Video => self.lcd.read_u8(offset),
            AddressType::Otp => self.otp[(offset as usize) % OTP_SIZE],
            AddressType::Flash => self.flash.read_u8(offset),
        }
    }

    /// Writes to the device that `address` selects.
    pub fn write_u8(&mut self, address: u32, value: u8)
        requires
            old(self).inv(),
        ensures
            final(self).inv(),
            final(self)@ == old(self)@.after_write(address, value),
    {
        let (region, offset) = AddressType::parse_machine_addr(address);
        match region {
            AddressType::Video => self.lcd.write_u8(offset, value),
            AddressType::Otp => {},
            AddressType::Flash => self.flash.write_u8(offset, value),
        }
    }
}

impl AddressSpace for HandheldAddressSpace {
    type Model = MachineView;

    open spec fn model(&self) -> MachineView {
        self@
    }

    open spec fn wf(&self) -> bool {
        self.inv()
    }

    open spec fn read_value(model: MachineView, address: u32) -> u8 {
        model.read_value(address)
    }

    open spec fn after_read(model: MachineView, address: u32) -> MachineView {
        model.after_read(address)
    }

    open spec fn after_write(model: MachineView, address: u32, value: u8) -> MachineView {
        model.after_write(address, value)
    }

    fn read_u8(&mut self, address: u32) -> (value: u8) {
        HandheldAddressSpace::read_u8(self, address)
    }

    fn write_u8(&mut self, address: u32, value: u8) {
        HandheldAddressSpace::write_u8(self, address, value)
    }
}

/// The machine address at which the whole flash chip is read for a dump.
pub const FLASH_DUMP_START: u32 = 0x2000000;

/// The handheld.
pub struct Handheld {
    pub mcu: Mcu,
}

impl Handheld {
    /// The machine at power-on with the boot ROM `otp` and the flash image
    /// `flash`.
    pub open spec fn machine(otp: Seq<u8>, flash: Seq<u8>) -> MachineView {
        MachineView { otp, flash: Flash::initial(flash), lcd: Lcd::initial() }
    }

    /// The handheld with the boot ROM `otp` and the flash image `flash`,
    /// after the reset of its microcontroller.
    pub fn new(otp: &[u8], flash: &[u8]) -> (handheld: Result<Self, ConfigurationError>)
        ensures
            handheld.is_ok() <==> otp@.len() == OTP_SIZE && flash@.len() == CHIP_CAPACITY,
            handheld matches Ok(h) ==> h.mcu.core.ready() && h.mcu@ == Mcu::initial(
                SYSTEM_FREQ,
                Self::machine(otp@, flash@),
            ).reset() && h.mcu@.mem.machine.otp == otp@ && h.mcu@.mem.machine.flash.data
                == flash@,
            handheld matches Err(why) ==> why == if otp@.len() != OTP_SIZE {
                ConfigurationError::InvalidOtpSize(otp@.len() as usize)
            } else {
                ConfigurationError::InvalidFlashSize(flash@.len() as usize)
            },
    {
        let machine_address_space = match HandheldAddressSpace::new(otp, flash) {
            Ok(machine) => machine,
            Err(why) => {
                return Err(why);
            },
        };
        let ghost machine = machine_address_space@;
        let mcu = Mcu::new(SYSTEM_FREQ, machine_address_space);
        proof {
            lemma_reset_keeps_images(Mcu::initial(SYSTEM_FREQ, machine));
        }
        Ok(Handheld { mcu })
    }

    /// Reads the whole flash chip through the machine address space, from
    /// `FLASH_DUMP_START` on.
    pub fn make_flash_dump(&mut self) -> (dump: Vec<u8>)
        requires
            old(self).mcu.core.inv(),
        ensures
            final(self).mcu.core.inv(),
            dump@ == old(self).mcu@.mem.machine.read_area(
                FLASH_DUMP_START,
                CHIP_CAPACITY as nat,
            ),
            final(self).mcu@ == (CoreView {
                mem: crate::st2205u::addr_space::SpaceView {
                    machine: old(self).mcu@.mem.machine.after_reads(
                        FLASH_DUMP_START,
                        CHIP_CAPACITY as nat,
                    ),
                    ..old(self).mcu@.mem
                },
                ..old(self).mcu@
            }),
    {
        let start: u32 = FLASH_DUMP_START;
        let size = Flash::len();
        self.mcu.read_machine_area(start, size)
    }
}

/// The reads of a flash dump change nothing but what the flash reports,
/// and from the second read on the flash reports data.
pub proof fn lemma_dump_reads(machine: MachineView, count: nat)
    requires
        machine.flash.data.len() == CHIP_CAPACITY,
        count <= CHIP_CAPACITY,
    ensures
        machine.after_reads(FLASH_DUMP_START, count) == (MachineView {
            flash: FlashView {
                read_mode: machine.after_reads(FLASH_DUMP_START, count).flash.read_mode,
                ..machine.flash
            },
            ..machine
        }),
        count == 0 ==> machine.after_reads(FLASH_DUMP_START, count) == machine,
        count >= 1 ==> machine.after_reads(FLASH_DUMP_START, count).flash.read_mode
            == crate::flash::ReadMode::Data || (machine.flash.read_mode
            == (crate::flash::ReadMode::Status { address: 0 }) && machine.after_reads(
            FLASH_DUMP_START,
            count,
        ).flash.read_mode == machine.flash.read_mode),
    decreases count,
{
    if count > 0 {
        lemma_dump_reads(machine, (count - 1) as nat);
        let address = (FLASH_DUMP_START + count - 1) as u32;
        assert(AddressType::region(address) == AddressType::Flash);
        assert(AddressType::offset(address) == count - 1);
    }
}

/// A dump of the flash holds the bytes that the flash stores. The one
/// exception is its first byte where the flash reports status at its
/// first address: there it is the status.
pub proof fn lemma_flash_dump(machine: MachineView, i: int)
    requires
        machine.flash.data.len() == CHIP_CAPACITY,
        0 <= i < CHIP_CAPACITY,
    ensures
        machine.read_area(FLASH_DUMP_START, CHIP_CAPACITY as nat)[i] == if i == 0
            && machine.flash.read_mode == (crate::flash::ReadMode::Status { address: 0 }) {
            crate::flash::STATUS_READY
        } else {
            machine.flash.data[i]
        },
{
    lemma_dump_reads(machine, i as nat);
    let address = (FLASH_DUMP_START + i) as u32;
    assert(AddressType::region(address) == AddressType::Flash);
    assert(AddressType::offset(address) == i);
}

/// A reset reads and writes no byte of the boot ROM or of the flash.
pub proof fn lemma_reset_keeps_images(core: CoreView)
    ensures
        core.reset().mem.machine.otp == core.mem.machine.otp,
        core.reset().mem.machine.flash.data == core.mem.machine.flash.data,
{
    reveal(crate::st2205u::addr_space::SpaceView::after_read);
}

} // verus!
