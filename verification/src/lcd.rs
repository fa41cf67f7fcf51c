//! The ST7626 LCD controller: its command and data port, the display data
//! RAM behind it, and the frames it hands to the screen.

use vstd::prelude::*;
use crate::memory::AddressSpace;
use crate::screen::Pixel;
use crate::screen::FRAME_PIXELS;

verus! {

/// Pages of the display data RAM.
pub const DDRAM_PAGE: usize = 68;

/// Columns of one page.
pub const DDRAM_COLUMN: usize = 98;

/// Bytes of one pixel.
pub const DDRAM_WIDTH: usize = 2;

/// Bytes of the display data RAM.
pub const DDRAM_SIZE: usize = 13328;

/// The largest value of the 9-bit voltage register.
pub const VOLTAGE_MAX: u16 = 511;

/// From this voltage on the display shows full contrast.
pub const VOLTAGE_BRIGHT: u16 = 36;

/// Up to this voltage the display is black.
pub const VOLTAGE_OFF: u16 = 1;

/// The electronic-contrast voltage, a register of 9 bits: bits 0 to 5 are
/// loaded by one data byte, bits 6 to 8 by the next.
#[derive(Clone, Copy, Debug)]
pub struct Voltage {
    pub value: u16,
}

impl Voltage {
    pub open spec fn wf(&self) -> bool {
        self.value <= VOLTAGE_MAX
    }

    /// The 9 bits that exist of `value`.
    pub open spec fn truncated(value: u16) -> u16 {
        (value % 512) as u16
    }

    /// `value` with its low 6 bits replaced by those of `low`.
    pub open spec fn with_low(value: u16, low: u8) -> u16 {
        ((value / 64) * 64 + low % 64) as u16
    }

    /// `value` with bits 6 to 8 replaced by the low 3 bits of `high`.
    pub open spec fn with_high(value: u16, high: u8) -> u16 {
        ((high % 8) * 64 + value % 64) as u16
    }

    pub fn new(value: u16) -> (voltage: Self)
        ensures
            voltage.wf(),
            voltage.value == Self::truncated(value),
    {
        Voltage { value: value % 512 }
    }

    pub fn set(&mut self, value: u16)
        ensures
            final(self).wf(),
            final(self).value == Self::truncated(value),
    {
        self.value = value % 512;
    }

    pub fn get(&self) -> (value: u16)
        ensures
            value == self.value,
    {
        self.value
    }

    /// Loads bits 0 to 5.
    pub fn set_p1(&mut self, low: u8)
        requires
            old(self).wf(),
        ensures
            final(self).wf(),
            final(self).value == Self::with_low(old(self).value, low),
    {
        let kept: u16 = (self.value / 64) * 64;
        self.value = kept + (low % 64) as u16;
    }

    /// Loads bits 6 to 8.
    pub fn set_p2(&mut self, high: u8)
        requires
            old(self).wf(),
        ensures
            final(self).wf(),
            final(self).value == Self::with_high(old(self).value, high),
    {
        let kept: u16 = self.value % 64;
        self.value = ((high % 8) as u16) * 64 + kept;
    }

    pub fn max() -> (value: u16)
        ensures
            value == VOLTAGE_MAX,
    {
        511
    }
}

/// The commands of the controller.
#[derive(Clone, Copy, Debug, PartialEq, Eq, Structural)]
pub enum Command {
    ExtOff,
    ExtOn,
    DisplayOn,
    DisplayOff,
    NormalDisplay,
    InverseDisplay,
    ComScanDirection,
    DisplayControl,
    SleepInOutPreparation,
    SleepIn,
    SleepOut,
    PageAddressSet,
    ColumnAddressSet,
    DataScanDirection,
    WritingToMemory,
    ReadingFromMemory,
    PartialDisplayIn,
    PartialDisplayOut,
    ReadModifyWriteIn,
    ReadModifyWriteOut,
    AreaScrollSet,
    ScrollStartSet,
    InternalOscOn,
    InternalOscOff,
    PowerControl,
    EcControl,
    EcIncrease1,
    EcDecrease1,
    ReadRegister1,
    ReadRegister2,
    NoOperation,
    EepromFunctionStart,
    Frame1PwmSet,
    Frame2PwmSet,
    Frame3PwmSet,
    Frame4PwmSet,
    AnalogSet,
    ControlEeprom,
    CancelEeprom,
    WriteToEeprom,
    ReadFromEeprom,
    DisplayPerformanceAdjustment,
    InternalInitializePreparation,
}

/// In which setting of the `EXT` mode a command code is valid.
#[derive(Clone, Copy, Debug, PartialEq, Eq, Structural)]
pub enum CommandSet {
    Base,
    Extended,
    Either,
}

impl Command {
    /// The code that selects the command.
    pub open spec fn code(self) -> u8 {
        match self {
            Command::ExtOff => 0x30,
            Command::ExtOn => 0x31,
            Command::DisplayOn => 0xAF,
            Command::DisplayOff => 0xAE,
            Command::NormalDisplay => 0xA6,
            Command::InverseDisplay => 0xA7,
            Command::ComScanDirection => 0xBB,
            Command::DisplayControl => 0xCA,
            Command::SleepInOutPreparation => 0x04,
            Command::SleepIn => 0x95,
            Command::SleepOut => 0x94,
            Command::PageAddressSet => 0x75,
            Command::ColumnAddressSet => 0x15,
            Command::DataScanDirection => 0xBC,
            Command::WritingToMemory => 0x5C,
            Command::ReadingFromMemory => 0x5D,
            Command::PartialDisplayIn => 0xA8,
            Command::PartialDisplayOut => 0xA9,
            Command::ReadModifyWriteIn => 0xE0,
            Command::ReadModifyWriteOut => 0xEE,
            Command::AreaScrollSet => 0xAA,
            Command::ScrollStartSet => 0xAB,
            Command::InternalOscOn => 0xD1,
            Command::InternalOscOff => 0xD2,
            Command::PowerControl => 0x20,
            Command::EcControl => 0x81,
            Command::EcIncrease1 => 0xD6,
            Command::EcDecrease1 => 0xD7,
            Command::ReadRegister1 => 0x7C,
            Command::ReadRegister2 => 0x7D,
            Command::NoOperation => 0x25,
            Command::EepromFunctionStart => 0x07,
            Command::Frame1PwmSet => 0x20,
            Command::Frame2PwmSet => 0x21,
            Command::Frame3PwmSet => 0x22,
            Command::Frame4PwmSet => 0x23,
            Command::AnalogSet => 0x32,
            Command::ControlEeprom => 0xCD,
            Command::CancelEeprom => 0xCC,
            Command::WriteToEeprom => 0xFC,
            Command::ReadFromEeprom => 0xFD,
            Command::DisplayPerformanceAdjustment => 0xFA,
            Command::InternalInitializePreparation => 0xF4,
        }
    }

    /// The command set that the command belongs to.
    pub open spec fn set(self) -> CommandSet {
        match self {
            Command::ExtOff | Command::ExtOn => CommandSet::Either,
            Command::Frame1PwmSet
            | Command::Frame2PwmSet
            | Command::Frame3PwmSet
            | Command::Frame4PwmSet
            | Command::AnalogSet
            | Command::ControlEeprom
            | Command::CancelEeprom
            | Command::WriteToEeprom
            | Command::ReadFromEeprom
            | Command::DisplayPerformanceAdjustment
            | Command::InternalInitializePreparation => CommandSet::Extended,
            _ => CommandSet::Base,
        }
    }

    /// Whether the command is selected by its code while `EXT` is `ext`.
    pub open spec fn valid_in(self, ext: bool) -> bool {
        match self.set() {
            CommandSet::Base => !ext,
            CommandSet::Extended => ext,
            CommandSet::Either => true,
        }
    }

    /// The command that `val` selects while the `EXT` mode is `ext`, if any.
    pub fn from_val(ext: bool, val: u8) -> (command: Option<Self>)
        ensures
            command matches Some(c) ==> c.code() == val && c.valid_in(ext),
            command is None ==> forall|c: Command| !(c.code() == val && c.valid_in(ext)),
    {
        match (ext, val) {
            (false, 0xAF) => Some(Command::DisplayOn),
            (false, 0xAE) => Some(Command::DisplayOff),
            (false, 0xA6) => Some(Command::NormalDisplay),
            (false, 0xA7) => Some(Command::InverseDisplay),
            (false, 0xBB) => Some(Command::ComScanDirection),
            (false, 0xCA) => Some(Command::DisplayControl),
            (false, 0x04) => Some(Command::SleepInOutPreparation),
            (false, 0x95) => Some(Command::SleepIn),
            (false, 0x94) => Some(Command::SleepOut),
            (false, 0x75) => Some(Command::PageAddressSet),
            (false, 0x15) => Some(Command::ColumnAddressSet),
            (false, 0xBC) => Some(Command::DataScanDirection),
            (false, 0x5C) => Some(Command::WritingToMemory),
            (false, 0x5D) => Some(Command::ReadingFromMemory),
            (false, 0xA8) => Some(Command::PartialDisplayIn),
            (false, 0xA9) => Some(Command::PartialDisplayOut),
            (false, 0xE0) => Some(Command::ReadModifyWriteIn),
            (false, 0xEE) => Some(Command::ReadModifyWriteOut),
            (false, 0xAA) => Some(Command::AreaScrollSet),
            (false, 0xAB) => Some(Command::ScrollStartSet),
            (false, 0xD1) => Some(Command::InternalOscOn),
            (false, 0xD2) => Some(Command::InternalOscOff),
            (false, 0x20) => Some(Command::PowerControl),
            (false, 0x81) => Some(Command::EcControl),
            (false, 0xD6) => Some(Command::EcIncrease1),
            (false, 0xD7) => Some(Command::EcDecrease1),
            (false, 0x7C) => Some(Command::ReadRegister1),
            (false, 0x7D) => Some(Command::ReadRegister2),
            (false, 0x25) => Some(Command::NoOperation),
            (false, 0x07) => Some(Command::EepromFunctionStart),
            (true, 0x20) => Some(Command::Frame1PwmSet),
            (true, 0x21) => Some(Command::Frame2PwmSet),
            (true, 0x22) => Some(Command::Frame3PwmSet),
            (true, 0x23) => Some(Command::Frame4PwmSet),
            (true, 0x32) => Some(Command::AnalogSet),
            (true, 0xCD) => Some(Command::ControlEeprom),
            (true, 0xCC) => Some(Command::CancelEeprom),
            (true, 0xFC) => Some(Command::WriteToEeprom),
            (true, 0xFD) => Some(Command::ReadFromEeprom),
            (true, 0xFA) => Some(Command::DisplayPerformanceAdjustment),
            (true, 0xF4) => Some(Command::InternalInitializePreparation),
            (_, 0x30) => Some(Command::ExtOff),
            (_, 0x31) => Some(Command::ExtOn),
            _ => None,
        }
    }
}

/// The two byte registers of the controller.
#[derive(Clone, Copy, Debug, PartialEq, Eq, Structural)]
pub enum Register {
    Command,
    Data,
}

impl Register {
    /// The register at `address`: even addresses select the command
    /// register, odd ones the data register.
    pub fn from_address(address: u32) -> (register: Self)
        ensures
            register == if address % 2 == 0 {
                Register::Command
            } else {
                Register::Data
            },
    {
        if address % 2 == 0 {
            Register::Command
        } else {
            Register::Data
        }
    }
}

/// One colour channel of a pixel from its 4 bits: 0 is brightest.
pub open spec fn channel(nibble: int) -> int {
    255 - nibble * 17
}

/// A channel scaled by the contrast that `voltage` gives: none up to
/// `VOLTAGE_OFF`, full from `VOLTAGE_BRIGHT` on, and `(voltage - 1) / 36`
/// of it in between, rounded down.
pub open spec fn scaled(value: int, voltage: u16) -> int {
    if voltage <= VOLTAGE_OFF {
        0
    } else if voltage >= VOLTAGE_BRIGHT {
        value
    } else {
        value * (voltage - VOLTAGE_OFF) / (VOLTAGE_BRIGHT as int)
    }
}

/// The pixel that two bytes of display data show at `voltage`.
pub open spec fn decoded_pixel(byte0: u8, byte1: u8, voltage: u16) -> Pixel {
    Pixel {
        red: scaled(channel(byte0 as int % 16), voltage) as u8,
        green: scaled(channel(byte1 as int / 16), voltage) as u8,
        blue: scaled(channel(byte1 as int % 16), voltage) as u8,
    }
}

/// Where in the display data RAM the pixel at `column` of `page` starts.
pub open spec fn cell_address(column: int, page: int) -> int {
    (page * DDRAM_COLUMN as int + column) * DDRAM_WIDTH as int
}

/// The state of the controller as contracts see it.
pub struct LcdView {
    pub ext: bool,
    pub active_command: Option<Command>,
    /// Data bytes since the active command, counted up to 2.
    pub byte_since_command: nat,
    pub ddram: Seq<u8>,
    /// The write cursor, an index into `ddram`.
    pub ddram_ptr: nat,
    pub start_page: u8,
    pub end_page: u8,
    pub start_column: u8,
    pub end_column: u8,
    pub display_on: bool,
    pub voltage: u16,
    /// The frames emitted and not yet taken, oldest first.
    pub frames: Seq<Seq<Pixel>>,
}

impl LcdView {
    /// The page that the write cursor is in, as the 8-bit value that the
    /// controller compares.
    pub open spec fn page(self) -> u8 {
        (((self.ddram_ptr / DDRAM_WIDTH as nat) / DDRAM_COLUMN as nat) % 256) as u8
    }

    /// The column that the write cursor is in.
    pub open spec fn column(self) -> u8 {
        ((self.ddram_ptr / DDRAM_WIDTH as nat) % DDRAM_COLUMN as nat) as u8
    }

    /// The controller with its write cursor at `column` of `page`.
    pub open spec fn at(self, column: int, page: int) -> LcdView {
        LcdView { ddram_ptr: cell_address(column, page) as nat, ..self }
    }

    /// The number of pixels inside the window.
    pub open spec fn window_cells(self) -> int {
        if self.start_column <= self.end_column && self.start_page <= self.end_page {
            (self.end_page - self.start_page + 1) * (self.end_column - self.start_column + 1)
        } else {
            0
        }
    }

    /// Pixel `k` of the frame that the controller shows: the pixels of
    /// the window row by row, black when the display is off, beyond the
    /// window and where the window leaves the display data RAM.
    pub open spec fn frame_pixel(self, k: int) -> Pixel {
        if !self.display_on || k >= self.window_cells() {
            Pixel::black()
        } else {
            let width = self.end_column - self.start_column + 1;
            let address = cell_address(self.start_column + k % width, self.start_page + k / width);
            if address + 1 < self.ddram.len() {
                decoded_pixel(self.ddram[address], self.ddram[address + 1], self.voltage)
            } else {
                Pixel::black()
            }
        }
    }

    /// The frame that the controller shows.
    pub open spec fn frame(self) -> Seq<Pixel> {
        Seq::new(FRAME_PIXELS as nat, |k: int| self.frame_pixel(k))
    }

    /// The controller after it emitted the frame it shows.
    pub open spec fn emit(self) -> LcdView {
        LcdView { frames: self.frames.push(self.frame()), ..self }
    }

    /// The controller after the command `command`.
    pub open spec fn after_command(self, command: Command) -> LcdView {
        LcdView {
            ext: match command {
                Command::ExtOn => true,
                Command::ExtOff => false,
                _ => self.ext,
            },
            display_on: match command {
                Command::DisplayOn => true,
                Command::DisplayOff => false,
                _ => self.display_on,
            },
            active_command: Some(command),
            byte_since_command: 0,
            ..self
        }
    }

    /// The controller after a data byte for `PageAddressSet`.
    pub open spec fn after_page_data(self, value: u8) -> LcdView {
        if self.byte_since_command == 0 {
            LcdView { start_page: value, ..self }
        } else if self.byte_since_command == 1 {
            (LcdView { end_page: value, ..self }).at(self.column() as int, self.start_page as int)
        } else {
            self
        }
    }

    /// The controller after a data byte for `ColumnAddressSet`.
    pub open spec fn after_column_data(self, value: u8) -> LcdView {
        if self.byte_since_command == 0 {
            LcdView { start_column: value, ..self }
        } else if self.byte_since_command == 1 {
            (LcdView { end_column: value, ..self }).at(self.start_column as int, self.page() as int)
        } else {
            self
        }
    }

    /// The controller after a data byte for `WritingToMemory`: the byte
    /// is stored at the cursor, which moves on by one byte, to the start
    /// column of the next page behind the end column, and to the start
    /// page behind the end page, where a frame is emitted. A byte that
    /// arrives while the cursor is outside the display data RAM is dropped.
    pub open spec fn after_memory_data(self, value: u8) -> LcdView {
        if self.ddram_ptr >= self.ddram.len() {
            self
        } else {
            let stored = LcdView {
                ddram: self.ddram.update(self.ddram_ptr as int, value),
                ddram_ptr: self.ddram_ptr + 1,
                ..self
            };
            let wrapped = if stored.column() > stored.end_column {
                stored.at(stored.start_column as int, stored.page() + 1)
            } else {
                stored
            };
            if wrapped.page() > wrapped.end_page {
                wrapped.at(wrapped.column() as int, wrapped.start_page as int).emit()
            } else {
                wrapped
            }
        }
    }

    /// The controller after a data byte for `EcControl`.
    pub open spec fn after_contrast_data(self, value: u8) -> LcdView {
        if self.byte_since_command == 0 {
            LcdView { voltage: Voltage::with_low(self.voltage, value), ..self }
        } else if self.byte_since_command == 1 {
            (LcdView { voltage: Voltage::with_high(self.voltage, value), ..self }).emit()
        } else {
            self
        }
    }

    /// The controller after the data byte `value`. Without an active
    /// command the byte is ignored.
    pub open spec fn after_data(self, value: u8) -> LcdView {
        match self.active_command {
            None => self,
            Some(command) => {
                let handled = match command {
                    Command::PageAddressSet => self.after_page_data(value),
                    Command::ColumnAddressSet => self.after_column_data(value),
                    Command::WritingToMemory => self.after_memory_data(value),
                    Command::EcControl => self.after_contrast_data(value),
                    _ => self,
                };
                LcdView {
                    byte_since_command: if self.byte_since_command < 2 {
                        self.byte_since_command + 1
                    } else {
                        2
                    },
                    ..handled
                }
            },
        }
    }

    /// What a read returns: the controller answers every read with `0xFF`.
    pub open spec fn read_value(self, address: u32) -> u8 {
        0xFF
    }

    /// The controller after a read, which changes nothing.
    pub open spec fn after_read(self, address: u32) -> LcdView {
        self
    }

    /// The command that the byte `value` selects, if any.
    pub open spec fn selected(self, value: u8) -> Option<Command> {
        if exists|c: Command| c.code() == value && c.valid_in(self.ext) {
            Some(choose|c: Command| c.code() == value && c.valid_in(self.ext))
        } else {
            None
        }
    }

    /// The controller after a write of `value` to `address`: a command
    /// at an even address, a data byte at an odd one. A byte that selects
    /// no command is ignored.
    pub open spec fn after_write(self, address: u32, value: u8) -> LcdView {
        if address % 2 == 0 {
            match self.selected(value) {
                Some(command) => self.after_command(command),
                None => self,
            }
        } else {
            self.after_data(value)
        }
    }
}

/// No two commands share a code within one setting of `EXT`.
pub proof fn lemma_command_unique(a: Command, b: Command, ext: bool)
    requires
        a.code() == b.code(),
        a.valid_in(ext),
        b.valid_in(ext),
    ensures
        a == b,
{
}

/// The LCD controller.
pub struct Lcd {
    ext: bool,
    active_command: Option<Command>,
    byte_since_command: usize,
    ddram: Vec<u8>,
    ddram_ptr: usize,
    // Set by PageAddressSet, both inclusive.
    start_page: u8,
    end_page: u8,
    // Set by ColumnAddressSet, both inclusive.
    start_column: u8,
    end_column: u8,
    display_on: bool,
    voltage: Voltage,
    frames: Vec<Vec<Pixel>>,
}

/// What `frames` holds, each frame as a sequence of pixels.
pub open spec fn frames_view(frames: Seq<Vec<Pixel>>) -> Seq<Seq<Pixel>> {
    Seq::new(frames.len(), |i: int| frames[i]@)
}

impl View for Lcd {
    type V = LcdView;

    closed spec fn view(&self) -> LcdView {
        LcdView {
            ext: self.ext,
            active_command: self.active_command,
            byte_since_command: self.byte_since_command as nat,
            ddram: self.ddram@,
            ddram_ptr: self.ddram_ptr as nat,
            start_page: self.start_page,
            end_page: self.end_page,
            start_column: self.start_column,
            end_column: self.end_column,
            display_on: self.display_on,
            voltage: self.voltage.value,
            frames: frames_view(self.frames@),
        }
    }
}

/// The upper bound of the write cursor: one past the cell of the last
/// column of the last page that 8 bits can name.
pub const DDRAM_PTR_LIMIT: usize = 50491;

impl Lcd {
    pub closed spec fn inv(&self) -> bool {
        &&& self.ddram@.len() == DDRAM_SIZE
        &&& self.ddram_ptr <= DDRAM_PTR_LIMIT
        &&& self.byte_since_command <= 2
        &&& self.voltage.wf()
    }

    /// What follows from `inv` for the view.
    pub proof fn lemma_inv(&self)
        requires
            self.inv(),
        ensures
            self@.ddram.len() == DDRAM_SIZE,
            self@.ddram_ptr <= DDRAM_PTR_LIMIT,
            self@.byte_since_command <= 2,
            self@.voltage <= VOLTAGE_MAX,
    {
    }

    /// The controller after power-on: display off, full voltage, a window
    /// of one cell, the display data RAM all zero.
    pub open spec fn initial() -> LcdView {
        LcdView {
            ext: false,
            active_command: None,
            byte_since_command: 0,
            ddram: Seq::new(DDRAM_SIZE as nat, |i: int| 0u8),
            ddram_ptr: 0,
            start_page: 0,
            end_page: 0,
            start_column: 0,
            end_column: 0,
            display_on: false,
            voltage: VOLTAGE_MAX,
            frames: Seq::empty(),
        }
    }

    /// A controller after power-on.
    pub fn new() -> (lcd: Self)
        ensures
            lcd.inv(),
            lcd@ == Self::initial(),
    {
        let mut ddram: Vec<u8> = Vec::new();
        let mut i: usize = 0;
        while i < DDRAM_SIZE
            invariant
                i <= DDRAM_SIZE,
                ddram@.len() == i,
                forall|j: int| 0 <= j < i ==> ddram@[j] == 0u8,
            decreases DDRAM_SIZE - i,
        {
            ddram.push(0);
            i = i + 1;
        }
        let lcd = Lcd {
            ext: false,
            active_command: None,
            byte_since_command: 0,
            ddram,
            ddram_ptr: 0,
            start_page: 0,
            end_page: 0,
            start_column: 0,
            end_column: 0,
            display_on: false,
            voltage: Voltage::new(Voltage::max()),
            frames: Vec::new(),
        };
        assert(lcd@.ddram =~= Seq::new(DDRAM_SIZE as nat, |i: int| 0u8));
        assert(lcd@.frames =~= Seq::empty());
        lcd
    }

    /// Hands out the frames emitted since the last call, oldest first.
    pub fn take_frames(&mut self) -> (frames: Vec<Vec<Pixel>>)
        requires
            old(self).inv(),
        ensures
            final(self).inv(),
            frames_view(frames@) == old(self)@.frames,
            final(self)@ == (LcdView { frames: Seq::empty(), ..old(self)@ }),
    {
        let mut frames: Vec<Vec<Pixel>> = Vec::new();
        core::mem::swap(&mut frames, &mut self.frames);
        assert(frames_view(self.frames@) =~= Seq::empty());
        frames
    }

    fn handle_command(&mut self, command: Command)
        requires
            old(self).inv(),
        ensures
            final(self).inv(),
            final(self)@ == old(self)@.after_command(command),
    {
        match command {
            Command::ExtOn => {
                self.ext = true;
            },
            Command::ExtOff => {
                self.ext = false;
            },
            Command::DisplayOff => {
                self.display_on = false;
            },
            Command::DisplayOn => {
                self.display_on = true;
            },
            _ => {},
        }
        self.active_command = Some(command);
        self.byte_since_command = 0;
    }

    fn handle_data(&mut self, value: u8)
        requires
            old(self).inv(),
        ensures
            final(self).inv(),
            final(self)@ == old(self)@.after_data(value),
    {
        let command = match self.active_command {
            Some(command) => command,
            None => {
                return ;
            },
        };
        match command {
            Command::PageAddressSet => {
                if self.byte_since_command == 0 {
                    self.start_page = value;
                } else if self.byte_since_command == 1 {
                    self.end_page = value;
                    let column = self.ddram_column();
                    self.ddram_set_column_and_page(column, self.start_page);
                }
            },
            Command::ColumnAddressSet => {
                if self.byte_since_command == 0 {
                    self.start_column = value;
                } else if self.byte_since_command == 1 {
                    self.end_column = value;
                    let page = self.ddram_page();
                    self.ddram_set_column_and_page(self.start_column, page);
                }
            },
            Command::WritingToMemory => {
                self.write_memory(value);
            },
            Command::EcControl => {
                if self.byte_since_command == 0 {
                    self.voltage.set_p1(value);
                } else if self.byte_since_command == 1 {
                    self.voltage.set_p2(value);
                    self.update_display();
                }
            },
            _ => {},
        }
        if self.byte_since_command < 2 {
            self.byte_since_command = self.byte_since_command + 1;
        }
    }

    /// Stores one byte of display data and moves the cursor on.
    fn write_memory(&mut self, value: u8)
        requires
            old(self).inv(),
        ensures
            final(self).inv(),
            final(self)@ == old(self)@.after_memory_data(value),
    {
        if self.ddram_ptr >= DDRAM_SIZE {
            return ;
        }
        let at = self.ddram_ptr;
        self.ddram[at] = value;
        self.ddram_ptr = at + 1;
        if self.ddram_column() > self.end_column {
            let page = self.ddram_page();
            self.ddram_set_column_and_page(self.start_column, page + 1);
        }
        if self.ddram_page() > self.end_page {
            let column = self.ddram_column();
            self.ddram_set_column_and_page(column, self.start_page);
            self.update_display();
        }
    }

    fn ddram_page(&self) -> (page: u8)
        requires
            self.inv(),
        ensures
            page == self@.page(),
    {
        (((self.ddram_ptr / DDRAM_WIDTH) / DDRAM_COLUMN) % 256) as u8
    }

    fn ddram_column(&self) -> (column: u8)
        requires
            self.inv(),
        ensures
            column == self@.column(),
    {
        ((self.ddram_ptr / DDRAM_WIDTH) % DDRAM_COLUMN) as u8
    }

    fn ddram_set_column_and_page(&mut self, column: u8, page: u8)
        requires
            old(self).inv(),
        ensures
            final(self).inv(),
            final(self)@ == old(self)@.at(column as int, page as int),
    {
        self.ddram_ptr = Self::column_and_page_ptr(column, page);
    }

    fn column_and_page_ptr(column: u8, page: u8) -> (ptr: usize)
        ensures
            ptr == cell_address(column as int, page as int),
            ptr < DDRAM_PTR_LIMIT,
    {
        (page as usize * DDRAM_COLUMN + column as usize) * DDRAM_WIDTH
    }

    /// One channel at the contrast that the voltage gives.
    fn scale(value: u8, voltage: u16) -> (out: u8)
        ensures
            out == scaled(value as int, voltage),
    {
        if voltage <= VOLTAGE_OFF {
            0
        } else if voltage >= VOLTAGE_BRIGHT {
            value
        } else {
            let factor: u32 = (voltage - VOLTAGE_OFF) as u32;
            assert(0 <= (value as int) * (factor as int) <= 255 * 35) by (nonlinear_arith)
                requires
                    0 <= value <= 255,
                    0 <= factor <= 35,
            ;
            let product: u32 = (value as u32) * factor;
            assert(product == (value as int) * (voltage - VOLTAGE_OFF));
            let out: u32 = product / 36;
            assert(out <= 255);
            assert(out == scaled(value as int, voltage));
            out as u8
        }
    }

    /// The pixel `k` of the frame that the controller shows.
    fn pixel_at(&self, k: usize) -> (pixel: Pixel)
        requires
            self.inv(),
            k < FRAME_PIXELS,
        ensures
            pixel == self@.frame_pixel(k as int),
    {
        let black = Pixel { red: 0, green: 0, blue: 0 };
        if !self.display_on || self.start_column > self.end_column || self.start_page
            > self.end_page {
            return black;
        }
        let width: usize = (self.end_column - self.start_column) as usize + 1;
        let height: usize = (self.end_page - self.start_page) as usize + 1;
        assert(height * width <= 256 * 256) by (nonlinear_arith)
            requires
                height <= 256,
                width <= 256,
        ;
        if k >= height * width {
            return black;
        }
        let column: usize = self.start_column as usize + k % width;
        let page: usize = self.start_page as usize + k / width;
        let address: usize = (page * DDRAM_COLUMN + column) * DDRAM_WIDTH;
        if address + 1 < DDRAM_SIZE {
            let byte0 = self.ddram[address];
            let byte1 = self.ddram[address + 1];
            let voltage = self.voltage.get();
            Pixel {
                red: Self::scale(255 - (byte0 % 16) * 17, voltage),
                green: Self::scale(255 - (byte1 / 16) * 17, voltage),
                blue: Self::scale(255 - (byte1 % 16) * 17, voltage),
            }
        } else {
            black
        }
    }

    /// Emits the frame that the controller shows.
    fn update_display(&mut self)
        requires
            old(self).inv(),
        ensures
            final(self).inv(),
            final(self)@ == old(self)@.emit(),
    {
        let mut pixels: Vec<Pixel> = Vec::new();
        let mut k: usize = 0;
        while k < FRAME_PIXELS
            invariant
                k <= FRAME_PIXELS,
                self.inv(),
                *self == *old(self),
                pixels@.len() == k,
                forall|j: int| 0 <= j < k ==> pixels@[j] == self@.frame_pixel(j),
            decreases FRAME_PIXELS - k,
        {
            let pixel = self.pixel_at(k);
            pixels.push(pixel);
            k = k + 1;
        }
        assert(pixels@ =~= self@.frame());
        self.frames.push(pixels);
        assert(frames_view(self.frames@) =~= frames_view(old(self).frames@).push(pixels@));
    }
}

impl Lcd {
    /// The controller answers every read with `0xFF`.
    pub fn read_u8(&mut self, address: u32) -> (value: u8)
        requires
            old(self).inv(),
        ensures
            final(self).inv(),
            value == 0xFF,
            final(self)@ == old(self)@,
    {
        0xFF
    }

    /// Takes a command byte at an even address and a data byte at an odd one.
    pub fn write_u8(&mut self, address: u32, value: u8)
        requires
            old(self).inv(),
        ensures
            final(self).inv(),
            final(self)@ == old(self)@.after_write(address, value),
    {
        match Register::from_address(address) {
            Register::Command => {
                match Command::from_val(self.ext, value) {
                    Some(command) => {
                        proof {
                            let chosen = choose|c: Command|
                                c.code() == value && c.valid_in(self.ext);
                            lemma_command_unique(chosen, command, self.ext);
                        }
                        self.handle_command(command);
                    },
                    None => {},
                }
            },
            Register::Data => self.handle_data(value),
        }
    }
}

impl AddressSpace for Lcd {
    type Model = LcdView;

    open spec fn model(&self) -> LcdView {
        self@
    }

    open spec fn wf(&self) -> bool {
        self.inv()
    }

    open spec fn read_value(model: LcdView, address: u32) -> u8 {
        model.read_value(address)
    }

    open spec fn after_read(model: LcdView, address: u32) -> LcdView {
        model.after_read(address)
    }

    open spec fn after_write(model: LcdView, address: u32, value: u8) -> LcdView {
        model.after_write(address, value)
    }

    fn read_u8(&mut self, address: u32) -> (value: u8) {
        Lcd::read_u8(self, address)
    }

    fn write_u8(&mut self, address: u32, value: u8) {
        Lcd::write_u8(self, address, value)
    }
}

} // verus!
