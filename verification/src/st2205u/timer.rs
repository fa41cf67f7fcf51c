//! The four programmable timers: counters of 12 bits that count
//! instruction cycles at a selectable rate.

use vstd::prelude::*;

verus! {

/// The largest value of a counter of 12 bits.
pub const COUNTER_MAX: u16 = 0x0FFF;

/// One of the four timers.
#[derive(Clone, Copy, Debug, PartialEq, Eq, Structural)]
pub enum TimerIndex {
    T0,
    T1,
    T2,
    T3,
}

/// One programmable timer.
#[derive(Clone, Copy, Debug, PartialEq, Eq, Structural)]
pub struct TimerState {
    /// The counter, 12 bits.
    pub counter: u16,
    /// What the counter is loaded with after an overflow, 12 bits.
    pub reload_value: u16,
    /// The clock source, 3 bits.
    pub clock_select: u8,
    pub enabled: bool,
    pub auto_reload: bool,
}

/// The four timers and the instruction clock that drives them.
#[derive(Clone, Copy, Debug, PartialEq, Eq, Structural)]
pub struct TimerBlocksState {
    pub t0: TimerState,
    pub t1: TimerState,
    pub t2: TimerState,
    pub t3: TimerState,
    /// The number of instruction cycles that have elapsed.
    pub elapsed_ticks: u64,
}

/// The number of instruction cycles per count for a clock source:
/// SYSCK/2, /4, /8, /32, /1024 and /4096 for the sources 0 to 5. The
/// sources 6 and 7 never count.
pub open spec fn divisor(clock_select: u8) -> Option<int> {
    if clock_select == 0 {
        Some(2)
    } else if clock_select == 1 {
        Some(4)
    } else if clock_select == 2 {
        Some(8)
    } else if clock_select == 3 {
        Some(32)
    } else if clock_select == 4 {
        Some(1024)
    } else if clock_select == 5 {
        Some(4096)
    } else {
        None
    }
}

impl TimerState {
    pub open spec fn wf(&self) -> bool {
        &&& self.counter <= COUNTER_MAX
        &&& self.reload_value <= COUNTER_MAX
        &&& self.clock_select < 8
    }

    /// The timer at power-on.
    pub open spec fn initial() -> TimerState {
        TimerState {
            counter: 0,
            reload_value: 0,
            clock_select: 0,
            enabled: false,
            auto_reload: false,
        }
    }

    /// Whether the timer counts at the instruction cycle `elapsed`.
    pub open spec fn counts_at(self, elapsed: u64) -> bool {
        self.enabled && match divisor(self.clock_select) {
            Some(d) => elapsed as int % d == 0,
            None => false,
        }
    }

    /// Whether the timer overflows at the instruction cycle `elapsed`.
    pub open spec fn overflows_at(self, elapsed: u64) -> bool {
        self.counts_at(elapsed) && self.counter == COUNTER_MAX
    }

    /// The timer after the instruction cycle `elapsed`: it counts up by
    /// one, and past 12 bits starts again at the reload value if it
    /// reloads, else at zero.
    pub open spec fn ticked(self, elapsed: u64) -> TimerState {
        if !self.counts_at(elapsed) {
            self
        } else if self.counter == COUNTER_MAX {
            TimerState {
                counter: if self.auto_reload {
                    self.reload_value
                } else {
                    0
                },
                ..self
            }
        } else {
            TimerState { counter: (self.counter + 1) as u16, ..self }
        }
    }

    /// The timer after a write to its low control byte, which sets bits 0
    /// to 7 of the counter and of the reload value.
    pub open spec fn with_low(self, value: u8) -> TimerState {
        TimerState {
            counter: ((self.counter / 256) * 256 + value) as u16,
            reload_value: ((self.reload_value / 256) * 256 + value) as u16,
            ..self
        }
    }

    /// The timer after a write to its high control byte, which sets the
    /// reload flag from bit 7, the clock source from bits 4 to 6, and bits
    /// 8 to 11 of the counter and of the reload value from bits 0 to 3.
    pub open spec fn with_high(self, value: u8) -> TimerState {
        TimerState {
            auto_reload: value >= 0x80,
            clock_select: ((value / 16) % 8) as u8,
            counter: (self.counter % 256 + (value % 16) * 256) as u16,
            reload_value: (self.reload_value % 256 + (value % 16) * 256) as u16,
            ..self
        }
    }

    /// The low control byte as the firmware reads it.
    pub open spec fn low(self) -> u8 {
        (self.counter % 256) as u8
    }

    /// The high control byte as the firmware reads it.
    pub open spec fn high(self) -> u8 {
        ((if self.auto_reload {
            0x80int
        } else {
            0
        }) + self.clock_select * 16 + self.counter / 256) as u8
    }

    fn new() -> (timer: Self)
        ensures
            timer == Self::initial(),
            timer.wf(),
    {
        TimerState {
            counter: 0,
            reload_value: 0,
            clock_select: 0,
            enabled: false,
            auto_reload: false,
        }
    }

    /// Counts one instruction cycle. Returns whether the counter overflowed.
    fn tick(&mut self, elapsed: u64) -> (overflowed: bool)
        requires
            old(self).wf(),
        ensures
            final(self).wf(),
            *final(self) == old(self).ticked(elapsed),
            overflowed == old(self).overflows_at(elapsed),
    {
        if !self.enabled {
            return false;
        }
        let should_increment = if self.clock_select == 0 {
            elapsed % 2 == 0
        } else if self.clock_select == 1 {
            elapsed % 4 == 0
        } else if self.clock_select == 2 {
            elapsed % 8 == 0
        } else if self.clock_select == 3 {
            elapsed % 32 == 0
        } else if self.clock_select == 4 {
            elapsed % 1024 == 0
        } else if self.clock_select == 5 {
            elapsed % 4096 == 0
        } else {
            false
        };
        if !should_increment {
            return false;
        }
        let updated_counter16: u16 = self.counter + 1;
        let overflowed = updated_counter16 > COUNTER_MAX;
        if overflowed {
            self.counter = if self.auto_reload {
                self.reload_value
            } else {
                0
            };
        } else {
            self.counter = updated_counter16;
        }
        overflowed
    }

    fn write_low(&mut self, value: u8)
        requires
            old(self).wf(),
        ensures
            final(self).wf(),
            *final(self) == old(self).with_low(value),
    {
        self.counter = (self.counter / 256) * 256 + value as u16;
        self.reload_value = (self.reload_value / 256) * 256 + value as u16;
    }

    fn write_high(&mut self, value: u8)
        requires
            old(self).wf(),
        ensures
            final(self).wf(),
            *final(self) == old(self).with_high(value),
    {
        self.auto_reload = value >= 0x80;
        self.clock_select = (value / 16) % 8;
        self.counter = self.counter % 256 + ((value % 16) as u16) * 256;
        self.reload_value = self.reload_value % 256 + ((value % 16) as u16) * 256;
    }

    fn read_low(&self) -> (value: u8)
        requires
            self.wf(),
        ensures
            value == self.low(),
    {
        (self.counter % 256) as u8
    }

    fn read_high(&self) -> (value: u8)
        requires
            self.wf(),
        ensures
            value == self.high(),
    {
        let auto_reload: u8 = if self.auto_reload {
            0x80
        } else {
            0
        };
        auto_reload + self.clock_select * 16 + (self.counter / 256) as u8
    }
}

/// `weight` if `overflowed`, else zero.
pub open spec fn overflow_bit(overflowed: bool, weight: int) -> int {
    if overflowed {
        weight
    } else {
        0
    }
}

impl TimerBlocksState {
    pub open spec fn wf(&self) -> bool {
        self.t0.wf() && self.t1.wf() && self.t2.wf() && self.t3.wf()
    }

    /// The timers at power-on.
    pub open spec fn initial() -> TimerBlocksState {
        TimerBlocksState {
            t0: TimerState::initial(),
            t1: TimerState::initial(),
            t2: TimerState::initial(),
            t3: TimerState::initial(),
            elapsed_ticks: 0,
        }
    }

    /// The timer with the index `timer`.
    pub open spec fn get(self, timer: TimerIndex) -> TimerState {
        match timer {
            TimerIndex::T0 => self.t0,
            TimerIndex::T1 => self.t1,
            TimerIndex::T2 => self.t2,
            TimerIndex::T3 => self.t3,
        }
    }

    /// The timers with `state` in the place of the timer `timer`.
    pub open spec fn with(self, timer: TimerIndex, state: TimerState) -> TimerBlocksState {
        match timer {
            TimerIndex::T0 => TimerBlocksState { t0: state, ..self },
            TimerIndex::T1 => TimerBlocksState { t1: state, ..self },
            TimerIndex::T2 => TimerBlocksState { t2: state, ..self },
            TimerIndex::T3 => TimerBlocksState { t3: state, ..self },
        }
    }

    /// The timers after `update`.
    pub open spec fn updated(self) -> TimerBlocksState {
        TimerBlocksState {
            t0: self.t0.ticked(self.elapsed_ticks),
            t1: self.t1.ticked(self.elapsed_ticks),
            t2: self.t2.ticked(self.elapsed_ticks),
            t3: self.t3.ticked(self.elapsed_ticks),
            ..self
        }
    }

    /// The timers that overflow in `update`, timer `k` as bit `k`.
    pub open spec fn overflows(self) -> int {
        overflow_bit(self.t0.overflows_at(self.elapsed_ticks), 1) + overflow_bit(
            self.t1.overflows_at(self.elapsed_ticks),
            2,
        ) + overflow_bit(self.t2.overflows_at(self.elapsed_ticks), 4) + overflow_bit(
            self.t3.overflows_at(self.elapsed_ticks),
            8,
        )
    }

    /// Whether the timer `timer` overflows in `update`.
    pub open spec fn overflowing(self, timer: TimerIndex) -> bool {
        self.get(timer).overflows_at(self.elapsed_ticks)
    }

    /// The enable bits as the firmware reads them, timer `k` as bit `k`.
    pub open spec fn tien(self) -> u8 {
        ((if self.t0.enabled {
            1int
        } else {
            0
        }) + (if self.t1.enabled {
            2int
        } else {
            0
        }) + (if self.t2.enabled {
            4int
        } else {
            0
        }) + (if self.t3.enabled {
            8int
        } else {
            0
        })) as u8
    }

    /// The timers after a write of `value` to the enable register.
    pub open spec fn with_tien(self, value: u8) -> TimerBlocksState {
        TimerBlocksState {
            t0: TimerState { enabled: value % 2 == 1, ..self.t0 },
            t1: TimerState { enabled: (value / 2) % 2 == 1, ..self.t1 },
            t2: TimerState { enabled: (value / 4) % 2 == 1, ..self.t2 },
            t3: TimerState { enabled: (value / 8) % 2 == 1, ..self.t3 },
            ..self
        }
    }

    pub fn new() -> (state: Self)
        ensures
            state == Self::initial(),
            state.wf(),
    {
        TimerBlocksState {
            t0: TimerState::new(),
            t1: TimerState::new(),
            t2: TimerState::new(),
            t3: TimerState::new(),
            elapsed_ticks: 0,
        }
    }

    /// Tells the timers how many instruction cycles have elapsed since power-on.
    pub fn set_elapsed_ticks(&mut self, ticks: u64)
        ensures
            *final(self) == (TimerBlocksState { elapsed_ticks: ticks, ..*old(self) }),
    {
        self.elapsed_ticks = ticks;
    }

    /// Lets every enabled timer count the current instruction cycle.
    /// Returns the timers that overflowed, timer `k` as bit `k`: each of
    /// them asks for its interrupt.
    pub fn update(&mut self) -> (interrupts: u8)
        requires
            old(self).wf(),
        ensures
            final(self).wf(),
            *final(self) == old(self).updated(),
            interrupts == old(self).overflows(),
            (interrupts % 2 == 1) == old(self).overflowing(TimerIndex::T0),
            ((interrupts / 2) % 2 == 1) == old(self).overflowing(TimerIndex::T1),
            ((interrupts / 4) % 2 == 1) == old(self).overflowing(TimerIndex::T2),
            ((interrupts / 8) % 2 == 1) == old(self).overflowing(TimerIndex::T3),
    {
        let elapsed = self.elapsed_ticks;
        let i0: u8 = if self.t0.tick(elapsed) { 1 } else { 0 };
        let i1: u8 = if self.t1.tick(elapsed) { 2 } else { 0 };
        let i2: u8 = if self.t2.tick(elapsed) { 4 } else { 0 };
        let i3: u8 = if self.t3.tick(elapsed) { 8 } else { 0 };
        i0 + i1 + i2 + i3
    }

    /// The low control byte of a timer: bits 0 to 7 of its counter.
    pub fn read_txcl(&self, timer: TimerIndex) -> (value: u8)
        requires
            self.wf(),
        ensures
            value == self.get(timer).low(),
    {
        match timer {
            TimerIndex::T0 => self.t0.read_low(),
            TimerIndex::T1 => self.t1.read_low(),
            TimerIndex::T2 => self.t2.read_low(),
            TimerIndex::T3 => self.t3.read_low(),
        }
    }

    /// Writes the low control byte of a timer.
    pub fn write_txcl(&mut self, timer: TimerIndex, value: u8)
        requires
            old(self).wf(),
        ensures
            final(self).wf(),
            *final(self) == old(self).with(timer, old(self).get(timer).with_low(value)),
    {
        match timer {
            TimerIndex::T0 => self.t0.write_low(value),
            TimerIndex::T1 => self.t1.write_low(value),
            TimerIndex::T2 => self.t2.write_low(value),
            TimerIndex::T3 => self.t3.write_low(value),
        }
    }

    /// The high control byte of a timer: the reload flag, the clock
    /// source and bits 8 to 11 of its counter.
    pub fn read_txch(&self, timer: TimerIndex) -> (value: u8)
        requires
            self.wf(),
        ensures
            value == self.get(timer).high(),
    {
        match timer {
            TimerIndex::T0 => self.t0.read_high(),
            TimerIndex::T1 => self.t1.read_high(),
            TimerIndex::T2 => self.t2.read_high(),
            TimerIndex::T3 => self.t3.read_high(),
        }
    }

    /// Writes the high control byte of a timer.
    pub fn write_txch(&mut self, timer: TimerIndex, value: u8)
        requires
            old(self).wf(),
        ensures
            final(self).wf(),
            *final(self) == old(self).with(timer, old(self).get(timer).with_high(value)),
    {
        match timer {
            TimerIndex::T0 => self.t0.write_high(value),
            TimerIndex::T1 => self.t1.write_high(value),
            TimerIndex::T2 => self.t2.write_high(value),
            TimerIndex::T3 => self.t3.write_high(value),
        }
    }

    /// The enable register.
    pub fn read_tien(&self) -> (value: u8)
        ensures
            value == self.tien(),
    {
        let e0: u8 = if self.t0.enabled { 1 } else { 0 };
        let e1: u8 = if self.t1.enabled { 2 } else { 0 };
        let e2: u8 = if self.t2.enabled { 4 } else { 0 };
        let e3: u8 = if self.t3.enabled { 8 } else { 0 };
        e0 + e1 + e2 + e3
    }

    /// Writes the enable register: bit `k` enables timer `k`.
    pub fn write_tien(&mut self, value: u8)
        ensures
            *final(self) == old(self).with_tien(value),
            old(self).wf() ==> final(self).wf(),
    {
        self.t0.enabled = value % 2 == 1;
        self.t1.enabled = (value / 2) % 2 == 1;
        self.t2.enabled = (value / 4) % 2 == 1;
        self.t3.enabled = (value / 8) % 2 == 1;
    }
}

} // verus!
