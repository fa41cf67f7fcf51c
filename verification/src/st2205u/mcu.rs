//! The ST2205U microcontroller: the processor core with its timers, ports,
//! sound generator and interrupt controller, one step at a time.

use vstd::prelude::*;
use crate::gpio::GpioButtonState;
use crate::handheld::HandheldAddressSpace;
use crate::st2205u::addr_space::SpaceView;
use crate::st2205u::addr_space::St2205uAddressSpace;
use crate::st2205u::base_timer;
use crate::st2205u::gpio::port_a_differs;
use crate::st2205u::interrupt::Interrupt;
use crate::st2205u::psg::PsgChannel;
use crate::st2205u::timer::TimerIndex;
use crate::st2205u::vector;
use crate::st2205u::wdc_65c02::cpu::Core;
use crate::st2205u::wdc_65c02::cpu::CoreView;

verus! {

/// The interrupt source of a timer.
pub open spec fn timer_interrupt(timer: TimerIndex) -> Interrupt {
    match timer {
        TimerIndex::T0 => Interrupt::Timer0,
        TimerIndex::T1 => Interrupt::Timer1,
        TimerIndex::T2 => Interrupt::Timer2,
        TimerIndex::T3 => Interrupt::Timer3,
    }
}

/// The number of the sound channel that a timer clocks.
pub open spec fn timer_channel(timer: TimerIndex) -> int {
    match timer {
        TimerIndex::T0 => 0,
        TimerIndex::T1 => 1,
        TimerIndex::T2 => 2,
        TimerIndex::T3 => 3,
    }
}

impl SpaceView {
    /// The peripherals after the base timer was updated: a request that
    /// it raises asks for the base-timer interrupt.
    pub open spec fn base_timer_ticked(self) -> SpaceView {
        SpaceView {
            base_timer: self.base_timer.updated(),
            interrupt: if self.base_timer.due() && self.base_timer.raised() != 0 {
                self.interrupt.asserted(Interrupt::BaseTimer)
            } else {
                self.interrupt
            },
            ..self
        }
    }

    /// The peripherals after the timer `timer` overflowed, if it did: it
    /// asks for its interrupt, and its sound channel goes on to its next sample.
    pub open spec fn timer_fired(self, timer: TimerIndex, overflowed: bool) -> SpaceView {
        if overflowed {
            SpaceView {
                interrupt: self.interrupt.asserted(timer_interrupt(timer)),
                psg: self.psg.with_channel(
                    timer_channel(timer),
                    self.psg.channels[timer_channel(timer)].popped(),
                ),
                ..self
            }
        } else {
            self
        }
    }

    /// The peripherals after the four timers were updated.
    pub open spec fn timers_ticked(self) -> SpaceView {
        (SpaceView { timer: self.timer.updated(), ..self }).timer_fired(
            TimerIndex::T0,
            self.timer.overflowing(TimerIndex::T0),
        ).timer_fired(TimerIndex::T1, self.timer.overflowing(TimerIndex::T1)).timer_fired(
            TimerIndex::T2,
            self.timer.overflowing(TimerIndex::T2),
        ).timer_fired(TimerIndex::T3, self.timer.overflowing(TimerIndex::T3))
    }

    /// The peripherals after the host delivered `input`, if it delivered
    /// any: a change in an input of port A asks for the port A
    /// transition interrupt.
    pub open spec fn inputs_latched(self, input: Option<GpioButtonState>) -> SpaceView {
        SpaceView {
            gpio: self.gpio.with_inputs(input),
            interrupt: match input {
                Some(new_state) => if port_a_differs(new_state, self.gpio.last_state) {
                    self.interrupt.asserted(Interrupt::PortATransition)
                } else {
                    self.interrupt
                },
                None => self.interrupt,
            },
            ..self
        }
    }

    /// The peripherals after a step of the processor, at `sysck` elapsed
    /// instruction cycles: the base timer and the timers are told the
    /// time and updated, then the inputs are taken.
    pub open spec fn peripherals_ticked(
        self,
        sysck: u64,
        input: Option<GpioButtonState>,
    ) -> SpaceView {
        self.with_clocks((2 * sysck) as u64, sysck).base_timer_ticked().timers_ticked()
            .inputs_latched(input)
    }
}

impl CoreView {
    /// The processor after it entered the interrupt of `interrupt`: the
    /// request is taken from the dispatcher, the latch is set, the
    /// program counter and then the status byte are pushed, and the
    /// processor continues where the vector tells.
    pub open spec fn interrupt_entered(self, interrupt: Interrupt) -> CoreView {
        let latched = CoreView {
            mem: SpaceView {
                interrupt: crate::st2205u::interrupt::State {
                    interrupted: true,
                    ..self.mem.interrupt.cleared(interrupt)
                },
                ..self.mem
            },
            ..self
        };
        let pushed = latched.push_u16(self.registers.pc).push_u8(self.flags.packed() as u8);
        let (read, target) = pushed.read_word(vector::vector_of(interrupt));
        read.with_pc(target)
    }

    /// The processor after the dispatch of interrupts: where interrupts
    /// are not disabled and none is serviced, the pending interrupt of
    /// the highest priority is entered.
    pub open spec fn dispatched(self) -> CoreView {
        match self.mem.interrupt.highest() {
            Some(interrupt) => if !self.flags.interrupt_disable
                && !self.mem.interrupt.interrupted {
                self.interrupt_entered(interrupt)
            } else {
                self
            },
            None => self,
        }
    }

    /// The processor with its peripherals after a step of the processor.
    pub open spec fn peripherals_ticked(self, input: Option<GpioButtonState>) -> CoreView {
        CoreView { mem: self.mem.peripherals_ticked(self.cycles, input), ..self }
    }

    /// The microcontroller after one step: one instruction, then the
    /// timers and inputs with the interrupts they ask for, then the
    /// dispatch of interrupts.
    pub open spec fn mcu_step(self, input: Option<GpioButtonState>) -> CoreView {
        self.step().peripherals_ticked(input).dispatched()
    }

    /// The processor after a reset: it continues where the reset vector
    /// tells, which is read as in an interrupt.
    pub open spec fn reset(self) -> CoreView {
        let latched = CoreView { mem: self.mem.with_interrupted(true), ..self };
        let (read, target) = latched.read_word(vector::RESET);
        CoreView { mem: read.mem.with_interrupted(false), ..read.with_pc(target) }
    }
}

/// The base timer takes its turn.
fn tick_base_timer(space: &mut St2205uAddressSpace)
    requires
        old(space).inv(),
    ensures
        final(space).inv(),
        final(space)@ == old(space)@.base_timer_ticked(),
{
    let fired = space.base_timer.update();
    if fired {
        space.interrupt.assert_interrupt(Interrupt::BaseTimer);
    }
}

/// A timer that overflowed asks for its interrupt and clocks its sound channel.
fn fire_timer(space: &mut St2205uAddressSpace, timer: TimerIndex, overflowed: bool)
    requires
        old(space).inv(),
    ensures
        final(space).inv(),
        final(space)@ == old(space)@.timer_fired(timer, overflowed),
        final(space).timer == old(space).timer,
{
    if !overflowed {
        return ;
    }
    let (interrupt, channel) = match timer {
        TimerIndex::T0 => (Interrupt::Timer0, PsgChannel::Channel0),
        TimerIndex::T1 => (Interrupt::Timer1, PsgChannel::Channel1),
        TimerIndex::T2 => (Interrupt::Timer2, PsgChannel::Channel2),
        TimerIndex::T3 => (Interrupt::Timer3, PsgChannel::Channel3),
    };
    space.interrupt.assert_interrupt(interrupt);
    // The sample that the channel plays from now on is what the mixer
    // hands to the host when the host wants a sample.
    space.psg.pop_current_sample(channel);
}

/// The four timers take their turn.
fn tick_timers(space: &mut St2205uAddressSpace)
    requires
        old(space).inv(),
    ensures
        final(space).inv(),
        final(space)@ == old(space)@.timers_ticked(),
{
    let timers_int = space.timer.update();
    fire_timer(space, TimerIndex::T0, timers_int % 2 == 1);
    fire_timer(space, TimerIndex::T1, (timers_int / 2) % 2 == 1);
    fire_timer(space, TimerIndex::T2, (timers_int / 4) % 2 == 1);
    fire_timer(space, TimerIndex::T3, (timers_int / 8) % 2 == 1);
}

/// The ports take what the host delivered.
fn latch_inputs(space: &mut St2205uAddressSpace, input: Option<GpioButtonState>)
    requires
        old(space).inv(),
    ensures
        final(space).inv(),
        final(space)@ == old(space)@.inputs_latched(input),
{
    let transition = space.gpio.update_gpio_inputs(input);
    if transition {
        space.interrupt.assert_interrupt(Interrupt::PortATransition);
    }
}

/// An ST2205U microcontroller over the address space of the handheld.
pub struct Mcu {
    pub core: Core,
}

impl View for Mcu {
    type V = CoreView;

    open spec fn view(&self) -> CoreView {
        self.core@
    }
}

impl Mcu {
    /// The microcontroller at power-on, before its reset.
    pub open spec fn initial(frequency: u64, machine: crate::handheld::MachineView) -> CoreView {
        Core::initial(frequency, St2205uAddressSpace::initial(machine, frequency))
    }

    /// A microcontroller over the machine `address_space`, clocked by an
    /// oscillator of `frequency` Hz, after its reset.
    pub fn new(frequency: u64, address_space: HandheldAddressSpace) -> (mcu: Self)
        requires
            address_space.inv(),
            frequency >= base_timer::TIMER_FREQUENCY,
        ensures
            mcu.core.ready(),
            mcu@ == Self::initial(frequency, address_space@).reset(),
    {
        let mut mcu = Mcu {
            core: Core::new(frequency, St2205uAddressSpace::new(address_space, frequency)),
        };
        mcu.reset();
        mcu
    }

    /// Enters the interrupt of `interrupt`.
    fn enter_interrupt(&mut self, interrupt: Interrupt)
        requires
            old(self).core.inv(),
        ensures
            final(self).core.inv(),
            final(self)@ == old(self)@.interrupt_entered(interrupt),
            final(self).core.cycles == old(self).core.cycles,
    {
        let pc = self.core.registers.pc;
        let status = self.core.flags.to_u8();
        self.core.address_space.interrupt.clear_interrupt_request(interrupt);
        self.core.address_space.set_interrupted(true);
        self.core.push_u16(pc);
        self.core.push_u8(status);
        let interrupt_vector = vector::interrupt_vector(interrupt);
        let target = self.core.address_space.read_u16_le(interrupt_vector as u32);
        self.core.registers.pc = target;
    }

    /// Enters the pending interrupt of the highest priority, where
    /// interrupts are not disabled and none is serviced.
    fn dispatch(&mut self)
        requires
            old(self).core.inv(),
        ensures
            final(self).core.inv(),
            final(self)@ == old(self)@.dispatched(),
            final(self).core.cycles == old(self).core.cycles,
    {
        let interrupt = self.core.address_space.interrupt.highest_priority_interrupt();
        if !self.core.flags.interrupt_disable && !self.core.interrupted() {
            match interrupt {
                Some(interrupt) => {
                    self.enter_interrupt(interrupt);
                },
                None => {},
            }
        }
    }

    /// Runs one step: one instruction, then the timers and the inputs
    /// `input` that the host delivered, then the dispatch of interrupts.
    /// At least one cycle elapses.
    ///
    /// Returns the output of the mixer in units of
    /// `1 / MIX_DENOMINATOR`, taken after the timers and before the
    /// dispatch: the sample for the host if the host wants one at the
    /// oscillator cycles that have elapsed.
    pub fn step(&mut self, input: Option<GpioButtonState>) -> (mix: i32)
        requires
            old(self).core.ready(),
        ensures
            final(self).core.inv(),
            final(self)@ == old(self)@.mcu_step(input),
            final(self).core.cycles > old(self).core.cycles,
            final(self)@.oscillator_cycles() == 2 * final(self).core.cycles,
            mix == old(self)@.step().peripherals_ticked(input).mem.psg.mix(),
            -crate::st2205u::psg::MIX_DENOMINATOR <= mix <= crate::st2205u::psg::MIX_DENOMINATOR,
    {
        self.core.step();
        let oscx = self.core.oscillator_cycles();
        let sysck = self.core.instruction_cycles();
        self.core.address_space.set_clocks(oscx, sysck);
        tick_base_timer(&mut self.core.address_space);
        tick_timers(&mut self.core.address_space);
        latch_inputs(&mut self.core.address_space, input);
        let mix = self.core.address_space.psg.get_mix();
        self.dispatch();
        mix
    }

    /// Resets the processor: it continues where the reset vector tells.
    pub fn reset(&mut self)
        requires
            old(self).core.inv(),
        ensures
            final(self).core.inv(),
            final(self)@ == old(self)@.reset(),
            final(self).core.cycles == old(self).core.cycles,
    {
        self.core.set_interrupted(true);
        let reset_vector = self.core.address_space.read_u16_le(vector::RESET as u32);
        self.core.registers.pc = reset_vector;
        self.core.set_interrupted(false);
    }

    /// Reads `size` bytes of the machine from the machine address `start` on.
    pub fn read_machine_area(&mut self, start: u32, size: usize) -> (area: Vec<u8>)
        requires
            old(self).core.inv(),
            start + size <= u32::MAX,
        ensures
            final(self).core.inv(),
            area@ == old(self)@.mem.machine.read_area(start, size as nat),
            final(self)@ == (CoreView {
                mem: SpaceView {
                    machine: old(self)@.mem.machine.after_reads(start, size as nat),
                    ..old(self)@.mem
                },
                ..old(self)@
            }),
    {
        let mut area: Vec<u8> = Vec::new();
        let mut i: usize = 0;
        while i < size
            invariant
                i <= size,
                start + size <= u32::MAX,
                self.core.inv(),
                area@.len() == i,
                forall|j: int|
                    0 <= j < i ==> area@[j] == old(self)@.mem.machine.after_reads(
                        start,
                        j as nat,
                    ).read_value((start + j) as u32),
                self@ == (CoreView {
                    mem: SpaceView {
                        machine: old(self)@.mem.machine.after_reads(start, i as nat),
                        ..old(self)@.mem
                    },
                    ..old(self)@
                }),
            decreases size - i,
        {
            let byte = self.core.address_space.machine_addr_space.read_u8(start + i as u32);
            area.push(byte);
            i = i + 1;
        }
        assert(area@ =~= old(self)@.mem.machine.read_area(start, size as nat));
        area
    }
}

} // verus!
