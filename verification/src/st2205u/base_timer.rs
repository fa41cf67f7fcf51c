//! The base timer: a counter at 8192 Hz, derived from the oscillator, that
//! raises requests at eight lower frequencies.

use vstd::prelude::*;
use crate::reg::U8Register;

verus! {

/// The frequency in Hz at which the counter of the base timer runs.
pub const TIMER_FREQUENCY: u64 = 8192;

/// The base timer.
#[derive(Clone, Copy, Debug)]
pub struct State {
    /// The frequency in Hz of the oscillator that drives the timer.
    pub input_clock_frequency: u64,
    /// The number of oscillator cycles that have elapsed.
    pub elapsed_ticks: u64,
    /// How many ticks at 8192 Hz the timer has counted.
    pub counter: u64,
    /// BTC: the frequency in Hz of request 7; zero selects 8192 Hz.
    pub btc: U8Register,
    /// BTEN: which requests are enabled.
    pub bten: U8Register,
    /// BTREQ: which requests are raised.
    pub btreq: U8Register,
}

/// The mask of request `k` if `fired`, else no bit.
pub open spec fn request_bit(fired: bool, k: u8) -> u8 {
    if fired {
        1u8 << k
    } else {
        0
    }
}

/// The number of counter ticks between two requests at `frequency` Hz.
pub open spec fn period(frequency: int) -> int {
    TIMER_FREQUENCY as int / frequency
}

/// The frequency in Hz of request 7 for a value of BTC.
pub open spec fn programmable_frequency(btc: u8) -> int {
    if btc == 0 {
        8192
    } else {
        btc as int
    }
}

/// The requests that fall on the counter value `counter`: request `k`
/// falls on every counter value that is a multiple of the period of its
/// frequency, which is 2, 32, 64, 128, 256, 512 and 2048 Hz for the
/// requests 0 to 6 and programmable for request 7.
pub open spec fn requests_at(counter: int, btc: u8) -> u8 {
    let clock = counter % 8192;
    request_bit(clock % period(2) == 0, 0) | request_bit(clock % period(32) == 0, 1)
        | request_bit(clock % period(64) == 0, 2) | request_bit(clock % period(128) == 0, 3)
        | request_bit(clock % period(256) == 0, 4) | request_bit(clock % period(512) == 0, 5)
        | request_bit(clock % period(2048) == 0, 6) | request_bit(
        clock % period(programmable_frequency(btc)) == 0,
        7,
    )
}

/// The number of counter ticks that are due after `elapsed` oscillator
/// cycles at `frequency` Hz: tick `n` is due at cycle
/// `ceil(n * frequency / 8192)`.
pub open spec fn ticks_due(elapsed: int, frequency: int) -> int {
    elapsed * 8192 / frequency
}

impl State {
    pub open spec fn wf(&self) -> bool {
        &&& self.input_clock_frequency >= TIMER_FREQUENCY
        &&& self.btc.mask == 0xFF
        &&& self.bten.mask == 0xFF
        &&& self.btreq.mask == 0xFF
    }

    /// The timer at power-on.
    pub open spec fn initial(clock_frequency: u64) -> State {
        State {
            input_clock_frequency: clock_frequency,
            elapsed_ticks: 0,
            counter: 0,
            btc: U8Register { val: 0, mask: 0xFF },
            bten: U8Register { val: 0, mask: 0xFF },
            btreq: U8Register { val: 0, mask: 0xFF },
        }
    }

    /// Whether the next tick of the counter is due.
    pub open spec fn due(self) -> bool {
        self.elapsed_ticks * 8192 >= (self.counter + 1) * self.input_clock_frequency
    }

    /// The requests that the next tick of the counter raises.
    pub open spec fn raised(self) -> u8 {
        requests_at(self.counter + 1, self.btc.val) & self.bten.val
    }

    /// The timer after `update`.
    pub open spec fn updated(self) -> State {
        if self.due() {
            State {
                counter: (self.counter + 1) as u64,
                btreq: self.btreq.with(self.raised() | self.btreq.val),
                ..self
            }
        } else {
            self
        }
    }

    /// A timer driven by an oscillator of `clock_frequency` Hz, which is at
    /// least the frequency of the counter.
    pub fn new(clock_frequency: u64) -> (state: Self)
        requires
            clock_frequency >= TIMER_FREQUENCY,
        ensures
            state == Self::initial(clock_frequency),
            state.wf(),
    {
        proof {
            crate::reg::lemma_bytes_and_masks(0, 0, 0, 0xFF);
            assert(0u8 & 0xFFu8 == 0u8) by (bit_vector);
        }
        State {
            input_clock_frequency: clock_frequency,
            elapsed_ticks: 0,
            counter: 0,
            btc: U8Register::new(0b0000_0000, 0b1111_1111),
            bten: U8Register::new(0b0000_0000, 0b1111_1111),
            btreq: U8Register::new(0b0000_0000, 0b1111_1111),
        }
    }

    /// Tells the timer how many oscillator cycles have elapsed since power-on.
    pub fn set_elapsed_ticks(&mut self, ticks: u64)
        ensures
            *final(self) == (State { elapsed_ticks: ticks, ..*old(self) }),
    {
        self.elapsed_ticks = ticks;
    }

    /// Advances the counter by one tick if that tick is due, and raises the
    /// requests that fall on it and are enabled. Returns whether any
    /// request was raised, which asks for a base-timer interrupt.
    pub fn update(&mut self) -> (interrupt: bool)
        requires
            old(self).wf(),
        ensures
            final(self).wf(),
            *final(self) == old(self).updated(),
            interrupt == (old(self).due() && old(self).raised() != 0),
    {
        let elapsed: u128 = (self.elapsed_ticks as u128) * 8192;
        assert((self.counter + 1) * self.input_clock_frequency <= 0x1_0000_0000_0000_0000
            * 0xFFFF_FFFF_FFFF_FFFF) by (nonlinear_arith)
            requires
                0 <= self.counter + 1 <= 0x1_0000_0000_0000_0000,
                0 <= self.input_clock_frequency <= 0xFFFF_FFFF_FFFF_FFFF,
        ;
        let next: u128 = (self.counter as u128 + 1) * (self.input_clock_frequency as u128);
        if elapsed < next {
            return false;
        }
        assert(self.counter < u64::MAX) by (nonlinear_arith)
            requires
                self.elapsed_ticks * 8192 >= (self.counter + 1) * self.input_clock_frequency,
                self.input_clock_frequency >= 8192,
                self.elapsed_ticks <= u64::MAX,
        ;
        self.counter = self.counter + 1;
        let clock: u64 = self.counter % 8192;
        let programmable: u64 = if self.btc.get() == 0 {
            8192
        } else {
            self.btc.get() as u64
        };
        assert(8192int / (programmable as int) >= 1) by (nonlinear_arith)
            requires
                0 < programmable <= 8192,
        ;
        let btreq0: u8 = if clock % (TIMER_FREQUENCY / 2) == 0 { 1u8 << 0u8 } else { 0 };
        let btreq1: u8 = if clock % (TIMER_FREQUENCY / 32) == 0 { 1u8 << 1u8 } else { 0 };
        let btreq2: u8 = if clock % (TIMER_FREQUENCY / 64) == 0 { 1u8 << 2u8 } else { 0 };
        let btreq3: u8 = if clock % (TIMER_FREQUENCY / 128) == 0 { 1u8 << 3u8 } else { 0 };
        let btreq4: u8 = if clock % (TIMER_FREQUENCY / 256) == 0 { 1u8 << 4u8 } else { 0 };
        let btreq5: u8 = if clock % (TIMER_FREQUENCY / 512) == 0 { 1u8 << 5u8 } else { 0 };
        let btreq6: u8 = if clock % (TIMER_FREQUENCY / 2048) == 0 { 1u8 << 6u8 } else { 0 };
        let btreq7: u8 = if clock % (TIMER_FREQUENCY / programmable) == 0 {
            1u8 << 7u8
        } else {
            0
        };
        let fired: u8 = btreq0 | btreq1 | btreq2 | btreq3 | btreq4 | btreq5 | btreq6 | btreq7;
        // Only the requests that are enabled are raised.
        let raised: u8 = fired & self.bten.get();
        // Requests raised earlier stay.
        self.btreq.set(raised | self.btreq.get());
        raised != 0
    }
}

/// The next tick of the counter is due exactly when fewer ticks have been
/// counted than are due.
pub proof fn lemma_due(state: State)
    requires
        state.wf(),
    ensures
        state.due() <==> state.counter < ticks_due(
            state.elapsed_ticks as int,
            state.input_clock_frequency as int,
        ),
{
    let f = state.input_clock_frequency as int;
    let x = state.elapsed_ticks as int * 8192;
    let c = state.counter as int;
    vstd::arithmetic::div_mod::lemma_fundamental_div_mod(x, f);
    vstd::arithmetic::div_mod::lemma_mod_bound(x, f);
    let q = x / f;
    assert(x == f * q + x % f);
    if x >= (c + 1) * f {
        assert(q >= c + 1) by (nonlinear_arith)
            requires
                x == f * q + x % f,
                0 <= x % f < f,
                x >= (c + 1) * f,
                f > 0,
        ;
    }
    if q >= c + 1 {
        assert(x >= (c + 1) * f) by (nonlinear_arith)
            requires
                x == f * q + x % f,
                0 <= x % f < f,
                q >= c + 1,
                f > 0,
        ;
    }
}

/// The counter keeps time. If it has counted the ticks that were due, and
/// the next update comes before more than one further tick is due, then
/// after that update it has again counted the ticks that are due: after
/// `elapsed` oscillator cycles that is `floor(elapsed * 8192 / frequency)`.
pub proof fn lemma_counter_keeps_time(state: State, elapsed: u64)
    requires
        state.wf(),
        state.counter == ticks_due(
            state.elapsed_ticks as int,
            state.input_clock_frequency as int,
        ),
        elapsed >= state.elapsed_ticks,
        ticks_due(elapsed as int, state.input_clock_frequency as int) <= state.counter + 1,
    ensures
        (State { elapsed_ticks: elapsed, ..state }).updated().counter == ticks_due(
            elapsed as int,
            state.input_clock_frequency as int,
        ),
{
    let told = State { elapsed_ticks: elapsed, ..state };
    lemma_due(told);
    let f = state.input_clock_frequency as int;
    let x = elapsed as int * 8192;
    vstd::arithmetic::div_mod::lemma_fundamental_div_mod(x, f);
    vstd::arithmetic::div_mod::lemma_mod_bound(x, f);
    let q = x / f;
    assert(q <= elapsed) by (nonlinear_arith)
        requires
            x == f * q + x % f,
            0 <= x % f < f,
            x == elapsed * 8192,
            f >= 8192,
            elapsed >= 0,
    ;
    vstd::arithmetic::div_mod::lemma_div_is_ordered(
        state.elapsed_ticks as int * 8192,
        elapsed as int * 8192,
        f,
    );
}

/// Between two updates that are no more than one oscillator cycle apart,
/// no more than one tick of the counter becomes due.
pub proof fn lemma_one_tick_per_cycle(elapsed: u64, frequency: u64)
    requires
        frequency >= TIMER_FREQUENCY,
    ensures
        ticks_due(elapsed as int + 1, frequency as int) <= ticks_due(
            elapsed as int,
            frequency as int,
        ) + 1,
{
    let f = frequency as int;
    let x = elapsed as int * 8192;
    vstd::arithmetic::div_mod::lemma_fundamental_div_mod(x, f);
    vstd::arithmetic::div_mod::lemma_mod_bound(x, f);
    vstd::arithmetic::div_mod::lemma_fundamental_div_mod(x + 8192, f);
    vstd::arithmetic::div_mod::lemma_mod_bound(x + 8192, f);
    let q = x / f;
    let p = (x + 8192) / f;
    assert(p <= q + 1) by (nonlinear_arith)
        requires
            x == f * q + x % f,
            0 <= x % f < f,
            x + 8192 == f * p + (x + 8192) % f,
            0 <= (x + 8192) % f < f,
            f >= 8192,
    ;
    assert((elapsed as int + 1) * 8192 == x + 8192);
}

/// The timer after it was told each of the oscillator cycles `1` to
/// `cycles` in turn and updated after each.
pub open spec fn run(state: State, cycles: nat) -> State
    decreases cycles,
{
    if cycles == 0 {
        state
    } else {
        (State { elapsed_ticks: cycles as u64, ..run(state, (cycles - 1) as nat) }).updated()
    }
}

/// Running the base timer for `cycles` oscillator cycles from power-on
/// increments the counter exactly `floor(cycles * 8192 / frequency)` times.
pub proof fn lemma_counter_after_run(frequency: u64, cycles: nat)
    requires
        frequency >= TIMER_FREQUENCY,
        cycles <= u64::MAX,
    ensures
        run(State::initial(frequency), cycles).counter == ticks_due(
            cycles as int,
            frequency as int,
        ),
        run(State::initial(frequency), cycles).elapsed_ticks == cycles,
        run(State::initial(frequency), cycles).input_clock_frequency == frequency,
        run(State::initial(frequency), cycles).wf(),
    decreases cycles,
{
    if cycles == 0 {
        assert(0int * 8192 / (frequency as int) == 0) by (nonlinear_arith)
            requires
                frequency > 0,
        ;
    } else {
        lemma_counter_after_run(frequency, (cycles - 1) as nat);
        let before = run(State::initial(frequency), (cycles - 1) as nat);
        lemma_one_tick_per_cycle((cycles - 1) as u64, frequency);
        lemma_counter_keeps_time(before, cycles as u64);
    }
}

/// BTEN as the firmware reads it.
pub fn read_bten(state: &State) -> (value: u8)
    ensures
        value == state.bten.read_ones(),
{
    state.bten.read()
}

/// Writes BTEN.
pub fn write_bten(state: &mut State, value: u8)
    ensures
        *final(state) == (State { bten: old(state).bten.with(value), ..*old(state) }),
{
    state.bten.set(value);
}

/// BTREQ as the firmware reads it.
pub fn read_btreq(state: &State) -> (value: u8)
    ensures
        value == state.btreq.read_ones(),
{
    state.btreq.read()
}

/// A write to BTREQ clears the requests whose bit is written as 1.
pub fn write_btreq(state: &mut State, value: u8)
    ensures
        *final(state) == (State {
            btreq: old(state).btreq.with(old(state).btreq.val & !value),
            ..*old(state)
        }),
{
    let mask = !value;
    state.btreq.set(state.btreq.get() & mask);
}

/// BTC as the firmware reads it.
pub fn read_btc(state: &State) -> (value: u8)
    ensures
        value == state.btc.read_ones(),
{
    state.btc.read()
}

/// Writes BTC.
pub fn write_btc(state: &mut State, value: u8)
    ensures
        *final(state) == (State { btc: old(state).btc.with(value), ..*old(state) }),
{
    state.btc.set(value);
}

} // verus!
