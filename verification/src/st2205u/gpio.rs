//! The general-purpose ports. Ports A and B are wired to the buttons of
//! the handheld; the other registers are kept and have no effect.

use vstd::prelude::*;
use crate::gpio::GpioButton;
use crate::gpio::GpioButtonState;
use crate::reg::U8Register;

verus! {

/// The ports of the microcontroller.
#[derive(Clone, Copy, Debug, PartialEq, Eq, Structural)]
pub enum Port {
    A,
    B,
    C,
    D,
    E,
    F,
    L,
}

/// The state of the ports.
#[derive(Clone, Copy, Debug)]
pub struct State {
    /// The newest button state that the host delivered.
    pub last_state: GpioButtonState,
    /// Port A data.
    pub pa: U8Register,
    /// Port B data.
    pub pb: U8Register,
    /// Port C data.
    pub pc: U8Register,
    /// Port D data.
    pub pd: U8Register,
    /// Port E data.
    pub pe: U8Register,
    /// Port F data.
    pub pf: U8Register,
    /// Port L data.
    pub pl: U8Register,
    /// Port C type select.
    pub psc: U8Register,
    /// Port E type select.
    pub pse: U8Register,
    /// Port A direction.
    pub pca: U8Register,
    /// Port B direction.
    pub pcb: U8Register,
    /// Port C direction.
    pub pcc: U8Register,
    /// Port D direction.
    pub pcd: U8Register,
    /// Port E direction.
    pub pce: U8Register,
    /// Port F direction.
    pub pcf: U8Register,
    /// Port L direction.
    pub pcl: U8Register,
    /// Port C function select.
    pub pfc: U8Register,
    /// Port D function select.
    pub pfd: U8Register,
    /// Port miscellaneous control.
    pub pmcr: U8Register,
}

/// The button wired to an input bit: the bits 0 to 7 are port A, the bits
/// 8 to 13 are port B.
pub open spec fn button_of_bit(bit: int) -> Option<GpioButton> {
    if bit == 0 {
        Some(GpioButton::Up)
    } else if bit == 1 {
        Some(GpioButton::Down)
    } else if bit == 2 {
        Some(GpioButton::Left)
    } else if bit == 3 {
        Some(GpioButton::Right)
    } else if bit == 4 {
        Some(GpioButton::Power)
    } else if bit == 5 {
        Some(GpioButton::Menu)
    } else if bit == 6 {
        Some(GpioButton::UpsideUp)
    } else if bit == 7 {
        Some(GpioButton::UpsideDown)
    } else if bit == 8 {
        Some(GpioButton::ScreenTopLeft)
    } else if bit == 9 {
        Some(GpioButton::ScreenTopRight)
    } else if bit == 10 {
        Some(GpioButton::ScreenBottomLeft)
    } else if bit == 11 {
        Some(GpioButton::ScreenBottomRight)
    } else if bit == 12 {
        Some(GpioButton::Action)
    } else if bit == 13 {
        Some(GpioButton::Mute)
    } else {
        None
    }
}

/// Whether the input `bit` is active in `state`.
pub open spec fn input_bit(bit: int, state: GpioButtonState) -> bool {
    match button_of_bit(bit) {
        Some(button) => state.pressed(button),
        None => false,
    }
}

/// The value of bit `k` of a byte.
pub open spec fn bit_value(k: nat) -> int
    decreases k,
{
    if k == 0 {
        1
    } else {
        2 * bit_value((k - 1) as nat)
    }
}

/// The low `n` input bits from `first` on as a number, bit `first + k`
/// as its bit `k`.
pub open spec fn inputs_below(first: int, state: GpioButtonState, n: nat) -> int
    decreases n,
{
    if n == 0 {
        0
    } else {
        inputs_below(first, state, (n - 1) as nat) + if input_bit(first + n - 1, state) {
            bit_value((n - 1) as nat)
        } else {
            0
        }
    }
}

/// What a read of a port returns whose inputs are the eight bits from
/// `first` on: the inputs are active low.
pub open spec fn port_value(first: int, state: GpioButtonState) -> int {
    255 - inputs_below(first, state, 8)
}

/// Whether two button states differ in an input of port A.
pub open spec fn port_a_differs(a: GpioButtonState, b: GpioButtonState) -> bool {
    exists|bit: int| 0 <= bit < 8 && #[trigger] input_bit(bit, a) != input_bit(bit, b)
}

fn get_input_bit(bit: u32, state: &GpioButtonState) -> (active: bool)
    ensures
        active == input_bit(bit as int, *state),
{
    let button = match bit {
        0 => GpioButton::Up,
        1 => GpioButton::Down,
        2 => GpioButton::Left,
        3 => GpioButton::Right,
        4 => GpioButton::Power,
        5 => GpioButton::Menu,
        6 => GpioButton::UpsideUp,
        7 => GpioButton::UpsideDown,
        8 => GpioButton::ScreenTopLeft,
        9 => GpioButton::ScreenTopRight,
        10 => GpioButton::ScreenBottomLeft,
        11 => GpioButton::ScreenBottomRight,
        12 => GpioButton::Action,
        13 => GpioButton::Mute,
        _ => {
            return false;
        },
    };
    state.get(button)
}

/// Reads the eight inputs from `first` on, active low.
fn read_inputs(first: u32, state: &GpioButtonState) -> (value: u8)
    requires
        first <= 8,
    ensures
        value == port_value(first as int, *state),
{
    let mut result: u16 = 0;
    let mut weight: u16 = 1;
    let mut i: u32 = 0;
    while i < 8
        invariant
            i <= 8,
            first <= 8,
            weight == bit_value(i as nat),
            result == inputs_below(first as int, *state, i as nat),
            result < weight,
            weight <= 256,
            i < 8 ==> weight <= 128,
        decreases 8 - i,
    {
        if get_input_bit(first + i, state) {
            result = result + weight;
        }
        weight = weight * 2;
        i = i + 1;
        assert(bit_value(i as nat) == 2 * bit_value((i - 1) as nat));
        assert(i < 8 ==> weight <= 128) by {
            reveal_with_fuel(bit_value, 9);
        }
    }
    assert(weight == 256) by {
        reveal_with_fuel(bit_value, 9);
    }
    (255 - result) as u8
}

impl State {
    /// The ports after power-on, with no button held down.
    pub open spec fn initial() -> State {
        State {
            last_state: GpioButtonState::released(),
            pa: U8Register { val: 0xFF, mask: 0xFF },
            pb: U8Register { val: 0xFF, mask: 0xFF },
            pc: U8Register { val: 0xFF, mask: 0xFF },
            pd: U8Register { val: 0xFF, mask: 0xFF },
            pe: U8Register { val: 0xFF, mask: 0xFF },
            pf: U8Register { val: 0xFF, mask: 0xFF },
            pl: U8Register { val: 0xFF, mask: 0xFF },
            psc: U8Register { val: 0xFF, mask: 0xFF },
            pse: U8Register { val: 0xFF, mask: 0xFF },
            pca: U8Register { val: 0x00, mask: 0xFF },
            pcb: U8Register { val: 0x00, mask: 0xFF },
            pcc: U8Register { val: 0x00, mask: 0xFF },
            pcd: U8Register { val: 0x00, mask: 0xFF },
            pce: U8Register { val: 0x00, mask: 0xFF },
            pcf: U8Register { val: 0x00, mask: 0xFF },
            pcl: U8Register { val: 0x00, mask: 0xFF },
            pfc: U8Register { val: 0x00, mask: 0xFF },
            pfd: U8Register { val: 0x00, mask: 0xFE },
            pmcr: U8Register { val: 0x80, mask: 0xFF },
        }
    }

    /// The ports after the host delivered `update`, if it delivered any.
    pub open spec fn with_inputs(self, update: Option<GpioButtonState>) -> State {
        match update {
            Some(new_state) => State { last_state: new_state, ..self },
            None => self,
        }
    }

    pub fn new() -> (state: Self)
        ensures
            state == Self::initial(),
    {
        proof {
            lemma_reset_values();
        }
        State {
            last_state: GpioButtonState::default(),
            pa: U8Register::new(0xFF, 0xFF),
            pb: U8Register::new(0xFF, 0xFF),
            pc: U8Register::new(0xFF, 0xFF),
            pd: U8Register::new(0xFF, 0xFF),
            pe: U8Register::new(0xFF, 0xFF),
            pf: U8Register::new(0xFF, 0xFF),
            pl: U8Register::new(0xFF, 0xFF),
            psc: U8Register::new(0xFF, 0xFF),
            pse: U8Register::new(0xFF, 0xFF),
            pca: U8Register::new(0x00, 0xFF),
            pcb: U8Register::new(0x00, 0xFF),
            pcc: U8Register::new(0x00, 0xFF),
            pcd: U8Register::new(0x00, 0xFF),
            pce: U8Register::new(0x00, 0xFF),
            pcf: U8Register::new(0x00, 0xFF),
            pcl: U8Register::new(0x00, 0xFF),
            pfc: U8Register::new(0x00, 0xFF),
            pfd: U8Register::new(0x00, 0xFE),
            pmcr: U8Register::new(0x80, 0xFF),
        }
    }

    /// Takes the button state that the host delivered, if any. Returns
    /// whether an input of port A changed, which asks for the port A
    /// transition interrupt.
    pub fn update_gpio_inputs(&mut self, update: Option<GpioButtonState>) -> (transition: bool)
        ensures
            *final(self) == old(self).with_inputs(update),
            transition == match update {
                Some(new_state) => port_a_differs(new_state, old(self).last_state),
                None => false,
            },
    {
        let new_state = match update {
            Some(new_state) => new_state,
            None => {
                return false;
            },
        };
        let mut updated = false;
        let mut bit: u32 = 0;
        // Only the inputs of port A raise the interrupt.
        while bit < 8
            invariant
                bit <= 8,
                *self == *old(self),
                updated == exists|other: int|
                    0 <= other < bit && #[trigger] input_bit(other, new_state) != input_bit(
                        other,
                        self.last_state,
                    ),
            decreases 8 - bit,
        {
            if get_input_bit(bit, &new_state) != get_input_bit(bit, &self.last_state) {
                updated = true;
            }
            bit = bit + 1;
        }
        self.last_state = new_state;
        updated
    }
}

/// The reset values within their masks.
proof fn lemma_reset_values()
    by (bit_vector)
    ensures
        0xFFu8 & 0xFFu8 == 0xFFu8,
        0x00u8 & 0xFFu8 == 0x00u8,
        0x00u8 & 0xFEu8 == 0x00u8,
        0x80u8 & 0xFFu8 == 0x80u8,
{
}

/// Port A: the inputs 0 to 7, active low.
pub fn read_pa(gpio: &State) -> (value: u8)
    ensures
        value == port_value(0, gpio.last_state),
{
    read_inputs(0, &gpio.last_state)
}

/// Port B: the inputs 8 to 15, active low.
pub fn read_pb(gpio: &State) -> (value: u8)
    ensures
        value == port_value(8, gpio.last_state),
{
    read_inputs(8, &gpio.last_state)
}

/// PC as the firmware reads it, missing bits as 1.
pub fn read_pc(gpio: &State) -> (value: u8)
    ensures
        value == gpio.pc.read_ones(),
{
    gpio.pc.read()
}

/// PD as the firmware reads it, missing bits as 1.
pub fn read_pd(gpio: &State) -> (value: u8)
    ensures
        value == gpio.pd.read_ones(),
{
    gpio.pd.read()
}

/// PE as the firmware reads it, missing bits as 1.
pub fn read_pe(gpio: &State) -> (value: u8)
    ensures
        value == gpio.pe.read_ones(),
{
    gpio.pe.read()
}

/// PF as the firmware reads it, missing bits as 1.
pub fn read_pf(gpio: &State) -> (value: u8)
    ensures
        value == gpio.pf.read_ones(),
{
    gpio.pf.read()
}

/// PL as the firmware reads it, missing bits as 1.
pub fn read_pl(gpio: &State) -> (value: u8)
    ensures
        value == gpio.pl.read_ones(),
{
    gpio.pl.read()
}

/// PSC as the firmware reads it, missing bits as 1.
pub fn read_psc(gpio: &State) -> (value: u8)
    ensures
        value == gpio.psc.read_ones(),
{
    gpio.psc.read()
}

/// PSE as the firmware reads it, missing bits as 1.
pub fn read_pse(gpio: &State) -> (value: u8)
    ensures
        value == gpio.pse.read_ones(),
{
    gpio.pse.read()
}

/// PCA as the firmware reads it, missing bits as 1.
pub fn read_pca(gpio: &State) -> (value: u8)
    ensures
        value == gpio.pca.read_ones(),
{
    gpio.pca.read()
}

/// PCB as the firmware reads it, missing bits as 1.
pub fn read_pcb(gpio: &State) -> (value: u8)
    ensures
        value == gpio.pcb.read_ones(),
{
    gpio.pcb.read()
}

/// PCC as the firmware reads it, missing bits as 1.
pub fn read_pcc(gpio: &State) -> (value: u8)
    ensures
        value == gpio.pcc.read_ones(),
{
    gpio.pcc.read()
}

/// PCD as the firmware reads it, missing bits as 1.
pub fn read_pcd(gpio: &State) -> (value: u8)
    ensures
        value == gpio.pcd.read_ones(),
{
    gpio.pcd.read()
}

/// PCE as the firmware reads it, missing bits as 1.
pub fn read_pce(gpio: &State) -> (value: u8)
    ensures
        value == gpio.pce.read_ones(),
{
    gpio.pce.read()
}

/// PCF as the firmware reads it, missing bits as 1.
pub fn read_pcf(gpio: &State) -> (value: u8)
    ensures
        value == gpio.pcf.read_ones(),
{
    gpio.pcf.read()
}

/// PCL as the firmware reads it, missing bits as 1.
pub fn read_pcl(gpio: &State) -> (value: u8)
    ensures
        value == gpio.pcl.read_ones(),
{
    gpio.pcl.read()
}

/// PFC as the firmware reads it, missing bits as 1.
pub fn read_pfc(gpio: &State) -> (value: u8)
    ensures
        value == gpio.pfc.read_ones(),
{
    gpio.pfc.read()
}

/// PFD as the firmware reads it, missing bits as 1.
pub fn read_pfd(gpio: &State) -> (value: u8)
    ensures
        value == gpio.pfd.read_ones(),
{
    gpio.pfd.read()
}

/// PMCR as the firmware reads it, missing bits as 1.
pub fn read_pmcr(gpio: &State) -> (value: u8)
    ensures
        value == gpio.pmcr.read_ones(),
{
    gpio.pmcr.read()
}

/// A write to PA has no effect.
pub fn write_pa(gpio: &mut State, value: u8)
    ensures
        *final(gpio) == *old(gpio),
{
}

/// A write to PB has no effect.
pub fn write_pb(gpio: &mut State, value: u8)
    ensures
        *final(gpio) == *old(gpio),
{
}

/// Writes PC.
pub fn write_pc(gpio: &mut State, value: u8)
    ensures
        *final(gpio) == (State { pc: old(gpio).pc.with(value), ..*old(gpio) }),
{
    gpio.pc.set(value);
}

/// Writes PD.
pub fn write_pd(gpio: &mut State, value: u8)
    ensures
        *final(gpio) == (State { pd: old(gpio).pd.with(value), ..*old(gpio) }),
{
    gpio.pd.set(value);
}

/// Writes PE.
pub fn write_pe(gpio: &mut State, value: u8)
    ensures
        *final(gpio) == (State { pe: old(gpio).pe.with(value), ..*old(gpio) }),
{
    gpio.pe.set(value);
}

/// Writes PF.
pub fn write_pf(gpio: &mut State, value: u8)
    ensures
        *final(gpio) == (State { pf: old(gpio).pf.with(value), ..*old(gpio) }),
{
    gpio.pf.set(value);
}

/// A write to PL has no effect.
pub fn write_pl(gpio: &mut State, value: u8)
    ensures
        *final(gpio) == *old(gpio),
{
}

/// Writes PSC.
pub fn write_psc(gpio: &mut State, value: u8)
    ensures
        *final(gpio) == (State { psc: old(gpio).psc.with(value), ..*old(gpio) }),
{
    gpio.psc.set(value);
}

/// Writes PSE.
pub fn write_pse(gpio: &mut State, value: u8)
    ensures
        *final(gpio) == (State { pse: old(gpio).pse.with(value), ..*old(gpio) }),
{
    gpio.pse.set(value);
}

/// Writes PCA.
pub fn write_pca(gpio: &mut State, value: u8)
    ensures
        *final(gpio) == (State { pca: old(gpio).pca.with(value), ..*old(gpio) }),
{
    gpio.pca.set(value);
}

/// Writes PCB.
pub fn write_pcb(gpio: &mut State, value: u8)
    ensures
        *final(gpio) == (State { pcb: old(gpio).pcb.with(value), ..*old(gpio) }),
{
    gpio.pcb.set(value);
}

/// Writes PCC.
pub fn write_pcc(gpio: &mut State, value: u8)
    ensures
        *final(gpio) == (State { pcc: old(gpio).pcc.with(value), ..*old(gpio) }),
{
    gpio.pcc.set(value);
}

/// Writes PCD.
pub fn write_pcd(gpio: &mut State, value: u8)
    ensures
        *final(gpio) == (State { pcd: old(gpio).pcd.with(value), ..*old(gpio) }),
{
    gpio.pcd.set(value);
}

/// Writes PCE.
pub fn write_pce(gpio: &mut State, value: u8)
    ensures
        *final(gpio) == (State { pce: old(gpio).pce.with(value), ..*old(gpio) }),
{
    gpio.pce.set(value);
}

/// Writes PCF.
pub fn write_pcf(gpio: &mut State, value: u8)
    ensures
        *final(gpio) == (State { pcf: old(gpio).pcf.with(value), ..*old(gpio) }),
{
    gpio.pcf.set(value);
}

/// Writes PCL.
pub fn write_pcl(gpio: &mut State, value: u8)
    ensures
        *final(gpio) == (State { pcl: old(gpio).pcl.with(value), ..*old(gpio) }),
{
    gpio.pcl.set(value);
}

/// Writes PFC.
pub fn write_pfc(gpio: &mut State, value: u8)
    ensures
        *final(gpio) == (State { pfc: old(gpio).pfc.with(value), ..*old(gpio) }),
{
    gpio.pfc.set(value);
}

/// Writes PFD.
pub fn write_pfd(gpio: &mut State, value: u8)
    ensures
        *final(gpio) == (State { pfd: old(gpio).pfd.with(value), ..*old(gpio) }),
{
    gpio.pfd.set(value);
}

/// Writes PMCR.
pub fn write_pmcr(gpio: &mut State, value: u8)
    ensures
        *final(gpio) == (State { pmcr: old(gpio).pmcr.with(value), ..*old(gpio) }),
{
    gpio.pmcr.set(value);
}

} // verus!
