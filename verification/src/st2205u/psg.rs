//! The programmable sound generator: four channels that play samples from
//! a FIFO each, their mixer, and the hardware multiplier that shares its
//! registers.

use vstd::prelude::*;
use std::collections::VecDeque;

verus! {

/// The smallest sample of an ADPCM channel.
pub const ADPCM_MIN: i16 = -255;

/// The largest sample of an ADPCM channel.
pub const ADPCM_MAX: i16 = 256;

/// The largest volume.
pub const VOLUME_MAX: u8 = 63;

/// What the mixer output is divided by to give a level between -1 and 1.
pub const MIX_DENOMINATOR: i32 = 129024;

/// From this occupancy on a FIFO no longer reports that it is half empty.
pub const FIFO_HALF: usize = 8;

/// The multiplier of 16 by 8 bits.
///
/// The 16-bit operand is loaded by two writes to MULH, which go to its
/// two bytes in turn. A write to MULL loads the 8-bit operand and
/// multiplies; the low 16 bits of the product can then be read.
#[derive(Clone, Copy, Debug, PartialEq, Eq, Structural)]
pub struct Multiplicator {
    pub external_mull: u8,
    pub external_mulh: u8,
    pub last_mulh_was_1: bool,
    pub internal_mulh0: u8,
    pub internal_mulh1: u8,
    pub internal_mull: u8,
}

impl Multiplicator {
    /// The multiplier after power-on.
    pub open spec fn initial() -> Multiplicator {
        Multiplicator {
            external_mull: 0,
            external_mulh: 0,
            last_mulh_was_1: false,
            internal_mulh0: 0,
            internal_mulh1: 0,
            internal_mull: 0,
        }
    }

    /// The low 16 bits of the product of the operands, once the 8-bit
    /// operand is `value`.
    pub open spec fn product(self, value: u8) -> int {
        ((self.internal_mulh0 + 256 * self.internal_mulh1) * value) % 0x10000
    }

    /// The multiplier after a write of `value` to MULL.
    pub open spec fn with_mull(self, value: u8) -> Multiplicator {
        Multiplicator {
            internal_mull: value,
            external_mull: (self.product(value) % 256) as u8,
            external_mulh: (self.product(value) / 256) as u8,
            ..self
        }
    }

    /// The multiplier after a write of `value` to MULH.
    pub open spec fn with_mulh(self, value: u8) -> Multiplicator {
        if self.last_mulh_was_1 {
            Multiplicator { internal_mulh0: value, last_mulh_was_1: false, ..self }
        } else {
            Multiplicator { internal_mulh1: value, last_mulh_was_1: true, ..self }
        }
    }

    pub fn new() -> (multiplicator: Self)
        ensures
            multiplicator == Self::initial(),
    {
        Multiplicator {
            external_mull: 0,
            external_mulh: 0,
            internal_mulh0: 0,
            internal_mulh1: 0,
            internal_mull: 0,
            last_mulh_was_1: false,
        }
    }

    /// Loads the 8-bit operand and multiplies.
    pub fn write_mull(&mut self, value: u8)
        ensures
            *final(self) == old(self).with_mull(value),
    {
        self.internal_mull = value;
        let operand1: u32 = (self.internal_mulh0 as u32) + 256 * (self.internal_mulh1 as u32);
        let operand2: u32 = self.internal_mull as u32;
        assert(operand1 * operand2 <= 65535 * 255) by (nonlinear_arith)
            requires
                0 <= operand1 <= 65535,
                0 <= operand2 <= 255,
        ;
        let result: u32 = (operand1 * operand2) % 0x10000;
        self.external_mull = (result % 256) as u8;
        self.external_mulh = (result / 256) as u8;
    }

    /// Loads one byte of the 16-bit operand: the high byte first.
    pub fn write_mulh(&mut self, value: u8)
        ensures
            *final(self) == old(self).with_mulh(value),
    {
        if self.last_mulh_was_1 {
            self.internal_mulh0 = value;
        } else {
            self.internal_mulh1 = value;
        }
        self.last_mulh_was_1 = !self.last_mulh_was_1;
    }

    /// The low byte of the product.
    pub fn read_mull(&self) -> (value: u8)
        ensures
            value == self.external_mull,
    {
        self.external_mull
    }

    /// The high byte of the product.
    pub fn read_mulh(&self) -> (value: u8)
        ensures
            value == self.external_mulh,
    {
        self.external_mulh
    }
}

/// The four channels.
#[derive(Clone, Copy, Debug, PartialEq, Eq, Structural)]
pub enum PsgChannel {
    Channel0,
    Channel1,
    Channel2,
    Channel3,
}

impl PsgChannel {
    /// The number of the channel.
    pub open spec fn number(self) -> int {
        match self {
            PsgChannel::Channel0 => 0,
            PsgChannel::Channel1 => 1,
            PsgChannel::Channel2 => 2,
            PsgChannel::Channel3 => 3,
        }
    }

    fn index(self) -> (i: usize)
        ensures
            i == self.number(),
    {
        match self {
            PsgChannel::Channel0 => 0,
            PsgChannel::Channel1 => 1,
            PsgChannel::Channel2 => 2,
            PsgChannel::Channel3 => 3,
        }
    }
}

/// What a channel plays.
#[derive(Debug)]
#[allow(inconsistent_fields)]
pub enum PsgModeState {
    /// Unsigned samples of 8 bits.
    PcmDac { fifo: VecDeque<u8>, current_sample: u8 },
    /// A tone generator. It is not modelled: the channel is silent and
    /// ignores what is written to it.
    Tone,
    /// Signed samples of 9 bits, written as differences.
    AdpcmDac { fifo: VecDeque<i16>, current_sample: i16 },
}

/// A channel as contracts see it.
#[allow(inconsistent_fields)]
pub enum ModeView {
    PcmDac { fifo: Seq<u8>, current_sample: u8 },
    Tone,
    AdpcmDac { fifo: Seq<i16>, current_sample: i16 },
}

impl View for PsgModeState {
    type V = ModeView;

    open spec fn view(&self) -> ModeView {
        match self {
            PsgModeState::PcmDac { fifo, current_sample } => ModeView::PcmDac {
                fifo: fifo@,
                current_sample: *current_sample,
            },
            PsgModeState::Tone => ModeView::Tone,
            PsgModeState::AdpcmDac { fifo, current_sample } => ModeView::AdpcmDac {
                fifo: fifo@,
                current_sample: *current_sample,
            },
        }
    }
}

/// `x` limited to the range of an ADPCM sample.
pub open spec fn clamped(x: int) -> i16 {
    if x < ADPCM_MIN {
        ADPCM_MIN
    } else if x > ADPCM_MAX {
        ADPCM_MAX
    } else {
        x as i16
    }
}

impl ModeView {
    /// Every ADPCM sample is within its range.
    pub open spec fn wf(self) -> bool {
        match self {
            ModeView::AdpcmDac { fifo, current_sample } => {
                &&& ADPCM_MIN <= current_sample <= ADPCM_MAX
                &&& forall|i: int| 0 <= i < fifo.len() ==> ADPCM_MIN <= #[trigger] fifo[i] <= ADPCM_MAX
            },
            _ => true,
        }
    }

    /// A PCM channel that has been written nothing: it plays the middle level.
    pub open spec fn default_pcmdac() -> ModeView {
        ModeView::PcmDac { fifo: Seq::empty(), current_sample: 128 }
    }

    /// An ADPCM channel that has been written nothing.
    pub open spec fn default_adpcmdac() -> ModeView {
        ModeView::AdpcmDac { fifo: Seq::empty(), current_sample: 0 }
    }

    /// The channel that the two mode bits `bits` of PSGM select.
    pub open spec fn of_mode_bits(bits: int) -> ModeView {
        if bits == 1 {
            ModeView::Tone
        } else if bits == 3 {
            Self::default_adpcmdac()
        } else {
            Self::default_pcmdac()
        }
    }

    /// The two mode bits of the channel in PSGM.
    pub open spec fn mode_bits(self) -> int {
        match self {
            ModeView::PcmDac { .. } => 0,
            ModeView::Tone => 1,
            ModeView::AdpcmDac { .. } => 3,
        }
    }

    /// The newest sample of an ADPCM FIFO, zero for an empty one.
    pub open spec fn newest(fifo: Seq<i16>) -> int {
        if fifo.len() > 0 {
            fifo[fifo.len() - 1] as int
        } else {
            0
        }
    }

    /// The channel after a write of `value` to its data port A: a PCM
    /// channel queues the sample, an ADPCM channel queues its newest
    /// sample raised by `value`.
    pub open spec fn after_a(self, value: u8) -> ModeView {
        match self {
            ModeView::PcmDac { fifo, current_sample } => ModeView::PcmDac {
                fifo: fifo.push(value),
                current_sample,
            },
            ModeView::AdpcmDac { fifo, current_sample } => ModeView::AdpcmDac {
                fifo: fifo.push(clamped(Self::newest(fifo) + value)),
                current_sample,
            },
            ModeView::Tone => self,
        }
    }

    /// The channel after a write of `value` to its data port B: an
    /// ADPCM channel queues its newest sample lowered by `value`.
    pub open spec fn after_b(self, value: u8) -> ModeView {
        match self {
            ModeView::AdpcmDac { fifo, current_sample } => ModeView::AdpcmDac {
                fifo: fifo.push(clamped(Self::newest(fifo) - value)),
                current_sample,
            },
            _ => self,
        }
    }

    /// The number of samples queued.
    pub open spec fn occupancy(self) -> nat {
        match self {
            ModeView::PcmDac { fifo, .. } => fifo.len(),
            ModeView::AdpcmDac { fifo, .. } => fifo.len(),
            ModeView::Tone => 0,
        }
    }

    /// What a read of the data port B returns: the low 8 bits of the
    /// occupancy, and bit 5 while the FIFO is less than half full.
    pub open spec fn status(self) -> int {
        match self {
            ModeView::Tone => 0,
            _ => if self.occupancy() < FIFO_HALF {
                0x20 + self.occupancy() as int
            } else {
                self.occupancy() as int % 256
            },
        }
    }

    /// The channel after its timer fired: the oldest sample queued
    /// becomes the one played, zero if none is queued.
    pub open spec fn popped(self) -> ModeView {
        match self {
            ModeView::PcmDac { fifo, current_sample } => if fifo.len() > 0 {
                ModeView::PcmDac {
                    fifo: fifo.subrange(1, fifo.len() as int),
                    current_sample: fifo[0],
                }
            } else {
                ModeView::PcmDac { fifo, current_sample: 0 }
            },
            ModeView::AdpcmDac { fifo, current_sample } => if fifo.len() > 0 {
                ModeView::AdpcmDac {
                    fifo: fifo.subrange(1, fifo.len() as int),
                    current_sample: fifo[0],
                }
            } else {
                ModeView::AdpcmDac { fifo, current_sample: 0 }
            },
            ModeView::Tone => self,
        }
    }

    /// The level of the channel in units of 1/512: an ADPCM sample `s`
    /// stands for `s / 256`, a PCM sample for `(s - 128) / 512`.
    pub open spec fn level(self) -> int {
        match self {
            ModeView::PcmDac { current_sample, .. } => current_sample - 128,
            ModeView::AdpcmDac { current_sample, .. } => 2 * current_sample,
            ModeView::Tone => 0,
        }
    }
}

impl PsgModeState {
    /// A PCM channel that has been written nothing.
    pub fn default_pcmdac() -> (state: Self)
        ensures
            state@ == ModeView::default_pcmdac(),
    {
        PsgModeState::PcmDac { fifo: VecDeque::with_capacity(16), current_sample: 128 }
    }

    /// An ADPCM channel that has been written nothing.
    pub fn default_adpcmdac() -> (state: Self)
        ensures
            state@ == ModeView::default_adpcmdac(),
    {
        PsgModeState::AdpcmDac { fifo: VecDeque::with_capacity(16), current_sample: 0 }
    }

    /// The channel that two mode bits of PSGM select.
    fn of_mode_bits(bits: u8) -> (state: Self)
        ensures
            state@ == ModeView::of_mode_bits(bits as int),
    {
        if bits == 1 {
            PsgModeState::Tone
        } else if bits == 3 {
            Self::default_adpcmdac()
        } else {
            Self::default_pcmdac()
        }
    }

    fn mode_bits(&self) -> (bits: u8)
        ensures
            bits == self@.mode_bits(),
    {
        match self {
            PsgModeState::PcmDac { .. } => 0b00,
            PsgModeState::Tone => 0b01,
            PsgModeState::AdpcmDac { .. } => 0b11,
        }
    }

    /// The newest sample of an ADPCM FIFO, zero for an empty one.
    fn newest(fifo: &VecDeque<i16>) -> (sample: i16)
        ensures
            sample == ModeView::newest(fifo@),
    {
        broadcast use vstd::std_specs::vecdeque::axiom_spec_len;

        let len = fifo.len();
        if len > 0 {
            fifo[len - 1]
        } else {
            0
        }
    }

    fn clamp(x: i32) -> (y: i16)
        ensures
            y == clamped(x as int),
    {
        if x < -255 {
            -255
        } else if x > 256 {
            256
        } else {
            x as i16
        }
    }

    fn write_a(&mut self, value: u8)
        requires
            old(self)@.wf(),
        ensures
            final(self)@.wf(),
            final(self)@ == old(self)@.after_a(value),
    {
        match self {
            PsgModeState::AdpcmDac { fifo, .. } => {
                // ADPCM is differential: the new sample is the newest one plus the value.
                let raw_value = Self::clamp(Self::newest(fifo) as i32 + value as i32);
                fifo.push_back(raw_value);
            },
            PsgModeState::PcmDac { fifo, .. } => {
                fifo.push_back(value);
            },
            PsgModeState::Tone => {},
        }
    }

    fn write_b(&mut self, value: u8)
        requires
            old(self)@.wf(),
        ensures
            final(self)@.wf(),
            final(self)@ == old(self)@.after_b(value),
    {
        match self {
            PsgModeState::AdpcmDac { fifo, .. } => {
                let raw_value = Self::clamp(Self::newest(fifo) as i32 - value as i32);
                fifo.push_back(raw_value);
            },
            _ => {},
        }
    }

    fn read_b(&self) -> (value: u8)
        ensures
            value == self@.status(),
    {
        broadcast use vstd::std_specs::vecdeque::axiom_spec_len;

        let occupancy = match self {
            PsgModeState::AdpcmDac { fifo, .. } => fifo.len(),
            PsgModeState::PcmDac { fifo, .. } => fifo.len(),
            PsgModeState::Tone => {
                return 0;
            },
        };
        if occupancy < FIFO_HALF {
            0x20 + occupancy as u8
        } else {
            (occupancy % 256) as u8
        }
    }

    fn pop(&mut self)
        requires
            old(self)@.wf(),
        ensures
            final(self)@.wf(),
            final(self)@ == old(self)@.popped(),
    {
        match self {
            PsgModeState::AdpcmDac { fifo, current_sample } => {
                let ghost before = fifo@;
                let value = match fifo.pop_front() {
                    Some(sample) => sample,
                    None => 0,
                };
                *current_sample = value;
                assert(forall|i: int|
                    0 <= i < fifo@.len() ==> #[trigger] fifo@[i] == before[i + 1]);
            },
            PsgModeState::PcmDac { fifo, current_sample } => {
                let value = match fifo.pop_front() {
                    Some(sample) => sample,
                    None => 0,
                };
                *current_sample = value;
            },
            PsgModeState::Tone => {},
        }
    }

    /// The level of the channel in units of 1/512.
    fn level(&self) -> (level: i32)
        requires
            self@.wf(),
        ensures
            level == self@.level(),
            -512 <= level <= 512,
    {
        match self {
            PsgModeState::AdpcmDac { current_sample, .. } => 2 * (*current_sample as i32),
            PsgModeState::PcmDac { current_sample, .. } => *current_sample as i32 - 128,
            PsgModeState::Tone => 0,
        }
    }
}

/// PSGC, the control register of the sound generator.
#[derive(Clone, Copy, Debug, PartialEq, Eq, Structural)]
pub struct Psgc {
    pub mute: bool,
    pub pcmen: bool,
    pub p0en: bool,
    pub p1en: bool,
    pub p2en: bool,
    pub p3en: bool,
}

/// `weight` if `flag`, else zero.
pub open spec fn weighted(flag: bool, weight: int) -> int {
    if flag {
        weight
    } else {
        0
    }
}

impl Psgc {
    /// The register after power-on.
    pub open spec fn initial() -> Psgc {
        Psgc { mute: false, pcmen: false, p0en: false, p1en: false, p2en: false, p3en: false }
    }

    /// The register as the firmware reads it: mute as bit 0, the PCM
    /// enable as bit 3, the enables of the channels as the bits 4 to 7.
    pub open spec fn value(self) -> int {
        weighted(self.p3en, 128) + weighted(self.p2en, 64) + weighted(self.p1en, 32) + weighted(
            self.p0en,
            16,
        ) + weighted(self.pcmen, 8) + weighted(self.mute, 1)
    }

    /// The register after a write of `value`.
    pub open spec fn of_value(value: u8) -> Psgc {
        Psgc {
            mute: value % 2 == 1,
            pcmen: (value / 8) % 2 == 1,
            p0en: (value / 16) % 2 == 1,
            p1en: (value / 32) % 2 == 1,
            p2en: (value / 64) % 2 == 1,
            p3en: (value / 128) % 2 == 1,
        }
    }

    pub fn new() -> (psgc: Self)
        ensures
            psgc == Self::initial(),
    {
        Psgc { mute: false, pcmen: false, p0en: false, p1en: false, p2en: false, p3en: false }
    }

    pub fn read_psgc(&self) -> (value: u8)
        ensures
            value == self.value(),
    {
        let p3: u8 = if self.p3en { 128 } else { 0 };
        let p2: u8 = if self.p2en { 64 } else { 0 };
        let p1: u8 = if self.p1en { 32 } else { 0 };
        let p0: u8 = if self.p0en { 16 } else { 0 };
        let pcm: u8 = if self.pcmen { 8 } else { 0 };
        let mute: u8 = if self.mute { 1 } else { 0 };
        p3 + p2 + p1 + p0 + pcm + mute
    }

    pub fn write_psgc(&mut self, value: u8)
        ensures
            *final(self) == Self::of_value(value),
    {
        self.mute = value % 2 == 1;
        self.pcmen = (value / 8) % 2 == 1;
        self.p0en = (value / 16) % 2 == 1;
        self.p1en = (value / 32) % 2 == 1;
        self.p2en = (value / 64) % 2 == 1;
        self.p3en = (value / 128) % 2 == 1;
    }
}

/// The volume of one channel, 6 bits.
#[derive(Clone, Copy, Debug, PartialEq, Eq, Structural)]
pub struct PsgVolume {
    pub volume: u8,
}

impl PsgVolume {
    pub open spec fn wf(&self) -> bool {
        self.volume <= VOLUME_MAX
    }

    pub fn new() -> (volume: Self)
        ensures
            volume.volume == 0,
    {
        PsgVolume { volume: 0 }
    }

    /// Stores the low 6 bits of `value`.
    pub fn set_u8(&mut self, value: u8)
        ensures
            final(self).volume == value % 64,
            final(self).wf(),
    {
        self.volume = value % 64;
    }

    pub fn get_u8(&self) -> (value: u8)
        ensures
            value == self.volume,
    {
        self.volume
    }
}

/// The sound generator as contracts see it.
pub struct PsgView {
    pub psgc: Psgc,
    /// The four channels.
    pub channels: Seq<ModeView>,
    /// The volumes of the four channels.
    pub volumes: Seq<u8>,
    pub multiplicator: Multiplicator,
}

impl PsgView {
    /// The sound generator after power-on: four PCM channels at volume zero.
    pub open spec fn initial() -> PsgView {
        PsgView {
            psgc: Psgc::initial(),
            channels: Seq::new(4, |i: int| ModeView::default_pcmdac()),
            volumes: Seq::new(4, |i: int| 0u8),
            multiplicator: Multiplicator::initial(),
        }
    }

    /// The sound generator with `channel` in the place of channel `i`.
    pub open spec fn with_channel(self, i: int, channel: ModeView) -> PsgView {
        PsgView { channels: self.channels.update(i, channel), ..self }
    }

    /// PSGM as the firmware reads it: two mode bits for each channel,
    /// those of channel 0 lowest.
    pub open spec fn psgm(self) -> int {
        self.channels[0].mode_bits() + 4 * self.channels[1].mode_bits() + 16
            * self.channels[2].mode_bits() + 64 * self.channels[3].mode_bits()
    }

    /// The sound generator after a write of `value` to PSGM: every
    /// channel starts anew in the mode that its two bits select.
    pub open spec fn with_psgm(self, value: u8) -> PsgView {
        PsgView {
            channels: seq![
                ModeView::of_mode_bits(value as int % 4),
                ModeView::of_mode_bits((value as int / 4) % 4),
                ModeView::of_mode_bits((value as int / 16) % 4),
                ModeView::of_mode_bits((value as int / 64) % 4),
            ],
            ..self
        }
    }

    /// What channel `i` adds to the mixer: its level times its volume.
    pub open spec fn scaled(self, i: int) -> int {
        self.channels[i].level() * self.volumes[i]
    }

    /// The output of the mixer in units of `1 / MIX_DENOMINATOR`: the
    /// mean of the four channels, each at its level times its volume
    /// over 63.
    pub open spec fn mix(self) -> int {
        self.scaled(0) + self.scaled(1) + self.scaled(2) + self.scaled(3)
    }
}

/// The output of the mixer is never beyond full scale: with every ADPCM
/// sample within its range and every volume within 6 bits, it lies
/// between `-MIX_DENOMINATOR` and `MIX_DENOMINATOR`.
pub proof fn lemma_mix_range(psg: PsgView)
    requires
        psg.channels.len() == 4,
        psg.volumes.len() == 4,
        forall|i: int| 0 <= i < 4 ==> (#[trigger] psg.channels[i]).wf(),
        forall|i: int| 0 <= i < 4 ==> #[trigger] psg.volumes[i] <= VOLUME_MAX,
    ensures
        -MIX_DENOMINATOR <= psg.mix() <= MIX_DENOMINATOR,
{
    assert forall|i: int| 0 <= i < 4 implies -32256 <= #[trigger] psg.scaled(i) <= 32256 by {
        let level = psg.channels[i].level();
        let volume = psg.volumes[i] as int;
        assert(psg.channels[i].wf());
        assert(psg.volumes[i] <= VOLUME_MAX);
        assert(-32256 <= level * volume <= 32256) by (nonlinear_arith)
            requires
                -512 <= level <= 512,
                0 <= volume <= 63,
        ;
    }
    assert(-32256 <= psg.scaled(0) <= 32256);
    assert(-32256 <= psg.scaled(1) <= 32256);
    assert(-32256 <= psg.scaled(2) <= 32256);
    assert(-32256 <= psg.scaled(3) <= 32256);
}

/// The programmable sound generator.
pub struct State {
    psgc: Psgc,
    psg_states: Vec<PsgModeState>,
    volumes: Vec<PsgVolume>,
    multiplicator: Multiplicator,
}

impl View for State {
    type V = PsgView;

    closed spec fn view(&self) -> PsgView {
        PsgView {
            psgc: self.psgc,
            channels: Seq::new(self.psg_states@.len(), |i: int| self.psg_states@[i]@),
            volumes: Seq::new(self.volumes@.len(), |i: int| self.volumes@[i].volume),
            multiplicator: self.multiplicator,
        }
    }
}

impl State {
    pub closed spec fn inv(&self) -> bool {
        &&& self.psg_states@.len() == 4
        &&& self.volumes@.len() == 4
        &&& forall|i: int| 0 <= i < 4 ==> (#[trigger] self.psg_states@[i])@.wf()
        &&& forall|i: int| 0 <= i < 4 ==> (#[trigger] self.volumes@[i]).wf()
    }

    /// What follows from `inv` for the view.
    pub proof fn lemma_inv(&self)
        requires
            self.inv(),
        ensures
            self@.channels.len() == 4,
            self@.volumes.len() == 4,
            forall|i: int| 0 <= i < 4 ==> (#[trigger] self@.channels[i]).wf(),
            forall|i: int| 0 <= i < 4 ==> #[trigger] self@.volumes[i] <= VOLUME_MAX,
    {
        assert forall|i: int| 0 <= i < 4 implies (#[trigger] self@.channels[i]).wf() by {
            assert(self.psg_states@[i]@.wf());
        }
        assert forall|i: int| 0 <= i < 4 implies #[trigger] self@.volumes[i] <= VOLUME_MAX by {
            assert(self.volumes@[i].wf());
        }
    }

    pub fn new() -> (state: Self)
        ensures
            state.inv(),
            state@ == PsgView::initial(),
    {
        let mut psg_states: Vec<PsgModeState> = Vec::new();
        psg_states.push(PsgModeState::default_pcmdac());
        psg_states.push(PsgModeState::default_pcmdac());
        psg_states.push(PsgModeState::default_pcmdac());
        psg_states.push(PsgModeState::default_pcmdac());
        let mut volumes: Vec<PsgVolume> = Vec::new();
        volumes.push(PsgVolume::new());
        volumes.push(PsgVolume::new());
        volumes.push(PsgVolume::new());
        volumes.push(PsgVolume::new());
        let state = State {
            psgc: Psgc::new(),
            psg_states,
            volumes,
            multiplicator: Multiplicator::new(),
        };
        assert(state@.channels =~= PsgView::initial().channels);
        assert(state@.volumes =~= PsgView::initial().volumes);
        state
    }

    pub fn read_psgc(&self) -> (value: u8)
        ensures
            value == self@.psgc.value(),
    {
        self.psgc.read_psgc()
    }

    pub fn write_psgc(&mut self, value: u8)
        requires
            old(self).inv(),
        ensures
            final(self).inv(),
            final(self)@ == (PsgView { psgc: Psgc::of_value(value), ..old(self)@ }),
    {
        self.psgc.write_psgc(value);
    }

    /// PSGM: the modes of the four channels.
    pub fn read_psgm(&self) -> (value: u8)
        requires
            self.inv(),
        ensures
            value == self@.psgm(),
    {
        let m0 = self.psg_states[0].mode_bits();
        let m1 = self.psg_states[1].mode_bits();
        let m2 = self.psg_states[2].mode_bits();
        let m3 = self.psg_states[3].mode_bits();
        m0 + 4 * m1 + 16 * m2 + 64 * m3
    }

    /// Selects the modes of the four channels, which start anew.
    pub fn write_psgm(&mut self, value: u8)
        requires
            old(self).inv(),
        ensures
            final(self).inv(),
            final(self)@ == old(self)@.with_psgm(value),
    {
        let mut psg_states: Vec<PsgModeState> = Vec::new();
        psg_states.push(PsgModeState::of_mode_bits(value % 4));
        psg_states.push(PsgModeState::of_mode_bits((value / 4) % 4));
        psg_states.push(PsgModeState::of_mode_bits((value / 16) % 4));
        psg_states.push(PsgModeState::of_mode_bits((value / 64) % 4));
        self.psg_states = psg_states;
        assert(self@.channels =~= old(self)@.with_psgm(value).channels);
        assert(self@.volumes =~= old(self)@.volumes);
    }

    /// A write to the data port A of a channel.
    pub fn write_psgxa(&mut self, channel: PsgChannel, value: u8)
        requires
            old(self).inv(),
        ensures
            final(self).inv(),
            final(self)@ == old(self)@.with_channel(
                channel.number(),
                old(self)@.channels[channel.number()].after_a(value),
            ),
    {
        let i = channel.index();
        self.psg_states[i].write_a(value);
        assert(self@.channels =~= old(self)@.channels.update(
            i as int,
            old(self)@.channels[i as int].after_a(value),
        ));
        assert(self@.volumes =~= old(self)@.volumes);
    }

    /// A write to the data port B of a channel.
    pub fn write_psgxb(&mut self, channel: PsgChannel, value: u8)
        requires
            old(self).inv(),
        ensures
            final(self).inv(),
            final(self)@ == old(self)@.with_channel(
                channel.number(),
                old(self)@.channels[channel.number()].after_b(value),
            ),
    {
        let i = channel.index();
        self.psg_states[i].write_b(value);
        assert(self@.channels =~= old(self)@.channels.update(
            i as int,
            old(self)@.channels[i as int].after_b(value),
        ));
        assert(self@.volumes =~= old(self)@.volumes);
    }

    /// The data port B of a channel: how full its FIFO is.
    pub fn read_psgxb(&self, channel: PsgChannel) -> (value: u8)
        requires
            self.inv(),
        ensures
            value == self@.channels[channel.number()].status(),
    {
        self.psg_states[channel.index()].read_b()
    }

    /// Sets the volume of a channel to the low 6 bits of `value`.
    pub fn write_volx(&mut self, channel: PsgChannel, value: u8)
        requires
            old(self).inv(),
        ensures
            final(self).inv(),
            final(self)@ == (PsgView {
                volumes: old(self)@.volumes.update(channel.number(), (value % 64) as u8),
                ..old(self)@
            }),
    {
        let i = channel.index();
        self.volumes[i].set_u8(value);
        assert(self@.volumes =~= old(self)@.volumes.update(i as int, (value % 64) as u8));
        assert(self@.channels =~= old(self)@.channels);
    }

    /// The volume of a channel.
    pub fn read_volx(&self, channel: PsgChannel) -> (value: u8)
        requires
            self.inv(),
        ensures
            value == self@.volumes[channel.number()],
    {
        self.volumes[channel.index()].get_u8()
    }

    pub fn read_mull(&self) -> (value: u8)
        ensures
            value == self@.multiplicator.external_mull,
    {
        self.multiplicator.read_mull()
    }

    pub fn read_mulh(&self) -> (value: u8)
        ensures
            value == self@.multiplicator.external_mulh,
    {
        self.multiplicator.read_mulh()
    }

    pub fn write_mull(&mut self, value: u8)
        requires
            old(self).inv(),
        ensures
            final(self).inv(),
            final(self)@ == (PsgView {
                multiplicator: old(self)@.multiplicator.with_mull(value),
                ..old(self)@
            }),
    {
        self.multiplicator.write_mull(value);
    }

    pub fn write_mulh(&mut self, value: u8)
        requires
            old(self).inv(),
        ensures
            final(self).inv(),
            final(self)@ == (PsgView {
                multiplicator: old(self)@.multiplicator.with_mulh(value),
                ..old(self)@
            }),
    {
        self.multiplicator.write_mulh(value);
    }

    /// The timer of a channel fired: the channel goes on to its next sample.
    pub fn pop_current_sample(&mut self, channel: PsgChannel)
        requires
            old(self).inv(),
        ensures
            final(self).inv(),
            final(self)@ == old(self)@.with_channel(
                channel.number(),
                old(self)@.channels[channel.number()].popped(),
            ),
    {
        let i = channel.index();
        self.psg_states[i].pop();
        assert(self@.channels =~= old(self)@.channels.update(
            i as int,
            old(self)@.channels[i as int].popped(),
        ));
        assert(self@.volumes =~= old(self)@.volumes);
    }

    /// What channel `i` adds to the mixer.
    fn scaled(&self, i: usize) -> (part: i32)
        requires
            self.inv(),
            i < 4,
        ensures
            part == self@.scaled(i as int),
            -32256 <= part <= 32256,
    {
        let level = self.psg_states[i].level();
        let volume = self.volumes[i].get_u8() as i32;
        assert(self.volumes@[i as int].wf());
        assert(-32256 <= level * volume <= 32256) by (nonlinear_arith)
            requires
                -512 <= level <= 512,
                0 <= volume <= 63,
        ;
        level * volume
    }

    /// The output of the mixer in units of `1 / MIX_DENOMINATOR`. It is
    /// never beyond full scale.
    pub fn get_mix(&self) -> (mix: i32)
        requires
            self.inv(),
        ensures
            mix == self@.mix(),
            -MIX_DENOMINATOR <= mix <= MIX_DENOMINATOR,
    {
        let mixer0 = self.scaled(0) + self.scaled(1);
        let mixer1 = self.scaled(2) + self.scaled(3);
        mixer0 + mixer1
    }
}

} // verus!
