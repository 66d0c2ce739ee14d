//! The 2A03's audio processing unit: two pulse channels, a triangle channel, a noise
//! channel and a delta-modulation channel, driven by the frame sequencer. Everything here is
//! integer state; turning channel levels into samples is left to the caller.
use crate::bits::lemma_and_le_u8;
use crate::bits::{group_wrapping, wrap16};
use crate::bus::AddressRange;
use vstd::prelude::*;

verus! {

/// The length counter value that each 5-bit load index selects.
pub open spec fn length_table(i: u8) -> u8 {
    match i {
        0 => 10,
        1 => 254,
        2 => 20,
        3 => 2,
        4 => 40,
        5 => 4,
        6 => 80,
        7 => 6,
        8 => 160,
        9 => 8,
        10 => 60,
        11 => 10,
        12 => 14,
        13 => 12,
        14 => 26,
        15 => 14,
        16 => 12,
        17 => 16,
        18 => 24,
        19 => 18,
        20 => 48,
        21 => 20,
        22 => 96,
        23 => 22,
        24 => 192,
        25 => 24,
        26 => 72,
        27 => 26,
        28 => 16,
        29 => 28,
        30 => 32,
        _ => 30,
    }
}

fn length_table_lookup(i: u8) -> (r: u8)
    ensures
        r == length_table(i),
{
    match i {
        0 => 10,
        1 => 254,
        2 => 20,
        3 => 2,
        4 => 40,
        5 => 4,
        6 => 80,
        7 => 6,
        8 => 160,
        9 => 8,
        10 => 60,
        11 => 10,
        12 => 14,
        13 => 12,
        14 => 26,
        15 => 14,
        16 => 12,
        17 => 16,
        18 => 24,
        19 => 18,
        20 => 48,
        21 => 20,
        22 => 96,
        23 => 22,
        24 => 192,
        25 => 24,
        26 => 72,
        27 => 26,
        28 => 16,
        29 => 28,
        30 => 32,
        _ => 30,
    }
}

/// The noise timer periods that each 4-bit index selects.
pub open spec fn noise_period(i: u8) -> u16 {
    match i {
        0 => 4,
        1 => 8,
        2 => 16,
        3 => 32,
        4 => 64,
        5 => 96,
        6 => 128,
        7 => 160,
        8 => 202,
        9 => 254,
        10 => 380,
        11 => 508,
        12 => 762,
        13 => 1016,
        14 => 2034,
        _ => 4068,
    }
}

fn noise_period_lookup(i: u8) -> (r: u16)
    ensures
        r == noise_period(i),
        r >= 4,
{
    match i {
        0 => 4,
        1 => 8,
        2 => 16,
        3 => 32,
        4 => 64,
        5 => 96,
        6 => 128,
        7 => 160,
        8 => 202,
        9 => 254,
        10 => 380,
        11 => 508,
        12 => 762,
        13 => 1016,
        14 => 2034,
        _ => 4068,
    }
}

/// The delta-modulation rates that each 4-bit index selects.
pub open spec fn dmc_rate(i: u8) -> u8 {
    match i {
        0 => 214,
        1 => 190,
        2 => 170,
        3 => 160,
        4 => 143,
        5 => 127,
        6 => 113,
        7 => 107,
        8 => 95,
        9 => 80,
        10 => 71,
        11 => 64,
        12 => 53,
        13 => 42,
        14 => 36,
        _ => 27,
    }
}

fn dmc_rate_lookup(i: u8) -> (r: u8)
    ensures
        r == dmc_rate(i),
        r <= 214,
{
    match i {
        0 => 214,
        1 => 190,
        2 => 170,
        3 => 160,
        4 => 143,
        5 => 127,
        6 => 113,
        7 => 107,
        8 => 95,
        9 => 80,
        10 => 71,
        11 => 64,
        12 => 53,
        13 => 42,
        14 => 36,
        _ => 27,
    }
}

/// The four pulse duty-cycle sequences.
pub open spec fn pulse_sequence(i: u8) -> u8 {
    match i {
        0 => 0b00000001,
        1 => 0b00000011,
        2 => 0b00001111,
        _ => 0b11111100,
    }
}

fn pulse_sequence_lookup(i: u8) -> (r: u8)
    ensures
        r == pulse_sequence(i),
{
    match i {
        0 => 0b00000001,
        1 => 0b00000011,
        2 => 0b00001111,
        _ => 0b11111100,
    }
}


/// A channel's timer: it counts down from its 11-bit period and fires when it wraps.
#[derive(Clone, Copy, Debug)]
pub struct Sequencer {
    pub period: u16,
    pub timer: u16,
}

impl Sequencer {
    pub open spec fn wf(self) -> bool {
        self.period <= 0x07FF
    }

    pub open spec fn spec_new() -> Self {
        Sequencer { period: 0, timer: 0 }
    }

    pub fn new() -> (r: Self)
        ensures
            r == Self::spec_new(),
    {
        Self { period: 0, timer: 0 }
    }

    /// Pulse channels are silent below a period of 8.
    pub open spec fn spec_is_pulse_enabled(self) -> bool {
        (self.period & 0x07FF) >= 8
    }

    /// The triangle channel is silent below a period of 2.
    pub open spec fn spec_is_triangle_enabled(self) -> bool {
        (self.period & 0x07FF) >= 2
    }

    pub fn is_pulse_enabled(&self) -> (r: bool)
        ensures
            r == self.spec_is_pulse_enabled(),
    {
        (self.period & 0x07FF) >= 8
    }

    pub fn is_triangle_enabled(&self) -> (r: bool)
        ensures
            r == self.spec_is_triangle_enabled(),
    {
        (self.period & 0x07FF) >= 2
    }

    pub open spec fn spec_set_lo(self, lo: u8) -> Self {
        Sequencer { period: (self.period & 0xFF00) | (lo as u16), ..self }
    }

    pub fn set_lo(&mut self, lo: u8)
        requires
            old(self).wf(),
        ensures
            *final(self) == old(self).spec_set_lo(lo),
            final(self).wf(),
    {
        proof {
            lemma_period_bits(self.period, lo, 0, 0);
        }
        self.period = (self.period & 0xFF00) | (lo as u16);
    }

    /// The high 3 bits of the period; the timer restarts.
    pub open spec fn spec_set_hi(self, hi: u8) -> Self {
        let period = (((hi & 0x07) as u16) << 8) | (self.period & 0xF8FF);
        Sequencer { period, timer: period & 0x07FF }
    }

    pub fn set_hi(&mut self, hi: u8)
        requires
            old(self).wf(),
        ensures
            *final(self) == old(self).spec_set_hi(hi),
            final(self).wf(),
    {
        proof {
            lemma_period_bits(self.period, 0, hi, 0);
        }
        self.period = (((hi & 0x07) as u16) << 8) | (self.period & 0xF8FF);
        self.timer = self.period & 0x07FF;
    }

    /// A whole 11-bit period; the timer restarts.
    pub open spec fn spec_set_period(self, period: u16) -> Self {
        let p = (self.period & 0xF800) | (period & 0x07FF);
        Sequencer { period: p, timer: p & 0x07FF }
    }

    pub fn set_period(&mut self, period: u16)
        requires
            old(self).wf(),
        ensures
            *final(self) == old(self).spec_set_period(period),
            final(self).wf(),
    {
        proof {
            lemma_period_bits(self.period, 0, 0, period);
        }
        self.period = (self.period & 0xF800) | (period & 0x07FF);
        self.timer = self.period & 0x07FF;
    }

    /// One timer clock: the timer counts down, and on wrapping it reloads and fires.
    pub open spec fn spec_clock(self) -> (Self, bool) {
        let timer = ((self.timer - 1) % 0x10000) as u16;
        if timer == 0xFFFF {
            (Sequencer { timer: self.period & 0x07FF, ..self }, true)
        } else {
            (Sequencer { timer, ..self }, false)
        }
    }

    pub fn clock(&mut self) -> (r: bool)
        requires
            old(self).wf(),
        ensures
            (*final(self), r) == old(self).spec_clock(),
            final(self).wf(),
    {
        self.timer = self.timer.wrapping_sub(1);
        if self.timer == 0xFFFF {
            self.timer = self.period & 0x07FF;
            true
        } else {
            false
        }
    }
}

/// Period updates keep a period within 11 bits.
proof fn lemma_period_bits(period: u16, lo: u8, hi: u8, p: u16)
    by (bit_vector)
    requires
        period <= 0x07FF,
    ensures
        ((period & 0xFF00) | (lo as u16)) <= 0x07FF,
        ((((hi & 0x07) as u16) << 8) | (period & 0xF8FF)) <= 0x07FF,
        ((period & 0xF800) | (p & 0x07FF)) <= 0x07FF,
        period & 0x07FF == period,
        period >> hi <= period,
{
}

/// The sweep unit of a pulse channel: it moves the channel's period up or down by a
/// shifted copy of itself every few half frames.
#[derive(Clone, Copy, Debug)]
pub struct Sweep {
    pub sequencer: Sequencer,
    pub is_channel_1: bool,
    pub enabled: bool,
    pub period: u8,
    pub negate: bool,
    pub shift: u8,
    pub reload: bool,
    pub divider: u8,
    pub target_period: u16,
}

impl Sweep {
    pub open spec fn wf(self) -> bool {
        &&& self.sequencer.wf()
        &&& self.shift <= 7
    }

    pub open spec fn spec_new(is_channel_1: bool) -> Self {
        Sweep {
            sequencer: Sequencer::spec_new(),
            is_channel_1,
            enabled: false,
            period: 0,
            negate: false,
            shift: 0,
            reload: false,
            divider: 0,
            target_period: 0,
        }
    }

    pub fn new(is_channel_1: bool) -> (r: Self)
        ensures
            r == Self::spec_new(is_channel_1),
    {
        Self {
            sequencer: Sequencer::new(),
            is_channel_1,
            enabled: false,
            period: 0,
            negate: false,
            shift: 0,
            reload: false,
            divider: 0,
            target_period: 0,
        }
    }

    /// The period the sweep is heading for: the current period plus or minus itself shifted
    /// right (minus one more on the first pulse channel), modulo 2^16.
    pub open spec fn spec_target_period(self) -> u16 {
        let shift_result = self.sequencer.period >> self.shift;
        if self.negate {
            let t = (self.sequencer.period - shift_result) as u16;
            if self.is_channel_1 {
                ((t - 1) % 0x10000) as u16
            } else {
                t
            }
        } else {
            (self.sequencer.period + shift_result) as u16
        }
    }

    pub fn update_target_period(&mut self)
        requires
            old(self).wf(),
        ensures
            *final(self) == (Sweep { target_period: old(self).spec_target_period(), ..*old(self) }),
    {
        proof {
            lemma_period_bits(self.sequencer.period, 0, self.shift, 0);
        }
        let shift_result = self.sequencer.period >> self.shift;
        if self.negate {
            self.target_period = self.sequencer.period - shift_result;
            if self.is_channel_1 {
                self.target_period = self.target_period.wrapping_sub(1);
            }
        } else {
            self.target_period = self.sequencer.period + shift_result;
        }
    }

    pub open spec fn spec_set(self, value: u8) -> Self {
        Sweep {
            enabled: value & 0x80 != 0,
            period: (value & 0x70) >> 4,
            negate: value & 0x08 != 0,
            shift: value & 0x07,
            reload: true,
            ..self
        }
    }

    pub fn set(&mut self, value: u8)
        requires
            old(self).wf(),
        ensures
            *final(self) == old(self).spec_set(value),
            final(self).wf(),
    {
        proof {
            lemma_and_le_u8(value, 0x07);
        }
        self.enabled = (value & 0x80) != 0;
        self.period = (value & 0x70) >> 4;
        self.negate = (value & 0x08) != 0;
        self.shift = value & 0x07;
        self.reload = true;
    }

    /// One clock: the target is recomputed; on a half frame the divider counts down (modulo
    /// 256), and on reaching 0 an enabled sweep with a shift and an audible, in-range target
    /// takes it as the new period; then the timer runs. Returns whether the timer fired.
    pub open spec fn spec_clock(self, half: bool) -> (Self, bool) {
        let s1 = Sweep { target_period: self.spec_target_period(), ..self };
        let s2 = if half {
            let divider = ((s1.divider - 1) % 256) as u8;
            let s3 = if divider == 0 {
                let seq = if s1.shift > 0 && s1.enabled && s1.sequencer.spec_is_pulse_enabled()
                    && s1.target_period <= 0x07FF {
                    Sequencer { period: s1.target_period, ..s1.sequencer }
                } else {
                    s1.sequencer
                };
                Sweep { sequencer: seq, divider: s1.period, ..s1 }
            } else {
                Sweep { divider, ..s1 }
            };
            if s3.reload {
                Sweep { divider: s3.period, reload: false, ..s3 }
            } else {
                s3
            }
        } else {
            s1
        };
        let (seq, fired) = s2.sequencer.spec_clock();
        (Sweep { sequencer: seq, ..s2 }, fired)
    }

    pub fn clock(&mut self, half: bool) -> (r: bool)
        requires
            old(self).wf(),
        ensures
            (*final(self), r) == old(self).spec_clock(half),
            final(self).wf(),
    {
        self.update_target_period();
        if half {
            self.divider = self.divider.wrapping_sub(1);
            if self.divider == 0 {
                if (self.shift > 0) && self.enabled && self.sequencer.is_pulse_enabled() && (
                self.target_period <= 0x07FF) {
                    self.sequencer.period = self.target_period;
                }
                self.divider = self.period;
            }
            if self.reload {
                self.divider = self.period;
                self.reload = false;
            }
        }
        self.sequencer.clock()
    }
}

/// A channel's length counter: loaded from a table, it counts down on half frames unless
/// halted, and silences the channel at 0.
#[derive(Clone, Copy, Debug)]
pub struct LengthCounter {
    pub halt: bool,
    pub counter: u8,
}

impl LengthCounter {
    pub open spec fn spec_new() -> Self {
        LengthCounter { halt: false, counter: 0 }
    }

    pub fn new() -> (r: Self)
        ensures
            r == Self::spec_new(),
    {
        Self { halt: false, counter: 0 }
    }

    pub open spec fn spec_load(self, value: u8) -> Self {
        LengthCounter { counter: length_table((value & 0xF8) >> 3), ..self }
    }

    pub fn load(&mut self, value: u8)
        ensures
            *final(self) == old(self).spec_load(value),
    {
        self.counter = length_table_lookup((value & 0xF8) >> 3);
    }

    pub open spec fn spec_clock(self) -> Self {
        if self.counter > 0 && !self.halt {
            LengthCounter { counter: (self.counter - 1) as u8, ..self }
        } else {
            self
        }
    }

    pub fn clock(&mut self)
        ensures
            *final(self) == old(self).spec_clock(),
    {
        if (self.counter > 0) && !self.halt {
            self.counter = self.counter - 1;
        }
    }
}

/// A channel's volume envelope: a constant volume, or a decay from 15 to 0 at a rate set
/// by the divider, looping when the length counter is halted.
#[derive(Clone, Copy, Debug)]
pub struct Envelope {
    pub length_counter: LengthCounter,
    pub use_constant_volume: bool,
    pub volume_or_reload: u8,
    pub start: bool,
    pub divider_counter: u8,
    pub decay_counter: u8,
}

impl Envelope {
    pub open spec fn spec_new() -> Self {
        Envelope {
            length_counter: LengthCounter::spec_new(),
            use_constant_volume: true,
            volume_or_reload: 0,
            start: false,
            divider_counter: 0,
            decay_counter: 0,
        }
    }

    pub fn new() -> (r: Self)
        ensures
            r == Self::spec_new(),
    {
        Self {
            length_counter: LengthCounter::new(),
            use_constant_volume: true,
            volume_or_reload: 0,
            start: false,
            divider_counter: 0,
            decay_counter: 0,
        }
    }

    /// The volume on the 0-15 scale: silent once the length counter has run out.
    pub open spec fn spec_volume(self) -> u8 {
        if self.length_counter.counter > 0 {
            if self.use_constant_volume {
                self.volume_or_reload
            } else {
                self.decay_counter
            }
        } else {
            0
        }
    }

    pub fn volume(&self) -> (r: u8)
        ensures
            r == self.spec_volume(),
    {
        if self.length_counter.counter > 0 {
            if self.use_constant_volume {
                self.volume_or_reload
            } else {
                self.decay_counter
            }
        } else {
            0
        }
    }

    pub open spec fn spec_set(self, value: u8) -> Self {
        Envelope {
            use_constant_volume: value & 0x10 != 0,
            volume_or_reload: value & 0x0F,
            start: true,
            ..self
        }
    }

    pub fn set(&mut self, value: u8)
        ensures
            *final(self) == old(self).spec_set(value),
    {
        self.use_constant_volume = (value & 0x10) != 0;
        self.volume_or_reload = value & 0x0F;
        self.start = true;
    }

    pub open spec fn spec_clock(self) -> Self {
        if self.start {
            Envelope {
                start: false,
                decay_counter: 15,
                divider_counter: self.volume_or_reload,
                ..self
            }
        } else if self.divider_counter == 0 {
            let decay = if self.decay_counter == 0 {
                if self.length_counter.halt {
                    15
                } else {
                    0
                }
            } else {
                (self.decay_counter - 1) as u8
            };
            Envelope { divider_counter: self.volume_or_reload, decay_counter: decay, ..self }
        } else {
            Envelope { divider_counter: (self.divider_counter - 1) as u8, ..self }
        }
    }

    pub fn clock(&mut self)
        ensures
            *final(self) == old(self).spec_clock(),
    {
        if self.start {
            self.start = false;
            self.decay_counter = 15;
            self.divider_counter = self.volume_or_reload;
        } else {
            if self.divider_counter == 0 {
                self.divider_counter = self.volume_or_reload;
                if self.decay_counter == 0 {
                    if self.length_counter.halt {
                        self.decay_counter = 15;
                    }
                } else {
                    self.decay_counter = self.decay_counter - 1;
                }
            } else {
                self.divider_counter = self.divider_counter - 1;
            }
        }
    }
}


/// A pulse (square wave) channel.
#[derive(Clone, Copy, Debug)]
pub struct PulseChannel {
    pub sequence: u8,
    pub sequence_pos: u8,
    pub enabled: bool,
    pub sweep: Sweep,
    pub envelope: Envelope,
}

impl PulseChannel {
    /// The channel switched on or off; switching it off clears its length counter.
    pub open spec fn spec_set_enabled(self, on: bool) -> Self {
        PulseChannel {
            enabled: on,
            envelope: Envelope {
                length_counter: LengthCounter {
                    counter: if on {
                        self.envelope.length_counter.counter
                    } else {
                        0
                    },
                    ..self.envelope.length_counter
                },
                ..self.envelope
            },
            ..self
        }
    }

    pub fn set_enabled(&mut self, on: bool)
        requires
            old(self).wf(),
        ensures
            *final(self) == old(self).spec_set_enabled(on),
            final(self).wf(),
    {
        self.enabled = on;
        if !on {
            self.envelope.length_counter.counter = 0;
        }
    }

    pub open spec fn wf(self) -> bool {
        &&& self.sweep.wf()
        &&& self.sequence_pos <= 7
    }

    pub open spec fn spec_new(is_channel_1: bool) -> Self {
        PulseChannel {
            sequence: pulse_sequence(0),
            sequence_pos: 0,
            enabled: true,
            sweep: Sweep::spec_new(is_channel_1),
            envelope: Envelope::spec_new(),
        }
    }

    pub fn new(is_channel_1: bool) -> (r: Self)
        ensures
            r == Self::spec_new(is_channel_1),
            r.wf(),
    {
        Self {
            sequence: pulse_sequence_lookup(0),
            sequence_pos: 0,
            enabled: true,
            sweep: Sweep::new(is_channel_1),
            envelope: Envelope::new(),
        }
    }

    /// A write to register `address` (0 to 3) of the channel: duty and envelope, sweep,
    /// timer low byte, timer high bits and length.
    pub open spec fn spec_write(self, address: u8, data: u8) -> Self {
        if address == 0 {
            PulseChannel {
                sequence: pulse_sequence((data & 0xC0) >> 6),
                envelope: Envelope {
                    length_counter: LengthCounter {
                        halt: data & 0x20 != 0,
                        ..self.envelope.length_counter
                    },
                    ..self.envelope
                }.spec_set(data),
                ..self
            }
        } else if address == 1 {
            PulseChannel { sweep: self.sweep.spec_set(data), ..self }
        } else if address == 2 {
            PulseChannel {
                sweep: Sweep { sequencer: self.sweep.sequencer.spec_set_lo(data), ..self.sweep },
                ..self
            }
        } else {
            PulseChannel {
                sweep: Sweep { sequencer: self.sweep.sequencer.spec_set_hi(data), ..self.sweep },
                envelope: Envelope {
                    length_counter: self.envelope.length_counter.spec_load(data),
                    start: true,
                    ..self.envelope
                },
                ..self
            }
        }
    }

    pub fn write(&mut self, address: u8, data: u8)
        requires
            old(self).wf(),
            address < 4,
        ensures
            *final(self) == old(self).spec_write(address, data),
            final(self).wf(),
    {
        if address == 0 {
            self.sequence = pulse_sequence_lookup((data & 0xC0) >> 6);
            self.envelope.length_counter.halt = (data & 0x20) != 0;
            self.envelope.set(data);
        } else if address == 1 {
            self.sweep.set(data);
        } else if address == 2 {
            self.sweep.sequencer.set_lo(data);
        } else {
            self.sweep.sequencer.set_hi(data);
            self.envelope.length_counter.load(data);
            self.envelope.start = true;
        }
    }

    /// One channel clock: the envelope on quarter frames, the length counter on half
    /// frames, and the duty position steps when the timer fires.
    pub open spec fn spec_clock(self, quarter: bool, half: bool) -> Self {
        let e1 = if quarter {
            self.envelope.spec_clock()
        } else {
            self.envelope
        };
        let e2 = if half {
            Envelope { length_counter: e1.length_counter.spec_clock(), ..e1 }
        } else {
            e1
        };
        let (sweep, fired) = self.sweep.spec_clock(half);
        PulseChannel {
            envelope: e2,
            sweep,
            sequence_pos: if fired {
                ((self.sequence_pos + 1) as u8) & 0x07
            } else {
                self.sequence_pos
            },
            ..self
        }
    }

    pub fn clock(&mut self, quarter: bool, half: bool)
        requires
            old(self).wf(),
        ensures
            *final(self) == old(self).spec_clock(quarter, half),
            final(self).wf(),
    {
        if quarter {
            self.envelope.clock();
        }
        if half {
            self.envelope.length_counter.clock();
        }
        if self.sweep.clock(half) {
            proof {
                lemma_and_le_u8((self.sequence_pos + 1) as u8, 0x07);
            }
            self.sequence_pos = (self.sequence_pos + 1) & 0x07;
        }
    }

    /// The channel's output: the current duty bit and the envelope volume, or `None` while
    /// the channel is off or its period is inaudible.
    pub open spec fn spec_output(self) -> Option<(u8, u8)> {
        if self.enabled && self.sweep.sequencer.spec_is_pulse_enabled() {
            Some(
                (
                    (self.sequence & (1u8 << self.sequence_pos)) >> self.sequence_pos,
                    self.envelope.spec_volume(),
                ),
            )
        } else {
            None
        }
    }

    pub fn output(&self) -> (r: Option<(u8, u8)>)
        requires
            self.wf(),
        ensures
            r == self.spec_output(),
    {
        if self.enabled && self.sweep.sequencer.is_pulse_enabled() {
            let mask: u8 = 1u8 << self.sequence_pos;
            Some(((self.sequence & mask) >> self.sequence_pos, self.envelope.volume()))
        } else {
            None
        }
    }
}

/// The level (0 to 15) of the triangle wave at position `pos` of its 32 steps: down from 15
/// to 0, then up again.
pub open spec fn triangle_level(pos: u8) -> u8 {
    if pos < 16 {
        (15 - pos) as u8
    } else {
        (pos - 16) as u8
    }
}

/// The triangle channel.
#[derive(Clone, Copy, Debug)]
pub struct TriangleChannel {
    pub sequence_pos: u8,
    pub enabled: bool,
    pub sequencer: Sequencer,
    pub length_counter: LengthCounter,
    pub linear_counter: u8,
    pub linear_counter_reload: u8,
    pub reload: bool,
}

impl TriangleChannel {
    /// The channel switched on or off; switching it off clears its length counter.
    pub open spec fn spec_set_enabled(self, on: bool) -> Self {
        TriangleChannel {
            enabled: on,
            length_counter: LengthCounter {
                counter: if on {
                    self.length_counter.counter
                } else {
                    0
                },
                ..self.length_counter
            },
            ..self
        }
    }

    pub fn set_enabled(&mut self, on: bool)
        requires
            old(self).wf(),
        ensures
            *final(self) == old(self).spec_set_enabled(on),
            final(self).wf(),
    {
        self.enabled = on;
        if !on {
            self.length_counter.counter = 0;
        }
    }

    pub open spec fn wf(self) -> bool {
        &&& self.sequencer.wf()
        &&& self.sequence_pos <= 0x1F
    }

    pub open spec fn spec_new() -> Self {
        TriangleChannel {
            sequence_pos: 0,
            enabled: true,
            sequencer: Sequencer::spec_new(),
            length_counter: LengthCounter::spec_new(),
            linear_counter: 0,
            linear_counter_reload: 0,
            reload: false,
        }
    }

    pub fn new() -> (r: Self)
        ensures
            r == Self::spec_new(),
            r.wf(),
    {
        Self {
            sequence_pos: 0,
            enabled: true,
            sequencer: Sequencer::new(),
            length_counter: LengthCounter::new(),
            linear_counter: 0,
            linear_counter_reload: 0,
            reload: false,
        }
    }

    pub open spec fn spec_write(self, address: u8, data: u8) -> Self {
        if address == 0 {
            TriangleChannel {
                length_counter: LengthCounter { halt: data & 0x80 != 0, ..self.length_counter },
                linear_counter_reload: data & 0x7F,
                ..self
            }
        } else if address == 1 {
            self
        } else if address == 2 {
            TriangleChannel { sequencer: self.sequencer.spec_set_lo(data), ..self }
        } else {
            TriangleChannel {
                sequencer: self.sequencer.spec_set_hi(data),
                length_counter: self.length_counter.spec_load(data),
                reload: true,
                ..self
            }
        }
    }

    pub fn write(&mut self, address: u8, data: u8)
        requires
            old(self).wf(),
            address < 4,
        ensures
            *final(self) == old(self).spec_write(address, data),
            final(self).wf(),
    {
        if address == 0 {
            self.length_counter.halt = (data & 0x80) != 0;
            self.linear_counter_reload = data & 0x7F;
        } else if address == 1 {
        } else if address == 2 {
            self.sequencer.set_lo(data);
        } else {
            self.sequencer.set_hi(data);
            self.length_counter.load(data);
            self.reload = true;
        }
    }

    /// One channel clock: the linear counter on quarter frames, the length counter on half
    /// frames, and the wave position steps when the timer fires.
    pub open spec fn spec_clock(self, quarter: bool, half: bool) -> Self {
        let s1 = if quarter {
            let linear = if self.reload {
                self.linear_counter_reload
            } else if self.linear_counter > 0 {
                (self.linear_counter - 1) as u8
            } else {
                self.linear_counter
            };
            TriangleChannel {
                linear_counter: linear,
                reload: if !self.length_counter.halt {
                    false
                } else {
                    self.reload
                },
                ..self
            }
        } else {
            self
        };
        let s2 = if half {
            TriangleChannel { length_counter: s1.length_counter.spec_clock(), ..s1 }
        } else {
            s1
        };
        let (seq, fired) = s2.sequencer.spec_clock();
        TriangleChannel {
            sequencer: seq,
            sequence_pos: if fired {
                ((s2.sequence_pos + 1) as u8) & 0x1F
            } else {
                s2.sequence_pos
            },
            ..s2
        }
    }

    pub fn clock(&mut self, quarter: bool, half: bool)
        requires
            old(self).wf(),
        ensures
            *final(self) == old(self).spec_clock(quarter, half),
            final(self).wf(),
    {
        if quarter {
            if self.reload {
                self.linear_counter = self.linear_counter_reload;
            } else if self.linear_counter > 0 {
                self.linear_counter = self.linear_counter - 1;
            }
            if !self.length_counter.halt {
                self.reload = false;
            }
        }
        if half {
            self.length_counter.clock();
        }
        if self.sequencer.clock() {
            proof {
                lemma_and_le_u8((self.sequence_pos + 1) as u8, 0x1F);
            }
            self.sequence_pos = (self.sequence_pos + 1) & 0x1F;
        }
    }

    /// The channel's level on the 0-15 scale, or `None` while it is silent.
    pub open spec fn spec_output(self) -> Option<u8> {
        if self.enabled && self.sequencer.spec_is_triangle_enabled() && self.length_counter.counter
            > 0 && self.linear_counter > 0 {
            Some(triangle_level(self.sequence_pos))
        } else {
            None
        }
    }

    pub fn output(&self) -> (r: Option<u8>)
        ensures
            r == self.spec_output(),
    {
        if self.enabled && self.sequencer.is_triangle_enabled() && (self.length_counter.counter > 0)
            && (self.linear_counter > 0) {
            if self.sequence_pos < 16 {
                Some(15 - self.sequence_pos)
            } else {
                Some(self.sequence_pos - 16)
            }
        } else {
            None
        }
    }
}

/// The noise channel: a 15-bit linear feedback shift register clocked by a timer.
#[derive(Clone, Copy, Debug)]
pub struct NoiseChannel {
    pub enabled: bool,
    pub shift: u16,
    pub mode: bool,
    pub sequencer: Sequencer,
    pub envelope: Envelope,
}

/// The shift register after one step: the feedback bit, bit 0 XOR bit 6 (short mode) or
/// bit 1, enters at bit 14 as the register shifts right.
pub open spec fn noise_step(shift: u16, mode: bool) -> u16 {
    let bit_1 = shift & 0x0001;
    let bit_2 = (if mode {
        shift >> 6
    } else {
        shift >> 1
    }) & 0x0001;
    let feedback = bit_1 ^ bit_2;
    (shift >> 1) | (feedback << 14)
}

impl NoiseChannel {
    /// The channel switched on or off; switching it off clears its length counter.
    pub open spec fn spec_set_enabled(self, on: bool) -> Self {
        NoiseChannel {
            enabled: on,
            envelope: Envelope {
                length_counter: LengthCounter {
                    counter: if on {
                        self.envelope.length_counter.counter
                    } else {
                        0
                    },
                    ..self.envelope.length_counter
                },
                ..self.envelope
            },
            ..self
        }
    }

    pub fn set_enabled(&mut self, on: bool)
        requires
            old(self).wf(),
        ensures
            *final(self) == old(self).spec_set_enabled(on),
            final(self).wf(),
    {
        self.enabled = on;
        if !on {
            self.envelope.length_counter.counter = 0;
        }
    }

    pub open spec fn wf(self) -> bool {
        self.sequencer.wf()
    }

    pub open spec fn spec_new() -> Self {
        NoiseChannel {
            enabled: true,
            shift: 0x0001,
            mode: false,
            sequencer: Sequencer::spec_new(),
            envelope: Envelope::spec_new(),
        }
    }

    pub fn new() -> (r: Self)
        ensures
            r == Self::spec_new(),
            r.wf(),
    {
        Self {
            enabled: true,
            shift: 0x0001,
            mode: false,
            sequencer: Sequencer::new(),
            envelope: Envelope::new(),
        }
    }

    pub open spec fn spec_write(self, address: u8, data: u8) -> Self {
        if address == 0 {
            NoiseChannel {
                envelope: Envelope {
                    length_counter: LengthCounter {
                        halt: data & 0x20 != 0,
                        ..self.envelope.length_counter
                    },
                    ..self.envelope
                }.spec_set(data),
                ..self
            }
        } else if address == 1 {
            self
        } else if address == 2 {
            NoiseChannel {
                mode: data & 0x80 != 0,
                sequencer: self.sequencer.spec_set_period(
                    (noise_period(data & 0x0F) - 1) as u16,
                ),
                ..self
            }
        } else {
            NoiseChannel {
                envelope: Envelope {
                    length_counter: self.envelope.length_counter.spec_load(data),
                    start: true,
                    ..self.envelope
                },
                ..self
            }
        }
    }

    pub fn write(&mut self, address: u8, data: u8)
        requires
            old(self).wf(),
            address < 4,
        ensures
            *final(self) == old(self).spec_write(address, data),
            final(self).wf(),
    {
        if address == 0 {
            self.envelope.length_counter.halt = (data & 0x20) != 0;
            self.envelope.set(data);
        } else if address == 1 {
        } else if address == 2 {
            self.mode = (data & 0x80) != 0;
            let period = noise_period_lookup(data & 0x0F);
            self.sequencer.set_period(period - 1);
        } else {
            self.envelope.length_counter.load(data);
            self.envelope.start = true;
        }
    }

    pub open spec fn spec_clock(self, quarter: bool, half: bool) -> Self {
        let e1 = if quarter {
            self.envelope.spec_clock()
        } else {
            self.envelope
        };
        let e2 = if half {
            Envelope { length_counter: e1.length_counter.spec_clock(), ..e1 }
        } else {
            e1
        };
        let (seq, fired) = self.sequencer.spec_clock();
        NoiseChannel {
            envelope: e2,
            sequencer: seq,
            shift: if fired {
                noise_step(self.shift, self.mode)
            } else {
                self.shift
            },
            ..self
        }
    }

    pub fn clock(&mut self, quarter: bool, half: bool)
        requires
            old(self).wf(),
        ensures
            *final(self) == old(self).spec_clock(quarter, half),
            final(self).wf(),
    {
        if quarter {
            self.envelope.clock();
        }
        if half {
            self.envelope.length_counter.clock();
        }
        if self.sequencer.clock() {
            let bit_1 = self.shift & 0x0001;
            let bit_2 = (if self.mode {
                self.shift >> 6
            } else {
                self.shift >> 1
            }) & 0x0001;
            let feedback = bit_1 ^ bit_2;
            self.shift = self.shift >> 1;
            self.shift = self.shift | (feedback << 14);
        }
    }

    /// The envelope volume while bit 0 of the shift register is clear and the channel is
    /// on, else `None`.
    pub open spec fn spec_output(self) -> Option<u8> {
        if self.enabled && self.shift & 0x0001 == 0 {
            Some(self.envelope.spec_volume())
        } else {
            None
        }
    }

    pub fn output(&self) -> (r: Option<u8>)
        ensures
            r == self.spec_output(),
    {
        if self.enabled && ((self.shift & 0x0001) == 0) {
            Some(self.envelope.volume())
        } else {
            None
        }
    }
}


/// Reads the bytes of a delta-modulation sample from memory, one bit at a time.
#[derive(Clone, Copy, Debug)]
pub struct SampleReader {
    pub address: u16,
    pub length: u16,
    pub irq_enabled: bool,
    pub irq: bool,
    pub loop_enabled: bool,
    pub current_pos: u16,
    pub bytes_remaining: u16,
    pub current: u8,
    pub bits_remaining: u8,
    pub output: bool,
    pub has_ended: bool,
}

impl SampleReader {
    pub open spec fn spec_new() -> Self {
        SampleReader {
            address: 0xC000,
            length: 0x0001,
            irq_enabled: true,
            irq: false,
            loop_enabled: false,
            current_pos: 0xC000,
            bytes_remaining: 0,
            current: 0,
            bits_remaining: 0,
            output: false,
            has_ended: true,
        }
    }

    pub fn new() -> (r: Self)
        ensures
            r == Self::spec_new(),
    {
        Self {
            address: 0xC000,
            length: 0x0001,
            irq_enabled: true,
            irq: false,
            loop_enabled: false,
            current_pos: 0xC000,
            bytes_remaining: 0,
            current: 0,
            bits_remaining: 0,
            output: false,
            has_ended: true,
        }
    }

    pub open spec fn spec_set_flags(self, value: u8) -> Self {
        let irq_enabled = value & 0x80 != 0;
        SampleReader {
            irq_enabled,
            loop_enabled: value & 0x40 != 0,
            irq: if !irq_enabled {
                false
            } else {
                self.irq
            },
            ..self
        }
    }

    pub fn set_flags(&mut self, value: u8)
        ensures
            *final(self) == old(self).spec_set_flags(value),
    {
        self.irq_enabled = (value & 0x80) != 0;
        self.loop_enabled = (value & 0x40) != 0;
        if !self.irq_enabled {
            self.irq = false;
        }
    }

    /// The sample starts at 0xC000 + 64 * `value`.
    pub fn set_address(&mut self, value: u8)
        ensures
            *final(self) == (SampleReader { address: 0xC000 | ((value as u16) << 6), ..*old(self) }),
    {
        self.address = 0xC000 | ((value as u16) << 6);
    }

    /// The sample is 16 * `value` + 1 bytes long.
    pub fn set_length(&mut self, value: u8)
        ensures
            *final(self) == (SampleReader { length: ((value as u16) << 4) | 0x0001, ..*old(self) }),
    {
        self.length = ((value as u16) << 4) | 0x0001;
    }

    /// Starts the sample again, unless bytes of it remain.
    pub open spec fn spec_restart(self) -> Self {
        if self.bytes_remaining == 0 {
            SampleReader {
                current_pos: self.address,
                bytes_remaining: self.length,
                has_ended: false,
                ..self
            }
        } else {
            self
        }
    }

    pub fn restart(&mut self)
        ensures
            *final(self) == old(self).spec_restart(),
    {
        if self.bytes_remaining == 0 {
            self.current_pos = self.address;
            self.bytes_remaining = self.length;
            self.has_ended = false;
        }
    }

    pub fn halt(&mut self)
        ensures
            *final(self) == (SampleReader { bytes_remaining: 0, has_ended: true, ..*old(self) }),
    {
        self.bytes_remaining = 0;
        self.has_ended = true;
    }

    pub fn clear_irq(&mut self)
        ensures
            *final(self) == (SampleReader { irq: false, ..*old(self) }),
    {
        self.irq = false;
    }

    /// The memory address the next clock reads a byte from, if it reads one: when the bits
    /// of the current byte are used up and the sample is playing (from the start again, if
    /// it has run out and loops).
    pub open spec fn spec_fetch_address(self) -> Option<u16> {
        if self.bits_remaining == 0 && !self.has_ended {
            if self.bytes_remaining == 0 && self.loop_enabled {
                Some(self.address)
            } else {
                Some(self.current_pos)
            }
        } else {
            None
        }
    }

    pub fn fetch_address(&self) -> (r: Option<u16>)
        ensures
            r == self.spec_fetch_address(),
    {
        if (self.bits_remaining == 0) && !self.has_ended {
            if (self.bytes_remaining == 0) && self.loop_enabled {
                Some(self.address)
            } else {
                Some(self.current_pos)
            }
        } else {
            None
        }
    }

    /// One reader clock, where `byte` is what memory holds at the fetch address: a new byte
    /// is taken when the last one's bits are used up (an ended sample raises its interrupt
    /// or starts again; the position wraps from 0xFFFF to 0x8000 and the count of bytes left
    /// counts down modulo 2^16), then one bit is shifted out.
    pub open spec fn spec_clock(self, byte: u8) -> Self {
        let s1 = if self.bits_remaining == 0 {
            let s0 = SampleReader { bits_remaining: 8, ..self };
            if !s0.has_ended {
                let s2 = if s0.bytes_remaining == 0 {
                    let e = SampleReader { has_ended: true, ..s0 };
                    if e.loop_enabled {
                        e.spec_restart()
                    } else if e.irq_enabled {
                        SampleReader { irq: true, ..e }
                    } else {
                        e
                    }
                } else {
                    s0
                };
                let pos = wrap16(s2.current_pos + 1);
                SampleReader {
                    current: byte,
                    current_pos: if pos == 0 {
                        0x8000
                    } else {
                        pos
                    },
                    bytes_remaining: wrap16(s2.bytes_remaining - 1),
                    ..s2
                }
            } else {
                s0
            }
        } else {
            self
        };
        SampleReader {
            output: s1.current & 0x01 != 0,
            current: s1.current >> 1,
            bits_remaining: (s1.bits_remaining - 1) as u8,
            ..s1
        }
    }

    pub fn clock(&mut self, byte: u8)
        ensures
            *final(self) == old(self).spec_clock(byte),
    {
        broadcast use group_wrapping;

        if self.bits_remaining == 0 {
            self.bits_remaining = 8;
            if !self.has_ended {
                if self.bytes_remaining == 0 {
                    self.has_ended = true;
                    if self.loop_enabled {
                        self.restart();
                    } else if self.irq_enabled {
                        self.irq = true;
                    }
                }
                self.current = byte;
                self.current_pos = self.current_pos.wrapping_add(1);
                if self.current_pos == 0 {
                    self.current_pos = 0x8000;
                }
                self.bytes_remaining = self.bytes_remaining.wrapping_sub(1);
            }
        }
        self.output = (self.current & 0x01) != 0;
        self.current = self.current >> 1;
        self.bits_remaining = self.bits_remaining - 1;
    }
}

/// The delta-modulation channel: a 7-bit output level moved up or down by 2 for each bit of
/// the sample, at the selected rate.
#[derive(Clone, Copy, Debug)]
pub struct DmcChannel {
    pub enabled: bool,
    pub rate: u8,
    pub output: u8,
    pub reader: SampleReader,
    pub cycles: u8,
}

impl DmcChannel {
    pub open spec fn spec_new() -> Self {
        DmcChannel { enabled: true, rate: 0, output: 0, reader: SampleReader::spec_new(), cycles: 0 }
    }

    pub fn new() -> (r: Self)
        ensures
            r == Self::spec_new(),
    {
        Self { enabled: true, rate: 0, output: 0, reader: SampleReader::new(), cycles: 0 }
    }

    pub open spec fn spec_write(self, address: u8, data: u8) -> Self {
        if address == 0 {
            DmcChannel {
                reader: self.reader.spec_set_flags(data),
                rate: (dmc_rate(data & 0x0F) + 1) as u8,
                ..self
            }
        } else if address == 1 {
            DmcChannel { output: data & 0x7F, ..self }
        } else if address == 2 {
            DmcChannel {
                reader: SampleReader { address: 0xC000 | ((data as u16) << 6), ..self.reader },
                ..self
            }
        } else {
            DmcChannel {
                reader: SampleReader { length: ((data as u16) << 4) | 0x0001, ..self.reader },
                ..self
            }
        }
    }

    pub fn write(&mut self, address: u8, data: u8)
        requires
            address < 4,
        ensures
            *final(self) == old(self).spec_write(address, data),
    {
        if address == 0 {
            self.reader.set_flags(data);
            self.rate = dmc_rate_lookup(data & 0x0F) + 1;
        } else if address == 1 {
            self.output = data & 0x7F;
        } else if address == 2 {
            self.reader.set_address(data);
        } else {
            self.reader.set_length(data);
        }
    }

    /// The address the next clock makes the reader fetch from, if it does.
    pub open spec fn spec_fetch_address(self) -> Option<u16> {
        if ((self.cycles + 1) % 256) as u8 == self.rate {
            self.reader.spec_fetch_address()
        } else {
            None
        }
    }

    pub fn fetch_address(&self) -> (r: Option<u16>)
        ensures
            r == self.spec_fetch_address(),
    {
        if self.cycles.wrapping_add(1) == self.rate {
            self.reader.fetch_address()
        } else {
            None
        }
    }

    /// One channel clock: the cycle count runs up to the rate (modulo 256), and then the
    /// reader takes a bit and a playing sample moves the level by 2 within 0-127.
    pub open spec fn spec_clock(self, byte: u8) -> Self {
        let cycles = ((self.cycles + 1) % 256) as u8;
        if cycles == self.rate {
            let reader = self.reader.spec_clock(byte);
            let output = if !reader.has_ended {
                if reader.output {
                    if self.output <= 125 {
                        (self.output + 2) as u8
                    } else {
                        self.output
                    }
                } else if self.output >= 2 {
                    (self.output - 2) as u8
                } else {
                    self.output
                }
            } else {
                self.output
            };
            DmcChannel { cycles: 0, reader, output, ..self }
        } else {
            DmcChannel { cycles, ..self }
        }
    }

    pub fn clock(&mut self, byte: u8)
        ensures
            *final(self) == old(self).spec_clock(byte),
    {
        self.cycles = self.cycles.wrapping_add(1);
        if self.cycles == self.rate {
            self.cycles = 0;
            self.reader.clock(byte);
            if !self.reader.has_ended {
                if self.reader.output {
                    if self.output <= 125 {
                        self.output = self.output + 2;
                    }
                } else {
                    if self.output >= 2 {
                        self.output = self.output - 2;
                    }
                }
            }
        }
    }

    /// The output level on the 0-127 scale while a sample plays on an enabled channel.
    pub open spec fn spec_output(self) -> Option<u8> {
        if self.enabled && !self.reader.has_ended {
            Some(self.output)
        } else {
            None
        }
    }

    pub fn output(&self) -> (r: Option<u8>)
        ensures
            r == self.spec_output(),
    {
        if self.enabled && !self.reader.has_ended {
            Some(self.output)
        } else {
            None
        }
    }
}


/// Frame sequencer steps (in APU cycles) of the quarter and half frames.
pub const STEP_1: u32 = 3729;

pub const STEP_2: u32 = 7457;

pub const STEP_3: u32 = 11186;

/// Length of a frame in 4-step mode.
pub const FRAME_4_STEP: u32 = 14915;

/// Length of a frame in 5-step mode.
pub const FRAME_5_STEP: u32 = 18641;

/// The last register of the channels, relative to the first.
pub const APU_MAX_ADDRESS: u16 = 0x0013;

/// The audio processing unit: its channels and the frame sequencer.
#[derive(Clone, Copy, Debug)]
pub struct Apu2A03 {
    pub range: AddressRange,
    pub pulse_channel_1: PulseChannel,
    pub pulse_channel_2: PulseChannel,
    pub triangle_channel: TriangleChannel,
    pub noise_channel: NoiseChannel,
    pub dmc_channel: DmcChannel,
    pub counter_mode: bool,
    pub even_cycle: bool,
    pub cycles: u32,
    pub inhibit_irq: bool,
    pub irq: bool,
}

/// Where the frame sequencer is in its frame, after a clock that reached `cycles`.
pub struct FrameStep {
    pub full: bool,
    pub half: bool,
    pub quarter: bool,
}

pub open spec fn frame_step(counter_mode: bool, cycles: u32) -> FrameStep {
    let full = if counter_mode {
        cycles == FRAME_5_STEP
    } else {
        cycles == FRAME_4_STEP
    };
    let half = cycles == STEP_2 || full;
    FrameStep { full, half, quarter: cycles == STEP_1 || cycles == STEP_3 || half }
}

impl Apu2A03 {
    /// Every channel is well formed.
    pub open spec fn channels_ok(self) -> bool {
        &&& self.pulse_channel_1.wf()
        &&& self.pulse_channel_2.wf()
        &&& self.triangle_channel.wf()
        &&& self.noise_channel.wf()
    }

    pub open spec fn spec_new(range_start: u16) -> Self {
        Apu2A03 {
            range: AddressRange { start: range_start, end: wrap16(range_start + APU_MAX_ADDRESS) },
            pulse_channel_1: PulseChannel::spec_new(true),
            pulse_channel_2: PulseChannel::spec_new(false),
            triangle_channel: TriangleChannel::spec_new(),
            noise_channel: NoiseChannel::spec_new(),
            dmc_channel: DmcChannel::spec_new(),
            counter_mode: false,
            even_cycle: false,
            cycles: 0,
            inhibit_irq: true,
            irq: false,
        }
    }

    /// An APU whose channel registers answer at `range_start` to `range_start + 0x13`.
    pub fn new(range_start: u16) -> (r: Self)
        ensures
            r == Self::spec_new(range_start),
            r.channels_ok(),
    {
        broadcast use group_wrapping;

        Self {
            range: AddressRange::new(range_start, range_start.wrapping_add(APU_MAX_ADDRESS)),
            pulse_channel_1: PulseChannel::new(true),
            pulse_channel_2: PulseChannel::new(false),
            triangle_channel: TriangleChannel::new(),
            noise_channel: NoiseChannel::new(),
            dmc_channel: DmcChannel::new(),
            counter_mode: false,
            even_cycle: false,
            cycles: 0,
            inhibit_irq: true,
            irq: false,
        }
    }

    /// Whether the delta-modulation channel is raising its interrupt.
    pub fn dmc_irq_requested(&self) -> (r: bool)
        ensures
            r == self.dmc_channel.reader.irq,
    {
        self.dmc_channel.reader.irq
    }

    /// Whether the frame sequencer is raising its interrupt.
    pub fn irq_requested(&self) -> (r: bool)
        ensures
            r == self.irq,
    {
        self.irq
    }

    /// The address the next clock makes the delta-modulation channel read, if it reads:
    /// only even clocks run that channel.
    pub open spec fn spec_dmc_fetch_address(self) -> Option<u16> {
        if !self.even_cycle {
            self.dmc_channel.spec_fetch_address()
        } else {
            None
        }
    }

    pub fn dmc_fetch_address(&self) -> (r: Option<u16>)
        ensures
            r == self.spec_dmc_fetch_address(),
    {
        if !self.even_cycle {
            self.dmc_channel.fetch_address()
        } else {
            None
        }
    }

    /// One APU clock, where `dmc_byte` is what memory holds at the address the
    /// delta-modulation channel fetches from (if it does): every other clock advances the
    /// frame sequencer (its cycle count modulo 2^32) and the pulse, noise and
    /// delta-modulation channels; the triangle channel's timer runs on every clock. At the
    /// end of a 4-step frame the interrupt is raised unless inhibited.
    pub open spec fn spec_clock_one(self, dmc_byte: u8) -> Self {
        let even = !self.even_cycle;
        let cycles = if even {
            ((self.cycles + 1) % 0x1_0000_0000) as u32
        } else {
            self.cycles
        };
        let step = frame_step(self.counter_mode, cycles);
        let (cycles2, irq) = if step.full {
            (0u32, !self.inhibit_irq && !self.counter_mode)
        } else {
            (cycles, false)
        };
        let triangle = self.triangle_channel.spec_clock(step.quarter && even, step.half && even);
        if even {
            Apu2A03 {
                even_cycle: even,
                cycles: cycles2,
                irq,
                triangle_channel: triangle,
                pulse_channel_1: self.pulse_channel_1.spec_clock(step.quarter, step.half),
                pulse_channel_2: self.pulse_channel_2.spec_clock(step.quarter, step.half),
                noise_channel: self.noise_channel.spec_clock(step.quarter, step.half),
                dmc_channel: self.dmc_channel.spec_clock(dmc_byte),
                ..self
            }
        } else {
            Apu2A03 {
                even_cycle: even,
                cycles: cycles2,
                irq,
                triangle_channel: triangle,
                ..self
            }
        }
    }

    /// One APU clock; returns whether it was an even clock, the ones after which the
    /// channels are sampled.
    pub fn clock_one(&mut self, dmc_byte: u8) -> (even: bool)
        requires
            old(self).channels_ok(),
        ensures
            final(self).channels_ok(),
            *final(self) == old(self).spec_clock_one(dmc_byte),
            even == final(self).even_cycle,
    {
        self.even_cycle = !self.even_cycle;
        self.irq = false;
        if self.even_cycle {
            self.cycles = self.cycles.wrapping_add(1);
        }
        let full = if self.counter_mode {
            self.cycles == FRAME_5_STEP
        } else {
            self.cycles == FRAME_4_STEP
        };
        let half = (self.cycles == STEP_2) || full;
        let quarter = (self.cycles == STEP_1) || (self.cycles == STEP_3) || half;
        if full {
            self.cycles = 0;
            if !self.inhibit_irq && !self.counter_mode {
                self.irq = true;
            }
        }
        self.triangle_channel.clock(quarter && self.even_cycle, half && self.even_cycle);
        if self.even_cycle {
            self.pulse_channel_1.clock(quarter, half);
            self.pulse_channel_2.clock(quarter, half);
            self.noise_channel.clock(quarter, half);
            self.dmc_channel.clock(dmc_byte);
        }
        self.even_cycle
    }

    /// A write to channel register `address` (0 to 0x13): four registers per channel, in
    /// the order pulse 1, pulse 2, triangle, noise, delta modulation.
    pub open spec fn spec_write(self, address: u16, data: u8) -> Self {
        let channel = address / 4;
        let reg = (address % 4) as u8;
        if channel == 0 {
            Apu2A03 { pulse_channel_1: self.pulse_channel_1.spec_write(reg, data), ..self }
        } else if channel == 1 {
            Apu2A03 { pulse_channel_2: self.pulse_channel_2.spec_write(reg, data), ..self }
        } else if channel == 2 {
            Apu2A03 { triangle_channel: self.triangle_channel.spec_write(reg, data), ..self }
        } else if channel == 3 {
            Apu2A03 { noise_channel: self.noise_channel.spec_write(reg, data), ..self }
        } else if channel == 4 {
            Apu2A03 { dmc_channel: self.dmc_channel.spec_write(reg, data), ..self }
        } else {
            self
        }
    }

    /// A reset silences the pulse, triangle and noise channels.
    pub open spec fn spec_reset(self) -> Self {
        Apu2A03 {
            pulse_channel_1: self.pulse_channel_1.spec_set_enabled(false),
            pulse_channel_2: self.pulse_channel_2.spec_set_enabled(false),
            triangle_channel: self.triangle_channel.spec_set_enabled(false),
            noise_channel: self.noise_channel.spec_set_enabled(false),
            ..self
        }
    }

    pub fn reset(&mut self)
        requires
            old(self).channels_ok(),
        ensures
            *final(self) == old(self).spec_reset(),
            final(self).channels_ok(),
    {
        self.pulse_channel_1.set_enabled(false);
        self.pulse_channel_2.set_enabled(false);
        self.triangle_channel.set_enabled(false);
        self.noise_channel.set_enabled(false);
    }
}

impl Apu2A03 {
    /// A write to channel register `address` (see [`Apu2A03::spec_write`]).
    pub fn write_register(&mut self, address: u16, data: u8)
        requires
            old(self).channels_ok(),
        ensures
            *final(self) == old(self).spec_write(address, data),
            final(self).channels_ok(),
    {
        let channel_index = address / 4;
        let channel_address = (address % 4) as u8;
        if channel_index == 0 {
            self.pulse_channel_1.write(channel_address, data);
        } else if channel_index == 1 {
            self.pulse_channel_2.write(channel_address, data);
        } else if channel_index == 2 {
            self.triangle_channel.write(channel_address, data);
        } else if channel_index == 3 {
            self.noise_channel.write(channel_address, data);
        } else if channel_index == 4 {
            self.dmc_channel.write(channel_address, data);
        }
    }
}

/// The status and channel-enable register at 0x4015.
#[derive(Clone, Copy, Debug)]
pub struct Apu2A03Control {
    pub range: AddressRange,
}

/// The status byte: which channels' length counters are running, whether a sample is
/// playing, and the delta-modulation interrupt.
pub open spec fn control_status(apu: Apu2A03) -> u8 {
    let r0: u8 = 0;
    let r1 = if apu.pulse_channel_1.envelope.length_counter.counter > 0 {
        r0 | 0x01
    } else {
        r0
    };
    let r2 = if apu.pulse_channel_2.envelope.length_counter.counter > 0 {
        r1 | 0x02
    } else {
        r1
    };
    let r3 = if apu.triangle_channel.length_counter.counter > 0 {
        r2 | 0x04
    } else {
        r2
    };
    let r4 = if apu.noise_channel.envelope.length_counter.counter > 0 {
        r3 | 0x08
    } else {
        r3
    };
    let r5 = if !apu.dmc_channel.reader.has_ended {
        r4 | 0x10
    } else {
        r4
    };
    if apu.dmc_channel.reader.irq {
        r5 | 0x80
    } else {
        r5
    }
}

/// The APU after a write to the enable register: each bit enables a channel, and disabling
/// one clears its length counter (stops the sample, for delta modulation); enabling delta
/// modulation starts its sample unless one is playing; the interrupt is cleared.
pub open spec fn control_write(apu: Apu2A03, data: u8) -> Apu2A03 {
    let reader = SampleReader { irq: false, ..apu.dmc_channel.reader };
    let dmc = data & 0x10 != 0;
    Apu2A03 {
        pulse_channel_1: apu.pulse_channel_1.spec_set_enabled(data & 0x01 != 0),
        pulse_channel_2: apu.pulse_channel_2.spec_set_enabled(data & 0x02 != 0),
        triangle_channel: apu.triangle_channel.spec_set_enabled(data & 0x04 != 0),
        noise_channel: apu.noise_channel.spec_set_enabled(data & 0x08 != 0),
        dmc_channel: DmcChannel {
            enabled: dmc,
            reader: if dmc {
                reader.spec_restart()
            } else {
                SampleReader { bytes_remaining: 0, has_ended: true, ..reader }
            },
            ..apu.dmc_channel
        },
        ..apu
    }
}

impl Apu2A03Control {
    pub fn new(range_start: u16) -> (r: Self)
        ensures
            r == (Apu2A03Control { range: AddressRange { start: range_start, end: range_start } }),
    {
        Self { range: AddressRange::new(range_start, range_start) }
    }

    /// Reads the status register of `apu`.
    pub fn read(&self, apu: &Apu2A03) -> (r: u8)
        ensures
            r == control_status(*apu),
    {
        let mut result: u8 = 0x00;
        if apu.pulse_channel_1.envelope.length_counter.counter > 0 {
            result = result | 0x01;
        }
        if apu.pulse_channel_2.envelope.length_counter.counter > 0 {
            result = result | 0x02;
        }
        if apu.triangle_channel.length_counter.counter > 0 {
            result = result | 0x04;
        }
        if apu.noise_channel.envelope.length_counter.counter > 0 {
            result = result | 0x08;
        }
        if !apu.dmc_channel.reader.has_ended {
            result = result | 0x10;
        }
        if apu.dmc_channel.reader.irq {
            result = result | 0x80;
        }
        result
    }

    /// Writes the channel-enable register of `apu`.
    pub fn write(&self, apu: &mut Apu2A03, data: u8)
        requires
            old(apu).channels_ok(),
        ensures
            *final(apu) == control_write(*old(apu), data),
            final(apu).channels_ok(),
    {
        let pulse_1_enabled = (data & 0x01) != 0;
        let pulse_2_enabled = (data & 0x02) != 0;
        let triangle_enabled = (data & 0x04) != 0;
        let noise_enabled = (data & 0x08) != 0;
        let dmc_enabled = (data & 0x10) != 0;
        apu.pulse_channel_1.set_enabled(pulse_1_enabled);
        apu.pulse_channel_2.set_enabled(pulse_2_enabled);
        apu.triangle_channel.set_enabled(triangle_enabled);
        apu.noise_channel.set_enabled(noise_enabled);
        apu.dmc_channel.enabled = dmc_enabled;
        apu.dmc_channel.reader.clear_irq();
        if dmc_enabled {
            apu.dmc_channel.reader.restart();
        } else {
            apu.dmc_channel.reader.halt();
        }
    }
}

/// The frame counter byte: bit 7 the 5-step mode, bit 6 the interrupt inhibit.
pub open spec fn frame_counter_status(apu: Apu2A03) -> u8 {
    let r0: u8 = 0;
    let r1 = if apu.counter_mode {
        r0 | 0x80
    } else {
        r0
    };
    if apu.inhibit_irq {
        r1 | 0x40
    } else {
        r1
    }
}

/// The frame counter register: sequencer mode and interrupt inhibit.
#[derive(Clone, Copy, Debug)]
pub struct Apu2A03FrameCounter {
    pub range: AddressRange,
}

impl Apu2A03FrameCounter {
    pub fn new(range_start: u16) -> (r: Self)
        ensures
            r == (Apu2A03FrameCounter { range: AddressRange { start: range_start, end: range_start } }),
    {
        Self { range: AddressRange::new(range_start, range_start) }
    }

    pub fn read(&self, apu: &Apu2A03) -> (r: u8)
        ensures
            r == frame_counter_status(*apu),
    {
        let mut result: u8 = 0;
        if apu.counter_mode {
            result = result | 0x80;
        }
        if apu.inhibit_irq {
            result = result | 0x40;
        }
        result
    }

    pub fn write(&self, apu: &mut Apu2A03, data: u8)
        ensures
            *final(apu) == (Apu2A03 {
                counter_mode: data & 0x80 != 0,
                inhibit_irq: data & 0x40 != 0,
                ..*old(apu)
            }),
    {
        apu.counter_mode = (data & 0x80) != 0;
        apu.inhibit_irq = (data & 0x40) != 0;
    }
}

} // verus!
