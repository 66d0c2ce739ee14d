//! Properties of the audio channels that span several clocks.
use crate::audio::apu2a03::{
    control_status, control_write, noise_step, Apu2A03, Envelope, LengthCounter, Sequencer,
};
use crate::bits::lemma_and_le_u8;
use vstd::prelude::*;

verus! {

/// `n` timer clocks, and whether any of them fired.
pub open spec fn sequencer_run(s: Sequencer, n: nat) -> (Sequencer, bool)
    decreases n,
{
    if n == 0 {
        (s, false)
    } else {
        let (prev, fired) = sequencer_run(s, (n - 1) as nat);
        let (next, f) = prev.spec_clock();
        (next, fired || f)
    }
}

/// A channel timer counts down: from a timer value of `t`, the first `t` clocks bring it to
/// 0 without firing, and the next one fires and reloads the period. A timer restarted from
/// its period therefore fires once every period + 1 clocks.
pub proof fn law_sequencer_fires_after_timer(s: Sequencer)
    requires
        s.wf(),
    ensures
        sequencer_run(s, s.timer as nat) == (Sequencer { timer: 0, ..s }, false),
        sequencer_run(s, s.timer as nat + 1) == (Sequencer { timer: s.period & 0x07FF, ..s }, true),
{
    lemma_sequencer_countdown(s, s.timer as nat);
}

proof fn lemma_sequencer_countdown(s: Sequencer, n: nat)
    requires
        n <= s.timer,
    ensures
        sequencer_run(s, n) == (Sequencer { timer: (s.timer - n) as u16, ..s }, false),
    decreases n,
{
    if n > 0 {
        lemma_sequencer_countdown(s, (n - 1) as nat);
    }
}

/// `n` half-frame clocks of a length counter.
pub open spec fn length_run(c: LengthCounter, n: nat) -> LengthCounter
    decreases n,
{
    if n == 0 {
        c
    } else {
        length_run(c, (n - 1) as nat).spec_clock()
    }
}

/// A length counter that is not halted counts down by one per half frame and stops at 0; a
/// halted one keeps its value.
pub proof fn law_length_counter_countdown(c: LengthCounter, n: nat)
    ensures
        length_run(c, n).counter == if c.halt {
            c.counter as int
        } else if n <= c.counter {
            c.counter - n
        } else {
            0
        },
        length_run(c, n).halt == c.halt,
    decreases n,
{
    if n > 0 {
        law_length_counter_countdown(c, (n - 1) as nat);
    }
}

/// The noise shift register never locks up: a non-zero 15-bit register stays non-zero.
pub proof fn law_noise_register_never_zero(shift: u16, mode: bool)
    requires
        shift != 0,
        shift <= 0x7FFF,
    ensures
        noise_step(shift, mode) != 0,
        noise_step(shift, mode) <= 0x7FFF,
{
    assert(((shift >> 1) | (((shift & 0x0001) ^ ((shift >> 6) & 0x0001)) << 14)) != 0 && ((shift
        >> 1) | (((shift & 0x0001) ^ ((shift >> 1) & 0x0001)) << 14)) != 0 && ((shift >> 1) | (((
    shift & 0x0001) ^ ((shift >> 6) & 0x0001)) << 14)) <= 0x7FFF && ((shift >> 1) | (((shift
        & 0x0001) ^ ((shift >> 1) & 0x0001)) << 14)) <= 0x7FFF) by (bit_vector)
        requires
            shift != 0,
            shift <= 0x7FFF,
    ;
}

/// Writing 0 to the channel-enable register silences every channel: the status read
/// afterwards shows no length counter running, no sample playing and no interrupt.
pub proof fn law_disable_all_channels(apu: Apu2A03)
    ensures
        control_status(control_write(apu, 0)) == 0,
{
    lemma_and_le_u8(0, 0x01);
    lemma_and_le_u8(0, 0x02);
    lemma_and_le_u8(0, 0x04);
    lemma_and_le_u8(0, 0x08);
    lemma_and_le_u8(0, 0x10);
}

/// The envelope in decay mode: the volume is the decay level, whatever the divider period.
/// Setting the envelope with bit 4 of the value clear (decay mode) and clocking it once
/// starts the decay at 15; while the length counter runs, the volume is then 15 for every
/// divider period. Each time the divider expires, the volume goes down by one. Two envelopes
/// in decay mode that differ only in their divider period have the same volume.
pub proof fn law_envelope_decay_volume(e: Envelope, value: u8, other_period: u8)
    requires
        e.length_counter.counter > 0,
    ensures
        value & 0x10 == 0 ==> e.spec_set(value).spec_clock().spec_volume() == 15,
        !e.use_constant_volume ==> e.spec_volume() == (Envelope {
            volume_or_reload: other_period,
            ..e
        }).spec_volume(),
        !e.use_constant_volume && !e.start && e.divider_counter == 0 && e.decay_counter > 0
            ==> e.spec_clock().spec_volume() + 1 == e.spec_volume(),
        e.use_constant_volume ==> e.spec_volume() == e.volume_or_reload,
{
}

} // verus!
