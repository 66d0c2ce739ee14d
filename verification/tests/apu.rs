use remu::audio::apu2a03::{
    Apu2A03, Apu2A03Control, Apu2A03FrameCounter, LengthCounter, NoiseChannel, PulseChannel,
    Sequencer, TriangleChannel,
};
use remu::audio::buffer::SampleBuffer;

#[test]
fn length_counter_loads_from_table_and_counts_down() {
    let mut c = LengthCounter::new();
    c.load(0x08); // index 1
    assert_eq!(c.counter, 254);
    c.load(0x00); // index 0
    assert_eq!(c.counter, 10);
    for _ in 0..10 {
        c.clock();
    }
    assert_eq!(c.counter, 0);
    c.clock();
    assert_eq!(c.counter, 0);
}

#[test]
fn halted_length_counter_keeps_its_value() {
    let mut c = LengthCounter::new();
    c.load(0xF8); // index 31
    assert_eq!(c.counter, 30);
    c.halt = true;
    c.clock();
    assert_eq!(c.counter, 30);
}

#[test]
fn sequencer_fires_once_per_period_plus_one() {
    let mut s = Sequencer::new();
    s.set_period(3);
    assert_eq!(s.timer, 3);
    assert!(!s.clock());
    assert!(!s.clock());
    assert!(!s.clock());
    assert!(s.clock());
    assert_eq!(s.timer, 3);
    for _ in 0..3 {
        assert!(!s.clock());
    }
    assert!(s.clock());
}

#[test]
fn sequencer_period_bytes() {
    let mut s = Sequencer::new();
    s.set_lo(0x34);
    s.set_hi(0xFA); // high bits 0b010
    assert_eq!(s.period, 0x0234);
    assert_eq!(s.timer, 0x0234);
    assert!(s.is_pulse_enabled());
    s.set_period(1);
    assert!(!s.is_triangle_enabled());
}

#[test]
fn noise_shift_register_steps() {
    let mut n = NoiseChannel::new();
    n.write(2, 0x00); // period 4, timer restarts at 3
    assert_eq!(n.shift, 0x0001);
    for _ in 0..4 {
        n.clock(false, false);
    }
    // Feedback 1 XOR 0 enters at bit 14
    assert_eq!(n.shift, 0x4000);
}

#[test]
fn pulse_output_follows_duty_and_envelope() {
    let mut p = PulseChannel::new(true);
    p.write(0, 0b1001_1111); // duty 2, constant volume 15
    p.write(2, 0x20);
    p.write(3, 0x08); // length 254, period 0x020
    assert_eq!(p.output(), Some((1, 15)));
    p.enabled = false;
    assert_eq!(p.output(), None);
}

#[test]
fn triangle_is_silent_until_counters_run() {
    let mut t = TriangleChannel::new();
    t.write(0, 0x7F);
    t.write(2, 0x10);
    t.write(3, 0x08);
    assert_eq!(t.output(), None); // linear counter still 0
    t.clock(true, false); // quarter frame reloads the linear counter
    assert_eq!(t.output(), Some(15));
}

#[test]
fn control_register_enables_and_reports_channels() {
    let mut apu = Apu2A03::new(0x4000);
    let control = Apu2A03Control::new(0x4015);
    control.write(&mut apu, 0x0F);
    apu.write_register(0x03, 0x08); // pulse 1 length
    apu.write_register(0x0F, 0x08); // noise length
    assert_eq!(control.read(&apu), 0x09);
    control.write(&mut apu, 0x00);
    assert_eq!(control.read(&apu), 0x00);
}

#[test]
fn frame_counter_register() {
    let mut apu = Apu2A03::new(0x4000);
    let counter = Apu2A03FrameCounter::new(0x4017);
    assert_eq!(counter.read(&apu), 0x40);
    counter.write(&mut apu, 0x80);
    assert_eq!(counter.read(&apu), 0x80);
    assert!(apu.counter_mode);
}

#[test]
fn frame_interrupt_at_the_end_of_a_frame() {
    let mut apu = Apu2A03::new(0x4000);
    let counter = Apu2A03FrameCounter::new(0x4017);
    counter.write(&mut apu, 0x00); // 4-step mode, interrupts allowed
    let mut clocks = 0u32;
    while !apu.irq_requested() && clocks < 100_000 {
        apu.clock_one(0);
        clocks += 1;
    }
    assert!(apu.irq_requested());
    // The frame counter counts every other clock, the first one included
    assert_eq!(clocks, 2 * 14915 - 1);
}

#[test]
fn sample_buffer_is_first_in_first_out() {
    let mut buffer: SampleBuffer<f32> = SampleBuffer::new(3, 0.0);
    assert_eq!(buffer.read(), None);
    buffer.write(1.0);
    buffer.write(2.0);
    assert_eq!(buffer.len(), 2);
    assert_eq!(buffer.read(), Some(1.0));
    buffer.write(3.0);
    buffer.write(4.0);
    assert_eq!(buffer.read(), Some(2.0));
    assert_eq!(buffer.read(), Some(3.0));
    assert_eq!(buffer.read(), Some(4.0));
    assert_eq!(buffer.read(), None);
}

#[test]
fn sample_buffer_copy_and_clear() {
    let mut buffer: SampleBuffer<f32> = SampleBuffer::new(4, 0.0);
    buffer.write(0.5);
    buffer.write(0.25);
    let mut out = [9.0f32; 4];
    buffer.copy_to(&mut out);
    assert_eq!(out, [0.5, 0.25, 9.0, 9.0]);
    assert_eq!(buffer.len(), 0);
}

#[test]
fn sample_buffer_copy_after_reads_takes_storage_modulo_the_count() {
    // Writes 1, 2, 3, two reads, then 4: 3 and 4 are queued at storage positions 2 and 3,
    // and the copy takes positions (2 + i) % 2, that is 0 and 1, which hold 1 and 2.
    let mut buffer: SampleBuffer<u8> = SampleBuffer::new(4, 0);
    buffer.write(1);
    buffer.write(2);
    buffer.write(3);
    assert_eq!(buffer.read(), Some(1));
    assert_eq!(buffer.read(), Some(2));
    buffer.write(4);
    let mut out = [0u8; 2];
    buffer.copy_to(&mut out);
    assert_eq!(out, [1, 2]);
    assert_eq!(buffer.len(), 0);
}
