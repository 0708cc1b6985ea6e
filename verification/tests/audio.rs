use rust_nes::audio::envelope::Envelope;
use rust_nes::audio::noise::Noise;
use rust_nes::audio::pulse::Pulse;
use rust_nes::audio::sequencer::Sequencer;
use rust_nes::audio::tables::length_counter_load;
use rust_nes::audio::timer::Timer;
use rust_nes::audio::triangle::Triangle;
use rust_nes::audio::Apu2A03;

#[test]
fn timer_period_from_two_writes() {
    let mut timer = Timer::default();
    timer.set_low(0xCD);
    timer.set_high(0xFB);
    assert_eq!(timer.period, 0x03CD);
    assert_eq!(timer.counter, 0x03CD);
    let mut other = Timer::default();
    other.set_high(0x03);
    other.set_low(0xCD);
    assert_eq!(other.period, 0x03CD);
    // The counter restarted at the high write, before the low byte arrived.
    assert_eq!(other.counter, 0x0300);
    other.decrement();
    assert_eq!(other.counter, 0x02FF);
    other.reset();
    assert_eq!(other.counter, 0x03CD);
}

#[test]
fn envelope_decays_and_loops() {
    let mut envelope = Envelope::default();
    envelope.start = true;
    envelope.decay_counter_period = 0;
    envelope.clock();
    assert_eq!(envelope.decay_counter, 15);
    assert!(!envelope.start);
    for expected in (0..15).rev() {
        envelope.clock();
        assert_eq!(envelope.decay_counter, expected);
    }
    envelope.clock();
    assert_eq!(envelope.decay_counter, 0);
    envelope.loop_flag = true;
    envelope.clock();
    assert_eq!(envelope.decay_counter, 15);
}

#[test]
fn pulse_registers() {
    let mut pulse = Pulse::new(true);
    pulse.set_duty_cycle(0b1011_0111);
    assert_eq!(pulse.duty_cycle, 0b0111_1000);
    assert!(pulse.envelope.loop_flag);
    assert!(pulse.constant_volume);
    assert_eq!(pulse.envelope.decay_counter_period, 7);
    pulse.set_sweep(0b1101_1010);
    assert!(pulse.sweep.enabled);
    assert_eq!(pulse.sweep.period, 5);
    assert!(pulse.sweep.negate);
    assert_eq!(pulse.sweep.shift_amount, 2);
    assert!(pulse.sweep.reload);
    pulse.set_timer_high(0x08);
    assert_eq!(pulse.length_counter, 0);
    pulse.set_enabled(true);
    pulse.set_timer_high(0x08);
    assert_eq!(pulse.length_counter, 254);
    assert!(pulse.envelope.start);
    pulse.set_enabled(false);
    assert_eq!(pulse.length_counter, 0);
}

#[test]
fn pulse_plays_constant_volume() {
    let mut pulse = Pulse::new(false);
    pulse.set_enabled(true);
    pulse.set_duty_cycle(0b1001_1010);
    pulse.set_timer_low(0x10);
    pulse.set_timer_high(0x08);
    // 50% duty: steps 1-4 of the waveform are high.
    let mut samples = Vec::new();
    for _ in 0..(8 * 0x11) {
        samples.push(pulse.clock());
    }
    assert!(samples.iter().all(|s| *s == 0 || *s == 10));
    assert!(samples.iter().any(|s| *s == 10));
    pulse.clock_length_counter();
    assert_eq!(pulse.length_counter, 253);
}

#[test]
fn pulse_sweep_moves_period() {
    let mut pulse = Pulse::new(true);
    pulse.set_timer_low(0x00);
    pulse.set_timer_high(0x01);
    pulse.set_sweep(0b1000_0001);
    pulse.clock_sweep();
    // period 0x100 + (0x100 >> 1)
    assert_eq!(pulse.timer.period, 0x180);
    assert_eq!(pulse.target_period, 0x180);
    pulse.set_sweep(0b1000_1001);
    pulse.clock_sweep();
    // negated on the first channel: 0x180 - 0xC0 - 1
    assert_eq!(pulse.timer.period, 0xBF);
}

#[test]
fn triangle_sequence_and_counters() {
    let mut triangle = Triangle::default();
    triangle.enabled = true;
    triangle.set_counter_reload(0x85);
    assert!(triangle.length_counter_halt);
    assert_eq!(triangle.counter_reload, 5);
    triangle.set_timer_low(0x00);
    triangle.set_timer_high(0x08);
    assert_eq!(triangle.length_counter, 254);
    assert!(triangle.linear_counter_reload);
    triangle.clock_linear_counter();
    assert_eq!(triangle.linear_counter, 5);
    assert!(triangle.linear_counter_reload);
    // With a zero timer both counters non-zero, every step advances the waveform.
    triangle.timer = 0;
    triangle.reload = 0;
    assert_eq!(triangle.clock(), 13);
    assert_eq!(triangle.clock(), 11);
    triangle.clock_length_counter();
    assert_eq!(triangle.length_counter, 254);
}

#[test]
fn noise_registers_and_shift() {
    let mut noise = Noise::default();
    noise.set_period(0x83);
    assert!(noise.mode);
    assert_eq!(noise.period, 32);
    noise.set_length_counter(0xF8);
    assert_eq!(noise.length_counter, 31);
    noise.set_volume(0x1C);
    assert!(noise.constant_volume);
    noise.feedback_shift = 1;
    noise.mode = false;
    // bit 0 (1) XOR bit 1 (0) = 1 enters at bit 14
    noise.clock();
    assert_eq!(noise.feedback_shift, 0x4000);
    assert_eq!(noise.clock(), 12);
    noise.set_enabled(false);
    assert_eq!(noise.length_counter, 0);
}

#[test]
fn sequencer_counts_down_and_rewrites() {
    let mut sequencer = Sequencer { sequence: 0b10, timer: 1, reload: 0, output: 0 };
    sequencer.set_reload_low(0x02);
    sequencer.set_reload_high(0xF9);
    assert_eq!(sequencer.reload, 0x0102);
    sequencer.clock(false, |s| s >> 1);
    assert_eq!(sequencer.timer, 1);
    sequencer.clock(true, |s| s >> 1);
    assert_eq!(sequencer.timer, 0);
    sequencer.clock(true, |s| s >> 1);
    assert_eq!(sequencer.timer, 0x0103);
    assert_eq!(sequencer.sequence, 1);
    assert_eq!(sequencer.output, 1);
}

#[test]
fn length_table_values() {
    assert_eq!(length_counter_load(0), 10);
    assert_eq!(length_counter_load(1), 254);
    assert_eq!(length_counter_load(31), 30);
}

#[test]
fn status_reports_length_counters() {
    let mut apu = Apu2A03::initialize();
    apu.write(0x4015, 0x0F);
    apu.write(0x4003, 0x08);
    apu.write(0x400F, 0x08);
    assert_eq!(apu.read(0x4015), 0x09);
    apu.frame_interrupt = true;
    assert_eq!(apu.read(0x4015), 0x49);
    assert!(!apu.frame_interrupt);
    assert_eq!(apu.read(0x4000), 0);
}

#[test]
fn four_step_frame_raises_interrupt() {
    let mut apu = Apu2A03::initialize();
    apu.write(0x4017, 0x00);
    assert_eq!(apu.step_mode, 4);
    for _ in 0..14914 {
        apu.clock();
    }
    assert!(!apu.trigger_interrupt);
    apu.clock();
    assert!(apu.trigger_interrupt);
    assert_eq!(apu.frame_clock_counter, 0);
}

#[test]
fn inhibited_or_five_step_frame_stays_quiet() {
    let mut apu = Apu2A03::initialize();
    apu.write(0x4017, 0x40);
    assert!(apu.interrupt_inhibit);
    for _ in 0..14915 {
        apu.clock();
    }
    assert!(!apu.trigger_interrupt);
    let mut five = Apu2A03::initialize();
    five.write(0x4017, 0x80);
    assert_eq!(five.step_mode, 5);
    for _ in 0..18641 {
        five.clock();
    }
    assert!(!five.trigger_interrupt);
    assert_eq!(five.frame_clock_counter, 0);
}

#[test]
fn mixer_levels_stay_in_table_range() {
    let mut apu = Apu2A03::initialize();
    apu.write(0x4015, 0x0F);
    apu.write(0x4000, 0x3F);
    apu.write(0x4002, 0x08);
    apu.write(0x4003, 0x08);
    apu.write(0x400C, 0x3F);
    apu.write(0x400F, 0x08);
    for _ in 0..1000 {
        let levels = apu.clock();
        assert!(levels.pulse <= 30);
        assert!(levels.tnd <= 75);
    }
}

#[test]
fn disabled_pulse_is_silent() {
    let mut apu = Apu2A03::initialize();
    apu.write(0x4015, 0x01);
    apu.write(0x4000, 0x1F);
    apu.write(0x4002, 0x20);
    apu.write(0x4003, 0x08);
    let mut heard = false;
    for _ in 0..400 {
        if apu.pulse_1.clock() > 0 {
            heard = true;
        }
    }
    assert!(heard);
    apu.write(0x4015, 0x00);
    for _ in 0..400 {
        assert_eq!(apu.pulse_1.clock(), 0);
    }
}
