use gbs_player::sound_generator::{EnvelopeGenerator, LengthTimer, NoiseGenerator, PulseGenerator, SampleGenerator};
use gbs_player::types::{DutyRatio, HWREG_CHANNEL3_WAVE_PATTERN_RAM_START};

#[test]
fn pulse_square_wave_at_half_duty() {
    let mut g = PulseGenerator::new();
    g.set_volume_envelope(0xF0); // volume 15, no sweep, DAC on
    g.set_length_timer_duty_cycle(0x80); // 50%
    assert_eq!(g.duty, DutyRatio::Duty500);
    g.set_period_low(0xFF);
    g.set_period_high_control(0x87); // period 0x7FF, trigger
    assert!(g.enable);
    let outs: Vec<Option<u8>> = (0..8).map(|_| g.clock_tick_1mhz()).collect();
    assert_eq!(
        outs,
        vec![Some(0), Some(15), Some(15), Some(15), Some(15), Some(0), Some(0), Some(0)]
    );
}

#[test]
fn pulse_without_dac_is_silent() {
    let mut g = PulseGenerator::new();
    g.set_volume_envelope(0x00);
    assert!(!g.dac_enable);
    assert_eq!(g.clock_tick_1mhz(), None);
}

#[test]
fn pulse_register_read_back() {
    let mut g = PulseGenerator::new();
    g.set_sweep(0x7B);
    assert_eq!(g.get_sweep(), 0x7B);
    g.set_length_timer_duty_cycle(0x21);
    assert_eq!(g.get_length_timer_duty_cycle(), 0x21);
    g.set_volume_envelope(0xA9);
    assert_eq!(g.get_volume_envelope(), 0xA9);
    g.set_period_low(0x34);
    assert_eq!(g.get_period_low(), 0x34);
    g.set_period_high_control(0x45);
    assert_eq!(g.get_period_high_control(), 0x45);
    assert_eq!(g.get_period(), 0x534);
}

#[test]
fn sample_plays_wave_ram() {
    let mut g = SampleGenerator::new();
    g.set_wave_ram(HWREG_CHANNEL3_WAVE_PATTERN_RAM_START, 0x9E);
    assert_eq!(g.get_wave_ram(HWREG_CHANNEL3_WAVE_PATTERN_RAM_START), 0x9E);
    g.set_dac_enable(0x80);
    g.set_output_level(0x20); // full level
    g.set_period_low(0xFF);
    g.set_period_high_control(0x87); // trigger; playback starts at the second sample
    assert_eq!(g.clock_tick_2mhz(), Some(0xE));
    assert_eq!(g.clock_tick_2mhz(), Some(0));
    assert_eq!(g.get_output_level(), 0x20);
    assert_eq!(g.get_dac_enable(), 0x80);
}

#[test]
fn sample_output_level_halves() {
    let mut g = SampleGenerator::new();
    g.set_wave_ram(HWREG_CHANNEL3_WAVE_PATTERN_RAM_START, 0x0F);
    g.set_dac_enable(0x80);
    g.set_output_level(0x40); // half level
    g.set_period_low(0xFF);
    g.set_period_high_control(0x87);
    assert_eq!(g.clock_tick_2mhz(), Some(0x7));
}

#[test]
fn noise_register_read_back() {
    let mut g = NoiseGenerator::new();
    g.set_length_timer(0xFF);
    assert_eq!(g.get_length_timer(), 0x3F);
    g.set_volume_envelope(0x5A);
    assert_eq!(g.get_volume_envelope(), 0x5A);
    g.set_frequency_randomness(0x9C);
    assert_eq!(g.get_frequency_randomness(), 0x9C);
    g.set_control(0x40);
    assert_eq!(g.get_control(), 0x40);
}

#[test]
fn envelope_read_back_and_trigger() {
    let mut e = EnvelopeGenerator::new(64 * 1024);
    e.set_volume_envelope(0xB2);
    assert_eq!(e.get_volume_envelope(), 0xB2);
    assert_eq!(e.get_volume(), 0);
    e.process_trigger();
    assert_eq!(e.get_volume(), 0xB);
}

#[test]
fn length_timer_expires() {
    let mut t = LengthTimer::new(256);
    t.set_length_timer(62, 64);
    t.set_enable(true);
    assert!(t.get_enable());
    assert_eq!(t.get_initial_length_timer(), 62);
    t.process_trigger();
    assert!(!t.expired);
    t.clock_tick();
    assert!(!t.expired);
    t.clock_tick();
    assert!(t.expired);
}

#[test]
fn wave_channel_stops_by_length() {
    let mut g = SampleGenerator::new();
    g.set_dac_enable(0x80);
    g.set_length_timer(255);
    g.set_period_low(0xFF);
    g.set_period_high_control(0xC7);
    assert!(g.enable);
    // one length step of 2097152 / 256 ticks takes the count from 255 to 256
    for _ in 0..8191 {
        g.clock_tick_2mhz();
    }
    assert!(g.enable);
    g.clock_tick_2mhz();
    assert!(!g.enable);
    assert_eq!(g.clock_tick_2mhz(), None);
}

#[test]
fn upward_sweep_stops_the_channel_on_16_bit_overflow() {
    let mut g = PulseGenerator::new();
    g.set_volume_envelope(0xF0);
    g.set_sweep(0x10); // pace 1, upward, shift 0: the period doubles every 8192 ticks
    g.set_period_low(0);
    g.set_period_high_control(0x84); // period 0x400, trigger
    for _ in 0..8192 + 100 {
        g.clock_tick_1mhz();
    }
    // past 11 bits the period is still stored and the channel goes on
    assert_eq!(g.period, 0x800);
    assert!(g.enable);
    for _ in 0..4 * 8192 {
        g.clock_tick_1mhz();
    }
    assert_eq!(g.period, 0x8000);
    assert!(g.enable);
    for _ in 0..8192 {
        g.clock_tick_1mhz();
    }
    // 0x8000 + 0x8000 overflows 16 bits
    assert_eq!(g.period, 0);
    assert!(!g.enable);
}

#[test]
fn length_timer_counts_to_its_timeout() {
    // 1024 Hz: a count every 4 ticks; from 60 to 64 takes 16 ticks
    let mut t = LengthTimer::new(1024);
    t.set_enable(true);
    t.set_length_timer(60, 64);
    t.process_trigger();
    for _ in 0..15 {
        t.clock_tick();
    }
    assert!(!t.expired);
    assert_eq!(t.length_timer, 63);
    t.clock_tick();
    assert!(t.expired);
    for _ in 0..100 {
        t.clock_tick();
    }
    assert!(t.expired);
    assert_eq!(t.length_timer, 64);
    assert_eq!(t.get_initial_length_timer(), 60);
}

#[test]
fn envelope_steps_and_saturates() {
    // 256 Hz: the 64 Hz period is 4 ticks; pace 2 steps the volume every 8 ticks
    let mut e = EnvelopeGenerator::new(256);
    e.set_volume_envelope(0x32); // start at 3, downwards, pace 2
    e.process_trigger();
    for _ in 0..7 {
        e.clock_tick();
    }
    assert_eq!(e.get_volume(), 3);
    e.clock_tick();
    assert_eq!(e.get_volume(), 2);
    for _ in 0..16 {
        e.clock_tick();
    }
    assert_eq!(e.get_volume(), 0);
    for _ in 0..40 {
        e.clock_tick();
    }
    assert_eq!(e.get_volume(), 0);
    assert_eq!(e.get_volume_envelope(), 0x32);
}
