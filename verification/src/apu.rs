//! The audio processing unit: the sound registers, the four generators and
//! the digital output level of each channel.
//!
//! Mixing the channel levels into a stereo sample is floating-point work and
//! is done outside this crate from `ch_out`, `ch_pan`, `master_volume` and
//! the enable and DAC flags of the generators.
use vstd::prelude::*;
use vstd::array::spec_array_update;
use crate::types::{
    HWREG_CHANNEL3_WAVE_PATTERN_RAM_END,
    HWREG_CHANNEL3_WAVE_PATTERN_RAM_START,
    HWREG_NR10_CHANNEL1_SWEEP,
    HWREG_NR11_CHANNEL1_LENGTH_TIMER_DURY_CYCLE,
    HWREG_NR12_CHANNEL1_VOLUME_ENVELOPE,
    HWREG_NR13_CHANNEL1_PERIOD_LOW,
    HWREG_NR14_CHANNEL1_PERIOD_HIGH_CONTROL,
    HWREG_NR21_CHANNEL2_LENGTH_TIMER_DURY_CYCLE,
    HWREG_NR22_CHANNEL2_VOLUME_ENVELOPE,
    HWREG_NR23_CHANNEL2_PERIOD_LOW,
    HWREG_NR24_CHANNEL2_PERIOD_HIGH_CONTROL,
    HWREG_NR30_CHANNEL3_DAC_ENABLE,
    HWREG_NR31_CHANNEL3_LENGTH_TIMER,
    HWREG_NR32_CHANNEL3_OUTPUT_LEVEL,
    HWREG_NR33_CHANNEL3_PERIOD_HIGH_CONTROL,
    HWREG_NR33_CHANNEL3_PERIOD_LOW,
    HWREG_NR41_CHANNEL4_LENGTH_TIMER,
    HWREG_NR42_CHANNEL4_VOLUME_ENVELOPE,
    HWREG_NR43_CHANNEL4_FREQUENCY_RANDOMNESS,
    HWREG_NR44_CHANNEL4_CONTROL,
    HWREG_NR50_MASTER_VOLUME_VIN_PANNING,
    HWREG_NR51_SOUND_PANNING,
    HWREG_NR52_AUDIO_MASTER_CONTROL,
    HWREG_PCM12_AUDIO_DIGITAL_OUTPUTS_12,
    HWREG_PCM34_AUDIO_DIGITAL_OUTPUTS_34,
    Pan,
};
use crate::sound_generator::{
    is_wave_ram_address, lemma_noise_register_readback, lemma_pulse_register_readback,
    lemma_sample_register_readback, NoiseGenerator, PulseGenerator, SampleGenerator,
};

verus! {

/// The common interface of the audio units that the CPU drives.
pub trait APUDevice: Sized {
    /// The invariant the unit keeps.
    spec fn inv(&self) -> bool;

    /// Creates a unit in its power-on state.
    fn new() -> (r: Self)
        ensures
            r.inv(),
    ;

    /// Writes a sound register.
    fn write_register(&mut self, address: usize, value: u8)
        requires
            old(self).inv(),
        ensures
            final(self).inv(),
    ;

    /// Reads a sound register.
    fn read_register(&mut self, address: usize) -> (r: u8)
        requires
            old(self).inv(),
        ensures
            final(self).inv(),
    ;

    /// Advances the unit by one 2 MHz clock tick.
    fn clock_tick_2mhz(&mut self)
        requires
            old(self).inv(),
        ensures
            final(self).inv(),
    ;
}

/// The placement NR51 gives channel `ch`: bit `ch` routes it left, bit `ch + 4` right.
pub open spec fn spec_pan_of(value: u8, ch: int) -> Pan {
    let left = ((value >> (ch as u8)) & 0x01) != 0;
    let right = ((value >> (ch as u8)) & 0x10) != 0;
    if left && right {
        Pan::Center
    } else if left && !right {
        Pan::Left
    } else if !left && right {
        Pan::Right
    } else {
        Pan::Ignore
    }
}

/// NR51 with the bits of channel `ch` added for placement `pan`.
pub open spec fn spec_nr51_with(ret: u8, pan: Pan, ch: int) -> u8 {
    let left = (0x01u8 << (ch as u8)) as u8;
    let right = (0x10u8 << (ch as u8)) as u8;
    match pan {
        Pan::Center => (ret | left) | right,
        Pan::Left => ret | left,
        Pan::Right => ret | right,
        Pan::Ignore => ret,
    }
}

/// NR51 as reported for the placements of the first `n` channels.
pub open spec fn spec_nr51_prefix(pans: Seq<Pan>, n: int) -> u8
    decreases n,
{
    if n <= 0 {
        0
    } else {
        spec_nr51_with(spec_nr51_prefix(pans, n - 1), pans[n - 1], n - 1)
    }
}

/// Audio processing unit.
pub struct APU {
    /// Whether sound is on (NR52 bit 7).
    pub audio_on: bool,
    /// Placement of each channel.
    pub ch_pan: [Pan; 4],
    /// Master volume of the left and the right output (0..=7).
    pub master_volume: [u8; 2],
    /// The VIN routing bits of NR50 (left, right).
    pub vin: [bool; 2],
    /// The last output level (0..=15) of each channel.
    pub ch_out: [u8; 4],
    /// CH1.
    pub pulse_generator_ch1: PulseGenerator,
    /// CH2.
    pub pulse_generator_ch2: PulseGenerator,
    /// CH3.
    pub sample_generator: SampleGenerator,
    /// CH4.
    pub noise_generator: NoiseGenerator,
    /// 2 MHz ticks since power-on (wraps).
    pub clock_count: u32,
}

impl APU {
    /// The invariant: every generator keeps its own, and every channel
    /// level is a 4 bit value.
    pub open spec fn wf(&self) -> bool {
        &&& self.pulse_generator_ch1.wf()
        &&& self.pulse_generator_ch2.wf()
        &&& self.sample_generator.wf()
        &&& self.noise_generator.wf()
        &&& forall|i: int| 0 <= i < 4 ==> #[trigger] self.ch_out@[i] <= 15
    }

    /// Whether this is the unit as created: sound off, every channel in the
    /// center, volumes and levels zero, every generator as created.
    pub open spec fn spec_is_power_on(&self) -> bool {
        &&& !self.audio_on
        &&& self.ch_pan@ == seq![Pan::Center, Pan::Center, Pan::Center, Pan::Center]
        &&& self.master_volume@ == seq![0u8, 0u8]
        &&& self.vin@ == seq![false, false]
        &&& self.ch_out@ == seq![0u8, 0u8, 0u8, 0u8]
        &&& self.clock_count == 0
        &&& self.pulse_generator_ch1.spec_is_power_on()
        &&& self.pulse_generator_ch2.spec_is_power_on()
        &&& self.sample_generator.spec_is_power_on()
        &&& self.noise_generator.spec_is_power_on()
    }

    /// The unit after `value` is written to register `address`; writes to
    /// other addresses are ignored.
    pub open spec fn spec_write_register(self, address: usize, value: u8) -> APU {
        if address == HWREG_NR10_CHANNEL1_SWEEP {
            APU { pulse_generator_ch1: self.pulse_generator_ch1.spec_set_sweep(value), ..self }
        } else if address == HWREG_NR11_CHANNEL1_LENGTH_TIMER_DURY_CYCLE {
            APU {
                pulse_generator_ch1: self.pulse_generator_ch1.spec_set_length_timer_duty_cycle(value),
                ..self
            }
        } else if address == HWREG_NR12_CHANNEL1_VOLUME_ENVELOPE {
            APU {
                pulse_generator_ch1: self.pulse_generator_ch1.spec_set_volume_envelope(value),
                ..self
            }
        } else if address == HWREG_NR13_CHANNEL1_PERIOD_LOW {
            APU { pulse_generator_ch1: self.pulse_generator_ch1.spec_set_period_low(value), ..self }
        } else if address == HWREG_NR14_CHANNEL1_PERIOD_HIGH_CONTROL {
            APU {
                pulse_generator_ch1: self.pulse_generator_ch1.spec_set_period_high_control(value),
                ..self
            }
        } else if address == HWREG_NR21_CHANNEL2_LENGTH_TIMER_DURY_CYCLE {
            APU {
                pulse_generator_ch2: self.pulse_generator_ch2.spec_set_length_timer_duty_cycle(value),
                ..self
            }
        } else if address == HWREG_NR22_CHANNEL2_VOLUME_ENVELOPE {
            APU {
                pulse_generator_ch2: self.pulse_generator_ch2.spec_set_volume_envelope(value),
                ..self
            }
        } else if address == HWREG_NR23_CHANNEL2_PERIOD_LOW {
            APU { pulse_generator_ch2: self.pulse_generator_ch2.spec_set_period_low(value), ..self }
        } else if address == HWREG_NR24_CHANNEL2_PERIOD_HIGH_CONTROL {
            APU {
                pulse_generator_ch2: self.pulse_generator_ch2.spec_set_period_high_control(value),
                ..self
            }
        } else if address == HWREG_NR30_CHANNEL3_DAC_ENABLE {
            APU { sample_generator: self.sample_generator.spec_set_dac_enable(value), ..self }
        } else if address == HWREG_NR31_CHANNEL3_LENGTH_TIMER {
            APU { sample_generator: self.sample_generator.spec_set_length_timer(value), ..self }
        } else if address == HWREG_NR32_CHANNEL3_OUTPUT_LEVEL {
            APU { sample_generator: self.sample_generator.spec_set_output_level(value), ..self }
        } else if address == HWREG_NR33_CHANNEL3_PERIOD_LOW {
            APU { sample_generator: self.sample_generator.spec_set_period_low(value), ..self }
        } else if address == HWREG_NR33_CHANNEL3_PERIOD_HIGH_CONTROL {
            APU {
                sample_generator: self.sample_generator.spec_set_period_high_control(value),
                ..self
            }
        } else if address == HWREG_NR41_CHANNEL4_LENGTH_TIMER {
            APU { noise_generator: self.noise_generator.spec_set_length_timer(value), ..self }
        } else if address == HWREG_NR42_CHANNEL4_VOLUME_ENVELOPE {
            APU { noise_generator: self.noise_generator.spec_set_volume_envelope(value), ..self }
        } else if address == HWREG_NR43_CHANNEL4_FREQUENCY_RANDOMNESS {
            APU { noise_generator: self.noise_generator.spec_set_frequency_randomness(value), ..self }
        } else if address == HWREG_NR44_CHANNEL4_CONTROL {
            APU { noise_generator: self.noise_generator.spec_set_control(value), ..self }
        } else if address == HWREG_NR50_MASTER_VOLUME_VIN_PANNING {
            APU {
                vin: spec_array_update(
                    spec_array_update(self.vin, 0, (value & 0x80) != 0),
                    1,
                    (value & 0x08) != 0,
                ),
                master_volume: spec_array_update(
                    spec_array_update(self.master_volume, 0, (value >> 4) & 0x7),
                    1,
                    (value >> 0) & 0x7,
                ),
                ..self
            }
        } else if address == HWREG_NR51_SOUND_PANNING {
            APU {
                ch_pan: spec_array_update(
                    spec_array_update(
                        spec_array_update(
                            spec_array_update(self.ch_pan, 0, spec_pan_of(value, 0)),
                            1,
                            spec_pan_of(value, 1),
                        ),
                        2,
                        spec_pan_of(value, 2),
                    ),
                    3,
                    spec_pan_of(value, 3),
                ),
                ..self
            }
        } else if address == HWREG_NR52_AUDIO_MASTER_CONTROL {
            self.spec_write_master_control(value)
        } else if is_wave_ram_address(address) {
            APU { sample_generator: self.sample_generator.spec_set_wave_ram(address, value), ..self }
        } else {
            self
        }
    }

    /// The unit after NR52 is written.
    pub open spec fn spec_write_master_control(self, value: u8) -> APU {
        APU {
            audio_on: (value & 0x80) != 0,
            pulse_generator_ch1: PulseGenerator {
                enable: (value & 0x1) != 0,
                ..self.pulse_generator_ch1
            },
            pulse_generator_ch2: PulseGenerator {
                enable: (value & 0x2) != 0,
                ..self.pulse_generator_ch2
            },
            sample_generator: SampleGenerator {
                enable: (value & 0x4) != 0,
                ..self.sample_generator
            },
            noise_generator: NoiseGenerator {
                enable: (value & 0x8) != 0,
                ..self.noise_generator
            },
            ..self
        }
    }

    /// NR50 as reported.
    pub open spec fn spec_nr50(&self) -> u8 {
        (((if self.vin@[0] { 0x80u8 } else { 0u8 }) | (if self.vin@[1] {
            0x08u8
        } else {
            0u8
        })) | ((self.master_volume@[0] << 4) as u8)) | (self.master_volume@[1] << 0)
    }

    /// NR52 as reported.
    pub open spec fn spec_nr52(&self) -> u8 {
        (if self.audio_on { 0x80u8 } else { 0u8 }) | (if self.pulse_generator_ch1.enable {
            0x01u8
        } else {
            0u8
        }) | (if self.pulse_generator_ch2.enable { 0x02u8 } else { 0u8 }) | (
        if self.sample_generator.enable {
            0x04u8
        } else {
            0u8
        }) | (if self.noise_generator.enable { 0x08u8 } else { 0u8 })
    }

    /// The value read from register `address`; other addresses read 0.
    pub open spec fn spec_read_register(&self, address: usize) -> u8 {
        if address == HWREG_NR10_CHANNEL1_SWEEP {
            self.pulse_generator_ch1.spec_sweep()
        } else if address == HWREG_NR11_CHANNEL1_LENGTH_TIMER_DURY_CYCLE {
            self.pulse_generator_ch1.spec_length_timer_duty_cycle()
        } else if address == HWREG_NR12_CHANNEL1_VOLUME_ENVELOPE {
            self.pulse_generator_ch1.eg.spec_volume_envelope()
        } else if address == HWREG_NR13_CHANNEL1_PERIOD_LOW {
            self.pulse_generator_ch1.spec_period_low()
        } else if address == HWREG_NR14_CHANNEL1_PERIOD_HIGH_CONTROL {
            self.pulse_generator_ch1.spec_period_high_control()
        } else if address == HWREG_NR21_CHANNEL2_LENGTH_TIMER_DURY_CYCLE {
            self.pulse_generator_ch2.spec_length_timer_duty_cycle()
        } else if address == HWREG_NR22_CHANNEL2_VOLUME_ENVELOPE {
            self.pulse_generator_ch2.eg.spec_volume_envelope()
        } else if address == HWREG_NR23_CHANNEL2_PERIOD_LOW {
            self.pulse_generator_ch2.spec_period_low()
        } else if address == HWREG_NR24_CHANNEL2_PERIOD_HIGH_CONTROL {
            self.pulse_generator_ch2.spec_period_high_control()
        } else if address == HWREG_NR30_CHANNEL3_DAC_ENABLE {
            self.sample_generator.spec_dac_enable()
        } else if address == HWREG_NR31_CHANNEL3_LENGTH_TIMER {
            self.sample_generator.length_timer.initial_length_timer
        } else if address == HWREG_NR32_CHANNEL3_OUTPUT_LEVEL {
            self.sample_generator.spec_output_level()
        } else if address == HWREG_NR33_CHANNEL3_PERIOD_LOW {
            self.sample_generator.spec_period_low()
        } else if address == HWREG_NR33_CHANNEL3_PERIOD_HIGH_CONTROL {
            self.sample_generator.spec_period_high_control()
        } else if address == HWREG_NR41_CHANNEL4_LENGTH_TIMER {
            self.noise_generator.length_timer.initial_length_timer
        } else if address == HWREG_NR42_CHANNEL4_VOLUME_ENVELOPE {
            self.noise_generator.eg.spec_volume_envelope()
        } else if address == HWREG_NR43_CHANNEL4_FREQUENCY_RANDOMNESS {
            self.noise_generator.spec_frequency_randomness()
        } else if address == HWREG_NR44_CHANNEL4_CONTROL {
            self.noise_generator.spec_control()
        } else if address == HWREG_NR50_MASTER_VOLUME_VIN_PANNING {
            self.spec_nr50()
        } else if address == HWREG_NR51_SOUND_PANNING {
            spec_nr51_prefix(self.ch_pan@, 4)
        } else if address == HWREG_NR52_AUDIO_MASTER_CONTROL {
            self.spec_nr52()
        } else if is_wave_ram_address(address) {
            self.sample_generator.spec_wave_ram(address)
        } else if address == HWREG_PCM12_AUDIO_DIGITAL_OUTPUTS_12 {
            ((self.ch_out@[1] << 4) as u8) | (self.ch_out@[0] << 0)
        } else if address == HWREG_PCM34_AUDIO_DIGITAL_OUTPUTS_34 {
            ((self.ch_out@[3] << 4) as u8) | (self.ch_out@[2] << 0)
        } else {
            0
        }
    }

    /// The unit after one 2 MHz clock tick: the pulse generators run on even
    /// ticks, the sample generator on every tick, the noise generator on every
    /// eighth tick, and each new output level is kept in `ch_out`.
    pub open spec fn spec_clock_tick_2mhz(self) -> APU {
        let count = if self.clock_count == 0xFFFF_FFFF { 0u32 } else { (self.clock_count + 1) as u32 };
        let s0 = APU { clock_count: count, ..self };
        let s1 = if count % 2 == 0 {
            let (p1, o1) = s0.pulse_generator_ch1.spec_clock_tick_1mhz();
            let (p2, o2) = s0.pulse_generator_ch2.spec_clock_tick_1mhz();
            let out = match o1 {
                Some(v) => spec_array_update(s0.ch_out, 0, v),
                None => s0.ch_out,
            };
            let out = match o2 {
                Some(v) => spec_array_update(out, 1, v),
                None => out,
            };
            APU { pulse_generator_ch1: p1, pulse_generator_ch2: p2, ch_out: out, ..s0 }
        } else {
            s0
        };
        let (sg, o3) = s1.sample_generator.spec_clock_tick_2mhz();
        let s2 = APU {
            sample_generator: sg,
            ch_out: match o3 {
                Some(v) => spec_array_update(s1.ch_out, 2, v),
                None => s1.ch_out,
            },
            ..s1
        };
        if count % 8 == 0 {
            let (ng, o4) = s2.noise_generator.spec_clock_tick_256khz();
            APU {
                noise_generator: ng,
                ch_out: match o4 {
                    Some(v) => spec_array_update(s2.ch_out, 3, v),
                    None => s2.ch_out,
                },
                ..s2
            }
        } else {
            s2
        }
    }

    /// Writes a register of CH1 (NR10-NR14).
    fn write_pulse1_register(&mut self, address: usize, value: u8)
        requires
            old(self).wf(),
            HWREG_NR10_CHANNEL1_SWEEP <= address <= HWREG_NR14_CHANNEL1_PERIOD_HIGH_CONTROL,
        ensures
            final(self).wf(),
            *final(self) == old(self).spec_write_register(address, value),
    {
        match address {
            HWREG_NR10_CHANNEL1_SWEEP => {
                self.pulse_generator_ch1.set_sweep(value);
            },
            HWREG_NR11_CHANNEL1_LENGTH_TIMER_DURY_CYCLE => {
                self.pulse_generator_ch1.set_length_timer_duty_cycle(value)
            },
            HWREG_NR12_CHANNEL1_VOLUME_ENVELOPE => {
                self.pulse_generator_ch1.set_volume_envelope(value);
            },
            HWREG_NR13_CHANNEL1_PERIOD_LOW => {
                self.pulse_generator_ch1.set_period_low(value);
            },
            HWREG_NR14_CHANNEL1_PERIOD_HIGH_CONTROL => {
                self.pulse_generator_ch1.set_period_high_control(value);
            },
            _ => {},
        }
    }

    /// Writes a register of CH2 (NR21-NR24).
    fn write_pulse2_register(&mut self, address: usize, value: u8)
        requires
            old(self).wf(),
            HWREG_NR21_CHANNEL2_LENGTH_TIMER_DURY_CYCLE <= address <= HWREG_NR24_CHANNEL2_PERIOD_HIGH_CONTROL,
        ensures
            final(self).wf(),
            *final(self) == old(self).spec_write_register(address, value),
    {
        match address {
            HWREG_NR21_CHANNEL2_LENGTH_TIMER_DURY_CYCLE => {
                self.pulse_generator_ch2.set_length_timer_duty_cycle(value);
            },
            HWREG_NR22_CHANNEL2_VOLUME_ENVELOPE => {
                self.pulse_generator_ch2.set_volume_envelope(value);
            },
            HWREG_NR23_CHANNEL2_PERIOD_LOW => {
                self.pulse_generator_ch2.set_period_low(value);
            },
            HWREG_NR24_CHANNEL2_PERIOD_HIGH_CONTROL => {
                self.pulse_generator_ch2.set_period_high_control(value);
            },
            _ => {},
        }
    }

    /// Writes a register of CH3 (NR30-NR34).
    fn write_sample_register(&mut self, address: usize, value: u8)
        requires
            old(self).wf(),
            HWREG_NR30_CHANNEL3_DAC_ENABLE <= address <= HWREG_NR33_CHANNEL3_PERIOD_HIGH_CONTROL,
        ensures
            final(self).wf(),
            *final(self) == old(self).spec_write_register(address, value),
    {
        match address {
            HWREG_NR30_CHANNEL3_DAC_ENABLE => {
                self.sample_generator.set_dac_enable(value);
            },
            HWREG_NR31_CHANNEL3_LENGTH_TIMER => {
                self.sample_generator.set_length_timer(value);
            },
            HWREG_NR32_CHANNEL3_OUTPUT_LEVEL => {
                self.sample_generator.set_output_level(value);
            },
            HWREG_NR33_CHANNEL3_PERIOD_LOW => {
                self.sample_generator.set_period_low(value);
            },
            HWREG_NR33_CHANNEL3_PERIOD_HIGH_CONTROL => {
                self.sample_generator.set_period_high_control(value);
            },
            _ => {},
        }
    }

    /// Writes a register of CH4 (NR41-NR44).
    fn write_noise_register(&mut self, address: usize, value: u8)
        requires
            old(self).wf(),
            HWREG_NR41_CHANNEL4_LENGTH_TIMER <= address <= HWREG_NR44_CHANNEL4_CONTROL,
        ensures
            final(self).wf(),
            *final(self) == old(self).spec_write_register(address, value),
    {
        match address {
            HWREG_NR41_CHANNEL4_LENGTH_TIMER => {
                self.noise_generator.set_length_timer(value);
            },
            HWREG_NR42_CHANNEL4_VOLUME_ENVELOPE => {
                self.noise_generator.set_volume_envelope(value);
            },
            HWREG_NR43_CHANNEL4_FREQUENCY_RANDOMNESS => {
                self.noise_generator.set_frequency_randomness(value);
            },
            HWREG_NR44_CHANNEL4_CONTROL => {
                self.noise_generator.set_control(value);
            },

            _ => {},
        }
    }

    /// Writes NR50: left volume in bits 6-4, right volume in bits 2-0, VIN in bits 7 and 3.
    fn write_master_volume(&mut self, value: u8)
        requires
            old(self).wf(),
        ensures
            final(self).wf(),
            *final(self) == old(self).spec_write_register(HWREG_NR50_MASTER_VOLUME_VIN_PANNING, value),
    {
        self.vin[0] = (value & 0x80) != 0;
        self.vin[1] = (value & 0x08) != 0;
        self.master_volume[0] = (value >> 4) & 0x7;
        self.master_volume[1] = (value >> 0) & 0x7;
    }

    /// Writes NR52: sound on in bit 7, channel enables in bits 3-0.
    #[verifier::rlimit(100)]
    fn write_master_control(&mut self, value: u8)
        requires
            old(self).wf(),
        ensures
            final(self).wf(),
            *final(self) == old(self).spec_write_master_control(value),
    {
        self.audio_on = (value & 0x80) != 0;
        // read-only on the hardware; writable here so that channels can be muted one by one
        self.pulse_generator_ch1.set_enable((value & 0x1) != 0);
        self.pulse_generator_ch2.set_enable((value & 0x2) != 0);
        self.sample_generator.set_enable((value & 0x4) != 0);
        self.noise_generator.set_enable((value & 0x8) != 0);
    }

    /// Writes NR51 into the channel placements.
    fn write_panning(&mut self, value: u8)
        requires
            old(self).wf(),
        ensures
            final(self).wf(),
            *final(self) == old(self).spec_write_register(HWREG_NR51_SOUND_PANNING, value),
    {
        let ghost pans0 = self.ch_pan;
        let mut ch: usize = 0;
        while ch < 4
            invariant
                0 <= ch <= 4,
                self.wf(),
                *self == (APU { ch_pan: self.ch_pan, ..*old(self) }),
                forall|i: int| 0 <= i < ch ==> self.ch_pan@[i] == spec_pan_of(value, i),
                forall|i: int| ch <= i < 4 ==> self.ch_pan@[i] == pans0@[i],
            decreases 4 - ch,
        {
            let left = ((value >> ch) & 0x01) != 0;
            let right = ((value >> ch) & 0x10) != 0;
            self.ch_pan[ch] = if left && right {
                Pan::Center
            } else if left && !right {
                Pan::Left
            } else if !left && right {
                Pan::Right
            } else {
                Pan::Ignore
            };
            assert(self.ch_pan@[ch as int] == spec_pan_of(value, ch as int));
            ch += 1;
        }
        proof {
            let target = old(self).spec_write_register(HWREG_NR51_SOUND_PANNING, value).ch_pan;
            assert(self.ch_pan@ =~= target@);
            assert(self.ch_pan =~= target);
        }
    }

    /// Reads NR51.
    fn read_panning(&self) -> (r: u8)
        ensures
            r == spec_nr51_prefix(self.ch_pan@, 4),
    {
        nr51_of(&self.ch_pan)
    }
}

/// The placement NR51 = `value` gives channel `ch`.
pub(crate) fn pan_of(value: u8, ch: usize) -> (r: Pan)
    requires
        ch < 4,
    ensures
        r == spec_pan_of(value, ch as int),
{
    let left = ((value >> ch) & 0x01) != 0;
    let right = ((value >> ch) & 0x10) != 0;
    if left && right {
        Pan::Center
    } else if left && !right {
        Pan::Left
    } else if !left && right {
        Pan::Right
    } else {
        Pan::Ignore
    }
}

/// NR51 as reported for the placements `pans`.
pub(crate) fn nr51_of(pans: &[Pan; 4]) -> (r: u8)
    ensures
        r == spec_nr51_prefix(pans@, 4),
{
    let mut ret: u8 = 0;
    let mut ch: usize = 0;
    while ch < 4
        invariant
            0 <= ch <= 4,
            ret == spec_nr51_prefix(pans@, ch as int),
        decreases 4 - ch,
    {
        let left: u8 = 0x01 << ch;
        let right: u8 = 0x10 << ch;
        match pans[ch] {
            Pan::Center => {
                ret |= left;
                ret |= right;
            },
            Pan::Left => {
                ret |= left;
            },
            Pan::Right => {
                ret |= right;
            },
            Pan::Ignore => {},
        }
        ch += 1;
    }
    ret
}

impl APUDevice for APU {
    open spec fn inv(&self) -> bool {
        self.wf()
    }

    /// Creates a silent unit with every channel placed in the center.
    fn new() -> (r: Self)
        ensures
            r.wf(),
            r.spec_is_power_on(),
    {
        let r = Self {
            audio_on: false,
            master_volume: [0u8; 2],
            vin: [false; 2],
            ch_pan: [Pan::Center; 4],
            ch_out: [0; 4],
            sample_generator: SampleGenerator::new(),
            pulse_generator_ch1: PulseGenerator::new(),
            pulse_generator_ch2: PulseGenerator::new(),
            noise_generator: NoiseGenerator::new(),
            clock_count: 0,
        };
        assert(r.ch_pan@ =~= seq![Pan::Center, Pan::Center, Pan::Center, Pan::Center]);
        assert(r.master_volume@ =~= seq![0u8, 0u8]);
        assert(r.vin@ =~= seq![false, false]);
        assert(r.ch_out@ =~= seq![0u8, 0u8, 0u8, 0u8]);
        r
    }

    /// Writes a sound register; other addresses are ignored.
    #[verifier::rlimit(100)]
    fn write_register(&mut self, address: usize, value: u8)
        ensures
            final(self).wf(),
            *final(self) == old(self).spec_write_register(address, value),
    {
        match address {
            HWREG_NR10_CHANNEL1_SWEEP..=HWREG_NR14_CHANNEL1_PERIOD_HIGH_CONTROL => {
                self.write_pulse1_register(address, value);
            },
            HWREG_NR21_CHANNEL2_LENGTH_TIMER_DURY_CYCLE..=HWREG_NR24_CHANNEL2_PERIOD_HIGH_CONTROL => {
                self.write_pulse2_register(address, value);
            },
            HWREG_NR30_CHANNEL3_DAC_ENABLE..=HWREG_NR33_CHANNEL3_PERIOD_HIGH_CONTROL => {
                self.write_sample_register(address, value);
            },
            HWREG_NR41_CHANNEL4_LENGTH_TIMER..=HWREG_NR44_CHANNEL4_CONTROL => {
                self.write_noise_register(address, value);
            },
            HWREG_NR50_MASTER_VOLUME_VIN_PANNING => {
                self.write_master_volume(value);
            },
            HWREG_NR51_SOUND_PANNING => {
                self.write_panning(value);
            },
            HWREG_NR52_AUDIO_MASTER_CONTROL => {
                self.write_master_control(value);
            },
            HWREG_CHANNEL3_WAVE_PATTERN_RAM_START..=HWREG_CHANNEL3_WAVE_PATTERN_RAM_END => {
                self.sample_generator.set_wave_ram(address, value);
            },
            _ => {
                // other addresses, the digital outputs among them, ignore writes
            },
        }
    }

    /// Reads a sound register; other addresses read 0.
    #[verifier::rlimit(100)]
    fn read_register(&mut self, address: usize) -> (r: u8)
        ensures
            final(self).wf(),
            *final(self) == *old(self),
            r == old(self).spec_read_register(address),
    {
        match address {
            HWREG_NR10_CHANNEL1_SWEEP => self.pulse_generator_ch1.get_sweep(),
            HWREG_NR11_CHANNEL1_LENGTH_TIMER_DURY_CYCLE => {
                self.pulse_generator_ch1.get_length_timer_duty_cycle()
            },
            HWREG_NR12_CHANNEL1_VOLUME_ENVELOPE => self.pulse_generator_ch1.get_volume_envelope(),
            HWREG_NR13_CHANNEL1_PERIOD_LOW => self.pulse_generator_ch1.get_period_low(),
            HWREG_NR14_CHANNEL1_PERIOD_HIGH_CONTROL => {
                self.pulse_generator_ch1.get_period_high_control()
            },
            HWREG_NR21_CHANNEL2_LENGTH_TIMER_DURY_CYCLE => {
                self.pulse_generator_ch2.get_length_timer_duty_cycle()
            },
            HWREG_NR22_CHANNEL2_VOLUME_ENVELOPE => self.pulse_generator_ch2.get_volume_envelope(),
            HWREG_NR23_CHANNEL2_PERIOD_LOW => self.pulse_generator_ch2.get_period_low(),
            HWREG_NR24_CHANNEL2_PERIOD_HIGH_CONTROL => {
                self.pulse_generator_ch2.get_period_high_control()
            },
            HWREG_NR30_CHANNEL3_DAC_ENABLE => self.sample_generator.get_dac_enable(),
            HWREG_NR31_CHANNEL3_LENGTH_TIMER => self.sample_generator.get_length_timer(),
            HWREG_NR32_CHANNEL3_OUTPUT_LEVEL => self.sample_generator.get_output_level(),
            HWREG_NR33_CHANNEL3_PERIOD_LOW => self.sample_generator.get_period_low(),
            HWREG_NR33_CHANNEL3_PERIOD_HIGH_CONTROL => {
                self.sample_generator.get_period_high_control()
            },
            HWREG_NR41_CHANNEL4_LENGTH_TIMER => self.noise_generator.get_length_timer(),
            HWREG_NR42_CHANNEL4_VOLUME_ENVELOPE => self.noise_generator.get_volume_envelope(),
            HWREG_NR43_CHANNEL4_FREQUENCY_RANDOMNESS => {
                self.noise_generator.get_frequency_randomness()
            },
            HWREG_NR44_CHANNEL4_CONTROL => self.noise_generator.get_control(),
            HWREG_NR50_MASTER_VOLUME_VIN_PANNING => {
                let mut ret: u8 = 0;
                if self.vin[0] {
                    ret |= 0x80;
                }
                if self.vin[1] {
                    ret |= 0x08;
                }
                ret |= self.master_volume[0] << 4;
                ret |= self.master_volume[1] << 0;
                proof {
                    let a: u8 = if self.vin@[0] { 0x80u8 } else { 0u8 };
                    let b: u8 = if self.vin@[1] { 0x08u8 } else { 0u8 };
                    lemma_or_zero_steps(a, b);
                }
                ret
            },
            HWREG_NR51_SOUND_PANNING => self.read_panning(),
            HWREG_NR52_AUDIO_MASTER_CONTROL => {
                let mut ret: u8 = 0;
                ret |= if self.audio_on { 0x80 } else { 0 };
                ret |= if self.pulse_generator_ch1.enable { 0x01 } else { 0 };
                ret |= if self.pulse_generator_ch2.enable { 0x02 } else { 0 };
                ret |= if self.sample_generator.enable { 0x04 } else { 0 };
                ret |= if self.noise_generator.enable { 0x08 } else { 0 };
                proof {
                    let a: u8 = if self.audio_on { 0x80u8 } else { 0u8 };
                    lemma_or_zero_steps(a, 0);
                }
                ret
            },
            HWREG_CHANNEL3_WAVE_PATTERN_RAM_START..=HWREG_CHANNEL3_WAVE_PATTERN_RAM_END => {
                self.sample_generator.get_wave_ram(address)
            },
            HWREG_PCM12_AUDIO_DIGITAL_OUTPUTS_12 => (self.ch_out[1] << 4) | (self.ch_out[0] << 0),
            HWREG_PCM34_AUDIO_DIGITAL_OUTPUTS_34 => (self.ch_out[3] << 4) | (self.ch_out[2] << 0),
            _ => 0,
        }
    }

    /// Advances the unit by one 2 MHz tick.
    #[verifier::rlimit(100)]
    fn clock_tick_2mhz(&mut self)
        ensures
            final(self).wf(),
            *final(self) == old(self).spec_clock_tick_2mhz(),
    {
        self.clock_count = self.clock_count.wrapping_add(1);

        if self.clock_count % 2 == 0 {
            if let Some(out) = self.pulse_generator_ch1.clock_tick_1mhz() {
                self.ch_out[0] = out;
            }
            if let Some(out) = self.pulse_generator_ch2.clock_tick_1mhz() {
                self.ch_out[1] = out;
            }
        }
        if let Some(out) = self.sample_generator.clock_tick_2mhz() {
            self.ch_out[2] = out;
        }
        if self.clock_count % 8 == 0 {
            if let Some(out) = self.noise_generator.clock_tick_256khz() {
                self.ch_out[3] = out;
            }
        }
    }
}

/// Or-ing a byte into zero and then into a partial value.
proof fn lemma_or_zero_steps(a: u8, b: u8)
    by (bit_vector)
    ensures
        0u8 | a == a,
        (0u8 | a) | b == a | b,
        a | 0u8 == a,
{
}

/// The bits of channel `c` in NR51 decide its placement.
proof fn lemma_nr51_channel_bits(v: u8, c: u8)
    by (bit_vector)
    requires
        c < 4,
    ensures
        ((v >> c) & 0x01) != 0 ==> v & (0x01u8 << c) == (0x01u8 << c),
        ((v >> c) & 0x01) == 0 ==> v & (0x01u8 << c) == 0,
        ((v >> c) & 0x10) != 0 ==> v & (0x10u8 << c) == (0x10u8 << c),
        ((v >> c) & 0x10) == 0 ==> v & (0x10u8 << c) == 0,
{
}

/// NR51 as reported after channel `c` is placed by bits `c` and `c + 4` of `v`.
proof fn lemma_nr51_with_pan_of(ret: u8, v: u8, c: u8)
    requires
        c < 4,
    ensures
        spec_nr51_with(ret, spec_pan_of(v, c as int), c as int) == (ret | (v & (0x01u8 << c)))
            | (v & (0x10u8 << c)),
{
    lemma_nr51_channel_bits(v, c);
    let l = 0x01u8 << c;
    let r = 0x10u8 << c;
    lemma_or_zero_steps(ret, l);
    lemma_or_zero_steps(ret, r);
    lemma_or_zero_steps(ret | l, 0);
}

/// The four channel fields of NR51 make up the whole byte.
proof fn lemma_nr51_fields(v: u8)
    by (bit_vector)
    ensures
        (((((((((0u8 | (v & (0x01u8 << 0u8))) | (v & (0x10u8 << 0u8))) | (v & (0x01u8 << 1u8)))
            | (v & (0x10u8 << 1u8))) | (v & (0x01u8 << 2u8))) | (v & (0x10u8 << 2u8))) | (v & (
        0x01u8 << 3u8))) | (v & (0x10u8 << 3u8)))) == v,
{
}

/// NR50 and NR52 as fields.
proof fn lemma_master_fields(v: u8)
    by (bit_vector)
    ensures
        (((if (v & 0x80) != 0 { 0x80u8 } else { 0u8 }) | (if (v & 0x08) != 0 {
            0x08u8
        } else {
            0u8
        })) | ((((v >> 4) & 0x7) << 4) as u8)) | (((v >> 0) & 0x7) << 0) == v,
        (if (v & 0x80) != 0 { 0x80u8 } else { 0u8 }) | (if (v & 0x1) != 0 {
            0x01u8
        } else {
            0u8
        }) | (if (v & 0x2) != 0 { 0x02u8 } else { 0u8 }) | (if (v & 0x4) != 0 {
            0x04u8
        } else {
            0u8
        }) | (if (v & 0x8) != 0 { 0x08u8 } else { 0u8 }) == v & 0x8F,
{
}

/// Reading a sound register gives back the value last written to it,
/// restricted to the bits the register keeps: NR10 bits 6-0; NR11, NR21,
/// NR12, NR13, NR22, NR23, NR31,
/// NR33, NR42, NR43, NR50 and NR51 all bits; NR14, NR24 and NR34 bits 7, 6
/// and 2-0; NR30 bit 7; NR32 bits 6-5; NR41 bits 5-0; NR44 bits 7-6; NR52
/// bits 7 and 3-0.
pub proof fn lemma_apu_register_readback(apu: APU, v: u8)
    requires
        apu.wf(),
    ensures
        apu.spec_write_register(HWREG_NR10_CHANNEL1_SWEEP, v).spec_read_register(
            HWREG_NR10_CHANNEL1_SWEEP,
        ) == v & 0x7F,
        apu.spec_write_register(
            HWREG_NR11_CHANNEL1_LENGTH_TIMER_DURY_CYCLE,
            v,
        ).spec_read_register(HWREG_NR11_CHANNEL1_LENGTH_TIMER_DURY_CYCLE) == v,
        apu.spec_write_register(HWREG_NR12_CHANNEL1_VOLUME_ENVELOPE, v).spec_read_register(
            HWREG_NR12_CHANNEL1_VOLUME_ENVELOPE,
        ) == v,
        apu.spec_write_register(HWREG_NR13_CHANNEL1_PERIOD_LOW, v).spec_read_register(
            HWREG_NR13_CHANNEL1_PERIOD_LOW,
        ) == v,
        apu.spec_write_register(HWREG_NR14_CHANNEL1_PERIOD_HIGH_CONTROL, v).spec_read_register(
            HWREG_NR14_CHANNEL1_PERIOD_HIGH_CONTROL,
        ) == v & 0xC7,
        apu.spec_write_register(
            HWREG_NR21_CHANNEL2_LENGTH_TIMER_DURY_CYCLE,
            v,
        ).spec_read_register(HWREG_NR21_CHANNEL2_LENGTH_TIMER_DURY_CYCLE) == v,
        apu.spec_write_register(HWREG_NR22_CHANNEL2_VOLUME_ENVELOPE, v).spec_read_register(
            HWREG_NR22_CHANNEL2_VOLUME_ENVELOPE,
        ) == v,
        apu.spec_write_register(HWREG_NR23_CHANNEL2_PERIOD_LOW, v).spec_read_register(
            HWREG_NR23_CHANNEL2_PERIOD_LOW,
        ) == v,
        apu.spec_write_register(HWREG_NR24_CHANNEL2_PERIOD_HIGH_CONTROL, v).spec_read_register(
            HWREG_NR24_CHANNEL2_PERIOD_HIGH_CONTROL,
        ) == v & 0xC7,
        apu.spec_write_register(HWREG_NR30_CHANNEL3_DAC_ENABLE, v).spec_read_register(
            HWREG_NR30_CHANNEL3_DAC_ENABLE,
        ) == v & 0x80,
        apu.spec_write_register(HWREG_NR31_CHANNEL3_LENGTH_TIMER, v).spec_read_register(
            HWREG_NR31_CHANNEL3_LENGTH_TIMER,
        ) == v,
        apu.spec_write_register(HWREG_NR32_CHANNEL3_OUTPUT_LEVEL, v).spec_read_register(
            HWREG_NR32_CHANNEL3_OUTPUT_LEVEL,
        ) == v & 0x60,
        apu.spec_write_register(HWREG_NR33_CHANNEL3_PERIOD_LOW, v).spec_read_register(
            HWREG_NR33_CHANNEL3_PERIOD_LOW,
        ) == v,
        apu.spec_write_register(HWREG_NR33_CHANNEL3_PERIOD_HIGH_CONTROL, v).spec_read_register(
            HWREG_NR33_CHANNEL3_PERIOD_HIGH_CONTROL,
        ) == v & 0xC7,
        apu.spec_write_register(HWREG_NR41_CHANNEL4_LENGTH_TIMER, v).spec_read_register(
            HWREG_NR41_CHANNEL4_LENGTH_TIMER,
        ) == v & 0x3F,
        apu.spec_write_register(HWREG_NR42_CHANNEL4_VOLUME_ENVELOPE, v).spec_read_register(
            HWREG_NR42_CHANNEL4_VOLUME_ENVELOPE,
        ) == v,
        apu.spec_write_register(HWREG_NR43_CHANNEL4_FREQUENCY_RANDOMNESS, v).spec_read_register(
            HWREG_NR43_CHANNEL4_FREQUENCY_RANDOMNESS,
        ) == v,
        apu.spec_write_register(HWREG_NR44_CHANNEL4_CONTROL, v).spec_read_register(
            HWREG_NR44_CHANNEL4_CONTROL,
        ) == v & 0xC0,
        apu.spec_write_register(HWREG_NR50_MASTER_VOLUME_VIN_PANNING, v).spec_read_register(
            HWREG_NR50_MASTER_VOLUME_VIN_PANNING,
        ) == v,
        apu.spec_write_register(HWREG_NR51_SOUND_PANNING, v).spec_read_register(
            HWREG_NR51_SOUND_PANNING,
        ) == v,
        apu.spec_write_register(HWREG_NR52_AUDIO_MASTER_CONTROL, v).spec_read_register(
            HWREG_NR52_AUDIO_MASTER_CONTROL,
        ) == v & 0x8F,
{
    lemma_pulse_register_readback(apu.pulse_generator_ch1, v);
    lemma_pulse_register_readback(apu.pulse_generator_ch2, v);
    lemma_sample_register_readback(apu.sample_generator, v, HWREG_NR30_CHANNEL3_DAC_ENABLE);
    lemma_noise_register_readback(apu.noise_generator, v);
    lemma_master_fields(v);
    let a = apu.spec_write_register(HWREG_NR51_SOUND_PANNING, v);
    let pans = a.ch_pan@;
    lemma_nr51_with_pan_of(0, v, 0);
    let r0 = (0u8 | (v & (0x01u8 << 0u8))) | (v & (0x10u8 << 0u8));
    lemma_nr51_with_pan_of(r0, v, 1);
    let r1 = (r0 | (v & (0x01u8 << 1u8))) | (v & (0x10u8 << 1u8));
    lemma_nr51_with_pan_of(r1, v, 2);
    let r2 = (r1 | (v & (0x01u8 << 2u8))) | (v & (0x10u8 << 2u8));
    lemma_nr51_with_pan_of(r2, v, 3);
    lemma_nr51_fields(v);
    assert(pans[0] == spec_pan_of(v, 0));
    assert(pans[1] == spec_pan_of(v, 1));
    assert(pans[2] == spec_pan_of(v, 2));
    assert(pans[3] == spec_pan_of(v, 3));
    reveal_with_fuel(spec_nr51_prefix, 5);
}


/// A write to another address leaves what a register of CH1 (NR10-NR14) reads.
#[verifier::rlimit(100)]
proof fn lemma_write_keeps_pulse1_registers(apu: APU, a: usize, b: usize, v: u8)
    requires
        HWREG_NR10_CHANNEL1_SWEEP <= a <= HWREG_NR14_CHANNEL1_PERIOD_HIGH_CONTROL,
        a != b,
    ensures
        apu.spec_write_register(b, v).spec_read_register(a) == apu.spec_read_register(a),
{
    let p = apu.pulse_generator_ch1.period;
    assert(((((v & 0x7) as u16) << 8) | (p & 0x00FF)) & 0x00FF == p & 0x00FF) by (bit_vector);
    assert(((((p & 0xFF00) | (v as u16)) >> 8) & 0x7) == (p >> 8) & 0x7) by (bit_vector);
}

/// A write to another address leaves what a register of CH2 (NR21-NR24) reads.
#[verifier::rlimit(100)]
proof fn lemma_write_keeps_pulse2_registers(apu: APU, a: usize, b: usize, v: u8)
    requires
        HWREG_NR21_CHANNEL2_LENGTH_TIMER_DURY_CYCLE <= a <= HWREG_NR24_CHANNEL2_PERIOD_HIGH_CONTROL,
        a != b,
    ensures
        apu.spec_write_register(b, v).spec_read_register(a) == apu.spec_read_register(a),
{
    let p = apu.pulse_generator_ch2.period;
    assert(((((v & 0x7) as u16) << 8) | (p & 0x00FF)) & 0x00FF == p & 0x00FF) by (bit_vector);
    assert(((((p & 0xFF00) | (v as u16)) >> 8) & 0x7) == (p >> 8) & 0x7) by (bit_vector);
}

/// A write to another address leaves what a register of CH3 (NR30-NR34) reads.
#[verifier::rlimit(100)]
proof fn lemma_write_keeps_sample_registers(apu: APU, a: usize, b: usize, v: u8)
    requires
        HWREG_NR30_CHANNEL3_DAC_ENABLE <= a <= HWREG_NR33_CHANNEL3_PERIOD_HIGH_CONTROL,
        a != b,
    ensures
        apu.spec_write_register(b, v).spec_read_register(a) == apu.spec_read_register(a),
{
    let p = apu.sample_generator.period;
    assert(((((v & 0x7) as u16) << 8) | (p & 0x00FF)) & 0x00FF == p & 0x00FF) by (bit_vector);
    assert(((((p & 0xFF00) | (v as u16)) >> 8) & 0x7) == (p >> 8) & 0x7) by (bit_vector);
}

/// A write to another address leaves what a register of CH4 (NR41-NR44) reads.
#[verifier::rlimit(100)]
proof fn lemma_write_keeps_noise_registers(apu: APU, a: usize, b: usize, v: u8)
    requires
        HWREG_NR41_CHANNEL4_LENGTH_TIMER <= a <= HWREG_NR44_CHANNEL4_CONTROL,
        a != b,
    ensures
        apu.spec_write_register(b, v).spec_read_register(a) == apu.spec_read_register(a),
{
}

/// A write to another address leaves what a register of NR50 and NR51 reads.
#[verifier::rlimit(100)]
proof fn lemma_write_keeps_master_registers(apu: APU, a: usize, b: usize, v: u8)
    requires
        HWREG_NR50_MASTER_VOLUME_VIN_PANNING <= a <= HWREG_NR51_SOUND_PANNING,
        a != b,
    ensures
        apu.spec_write_register(b, v).spec_read_register(a) == apu.spec_read_register(a),
{
}

/// Writing a register leaves what every other register of NR10-NR51 reads:
/// a register reads back its last write whatever other writes follow.
pub proof fn lemma_write_keeps_other_registers(apu: APU, a: usize, b: usize, v: u8)
    requires
        HWREG_NR10_CHANNEL1_SWEEP <= a <= HWREG_NR51_SOUND_PANNING,
        a != b,
    ensures
        apu.spec_write_register(b, v).spec_read_register(a) == apu.spec_read_register(a),
{
    if a <= HWREG_NR14_CHANNEL1_PERIOD_HIGH_CONTROL {
        lemma_write_keeps_pulse1_registers(apu, a, b, v);
    } else if a < HWREG_NR21_CHANNEL2_LENGTH_TIMER_DURY_CYCLE {
    } else if a <= HWREG_NR24_CHANNEL2_PERIOD_HIGH_CONTROL {
        lemma_write_keeps_pulse2_registers(apu, a, b, v);
    } else if a <= HWREG_NR33_CHANNEL3_PERIOD_HIGH_CONTROL {
        lemma_write_keeps_sample_registers(apu, a, b, v);
    } else if a < HWREG_NR41_CHANNEL4_LENGTH_TIMER {
    } else if a <= HWREG_NR44_CHANNEL4_CONTROL {
        lemma_write_keeps_noise_registers(apu, a, b, v);
    } else {
        lemma_write_keeps_master_registers(apu, a, b, v);
    }
}

} // verus!
