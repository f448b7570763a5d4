//! The four sound generators of the audio unit and the timers they share.
//!
//! Every generator keeps its register fields in the form the registers
//! are written in; the `spec_*` functions state what each operation does
//! to a generator, and the public methods are proved to do exactly that.
use vstd::prelude::*;
use crate::types::{
    APU_ENVELOPE_SWEEP_HZ, APU_SOUND_LENGTH_HZ, DutyRatio, SweepDirection,
    HWREG_CHANNEL3_WAVE_PATTERN_RAM_START,
};

verus! {

/// Operating clock of the pulse generators (Hz).
pub const PULSE_GENERATOR_CLOCK_HZ: u32 = 1048576;

/// Operating clock of the sample generator (Hz).
pub const SAMPLE_GENERATOR_CLOCK_HZ: u32 = 2097152;

/// Operating clock of the noise generator (Hz).
pub const NOISE_GENERATOR_CLOCK_HZ: u32 = 262144;

/// Unit rate of the period sweep (Hz).
pub const SWEEP_UPDATE_PERIOD_UNIT_HZ: u32 = 128;

/// The value `x + y` wraps to in 16 bits.
pub open spec fn wrap_add_u16(x: u16, y: u16) -> u16 {
    if x + y > 0xFFFF { (x + y - 0x10000) as u16 } else { (x + y) as u16 }
}

/// The value `x - y` wraps to in 16 bits.
pub open spec fn wrap_sub_u16(x: u16, y: u16) -> u16 {
    if x < y { (x - y + 0x10000) as u16 } else { (x - y) as u16 }
}

/// The value `x + 1` wraps to in 32 bits.
pub open spec fn wrap_inc_u32(x: u32) -> u32 {
    if x == 0xFFFF_FFFF { 0 } else { (x + 1) as u32 }
}

// ---------------------------------------------------------------------------
// Length timer
// ---------------------------------------------------------------------------

/// Length timer of a sound channel: counts up from its initial value
/// at 256 Hz and expires once it reaches its timeout.
#[derive(Debug)]
pub struct LengthTimer {
    /// Whether the timer counts.
    pub enable: bool,
    /// Whether the timer has run out.
    pub expired: bool,
    /// Initial value loaded on a trigger.
    pub initial_length_timer: u8,
    /// Current count.
    pub length_timer: u16,
    /// Count at which the timer expires.
    pub timeout: u16,
    /// Clock ticks since the last count.
    pub clock_count: u32,
    /// Clock ticks per count.
    pub update_period: u32,
}

impl LengthTimer {
    /// The internal invariant: counting never overflows.
    pub open spec fn wf(&self) -> bool {
        &&& !self.expired ==> self.length_timer < 0xFFFF
        &&& self.update_period > 0 ==> self.clock_count < self.update_period
        &&& self.update_period == 0 ==> self.clock_count <= self.length_timer
    }

    /// The timer after `set_length_timer`.
    pub open spec fn spec_set_length_timer(self, initial_timer: u8, timeout: u16) -> Self {
        LengthTimer { initial_length_timer: initial_timer, timeout, ..self }
    }

    /// The timer after a trigger.
    pub open spec fn spec_process_trigger(self) -> Self {
        LengthTimer {
            length_timer: self.initial_length_timer as u16,
            expired: false,
            clock_count: 0,
            ..self
        }
    }

    /// The timer after one clock tick.
    pub open spec fn spec_clock_tick(self) -> Self {
        if self.enable && !self.expired {
            let count = self.clock_count + 1;
            if count >= self.update_period {
                let len = self.length_timer + 1;
                LengthTimer {
                    length_timer: len as u16,
                    expired: len >= self.timeout,
                    clock_count: (count - self.update_period) as u32,
                    ..self
                }
            } else {
                LengthTimer { clock_count: count as u32, ..self }
            }
        } else {
            self
        }
    }

    /// The timer after `k` clock ticks.
    pub open spec fn spec_ticks(self, k: nat) -> Self
        decreases k,
    {
        if k == 0 {
            self
        } else {
            self.spec_ticks((k - 1) as nat).spec_clock_tick()
        }
    }

    /// The timer `new` creates.
    pub open spec fn spec_new(clock_tick_hz: u32) -> Self {
        LengthTimer {
            enable: false,
            expired: true,
            initial_length_timer: 0,
            length_timer: 0,
            timeout: 0,
            clock_count: 0,
            update_period: clock_tick_hz / APU_SOUND_LENGTH_HZ,
        }
    }

    /// Creates a stopped, expired timer that counts once every
    /// `clock_tick_hz / 256` ticks.
    pub fn new(clock_tick_hz: u32) -> (r: Self)
        requires
            clock_tick_hz % APU_SOUND_LENGTH_HZ == 0,
        ensures
            r.wf(),
            r == LengthTimer::spec_new(clock_tick_hz),
    {
        Self {
            enable: false,
            expired: true,
            initial_length_timer: 0,
            length_timer: 0,
            timeout: 0,
            clock_count: 0,
            update_period: clock_tick_hz / APU_SOUND_LENGTH_HZ,
        }
    }

    /// Sets the initial value and the timeout.
    pub fn set_length_timer(&mut self, initial_timer: u8, timeout: u16)
        requires
            old(self).wf(),
        ensures
            final(self).wf(),
            *final(self) == old(self).spec_set_length_timer(initial_timer, timeout),
    {
        self.initial_length_timer = initial_timer;
        self.timeout = timeout;
    }

    /// Sets whether the timer counts.
    pub fn set_enable(&mut self, flag: bool)
        requires
            old(self).wf(),
        ensures
            final(self).wf(),
            *final(self) == (LengthTimer { enable: flag, ..*old(self) }),
    {
        self.enable = flag;
    }

    /// Whether the timer counts.
    pub fn get_enable(&self) -> (r: bool)
        ensures
            r == self.enable,
    {
        self.enable
    }

    /// The initial value.
    pub fn get_initial_length_timer(&self) -> (r: u8)
        ensures
            r == self.initial_length_timer,
    {
        self.initial_length_timer
    }

    /// Restarts the timer from its initial value.
    pub fn process_trigger(&mut self)
        requires
            old(self).wf(),
        ensures
            final(self).wf(),
            *final(self) == old(self).spec_process_trigger(),
    {
        self.length_timer = self.initial_length_timer as u16;
        self.expired = false;
        self.clock_count = 0;
    }

    /// Advances the timer by one clock tick.
    pub fn clock_tick(&mut self)
        requires
            old(self).wf(),
        ensures
            final(self).wf(),
            *final(self) == old(self).spec_clock_tick(),
    {
        if self.enable && !self.expired {
            self.clock_count += 1;
            if self.clock_count >= self.update_period {
                self.length_timer += 1;
                if self.length_timer >= self.timeout {
                    self.expired = true;
                }
                self.clock_count -= self.update_period;
            }
        }
    }
}

// ---------------------------------------------------------------------------
// Envelope generator
// ---------------------------------------------------------------------------

/// Volume envelope: steps the volume up or down by one, between 0 and 15,
/// every `pace` 64 Hz periods.
#[derive(Debug)]
pub struct EnvelopeGenerator {
    /// Current volume (0..=15).
    pub volume: i8,
    /// Direction written to the register (true: up).
    pub volume_delta_dir: bool,
    /// Step applied on each update (-1, 0 or 1).
    pub volume_delta: i8,
    /// Volume loaded on a trigger.
    pub initial_volume: i8,
    /// Sweep pace (0..=7).
    pub volume_sweep_pace: u8,
    /// Clock ticks between two updates; 0 stops the envelope.
    pub volume_update_period: u32,
    /// Clock ticks since the last update.
    pub clock_count: u32,
    /// Clock ticks per 64 Hz period.
    pub update_period: u32,
}

impl EnvelopeGenerator {
    /// The internal invariant: volumes stay in 0..=15 and counting never overflows.
    pub open spec fn wf(&self) -> bool {
        &&& 0 <= self.volume <= 15
        &&& 0 <= self.initial_volume <= 15
        &&& -1 <= self.volume_delta <= 1
        &&& self.volume_sweep_pace <= 7
        &&& self.update_period <= 0x1000_0000
        &&& self.volume_update_period > 0 ==> self.clock_count < self.volume_update_period
        &&& self.volume_update_period == 0 ==> self.clock_count == 0
    }

    /// The value of the volume envelope register (NR12, NR22, NR42) this generator holds.
    pub open spec fn spec_volume_envelope(&self) -> u8 {
        ((self.initial_volume as u8) << 4) | (if self.volume_delta_dir { 8u8 } else { 0u8 })
            | (self.volume_sweep_pace & 0x7)
    }

    /// The generator after the volume envelope register is written.
    pub open spec fn spec_set_volume_envelope(self, value: u8) -> Self {
        EnvelopeGenerator {
            initial_volume: ((value >> 4) & 0xF) as i8,
            volume_delta_dir: (value & 0x8) != 0,
            volume_sweep_pace: value & 0x7,
            ..self
        }
    }

    /// The generator after a trigger.
    pub open spec fn spec_process_trigger(self) -> Self {
        EnvelopeGenerator {
            clock_count: 0,
            volume: self.initial_volume,
            volume_update_period: (self.volume_sweep_pace as u32 * self.update_period) as u32,
            volume_delta: if self.volume_delta_dir { 1i8 } else { -1i8 },
            ..self
        }
    }

    /// The generator after one clock tick.
    pub open spec fn spec_clock_tick(self) -> Self {
        if self.volume_update_period > 0 {
            let count = self.clock_count + 1;
            if count >= self.volume_update_period {
                let v = self.volume + self.volume_delta;
                EnvelopeGenerator {
                    volume: (if v < 0 { 0 } else if v > 15 { 15 } else { v }) as i8,
                    clock_count: (count - self.volume_update_period) as u32,
                    ..self
                }
            } else {
                EnvelopeGenerator { clock_count: count as u32, ..self }
            }
        } else {
            self
        }
    }

    /// The generator after `k` clock ticks.
    pub open spec fn spec_ticks(self, k: nat) -> Self
        decreases k,
    {
        if k == 0 {
            self
        } else {
            self.spec_ticks((k - 1) as nat).spec_clock_tick()
        }
    }

    /// The generator `new` creates.
    pub open spec fn spec_new(clock_tick_hz: u32) -> Self {
        EnvelopeGenerator {
            volume: 0,
            volume_delta_dir: false,
            volume_delta: 0,
            initial_volume: 0,
            volume_sweep_pace: 0,
            volume_update_period: 0,
            clock_count: 0,
            update_period: clock_tick_hz / APU_ENVELOPE_SWEEP_HZ,
        }
    }

    /// Creates a silent generator whose 64 Hz period is `clock_tick_hz / 64` ticks.
    pub fn new(clock_tick_hz: u32) -> (r: Self)
        requires
            clock_tick_hz % APU_ENVELOPE_SWEEP_HZ == 0,
        ensures
            r.wf(),
            r == EnvelopeGenerator::spec_new(clock_tick_hz),
    {
        Self {
            volume: 0,
            volume_delta_dir: false,
            volume_delta: 0,
            initial_volume: 0,
            volume_sweep_pace: 0,
            volume_update_period: 0,
            clock_count: 0,
            update_period: clock_tick_hz / APU_ENVELOPE_SWEEP_HZ,
        }
    }

    /// Writes the volume envelope register: initial volume in bits 7-4,
    /// direction in bit 3, pace in bits 2-0.
    pub fn set_volume_envelope(&mut self, value: u8)
        requires
            old(self).wf(),
        ensures
            final(self).wf(),
            *final(self) == old(self).spec_set_volume_envelope(value),
    {
        proof {
            lemma_u8_nibbles(value);
        }
        self.initial_volume = ((value >> 4) & 0xF) as i8;
        self.volume_delta_dir = (value & 0x8) != 0;
        self.volume_sweep_pace = value & 0x7;
    }

    /// Reads back the volume envelope register.
    pub fn get_volume_envelope(&self) -> (r: u8)
        requires
            self.wf(),
        ensures
            r == self.spec_volume_envelope(),
    {
        let mut ret: u8 = 0;
        ret |= (self.initial_volume as u8) << 4;
        ret |= if self.volume_delta_dir { 0x8 } else { 0 };
        ret |= self.volume_sweep_pace & 0x7;
        proof {
            let iv = self.initial_volume as u8;
            let d: u8 = if self.volume_delta_dir { 8u8 } else { 0u8 };
            let p = self.volume_sweep_pace & 0x7;
            lemma_zero_or(iv << 4);
        }
        ret
    }

    /// The current volume (0..=15).
    pub fn get_volume(&self) -> (r: u8)
        requires
            self.wf(),
        ensures
            r == self.volume as u8,
            r <= 15,
    {
        self.volume as u8
    }

    /// Restarts the envelope from the initial volume.
    pub fn process_trigger(&mut self)
        requires
            old(self).wf(),
        ensures
            final(self).wf(),
            *final(self) == old(self).spec_process_trigger(),
    {
        self.clock_count = 0;
        self.volume = self.initial_volume;
        proof {
            let p = self.volume_sweep_pace as int;
            let u = self.update_period as int;
            assert(p * u <= 7 * 0x1000_0000) by (nonlinear_arith)
                requires
                    0 <= p <= 7,
                    0 <= u <= 0x1000_0000,
            ;
        }
        self.volume_update_period = (self.volume_sweep_pace as u32) * self.update_period;
        self.volume_delta = if self.volume_delta_dir { 1 } else { -1 };
    }

    /// Advances the envelope by one clock tick.
    pub fn clock_tick(&mut self)
        requires
            old(self).wf(),
        ensures
            final(self).wf(),
            *final(self) == old(self).spec_clock_tick(),
    {
        if self.volume_update_period > 0 {
            self.clock_count += 1;
            if self.clock_count >= self.volume_update_period {
                self.volume += self.volume_delta;
                // clamp to 0..=15
                self.volume = if self.volume < 0 {
                    0
                } else if self.volume > 0xF {
                    0xF
                } else {
                    self.volume
                };
                self.clock_count -= self.volume_update_period;
            }
        }
    }
}

// ---------------------------------------------------------------------------
// Pulse generator
// ---------------------------------------------------------------------------

/// The level (0 or 1) of step `index` (0..=7) of the square wave of a duty ratio.
pub open spec fn spec_pulse_table(duty: DutyRatio, index: int) -> u8 {
    match duty {
        DutyRatio::Duty125 => seq![1u8, 1, 1, 1, 1, 1, 1, 0][index],
        DutyRatio::Duty250 => seq![0u8, 1, 1, 1, 1, 1, 1, 0][index],
        DutyRatio::Duty500 => seq![0u8, 1, 1, 1, 1, 0, 0, 0][index],
        DutyRatio::Duty750 => seq![1u8, 0, 0, 0, 0, 0, 0, 1][index],
    }
}

/// Looks up one step of the square wave of a duty ratio.
fn pulse_table(duty: DutyRatio, index: usize) -> (r: u8)
    requires
        index < 8,
    ensures
        r == spec_pulse_table(duty, index as int),
        r <= 1,
{
    match duty {
        DutyRatio::Duty125 => if index == 7 { 0 } else { 1 },
        DutyRatio::Duty250 => if index == 0 || index == 7 { 0 } else { 1 },
        DutyRatio::Duty500 => if 1 <= index && index <= 4 { 1 } else { 0 },
        DutyRatio::Duty750 => if index == 0 || index == 7 { 1 } else { 0 },
    }
}

/// The duty ratio selected by bits 7-6 of NR11/NR21.
pub open spec fn spec_duty_of(value: u8) -> DutyRatio {
    let d = (value >> 6) & 0x3;
    if d == 0 {
        DutyRatio::Duty125
    } else if d == 1 {
        DutyRatio::Duty250
    } else if d == 2 {
        DutyRatio::Duty500
    } else {
        DutyRatio::Duty750
    }
}

/// The bits that `get_length_timer_duty_cycle` reports for a duty ratio.
pub open spec fn spec_duty_bits(duty: DutyRatio) -> u8 {
    match duty {
        DutyRatio::Duty125 => 0x00,
        DutyRatio::Duty250 => 0x40,
        DutyRatio::Duty500 => 0x80,
        DutyRatio::Duty750 => 0xC0,
    }
}

/// CH1/CH2: square wave generator with a period sweep (CH1 only uses the sweep).
#[derive(Debug)]
pub struct PulseGenerator {
    /// Whether the channel sounds.
    pub enable: bool,
    /// Whether the DAC is powered.
    pub dac_enable: bool,
    /// Sweep pace (0..=7); 0 stops the sweep.
    pub period_sweep_pace: u8,
    /// Sweep direction.
    pub period_sweep_direction: SweepDirection,
    /// Sweep step (0..=7).
    pub period_sweep_step: u8,
    /// Duty ratio of the square wave.
    pub duty: DutyRatio,
    /// Current step of the square wave (0..=7).
    pub pulse_table_index: usize,
    /// Volume envelope.
    pub eg: EnvelopeGenerator,
    /// Length timer.
    pub length_timer: LengthTimer,
    /// The period: 11 bits as written to the registers; the upward sweep
    /// may carry it past them, within 16 bits.
    pub period: u16,
    /// Whether the period was written since it was last applied.
    pub period_changed: bool,
    /// Clock ticks per step of the square wave.
    pub sample_update_period: u16,
    /// Clock ticks since the last step.
    pub sample_update_counter: u16,
    /// Whether the sweep runs.
    pub period_update_enable: bool,
    /// Clock ticks per sweep update.
    pub period_update_period: u16,
    /// Clock ticks since the last sweep update.
    pub period_update_counter: u16,
    /// The trigger bit last written.
    pub trigger: bool,
}

impl PulseGenerator {
    /// The internal invariant.
    pub open spec fn wf(&self) -> bool {
        &&& self.eg.wf()
        &&& self.length_timer.wf()
        &&& self.pulse_table_index < 8
        &&& self.period_sweep_pace <= 7
        &&& self.period_sweep_step <= 7
        &&& self.period_update_counter <= 8192
        &&& self.period_update_period <= 8192
        &&& self.period_update_enable ==> self.period_update_period > 0
    }

    /// The generator after NR10 is written.
    pub open spec fn spec_set_sweep(self, value: u8) -> Self {
        let pace = (value >> 4) & 0x7;
        let s = PulseGenerator {
            period_sweep_pace: pace,
            period_sweep_direction: if (value & 0x8) == 0 {
                SweepDirection::Positive
            } else {
                SweepDirection::Negative
            },
            period_sweep_step: value & 0x7,
            ..self
        };
        if pace > 0 {
            PulseGenerator {
                period_update_period: (PULSE_GENERATOR_CLOCK_HZ as int / (pace as int
                    * SWEEP_UPDATE_PERIOD_UNIT_HZ as int)) as u16,
                period_update_enable: true,
                ..s
            }
        } else {
            PulseGenerator { period_update_enable: false, ..s }
        }
    }

    /// The generator after NR11/NR21 is written.
    pub open spec fn spec_set_length_timer_duty_cycle(self, value: u8) -> Self {
        PulseGenerator {
            duty: spec_duty_of(value),
            length_timer: self.length_timer.spec_set_length_timer(value & 0x3F, 64),
            ..self
        }
    }

    /// The generator after NR12/NR22 is written.
    pub open spec fn spec_set_volume_envelope(self, value: u8) -> Self {
        let dac = (value & 0xF8) != 0;
        PulseGenerator {
            eg: self.eg.spec_set_volume_envelope(value),
            dac_enable: dac,
            enable: if dac { self.enable } else { false },
            ..self
        }
    }

    /// The generator after NR13/NR23 is written.
    pub open spec fn spec_set_period_low(self, value: u8) -> Self {
        PulseGenerator {
            period: (self.period & 0xFF00) | (value as u16),
            period_changed: true,
            ..self
        }
    }

    /// The generator after a trigger.
    pub open spec fn spec_process_trigger(self) -> Self {
        PulseGenerator {
            enable: true,
            length_timer: if self.length_timer.expired {
                self.length_timer.spec_process_trigger()
            } else {
                self.length_timer
            },
            sample_update_period: wrap_sub_u16(2048, self.period),
            eg: self.eg.spec_process_trigger(),
            ..self
        }
    }

    /// The generator after NR14/NR24 is written.
    pub open spec fn spec_set_period_high_control(self, value: u8) -> Self {
        let s = PulseGenerator {
            period: (((value & 0x7) as u16) << 8) | (self.period & 0x00FF),
            period_changed: true,
            length_timer: LengthTimer { enable: (value & 0x40) != 0, ..self.length_timer },
            trigger: (value & 0x80) != 0,
            ..self
        };
        if s.trigger {
            s.spec_process_trigger()
        } else {
            s
        }
    }

    /// NR10 as this generator reports it.
    pub open spec fn spec_sweep(&self) -> u8 {
        (self.period_sweep_pace << 4) | (match self.period_sweep_direction {
            SweepDirection::Positive => 0u8,
            SweepDirection::Negative => 0x8u8,
        }) | self.period_sweep_step
    }

    /// NR11/NR21 as this generator reports it.
    pub open spec fn spec_length_timer_duty_cycle(&self) -> u8 {
        spec_duty_bits(self.duty) | self.length_timer.initial_length_timer
    }

    /// NR13/NR23 as this generator reports it.
    pub open spec fn spec_period_low(&self) -> u8 {
        (self.period & 0x00FF) as u8
    }

    /// NR14/NR24 as this generator reports it.
    pub open spec fn spec_period_high_control(&self) -> u8 {
        ((self.period >> 8) & 0x7) as u8 | (if self.length_timer.enable { 0x40u8 } else { 0u8 })
            | (if self.trigger { 0x80u8 } else { 0u8 })
    }

    /// The generator after one step of the period sweep: the period moves
    /// by itself shifted right by the step, in 16 bits; a step that
    /// overflows them stores the wrapped period and stops the channel and
    /// the sweep. (The sweep changes the period register only; the tone
    /// takes a new period from NR13/NR14 writes.)
    pub open spec fn spec_update_period(self) -> Self {
        if self.period_update_enable {
            let count = self.period_update_counter + 1;
            if count >= self.period_update_period {
                let delta = self.period >> (self.period_sweep_step as u16);
                let (p, overflow) = match self.period_sweep_direction {
                    SweepDirection::Positive => (
                        wrap_add_u16(self.period, delta),
                        self.period + delta > 0xFFFF,
                    ),
                    SweepDirection::Negative => (
                        wrap_sub_u16(self.period, delta),
                        self.period < delta,
                    ),
                };
                let s = PulseGenerator {
                    period: p,
                    period_update_counter: (count - self.period_update_period) as u16,
                    ..self
                };
                if overflow {
                    PulseGenerator {
                        enable: false,
                        period_sweep_pace: 0,
                        period_update_enable: false,
                        ..s
                    }
                } else {
                    s
                }
            } else {
                PulseGenerator { period_update_counter: count as u16, ..self }
            }
        } else {
            self
        }
    }

    /// The generator and its output after one 1 MHz clock tick.
    pub open spec fn spec_clock_tick_1mhz(self) -> (Self, Option<u8>) {
        if self.enable {
            let count = wrap_add_u16(self.sample_update_counter, 1);
            let (s1, out) = if count >= self.sample_update_period {
                let out = (spec_pulse_table(self.duty, self.pulse_table_index as int)
                    * self.eg.volume) as u8;
                let s = PulseGenerator {
                    pulse_table_index: ((self.pulse_table_index + 1) % 8) as usize,
                    sample_update_counter: (count - self.sample_update_period) as u16,
                    ..self
                };
                let s = if s.period_changed {
                    PulseGenerator {
                        sample_update_period: wrap_sub_u16(2048, s.period),
                        period_changed: false,
                        ..s
                    }
                } else {
                    s
                };
                (s, Some(out))
            } else {
                (PulseGenerator { sample_update_counter: count, ..self }, None)
            };
            let s2 = s1.spec_update_period();
            let s3 = PulseGenerator {
                eg: s2.eg.spec_clock_tick(),
                length_timer: s2.length_timer.spec_clock_tick(),
                ..s2
            };
            let s4 = if s3.length_timer.expired {
                PulseGenerator { enable: false, ..s3 }
            } else {
                s3
            };
            (s4, out)
        } else {
            (self, None)
        }
    }

    /// The generator after `k` 1 MHz clock ticks.
    pub open spec fn spec_ticks_1mhz(self, k: nat) -> Self
        decreases k,
    {
        if k == 0 {
            self
        } else {
            self.spec_ticks_1mhz((k - 1) as nat).spec_clock_tick_1mhz().0
        }
    }

    /// Whether this is the generator as created: silent, with every
    /// register and counter cleared.
    pub open spec fn spec_is_power_on(self) -> bool {
        &&& !self.enable
        &&& !self.dac_enable
        &&& self.period == 0
        &&& self.duty == DutyRatio::Duty125
        &&& self.eg == EnvelopeGenerator::spec_new(PULSE_GENERATOR_CLOCK_HZ)
        &&& self.length_timer == LengthTimer::spec_new(PULSE_GENERATOR_CLOCK_HZ)
        &&& self.period_sweep_pace == 0
        &&& self.period_sweep_direction == SweepDirection::Positive
        &&& self.period_sweep_step == 0
        &&& self.pulse_table_index == 0
        &&& !self.period_changed
        &&& self.sample_update_period == 0
        &&& self.sample_update_counter == 0
        &&& !self.period_update_enable
        &&& self.period_update_period == 0
        &&& self.period_update_counter == 0
        &&& !self.trigger
    }

    /// Creates a silent pulse generator.
    pub fn new() -> (r: Self)
        ensures
            r.wf(),
            r.spec_is_power_on(),
    {
        Self {
            enable: false,
            dac_enable: false,
            period_sweep_pace: 0,
            period_sweep_direction: SweepDirection::Positive,
            period_sweep_step: 0,
            duty: DutyRatio::Duty125,
            pulse_table_index: 0,
            period: 0,
            period_changed: false,
            sample_update_period: 0,
            sample_update_counter: 0,
            period_update_enable: false,
            period_update_period: 0,
            period_update_counter: 0,
            trigger: false,
            eg: EnvelopeGenerator::new(PULSE_GENERATOR_CLOCK_HZ),
            length_timer: LengthTimer::new(PULSE_GENERATOR_CLOCK_HZ),
        }
    }

    /// Starts or silences the channel without a trigger.
    pub fn set_enable(&mut self, flag: bool)
        requires
            old(self).wf(),
        ensures
            final(self).wf(),
            *final(self) == (PulseGenerator { enable: flag, ..*old(self) }),
    {
        self.enable = flag;
    }

    /// Writes NR10: pace in bits 6-4, direction in bit 3, step in bits 2-0.
    pub fn set_sweep(&mut self, value: u8)
        requires
            old(self).wf(),
        ensures
            final(self).wf(),
            *final(self) == old(self).spec_set_sweep(value),
    {
        proof {
            lemma_u8_nibbles(value);
        }
        self.period_sweep_pace = (value >> 4) & 0x7;
        self.period_sweep_direction = if (value & 0x8) == 0 {
            SweepDirection::Positive
        } else {
            SweepDirection::Negative
        };
        self.period_sweep_step = value & 0x7;
        if self.period_sweep_pace > 0 {
            proof {
                lemma_sweep_update_period(self.period_sweep_pace as u32);
            }
            self.period_update_period = (PULSE_GENERATOR_CLOCK_HZ / (self.period_sweep_pace as u32
                * SWEEP_UPDATE_PERIOD_UNIT_HZ)) as u16;
            self.period_update_enable = true;
        } else {
            self.period_update_enable = false;
        }
    }

    /// Writes NR11/NR21: duty in bits 7-6, initial length in bits 5-0.
    pub fn set_length_timer_duty_cycle(&mut self, value: u8)
        requires
            old(self).wf(),
        ensures
            final(self).wf(),
            *final(self) == old(self).spec_set_length_timer_duty_cycle(value),
    {
        self.duty = match (value >> 6) & 0x3 {
            0 => DutyRatio::Duty125,
            1 => DutyRatio::Duty250,
            2 => DutyRatio::Duty500,
            _ => DutyRatio::Duty750,
        };
        self.length_timer.set_length_timer(value & 0x3F, 64);
    }

    /// Writes NR12/NR22; a value with bits 7-3 clear powers the DAC off
    /// and silences the channel.
    pub fn set_volume_envelope(&mut self, value: u8)
        requires
            old(self).wf(),
        ensures
            final(self).wf(),
            *final(self) == old(self).spec_set_volume_envelope(value),
    {
        self.eg.set_volume_envelope(value);
        self.dac_enable = (value & 0xF8) != 0;
        if !self.dac_enable {
            self.enable = false;
        }
    }

    /// Writes NR13/NR23: the low 8 bits of the period.
    pub fn set_period_low(&mut self, value: u8)
        requires
            old(self).wf(),
        ensures
            final(self).wf(),
            *final(self) == old(self).spec_set_period_low(value),
    {
        self.period = (self.period & 0xFF00) | (value as u16);
        self.period_changed = true;
    }

    /// Writes NR14/NR24: period bits 10-8 in bits 2-0, length enable in bit 6,
    /// trigger in bit 7.
    pub fn set_period_high_control(&mut self, value: u8)
        requires
            old(self).wf(),
        ensures
            final(self).wf(),
            *final(self) == old(self).spec_set_period_high_control(value),
    {
        self.period = (((value & 0x7) as u16) << 8) | (self.period & 0x00FF);
        self.period_changed = true;
        self.length_timer.set_enable((value & 0x40) != 0);
        self.trigger = (value & 0x80) != 0;
        if self.trigger {
            self.process_trigger();
        }
    }

    /// Reads NR10.
    pub fn get_sweep(&self) -> (r: u8)
        ensures
            r == self.spec_sweep(),
    {
        let mut ret: u8 = 0;
        ret |= self.period_sweep_pace << 4;
        ret |= match self.period_sweep_direction {
            SweepDirection::Positive => 0,
            SweepDirection::Negative => 0x8,
        };
        ret |= self.period_sweep_step;
        proof {
            let p = self.period_sweep_pace;
            let d: u8 = match self.period_sweep_direction {
                SweepDirection::Positive => 0u8,
                SweepDirection::Negative => 0x8u8,
            };
            let st = self.period_sweep_step;
            lemma_zero_or(p << 4);
        }
        ret
    }

    /// Reads NR11/NR21.
    pub fn get_length_timer_duty_cycle(&self) -> (r: u8)
        ensures
            r == self.spec_length_timer_duty_cycle(),
    {
        let mut ret: u8 = 0;
        ret |= match self.duty {
            DutyRatio::Duty125 => 0x00,
            DutyRatio::Duty250 => 0x40,
            DutyRatio::Duty500 => 0x80,
            DutyRatio::Duty750 => 0xC0,
        };
        ret |= self.length_timer.get_initial_length_timer();
        proof {
            let d = spec_duty_bits(self.duty);
            let l = self.length_timer.initial_length_timer;
            lemma_zero_or(d);
        }
        ret
    }

    /// Reads NR12/NR22.
    pub fn get_volume_envelope(&self) -> (r: u8)
        requires
            self.wf(),
        ensures
            r == self.eg.spec_volume_envelope(),
    {
        self.eg.get_volume_envelope()
    }

    /// Reads NR13/NR23.
    pub fn get_period_low(&self) -> (r: u8)
        ensures
            r == self.spec_period_low(),
    {
        (self.period & 0x00FF) as u8
    }

    /// Reads NR14/NR24.
    pub fn get_period_high_control(&self) -> (r: u8)
        ensures
            r == self.spec_period_high_control(),
    {
        let mut ret: u8 = 0;
        ret |= ((self.period >> 8) & 0x7) as u8;
        ret |= if self.length_timer.get_enable() { 0x40 } else { 0 };
        ret |= if self.trigger { 0x80 } else { 0 };
        proof {
            let p = ((self.period >> 8) & 0x7) as u8;
            let l: u8 = if self.length_timer.enable { 0x40u8 } else { 0u8 };
            let t: u8 = if self.trigger { 0x80u8 } else { 0u8 };
            lemma_zero_or(p);
        }
        ret
    }

    /// The current volume of the envelope (0..=15).
    pub fn get_volume(&self) -> (r: u8)
        requires
            self.wf(),
        ensures
            r == self.eg.volume as u8,
            r <= 15,
    {
        self.eg.get_volume()
    }

    /// The period last written, or reached by the sweep.
    pub fn get_period(&self) -> (r: u16)
        ensures
            r == self.period,
    {
        self.period
    }

    /// Starts the channel.
    fn process_trigger(&mut self)
        requires
            old(self).wf(),
        ensures
            final(self).wf(),
            *final(self) == old(self).spec_process_trigger(),
    {
        self.enable = true;
        if self.length_timer.expired {
            self.length_timer.process_trigger();
        }
        // computed in 16 bits, as the hardware counter
        self.sample_update_period = 2048u16.wrapping_sub(self.period);
        self.eg.process_trigger();
    }

    /// One step of the period sweep.
    fn update_period(&mut self)
        requires
            old(self).wf(),
        ensures
            final(self).wf(),
            *final(self) == old(self).spec_update_period(),
    {
        if self.period_update_enable {
            self.period_update_counter += 1;
            if self.period_update_counter >= self.period_update_period {
                let delta = self.period >> (self.period_sweep_step as u16);
                let overflow;
                match self.period_sweep_direction {
                    SweepDirection::Positive => {
                        overflow = self.period as u32 + delta as u32 > 0xFFFF;
                        self.period = self.period.wrapping_add(delta);
                    },
                    SweepDirection::Negative => {
                        overflow = self.period < delta;
                        self.period = self.period.wrapping_sub(delta);
                    },
                }
                if overflow {
                    self.enable = false;
                    self.period_sweep_pace = 0;
                    self.period_update_enable = false;
                }
                self.period_update_counter -= self.period_update_period;
            }
        }
    }

    /// Advances the generator by one 1 MHz tick; returns a new output level
    /// (0..=15) when the square wave steps.
    pub fn clock_tick_1mhz(&mut self) -> (r: Option<u8>)
        requires
            old(self).wf(),
        ensures
            final(self).wf(),
            (*final(self), r) == old(self).spec_clock_tick_1mhz(),
            r matches Some(v) ==> v <= 15,
    {
        let mut out = None;

        if self.enable {
            // counts wrap in 16 bits, as the unsigned arithmetic of the hardware counter
            self.sample_update_counter = self.sample_update_counter.wrapping_add(1);

            if self.sample_update_counter >= self.sample_update_period {
                let level = pulse_table(self.duty, self.pulse_table_index);
                let volume = self.eg.get_volume();
                proof {
                    assert(level * volume <= 15) by (nonlinear_arith)
                        requires
                            level <= 1,
                            volume <= 15,
                    ;
                }
                out = Some(level * volume);
                proof {
                    lemma_usize_wrap_index(self.pulse_table_index);
                }
                self.pulse_table_index = (self.pulse_table_index + 1) & 0x7;
                self.sample_update_counter -= self.sample_update_period;
                // a new period takes effect after the output
                if self.period_changed {
                    self.sample_update_period = 2048u16.wrapping_sub(self.period);
                    self.period_changed = false;
                }
            }

            self.update_period();
            self.eg.clock_tick();
            self.length_timer.clock_tick();

            if self.length_timer.expired {
                self.enable = false;
            }
        }

        out
    }
}

// ---------------------------------------------------------------------------
// Sample generator
// ---------------------------------------------------------------------------

/// The right shift that NR32 bits 6-5 select (0: mute, 1: 100%, 2: 50%, 3: 25%).
pub open spec fn spec_output_level_shift(value: u8) -> u8 {
    let code = (value >> 5) & 0x3;
    if code == 0 {
        4
    } else if code == 1 {
        0
    } else if code == 2 {
        1
    } else {
        2
    }
}

/// Whether `address` is one of the 16 wave pattern registers.
pub open spec fn is_wave_ram_address(address: usize) -> bool {
    HWREG_CHANNEL3_WAVE_PATTERN_RAM_START <= address <= HWREG_CHANNEL3_WAVE_PATTERN_RAM_START + 15
}

/// CH3: plays the 32 four-bit samples of the wave RAM.
#[derive(Debug)]
pub struct SampleGenerator {
    /// Whether the channel sounds.
    pub enable: bool,
    /// Whether the DAC is powered.
    pub dac_enable: bool,
    /// Right shift applied to each sample (0, 1, 2 or 4).
    pub output_level_shift: u8,
    /// The 11 bit period written to the registers.
    pub period: u16,
    /// Whether the period was written since it was last applied.
    pub period_changed: bool,
    /// Clock ticks per sample.
    pub sample_update_period: u16,
    /// Clock ticks since the last sample.
    pub sample_update_counter: u16,
    /// The length enable bit last written.
    pub length_enable: bool,
    /// The trigger bit last written.
    pub trigger: bool,
    /// Wave RAM: 32 samples of 4 bits.
    pub wave_ram: [u8; 32],
    /// Index of the next sample (0..=31).
    pub wave_ram_index: usize,
    /// Length timer.
    pub length_timer: LengthTimer,
}

impl SampleGenerator {
    /// The internal invariant.
    pub open spec fn wf(&self) -> bool {
        &&& self.length_timer.wf()
        &&& self.period <= 0x7FF
        &&& self.output_level_shift == 0 || self.output_level_shift == 1
            || self.output_level_shift == 2 || self.output_level_shift == 4
        &&& self.wave_ram_index < 32
        &&& forall|i: int| 0 <= i < 32 ==> #[trigger] self.wave_ram@[i] <= 15
    }

    /// The generator after NR30 is written.
    pub open spec fn spec_set_dac_enable(self, value: u8) -> Self {
        let dac = (value & 0x80) != 0;
        SampleGenerator { dac_enable: dac, enable: if dac { self.enable } else { false }, ..self }
    }

    /// The generator after NR31 is written.
    pub open spec fn spec_set_length_timer(self, value: u8) -> Self {
        SampleGenerator {
            length_timer: self.length_timer.spec_set_length_timer(value, 256),
            ..self
        }
    }

    /// The generator after NR32 is written.
    pub open spec fn spec_set_output_level(self, value: u8) -> Self {
        SampleGenerator { output_level_shift: spec_output_level_shift(value), ..self }
    }

    /// The generator after NR33 is written.
    pub open spec fn spec_set_period_low(self, value: u8) -> Self {
        SampleGenerator {
            period: (self.period & 0xFF00) | (value as u16),
            period_changed: true,
            ..self
        }
    }

    /// The generator after a trigger.
    pub open spec fn spec_process_trigger(self) -> Self {
        SampleGenerator {
            enable: true,
            length_timer: if self.length_timer.expired {
                self.length_timer.spec_process_trigger()
            } else {
                self.length_timer
            },
            sample_update_period: (2048 - self.period) as u16,
            wave_ram_index: 1,
            ..self
        }
    }

    /// The generator after NR34 is written.
    pub open spec fn spec_set_period_high_control(self, value: u8) -> Self {
        let s = SampleGenerator {
            period: (((value & 0x7) as u16) << 8) | (self.period & 0x00FF),
            period_changed: true,
            length_enable: (value & 0x40) != 0,
            length_timer: LengthTimer { enable: (value & 0x40) != 0, ..self.length_timer },
            trigger: (value & 0x80) != 0,
            ..self
        };
        if s.trigger {
            s.spec_process_trigger()
        } else {
            s
        }
    }

    /// The generator after wave pattern register `address` is written:
    /// while the channel sounds the write is ignored.
    pub open spec fn spec_set_wave_ram(self, address: usize, value: u8) -> Self {
        if !self.enable {
            let smpl = 2 * (address - HWREG_CHANNEL3_WAVE_PATTERN_RAM_START);
            SampleGenerator {
                wave_ram: vstd::array::spec_array_update(
                    vstd::array::spec_array_update(self.wave_ram, smpl, (value >> 4) & 0xF),
                    smpl + 1,
                    value & 0xF,
                ),
                ..self
            }
        } else {
            self
        }
    }

    /// NR30 as this generator reports it.
    pub open spec fn spec_dac_enable(&self) -> u8 {
        if self.dac_enable { 0x80 } else { 0x00 }
    }

    /// NR32 as this generator reports it.
    pub open spec fn spec_output_level(&self) -> u8 {
        if self.output_level_shift == 4 {
            0x00
        } else if self.output_level_shift == 0 {
            0x20
        } else if self.output_level_shift == 1 {
            0x40
        } else {
            0x60
        }
    }

    /// NR33 as this generator reports it.
    pub open spec fn spec_period_low(&self) -> u8 {
        (self.period & 0x00FF) as u8
    }

    /// NR34 as this generator reports it.
    pub open spec fn spec_period_high_control(&self) -> u8 {
        ((self.period >> 8) & 0x7) as u8 | (if self.length_enable { 0x40u8 } else { 0u8 }) | (
        if self.trigger { 0x80u8 } else { 0u8 })
    }

    /// Wave pattern register `address` as this generator reports it:
    /// 0xFF while the channel sounds.
    pub open spec fn spec_wave_ram(&self, address: usize) -> u8 {
        if self.enable {
            0xFF
        } else {
            let smpl = 2 * (address - HWREG_CHANNEL3_WAVE_PATTERN_RAM_START);
            (self.wave_ram@[smpl] << 4) | self.wave_ram@[smpl + 1]
        }
    }

    /// The generator after `k` 2 MHz clock ticks.
    pub open spec fn spec_ticks_2mhz(self, k: nat) -> Self
        decreases k,
    {
        if k == 0 {
            self
        } else {
            self.spec_ticks_2mhz((k - 1) as nat).spec_clock_tick_2mhz().0
        }
    }

    /// The generator and its output after one 2 MHz clock tick.
    pub open spec fn spec_clock_tick_2mhz(self) -> (Self, Option<u8>) {
        if self.enable {
            let count = wrap_add_u16(self.sample_update_counter, 1);
            let (s1, out) = if count >= self.sample_update_period {
                let out = self.wave_ram@[self.wave_ram_index as int] >> self.output_level_shift;
                let s = SampleGenerator {
                    wave_ram_index: ((self.wave_ram_index + 1) % 32) as usize,
                    sample_update_counter: (count - self.sample_update_period) as u16,
                    ..self
                };
                let s = if s.period_changed {
                    SampleGenerator {
                        sample_update_period: (2048 - s.period) as u16,
                        period_changed: false,
                        ..s
                    }
                } else {
                    s
                };
                (s, Some(out))
            } else {
                (SampleGenerator { sample_update_counter: count, ..self }, None)
            };
            let s2 = SampleGenerator { length_timer: s1.length_timer.spec_clock_tick(), ..s1 };
            let s3 = if s2.length_timer.expired {
                SampleGenerator { enable: false, ..s2 }
            } else {
                s2
            };
            (s3, out)
        } else {
            (self, None)
        }
    }

    /// Whether this is the generator as created: silent, with every
    /// register and counter cleared.
    pub open spec fn spec_is_power_on(self) -> bool {
        &&& !self.enable
        &&& !self.dac_enable
        &&& self.output_level_shift == 0
        &&& !self.length_enable
        &&& self.period == 0
        &&& !self.period_changed
        &&& self.sample_update_period == 0
        &&& self.sample_update_counter == 0
        &&& !self.trigger
        &&& forall|i: int| 0 <= i < 32 ==> self.wave_ram@[i] == 0
        &&& self.wave_ram_index == 0
        &&& self.length_timer == LengthTimer::spec_new(SAMPLE_GENERATOR_CLOCK_HZ)
    }

    /// Creates a silent sample generator with an all-zero wave RAM.
    pub fn new() -> (r: Self)
        ensures
            r.wf(),
            r.spec_is_power_on(),
    {
        Self {
            enable: false,
            dac_enable: false,
            output_level_shift: 0,
            length_enable: false,
            period: 0,
            period_changed: false,
            sample_update_period: 0,
            sample_update_counter: 0,
            trigger: false,
            wave_ram: [0u8; 32],
            wave_ram_index: 0,
            length_timer: LengthTimer::new(SAMPLE_GENERATOR_CLOCK_HZ),
        }
    }

    /// Starts or silences the channel without a trigger.
    pub fn set_enable(&mut self, flag: bool)
        requires
            old(self).wf(),
        ensures
            final(self).wf(),
            *final(self) == (SampleGenerator { enable: flag, ..*old(self) }),
    {
        self.enable = flag;
    }

    /// Writes NR30: bit 7 powers the DAC; powering it off silences the channel.
    pub fn set_dac_enable(&mut self, value: u8)
        requires
            old(self).wf(),
        ensures
            final(self).wf(),
            *final(self) == old(self).spec_set_dac_enable(value),
    {
        self.dac_enable = (value & 0x80) != 0;
        if !self.dac_enable {
            self.enable = false;
        }
    }

    /// Writes NR31: the initial length (expires at 256).
    pub fn set_length_timer(&mut self, value: u8)
        requires
            old(self).wf(),
        ensures
            final(self).wf(),
            *final(self) == old(self).spec_set_length_timer(value),
    {
        self.length_timer.set_length_timer(value, 256);
    }

    /// Writes NR32: the output level in bits 6-5.
    pub fn set_output_level(&mut self, value: u8)
        requires
            old(self).wf(),
        ensures
            final(self).wf(),
            *final(self) == old(self).spec_set_output_level(value),
    {
        self.output_level_shift = match (value >> 5) & 0x3 {
            0 => 4,
            1 => 0,
            2 => 1,
            _ => 2,
        };
    }

    /// Writes NR33: the low 8 bits of the period.
    pub fn set_period_low(&mut self, value: u8)
        requires
            old(self).wf(),
        ensures
            final(self).wf(),
            *final(self) == old(self).spec_set_period_low(value),
    {
        proof {
            let p = self.period;
            assert(p <= 0x7FF ==> (p & 0xFF00) | (value as u16) <= 0x7FF) by (bit_vector);
        }
        self.period = (self.period & 0xFF00) | (value as u16);
        self.period_changed = true;
    }

    /// Writes NR34: period bits 10-8 in bits 2-0, length enable in bit 6,
    /// trigger in bit 7.
    pub fn set_period_high_control(&mut self, value: u8)
        requires
            old(self).wf(),
        ensures
            final(self).wf(),
            *final(self) == old(self).spec_set_period_high_control(value),
    {
        proof {
            let p = self.period;
            assert((((value & 0x7) as u16) << 8) | (p & 0x00FF) <= 0x7FF) by (bit_vector);
        }
        self.period = (((value & 0x7) as u16) << 8) | (self.period & 0x00FF);
        self.period_changed = true;
        self.length_enable = (value & 0x40) != 0;
        self.length_timer.set_enable((value & 0x40) != 0);
        self.trigger = (value & 0x80) != 0;
        if self.trigger {
            self.process_trigger();
        }
    }

    /// Writes wave pattern register `address` (0xFF30..=0xFF3F), which holds
    /// samples `2k` (high nibble) and `2k + 1` (low nibble); ignored while
    /// the channel sounds.
    pub fn set_wave_ram(&mut self, address: usize, value: u8)
        requires
            old(self).wf(),
            !old(self).enable ==> is_wave_ram_address(address),
        ensures
            final(self).wf(),
            *final(self) == old(self).spec_set_wave_ram(address, value),
    {
        if !self.enable {
            let smpl = 2 * (address - HWREG_CHANNEL3_WAVE_PATTERN_RAM_START);
            self.wave_ram[smpl + 0] = (value >> 4) & 0xF;
            self.wave_ram[smpl + 1] = (value >> 0) & 0xF;
            proof {
                assert(value >> 0 == value && (value >> 4) & 0xF <= 15 && value & 0xF <= 15)
                    by (bit_vector);
            }
        }
    }

    /// Reads NR30.
    pub fn get_dac_enable(&self) -> (r: u8)
        ensures
            r == self.spec_dac_enable(),
    {
        if self.dac_enable {
            0x80
        } else {
            0x00
        }
    }

    /// Reads NR31.
    pub fn get_length_timer(&self) -> (r: u8)
        ensures
            r == self.length_timer.initial_length_timer,
    {
        self.length_timer.get_initial_length_timer()
    }

    /// Reads NR32.
    pub fn get_output_level(&self) -> (r: u8)
        requires
            self.wf(),
        ensures
            r == self.spec_output_level(),
    {
        match self.output_level_shift {
            4 => 0x00,
            0 => 0x20,
            1 => 0x40,
            _ => 0x60,
        }
    }

    /// Reads NR33.
    pub fn get_period_low(&self) -> (r: u8)
        ensures
            r == self.spec_period_low(),
    {
        (self.period & 0x00FF) as u8
    }

    /// Reads NR34.
    pub fn get_period_high_control(&self) -> (r: u8)
        ensures
            r == self.spec_period_high_control(),
    {
        let mut ret: u8 = 0;
        ret |= ((self.period >> 8) & 0x7) as u8;
        ret |= if self.length_enable { 0x40 } else { 0 };
        ret |= if self.trigger { 0x80 } else { 0 };
        proof {
            let p = ((self.period >> 8) & 0x7) as u8;
            let l: u8 = if self.length_enable { 0x40u8 } else { 0u8 };
            let t: u8 = if self.trigger { 0x80u8 } else { 0u8 };
            lemma_zero_or(p);
        }
        ret
    }

    /// Reads wave pattern register `address` (0xFF30..=0xFF3F); 0xFF while
    /// the channel sounds.
    pub fn get_wave_ram(&self, address: usize) -> (r: u8)
        requires
            !self.enable ==> is_wave_ram_address(address),
        ensures
            r == self.spec_wave_ram(address),
    {
        if self.enable {
            0xFF
        } else {
            let smpl = 2 * (address - HWREG_CHANNEL3_WAVE_PATTERN_RAM_START);
            (self.wave_ram[smpl + 0] << 4) | (self.wave_ram[smpl + 1])
        }
    }

    /// Starts the channel from sample 1.
    fn process_trigger(&mut self)
        requires
            old(self).wf(),
        ensures
            final(self).wf(),
            *final(self) == old(self).spec_process_trigger(),
    {
        self.enable = true;
        if self.length_timer.expired {
            self.length_timer.process_trigger();
        }
        self.sample_update_period = 2048 - self.period;
        self.wave_ram_index = 1;
    }

    /// Advances the generator by one 2 MHz tick; returns the next sample,
    /// shifted by the output level, when one is due.
    pub fn clock_tick_2mhz(&mut self) -> (r: Option<u8>)
        requires
            old(self).wf(),
        ensures
            final(self).wf(),
            (*final(self), r) == old(self).spec_clock_tick_2mhz(),
            r matches Some(v) ==> v <= 15,
    {
        let mut out = None;

        if self.enable {
            // counts wrap in 16 bits, as the unsigned arithmetic of the hardware counter
            self.sample_update_counter = self.sample_update_counter.wrapping_add(1);

            if self.sample_update_counter >= self.sample_update_period {
                proof {
                    let w = self.wave_ram@[self.wave_ram_index as int];
                    let sh = self.output_level_shift;
                    assert(w >> sh <= w) by (bit_vector);
                }
                out = Some(self.wave_ram[self.wave_ram_index] >> self.output_level_shift);
                proof {
                    lemma_usize_wrap_index(self.wave_ram_index);
                }
                self.wave_ram_index = (self.wave_ram_index + 1) & 0x1F;
                self.sample_update_counter -= self.sample_update_period;
                // a new period takes effect after the output
                if self.period_changed {
                    self.sample_update_period = 2048 - self.period;
                    self.period_changed = false;
                }
            }

            self.length_timer.clock_tick();

            if self.length_timer.expired {
                self.enable = false;
            }
        }

        out
    }
}

// ---------------------------------------------------------------------------
// Noise generator
// ---------------------------------------------------------------------------

/// CH4: pseudo-random noise from a linear feedback shift register.
#[derive(Debug)]
pub struct NoiseGenerator {
    /// Whether the channel sounds.
    pub enable: bool,
    /// Whether the DAC is powered.
    pub dac_enable: bool,
    /// The trigger bit last written.
    pub trigger: bool,
    /// Clock shift (0..=15).
    pub clock_shift: u8,
    /// Clock divider (0..=7).
    pub clock_divider: u8,
    /// Whether the register runs in its short (7 bit) mode.
    pub lfsr_short_mode: bool,
    /// The shift register.
    pub lfsr: u16,
    /// Bits set or cleared by the feedback.
    pub lfsr_mask: u16,
    /// Clock ticks since the last shift.
    pub lfsr_clock_count: u32,
    /// Clock ticks per shift.
    pub lfsr_update_period: u32,
    /// Volume envelope.
    pub eg: EnvelopeGenerator,
    /// Length timer.
    pub length_timer: LengthTimer,
}

impl NoiseGenerator {
    /// The internal invariant.
    pub open spec fn wf(&self) -> bool {
        &&& self.eg.wf()
        &&& self.length_timer.wf()
        &&& self.clock_shift <= 15
        &&& self.clock_divider <= 7
    }

    /// Clock ticks per shift for a clock shift and divider: `2^shift / 2`
    /// for divider 0, `divider * 2^shift` otherwise.
    pub open spec fn spec_lfsr_update_period(shift: u8, divider: u8) -> u32 {
        if divider == 0 {
            (vstd::arithmetic::power2::pow2(shift as nat) / 2) as u32
        } else {
            (divider as int * vstd::arithmetic::power2::pow2(shift as nat)) as u32
        }
    }

    /// The generator after NR41 is written.
    pub open spec fn spec_set_length_timer(self, value: u8) -> Self {
        NoiseGenerator {
            length_timer: self.length_timer.spec_set_length_timer(value & 0x3F, 64),
            ..self
        }
    }

    /// The generator after NR42 is written.
    pub open spec fn spec_set_volume_envelope(self, value: u8) -> Self {
        let dac = (value & 0xF8) != 0;
        NoiseGenerator {
            eg: self.eg.spec_set_volume_envelope(value),
            dac_enable: dac,
            enable: if dac { self.enable } else { false },
            ..self
        }
    }

    /// The generator after NR43 is written.
    pub open spec fn spec_set_frequency_randomness(self, value: u8) -> Self {
        let shift = (value >> 4) & 0xF;
        let short = (value & 0x08) != 0;
        let divider = value & 0x7;
        NoiseGenerator {
            clock_shift: shift,
            lfsr_short_mode: short,
            clock_divider: divider,
            lfsr_mask: if short { 0x8080 } else { 0x8000 },
            lfsr_update_period: Self::spec_lfsr_update_period(shift, divider),
            ..self
        }
    }

    /// The generator after a trigger.
    pub open spec fn spec_process_trigger(self) -> Self {
        NoiseGenerator {
            enable: true,
            length_timer: if self.length_timer.expired {
                self.length_timer.spec_process_trigger()
            } else {
                self.length_timer
            },
            eg: self.eg.spec_process_trigger(),
            lfsr: 0,
            ..self
        }
    }

    /// The generator after NR44 is written.
    pub open spec fn spec_set_control(self, value: u8) -> Self {
        let s = NoiseGenerator {
            length_timer: LengthTimer { enable: (value & 0x40) != 0, ..self.length_timer },
            trigger: (value & 0x80) != 0,
            ..self
        };
        if s.trigger {
            s.spec_process_trigger()
        } else {
            s
        }
    }

    /// NR43 as this generator reports it.
    pub open spec fn spec_frequency_randomness(&self) -> u8 {
        (self.clock_shift << 4) | (if self.lfsr_short_mode { 0x8u8 } else { 0u8 })
            | self.clock_divider
    }

    /// NR44 as this generator reports it.
    pub open spec fn spec_control(&self) -> u8 {
        (if self.length_timer.enable { 0x40u8 } else { 0u8 }) | (if self.trigger {
            0x80u8
        } else {
            0u8
        })
    }

    /// The shift register after one shift: the feedback (bit 0 equal to
    /// bit 1) sets the mask bits, otherwise clears them, then it shifts right.
    pub open spec fn spec_lfsr_step(lfsr: u16, mask: u16) -> u16 {
        let lfsr0 = lfsr & 1;
        let lfsr1 = (lfsr >> 1) & 1;
        let l = if lfsr0 == lfsr1 { lfsr | mask } else { lfsr & !mask };
        l >> 1
    }

    /// The generator and its output after one 256 kHz clock tick.
    pub open spec fn spec_clock_tick_256khz(self) -> (Self, Option<u8>) {
        if self.enable {
            let count = wrap_inc_u32(self.lfsr_clock_count);
            let (s1, out) = if count >= self.lfsr_update_period {
                let lfsr1 = (self.lfsr >> 1) & 1;
                (
                    NoiseGenerator {
                        lfsr: Self::spec_lfsr_step(self.lfsr, self.lfsr_mask),
                        lfsr_clock_count: (count - self.lfsr_update_period) as u32,
                        ..self
                    },
                    Some(if lfsr1 != 0 { self.eg.volume as u8 } else { 0u8 }),
                )
            } else {
                (NoiseGenerator { lfsr_clock_count: count, ..self }, None)
            };
            let s2 = if s1.length_timer.expired {
                NoiseGenerator { enable: false, ..s1 }
            } else {
                s1
            };
            let s3 = NoiseGenerator {
                eg: s2.eg.spec_clock_tick(),
                length_timer: s2.length_timer.spec_clock_tick(),
                ..s2
            };
            (s3, out)
        } else {
            (self, None)
        }
    }

    /// The generator after `k` 256 kHz clock ticks.
    pub open spec fn spec_ticks_256khz(self, k: nat) -> Self
        decreases k,
    {
        if k == 0 {
            self
        } else {
            self.spec_ticks_256khz((k - 1) as nat).spec_clock_tick_256khz().0
        }
    }

    /// Whether this is the generator as created: silent, with every
    /// register and counter cleared.
    pub open spec fn spec_is_power_on(self) -> bool {
        &&& !self.enable
        &&& !self.dac_enable
        &&& !self.trigger
        &&& self.clock_shift == 0
        &&& self.clock_divider == 0
        &&& !self.lfsr_short_mode
        &&& self.lfsr == 0
        &&& self.lfsr_mask == 0
        &&& self.lfsr_clock_count == 0
        &&& self.lfsr_update_period == 0
        &&& self.eg == EnvelopeGenerator::spec_new(NOISE_GENERATOR_CLOCK_HZ)
        &&& self.length_timer == LengthTimer::spec_new(NOISE_GENERATOR_CLOCK_HZ)
    }

    /// Creates a silent noise generator.
    pub fn new() -> (r: Self)
        ensures
            r.wf(),
            r.spec_is_power_on(),
    {
        Self {
            enable: false,
            dac_enable: false,
            trigger: false,
            clock_shift: 0,
            clock_divider: 0,
            lfsr_short_mode: false,
            lfsr: 0,
            lfsr_mask: 0,
            lfsr_clock_count: 0,
            lfsr_update_period: 0,
            eg: EnvelopeGenerator::new(NOISE_GENERATOR_CLOCK_HZ),
            length_timer: LengthTimer::new(NOISE_GENERATOR_CLOCK_HZ),
        }
    }

    /// Starts or silences the channel without a trigger.
    pub fn set_enable(&mut self, flag: bool)
        requires
            old(self).wf(),
        ensures
            final(self).wf(),
            *final(self) == (NoiseGenerator { enable: flag, ..*old(self) }),
    {
        self.enable = flag;
    }

    /// Writes NR41: the initial length in bits 5-0 (expires at 64).
    pub fn set_length_timer(&mut self, value: u8)
        requires
            old(self).wf(),
        ensures
            final(self).wf(),
            *final(self) == old(self).spec_set_length_timer(value),
    {
        self.length_timer.set_length_timer(value & 0x3F, 64);
    }

    /// Writes NR42; a value with bits 7-3 clear powers the DAC off and
    /// silences the channel.
    pub fn set_volume_envelope(&mut self, value: u8)
        requires
            old(self).wf(),
        ensures
            final(self).wf(),
            *final(self) == old(self).spec_set_volume_envelope(value),
    {
        self.eg.set_volume_envelope(value);
        self.dac_enable = (value & 0xF8) != 0;
        if !self.dac_enable {
            self.enable = false;
        }
    }

    /// Writes NR43: clock shift in bits 7-4, short mode in bit 3, divider in bits 2-0.
    pub fn set_frequency_randomness(&mut self, value: u8)
        requires
            old(self).wf(),
        ensures
            final(self).wf(),
            *final(self) == old(self).spec_set_frequency_randomness(value),
    {
        proof {
            lemma_u8_nibbles(value);
        }
        self.clock_shift = ((value >> 4) & 0xF) as u8;
        self.lfsr_short_mode = (value & 0x08) != 0;
        self.clock_divider = value & 0x7;
        self.lfsr_mask = if self.lfsr_short_mode { 0x8080 } else { 0x8000 };
        proof {
            lemma_pow2_shift(self.clock_shift as u32);
        }
        self.lfsr_update_period = if self.clock_divider == 0 {
            (1 << (self.clock_shift as u32)) / 2
        } else {
            proof {
                let d = self.clock_divider as int;
                let p = vstd::arithmetic::power2::pow2(self.clock_shift as nat) as int;
                assert(d * p <= 7 * 32768) by (nonlinear_arith)
                    requires
                        0 <= d <= 7,
                        0 < p <= 32768,
                ;
            }
            (self.clock_divider as u32) * (1 << (self.clock_shift as u32))
        };
    }

    /// Writes NR44: length enable in bit 6, trigger in bit 7.
    pub fn set_control(&mut self, value: u8)
        requires
            old(self).wf(),
        ensures
            final(self).wf(),
            *final(self) == old(self).spec_set_control(value),
    {
        self.length_timer.set_enable((value & 0x40) != 0);
        self.trigger = (value & 0x80) != 0;
        if self.trigger {
            self.process_trigger();
        }
    }

    /// Reads NR41.
    pub fn get_length_timer(&self) -> (r: u8)
        ensures
            r == self.length_timer.initial_length_timer,
    {
        self.length_timer.get_initial_length_timer()
    }

    /// Reads NR42.
    pub fn get_volume_envelope(&self) -> (r: u8)
        requires
            self.wf(),
        ensures
            r == self.eg.spec_volume_envelope(),
    {
        self.eg.get_volume_envelope()
    }

    /// Reads NR43.
    pub fn get_frequency_randomness(&self) -> (r: u8)
        ensures
            r == self.spec_frequency_randomness(),
    {
        let mut ret: u8 = 0;
        ret |= self.clock_shift << 4;
        ret |= if self.lfsr_short_mode { 0x8 } else { 0 };
        ret |= self.clock_divider;
        proof {
            let s = self.clock_shift;
            let m: u8 = if self.lfsr_short_mode { 0x8u8 } else { 0u8 };
            let d = self.clock_divider;
            lemma_zero_or(s << 4);
        }
        ret
    }

    /// Reads NR44.
    pub fn get_control(&self) -> (r: u8)
        ensures
            r == self.spec_control(),
    {
        let mut ret: u8 = 0;
        ret |= if self.length_timer.get_enable() { 0x40 } else { 0 };
        ret |= if self.trigger { 0x80 } else { 0 };
        proof {
            let l: u8 = if self.length_timer.enable { 0x40u8 } else { 0u8 };
            let t: u8 = if self.trigger { 0x80u8 } else { 0u8 };
            lemma_zero_or(l);
        }
        ret
    }

    /// Starts the channel with a cleared shift register.
    fn process_trigger(&mut self)
        requires
            old(self).wf(),
        ensures
            final(self).wf(),
            *final(self) == old(self).spec_process_trigger(),
    {
        self.enable = true;
        if self.length_timer.expired {
            self.length_timer.process_trigger();
        }
        self.eg.process_trigger();
        self.lfsr = 0;
    }

    /// Advances the generator by one 256 kHz tick; returns the new output
    /// level (0 or the envelope volume) when the register shifts.
    pub fn clock_tick_256khz(&mut self) -> (r: Option<u8>)
        requires
            old(self).wf(),
        ensures
            final(self).wf(),
            (*final(self), r) == old(self).spec_clock_tick_256khz(),
            r matches Some(v) ==> v <= 15,
    {
        let mut out = None;

        if self.enable {
            // counts wrap in 32 bits, as the unsigned arithmetic of the hardware counter
            self.lfsr_clock_count = self.lfsr_clock_count.wrapping_add(1);
            if self.lfsr_clock_count >= self.lfsr_update_period {
                let lfsr0 = (self.lfsr >> 0) & 1;
                let lfsr1 = (self.lfsr >> 1) & 1;
                proof {
                    let l = self.lfsr;
                    assert(l >> 0 == l) by (bit_vector);
                }
                if lfsr0 == lfsr1 {
                    self.lfsr |= self.lfsr_mask;
                } else {
                    self.lfsr &= !(self.lfsr_mask);
                }
                self.lfsr >>= 1;

                // the output is the bit that the shift moves into bit 0
                out = Some(if lfsr1 != 0 { self.eg.get_volume() } else { 0 });

                self.lfsr_clock_count -= self.lfsr_update_period;
            }

            if self.length_timer.expired {
                self.enable = false;
            }

            self.eg.clock_tick();
            self.length_timer.clock_tick();
        }

        out
    }
}

/// `1 << shift` is `2^shift` for the clock shifts of NR43.
proof fn lemma_pow2_shift(shift: u32)
    requires
        shift <= 15,
    ensures
        1u32 << shift == vstd::arithmetic::power2::pow2(shift as nat),
        0 < vstd::arithmetic::power2::pow2(shift as nat) <= 32768,
{
    vstd::arithmetic::power2::lemma2_to64();
    vstd::bits::lemma_u32_shl_is_mul(1, shift);
    vstd::arithmetic::power2::lemma_pow2_pos(shift as nat);
    vstd::arithmetic::power2::lemma_pow2_strictly_increases(shift as nat, 16);
}

/// The sweep update period `1048576 / (pace * 128)` lies in 1..=8192.
proof fn lemma_sweep_update_period(pace: u32)
    requires
        1 <= pace <= 7,
    ensures
        1 <= PULSE_GENERATOR_CLOCK_HZ as int / (pace as int * SWEEP_UPDATE_PERIOD_UNIT_HZ as int)
            <= 8192,
{
    let d = pace as int * 128;
    if pace == 1 {
        assert(1048576int / 128 == 8192);
    } else if pace == 2 {
        assert(1048576int / 256 == 4096);
    } else if pace == 3 {
        assert(1048576int / 384 == 2730);
    } else if pace == 4 {
        assert(1048576int / 512 == 2048);
    } else if pace == 5 {
        assert(1048576int / 640 == 1638);
    } else if pace == 6 {
        assert(1048576int / 768 == 1365);
    } else {
        assert(1048576int / 896 == 1170);
    }
}

/// Masking an incremented index keeps it in a power-of-two table.
proof fn lemma_usize_wrap_index(i: usize)
    requires
        i < 32,
    ensures
        ((i + 1) as usize) & 0x7 == (i + 1) % 8,
        ((i + 1) as usize) & 0x1F == (i + 1) % 32,
{
    let j = (i + 1) as usize;
    assert(j & 0x7 == j % 8) by (bit_vector);
    assert(j & 0x1F == j % 32) by (bit_vector);
}

/// Or-ing into a zero byte gives the other operand.
proof fn lemma_zero_or(x: u8)
    by (bit_vector)
    ensures
        0u8 | x == x,
{
}

/// Bit fields of a register byte, as arithmetic.
pub proof fn lemma_u8_nibbles(v: u8)
    by (bit_vector)
    ensures
        (v >> 4) & 0xF == v / 16,
        (v >> 4) & 0x7 == (v / 16) % 8,
        (v >> 5) & 0x3 == (v / 32) % 4,
        (v >> 6) & 0x3 == v / 64,
        v & 0xF == v % 16,
        v & 0x7 == v % 8,
        v & 0x3F == v % 64,
        v & 0x1F == v % 32,
        ((v & 0x8) != 0) == ((v / 8) % 2 == 1),
        ((v & 0x40) != 0) == ((v / 64) % 2 == 1),
        ((v & 0x80) != 0) == (v >= 128),
        ((v & 0xF8) != 0) == (v >= 8),
{
}

} // verus!

verus! {

// ---------------------------------------------------------------------------
// Register read-back laws
// ---------------------------------------------------------------------------

/// The bit identities behind the register read-back laws.
proof fn lemma_register_fields(v: u8)
    by (bit_vector)
    ensures
        (((v >> 4) & 0xF) << 4) | (if (v & 0x8) != 0 { 8u8 } else { 0u8 }) | (v & 0x7) == v,
        (((v >> 4) & 0x7) << 4) | (if (v & 0x8) == 0 { 0u8 } else { 0x8u8 }) | (v & 0x7) == v
            & 0x7F,
        (if (v & 0x40) != 0 { 0x40u8 } else { 0u8 }) | (if (v & 0x80) != 0 {
            0x80u8
        } else {
            0u8
        }) == v & 0xC0,
        (((v >> 4) & 0xF) << 4) | (v & 0xF) == v,
        (if (v & 0x80) != 0 { 0x80u8 } else { 0u8 }) == v & 0x80,
        ((v >> 5) & 0x3) == 0 ==> v & 0x60 == 0x00,
        ((v >> 5) & 0x3) == 1 ==> v & 0x60 == 0x20,
        ((v >> 5) & 0x3) == 2 ==> v & 0x60 == 0x40,
        ((v >> 5) & 0x3) == 3 ==> v & 0x60 == 0x60,
        (v >> 4) & 0xF <= 15,
        (v & 0x7) & 0x7 == v & 0x7,
        (v >> 6) & 0x3 == 0 ==> 0x00u8 | (v & 0x3F) == v,
        (v >> 6) & 0x3 == 1 ==> 0x40u8 | (v & 0x3F) == v,
        (v >> 6) & 0x3 == 2 ==> 0x80u8 | (v & 0x3F) == v,
        (v >> 6) & 0x3 == 3 ==> 0xC0u8 | (v & 0x3F) == v,
{
}

/// The period bit identities behind the read-back laws of NR13/NR14.
proof fn lemma_period_fields(p: u16, v: u8)
    by (bit_vector)
    ensures
        (((p & 0xFF00) | (v as u16)) & 0x00FF) as u8 == v,
        (((((v & 0x7) as u16) << 8) | (p & 0x00FF)) >> 8) & 0x7 == (v & 0x7) as u16,
        ((((((v & 0x7) as u16) << 8) | (p & 0x00FF)) >> 8) & 0x7) as u8 | (if (v & 0x40) != 0 {
            0x40u8
        } else {
            0u8
        }) | (if (v & 0x80) != 0 { 0x80u8 } else { 0u8 }) == v & 0xC7,
{
}

/// Reading the volume envelope register gives back the value last written.
pub proof fn lemma_envelope_register_readback(g: EnvelopeGenerator, v: u8)
    ensures
        g.spec_set_volume_envelope(v).spec_volume_envelope() == v,
{
    lemma_register_fields(v);
    let hi = (v >> 4) & 0xF;
    assert((hi as i8) as u8 == hi);
}

/// Reading a register of a pulse generator gives back the value last written,
/// restricted to the bits the register keeps: NR10 keeps bits 6-0, NR12 and
/// NR11 and NR13 all bits, NR14 bits 7, 6 and 2-0.
pub proof fn lemma_pulse_register_readback(g: PulseGenerator, v: u8)
    requires
        g.wf(),
    ensures
        g.spec_set_sweep(v).spec_sweep() == v & 0x7F,
        g.spec_set_length_timer_duty_cycle(v).spec_length_timer_duty_cycle() == v,
        g.spec_set_volume_envelope(v).eg.spec_volume_envelope() == v,
        g.spec_set_period_low(v).spec_period_low() == v,
        g.spec_set_period_high_control(v).spec_period_high_control() == v & 0xC7,
{
    lemma_register_fields(v);
    lemma_u8_nibbles(v);
    lemma_period_fields(g.period, v);
    lemma_envelope_register_readback(g.eg, v);
}

/// Reading a register of the sample generator gives back the value last
/// written, restricted to the bits the register keeps: NR30 bit 7, NR31 and
/// NR33 all bits, NR32 bits 6-5, NR34 bits 7, 6 and 2-0; a wave pattern
/// register of a silent channel gives back its value.
pub proof fn lemma_sample_register_readback(g: SampleGenerator, v: u8, address: usize)
    requires
        g.wf(),
    ensures
        g.spec_set_dac_enable(v).spec_dac_enable() == v & 0x80,
        g.spec_set_length_timer(v).length_timer.initial_length_timer == v,
        g.spec_set_output_level(v).spec_output_level() == v & 0x60,
        g.spec_set_period_low(v).spec_period_low() == v,
        g.spec_set_period_high_control(v).spec_period_high_control() == v & 0xC7,
        !g.enable && is_wave_ram_address(address) ==> g.spec_set_wave_ram(address, v).spec_wave_ram(
            address,
        ) == v,
{
    lemma_register_fields(v);
    lemma_u8_nibbles(v);
    lemma_period_fields(g.period, v);
    if !g.enable && is_wave_ram_address(address) {
        let smpl = 2 * (address - HWREG_CHANNEL3_WAVE_PATTERN_RAM_START);
        let a1 = vstd::array::spec_array_update(g.wave_ram, smpl, (v >> 4) & 0xF);
        let a2 = vstd::array::spec_array_update(a1, smpl + 1, v & 0xF);
        assert(a2@[smpl] == (v >> 4) & 0xF);
        assert(a2@[smpl + 1] == v & 0xF);
    }
}

/// Reading a register of the noise generator gives back the value last
/// written, restricted to the bits the register keeps: NR41 bits 5-0, NR42 and
/// NR43 all bits, NR44 bits 7-6.
pub proof fn lemma_noise_register_readback(g: NoiseGenerator, v: u8)
    requires
        g.wf(),
    ensures
        g.spec_set_length_timer(v).length_timer.initial_length_timer == v & 0x3F,
        g.spec_set_volume_envelope(v).eg.spec_volume_envelope() == v,
        g.spec_set_frequency_randomness(v).spec_frequency_randomness() == v,
        g.spec_set_control(v).spec_control() == v & 0xC0,
{
    lemma_register_fields(v);
    lemma_u8_nibbles(v);
    lemma_envelope_register_readback(g.eg, v);
}


// ---------------------------------------------------------------------------
// Laws over many clock ticks
// ---------------------------------------------------------------------------

/// One more tick of a count `k` taken modulo `p`: the remainder steps up,
/// or wraps to 0 as the quotient steps up.
proof fn lemma_count_step(k: int, p: int)
    requires
        0 <= k,
        p > 0,
    ensures
        0 <= k % p < p,
        k / p >= 0,
        k % p + 1 < p ==> (k + 1) / p == k / p && (k + 1) % p == k % p + 1,
        k % p + 1 == p ==> (k + 1) / p == k / p + 1 && (k + 1) % p == 0,
{
    vstd::arithmetic::div_mod::lemma_fundamental_div_mod(k, p);
    vstd::arithmetic::div_mod::lemma_mod_bound(k, p);
    vstd::arithmetic::div_mod::lemma_div_pos_is_pos(k, p);
    if k % p + 1 < p {
        assert(k + 1 == (k / p) * p + (k % p + 1)) by (nonlinear_arith)
            requires
                k == p * (k / p) + k % p,
        ;
        vstd::arithmetic::div_mod::lemma_fundamental_div_mod_converse(k + 1, p, k / p, k % p + 1);
    } else {
        assert(k + 1 == (k / p + 1) * p + 0) by (nonlinear_arith)
            requires
                k == p * (k / p) + k % p,
                k % p + 1 == p,
        ;
        vstd::arithmetic::div_mod::lemma_fundamental_div_mod_converse(k + 1, p, k / p + 1, 0);
    }
}

/// Clock ticks never change a length timer's initial value, timeout,
/// enable flag or rate; a trigger does not either.
pub proof fn lemma_length_timer_keeps_settings(lt: LengthTimer, k: nat)
    ensures
        lt.spec_ticks(k).initial_length_timer == lt.initial_length_timer,
        lt.spec_ticks(k).timeout == lt.timeout,
        lt.spec_ticks(k).enable == lt.enable,
        lt.spec_ticks(k).update_period == lt.update_period,
        lt.spec_process_trigger().initial_length_timer == lt.initial_length_timer,
        lt.spec_process_trigger().timeout == lt.timeout,
    decreases k,
{
    if k > 0 {
        lemma_length_timer_keeps_settings(lt, (k - 1) as nat);
    }
}

/// A counting length timer started at count `c` (as a trigger leaves it)
/// counts once every `update_period` ticks: after `k` ticks short of
/// `(timeout - c) * update_period` it has not expired and holds
/// `c + k / update_period`.
pub proof fn lemma_length_timer_counts(lt: LengthTimer, k: nat)
    requires
        lt.enable,
        !lt.expired,
        lt.update_period > 0,
        lt.clock_count == 0,
        lt.length_timer < lt.timeout,
        k < (lt.timeout - lt.length_timer) * lt.update_period,
    ensures
        lt.spec_ticks(k) == (LengthTimer {
            length_timer: (lt.length_timer + (k as int) / (lt.update_period as int)) as u16,
            clock_count: ((k as int) % (lt.update_period as int)) as u32,
            ..lt
        }),
    decreases k,
{
    let p = lt.update_period as int;
    let n = (lt.timeout - lt.length_timer) * p;
    if k > 0 {
        let j = (k - 1) as int;
        lemma_length_timer_counts(lt, (k - 1) as nat);
        assert(lt.spec_ticks(k) == lt.spec_ticks((k - 1) as nat).spec_clock_tick());
        let prev = lt.spec_ticks((k - 1) as nat);
        lemma_count_step(j, p);
        let ki = k as int;
        vstd::arithmetic::div_mod::lemma_fundamental_div_mod(ki, p);
        vstd::arithmetic::div_mod::lemma_mod_bound(ki, p);
        assert(ki / p < lt.timeout - lt.length_timer) by (nonlinear_arith)
            requires
                ki < n,
                n == (lt.timeout - lt.length_timer) * p,
                p > 0,
                ki == p * (ki / p) + ki % p,
                0 <= ki % p,
        ;
        assert(j / p <= ki / p);
        assert(prev.length_timer == lt.length_timer + j / p);
        assert(prev.clock_count == j % p);
        if j % p + 1 < p {
            assert(lt.spec_ticks(k).clock_count == ki % p);
            assert(lt.spec_ticks(k).length_timer == lt.length_timer + ki / p);
        } else {
            assert(lt.spec_ticks(k).length_timer == lt.length_timer + ki / p);
            assert(!lt.spec_ticks(k).expired);
            assert(lt.spec_ticks(k).clock_count == ki % p);
        }
    } else {
        vstd::arithmetic::div_mod::lemma_fundamental_div_mod_converse(0, p, 0, 0);
    }
}

/// The length timer of the previous law expires on tick
/// `(timeout - c) * update_period` exactly, and stays expired after it.
pub proof fn lemma_length_timer_expires(lt: LengthTimer, extra: nat)
    requires
        lt.enable,
        !lt.expired,
        lt.update_period > 0,
        lt.clock_count == 0,
        lt.length_timer < lt.timeout,
    ensures
        lt.spec_ticks(((lt.timeout - lt.length_timer) * lt.update_period) as nat).expired,
        lt.spec_ticks(((lt.timeout - lt.length_timer) * lt.update_period + extra) as nat)
            == lt.spec_ticks(((lt.timeout - lt.length_timer) * lt.update_period) as nat),
    decreases extra,
{
    let p = lt.update_period as int;
    let d = lt.timeout - lt.length_timer;
    let n = d * p;
    assert(n >= p) by (nonlinear_arith)
        requires
            n == d * p,
            d >= 1,
            p > 0,
    ;
    let j = n - 1;
    lemma_length_timer_counts(lt, j as nat);
    lemma_count_step(j, p);
    vstd::arithmetic::div_mod::lemma_fundamental_div_mod_converse(n, p, d, 0);
    assert(lt.spec_ticks(n as nat) == lt.spec_ticks(j as nat).spec_clock_tick());
    if extra > 0 {
        lemma_length_timer_expires(lt, (extra - 1) as nat);
        assert(lt.spec_ticks((n + extra) as nat) == lt.spec_ticks((n + extra - 1) as nat).spec_clock_tick());
    }
}

/// A volume clamped to 0..=15.
pub open spec fn spec_clamp_volume(v: int) -> int {
    if v < 0 {
        0
    } else if v > 15 {
        15
    } else {
        v
    }
}

/// A running envelope (as a trigger leaves it: count 0, step +1 or -1)
/// steps its volume once every `volume_update_period` ticks, saturating at
/// 0 and 15: after `k` ticks the volume is the start volume plus
/// `k / volume_update_period` steps, clamped.
pub proof fn lemma_envelope_volume(e: EnvelopeGenerator, k: nat)
    requires
        0 <= e.volume <= 15,
        e.volume_delta == 1 || e.volume_delta == -1,
        e.volume_update_period > 0,
        e.clock_count == 0,
    ensures
        e.spec_ticks(k) == (EnvelopeGenerator {
            volume: spec_clamp_volume(
                e.volume + e.volume_delta * ((k as int) / (e.volume_update_period as int)),
            ) as i8,
            clock_count: ((k as int) % (e.volume_update_period as int)) as u32,
            ..e
        }),
    decreases k,
{
    let p = e.volume_update_period as int;
    if k > 0 {
        let j = (k - 1) as int;
        lemma_envelope_volume(e, (k - 1) as nat);
        lemma_count_step(j, p);
        let q = j / p;
        let d = e.volume_delta as int;
        assert(d * (q + 1) == d * q + d) by (nonlinear_arith);
        assert(e.spec_ticks(k) == e.spec_ticks((k - 1) as nat).spec_clock_tick());
        let prev = e.spec_ticks((k - 1) as nat);
        let ki = k as int;
        assert(prev.clock_count == j % p);
        if j % p + 1 < p {
            assert(e.spec_ticks(k).clock_count == ki % p);
            assert(e.spec_ticks(k).volume == prev.volume);
        } else {
            assert(ki / p == q + 1);
            assert(e.spec_ticks(k).clock_count == ki % p);
            assert(e.spec_ticks(k).volume == spec_clamp_volume(e.volume + d * (q + 1)));
        }
    } else {
        vstd::arithmetic::div_mod::lemma_fundamental_div_mod_converse(0, p, 0, 0);
    }
}


/// Clock ticks leave the registers of a pulse generator as they read:
/// NR11/NR21 and NR12/NR22 always, NR13/NR23 and NR14/NR24 while no period
/// sweep runs (a sweep changes the period).
pub proof fn lemma_pulse_ticks_keep_registers(g: PulseGenerator, k: nat)
    ensures
        g.spec_ticks_1mhz(k).spec_length_timer_duty_cycle() == g.spec_length_timer_duty_cycle(),
        g.spec_ticks_1mhz(k).eg.spec_volume_envelope() == g.eg.spec_volume_envelope(),
        !g.period_update_enable ==> !g.spec_ticks_1mhz(k).period_update_enable,
        !g.period_update_enable ==> g.spec_ticks_1mhz(k).spec_period_low() == g.spec_period_low(),
        !g.period_update_enable ==> g.spec_ticks_1mhz(k).spec_period_high_control()
            == g.spec_period_high_control(),
    decreases k,
{
    if k > 0 {
        lemma_pulse_ticks_keep_registers(g, (k - 1) as nat);
    }
}

/// Clock ticks leave the registers of the sample generator as they read
/// (NR30, NR31, NR32, NR33, NR34) and its wave pattern as stored; a silent
/// channel does not change at all, so its wave pattern registers read back.
pub proof fn lemma_sample_ticks_keep_registers(g: SampleGenerator, k: nat, address: usize)
    ensures
        g.spec_ticks_2mhz(k).spec_dac_enable() == g.spec_dac_enable(),
        g.spec_ticks_2mhz(k).length_timer.initial_length_timer == g.length_timer.initial_length_timer,
        g.spec_ticks_2mhz(k).spec_output_level() == g.spec_output_level(),
        g.spec_ticks_2mhz(k).spec_period_low() == g.spec_period_low(),
        g.spec_ticks_2mhz(k).spec_period_high_control() == g.spec_period_high_control(),
        g.spec_ticks_2mhz(k).wave_ram == g.wave_ram,
        !g.enable ==> g.spec_ticks_2mhz(k) == g,
        !g.enable ==> g.spec_ticks_2mhz(k).spec_wave_ram(address) == g.spec_wave_ram(address),
    decreases k,
{
    if k > 0 {
        lemma_sample_ticks_keep_registers(g, (k - 1) as nat, address);
    }
}

/// Clock ticks leave the registers of the noise generator as they read:
/// NR41 (its initial length), NR42, NR43 and NR44.
pub proof fn lemma_noise_ticks_keep_registers(g: NoiseGenerator, k: nat)
    ensures
        g.spec_ticks_256khz(k).length_timer.initial_length_timer
            == g.length_timer.initial_length_timer,
        g.spec_ticks_256khz(k).eg.spec_volume_envelope() == g.eg.spec_volume_envelope(),
        g.spec_ticks_256khz(k).spec_frequency_randomness() == g.spec_frequency_randomness(),
        g.spec_ticks_256khz(k).spec_control() == g.spec_control(),
    decreases k,
{
    if k > 0 {
        lemma_noise_ticks_keep_registers(g, (k - 1) as nat);
    }
}


// ---------------------------------------------------------------------------
// Laws of the channel outputs
// ---------------------------------------------------------------------------

/// A pulse output step carries the envelope's current volume on the high
/// part of the wave and 0 on the low part, so a running envelope fades or
/// swells the sound (see `lemma_envelope_volume`).
pub proof fn lemma_pulse_output_follows_envelope(g: PulseGenerator)
    requires
        g.wf(),
    ensures
        g.spec_clock_tick_1mhz().1 matches Some(o) ==> {
            &&& spec_pulse_table(g.duty, g.pulse_table_index as int) == 1 ==> o == g.eg.volume
            &&& spec_pulse_table(g.duty, g.pulse_table_index as int) != 1 ==> o == 0
        },
{
}

/// The duty ratios: every step of the 8 step wave is high or low, and the
/// wave is low for 1 (12.5%), 2 (25%), 4 (50%) or 6 (75%) of its steps, the
/// ratio NR11/NR21 selects (the level the DAC inverts).
pub proof fn lemma_duty_ratio(d: DutyRatio, i: int)
    requires
        0 <= i < 8,
    ensures
        spec_pulse_table(d, i) == 0 || spec_pulse_table(d, i) == 1,
        8 - (spec_pulse_table(d, 0) + spec_pulse_table(d, 1) + spec_pulse_table(d, 2)
            + spec_pulse_table(d, 3) + spec_pulse_table(d, 4) + spec_pulse_table(d, 5)
            + spec_pulse_table(d, 6) + spec_pulse_table(d, 7)) == match d {
            DutyRatio::Duty125 => 1int,
            DutyRatio::Duty250 => 2int,
            DutyRatio::Duty500 => 4int,
            DutyRatio::Duty750 => 6int,
        },
{
}

/// The noise shift register has XNOR feedback: one shift moves every bit
/// down by one, and the bit entering at the top (bit 14; in 7 bit mode also
/// bit 6) is 1 exactly when bits 0 and 1 were equal. So a cleared register
/// fills with ones and the channel makes noise.
pub proof fn lemma_lfsr_feedback(lfsr: u16)
    ensures
        ({
            let r = NoiseGenerator::spec_lfsr_step(lfsr, 0x8000);
            let fb = (lfsr & 1) == ((lfsr >> 1) & 1);
            &&& r & 0x3FFF == (lfsr >> 1) & 0x3FFF
            &&& ((r >> 14) & 1 == 1) == fb
            &&& r < 0x8000
        }),
        ({
            let r = NoiseGenerator::spec_lfsr_step(lfsr, 0x8080);
            let fb = (lfsr & 1) == ((lfsr >> 1) & 1);
            &&& r & 0x3FBF == (lfsr >> 1) & 0x3FBF
            &&& ((r >> 14) & 1 == 1) == fb
            &&& ((r >> 6) & 1 == 1) == fb
            &&& r < 0x8000
        }),
        NoiseGenerator::spec_lfsr_step(0, 0x8000) == 0x4000,
        NoiseGenerator::spec_lfsr_step(0, 0x8080) == 0x4040,
{
    let l0 = lfsr & 1;
    let l1 = (lfsr >> 1) & 1;
    assert({
        &&& l0 == l1 ==> ((lfsr | 0x8000) >> 1) & 0x3FFF == (lfsr >> 1) & 0x3FFF && ((((lfsr
            | 0x8000) >> 1) >> 14) & 1 == 1) && ((lfsr | 0x8000) >> 1) < 0x8000
        &&& l0 != l1 ==> ((lfsr & !0x8000u16) >> 1) & 0x3FFF == (lfsr >> 1) & 0x3FFF && ((((lfsr
            & !0x8000u16) >> 1) >> 14) & 1 == 0) && ((lfsr & !0x8000u16) >> 1) < 0x8000
        &&& l0 == l1 ==> ((lfsr | 0x8080) >> 1) & 0x3FBF == (lfsr >> 1) & 0x3FBF && ((((lfsr
            | 0x8080) >> 1) >> 14) & 1 == 1) && ((((lfsr | 0x8080) >> 1) >> 6) & 1 == 1) && ((lfsr
            | 0x8080) >> 1) < 0x8000
        &&& l0 != l1 ==> ((lfsr & !0x8080u16) >> 1) & 0x3FBF == (lfsr >> 1) & 0x3FBF && ((((lfsr
            & !0x8080u16) >> 1) >> 14) & 1 == 0) && ((((lfsr & !0x8080u16) >> 1) >> 6) & 1 == 0)
            && ((lfsr & !0x8080u16) >> 1) < 0x8000
        &&& (0u16 & 1) == ((0u16 >> 1) & 1)
        &&& (0u16 | 0x8000) >> 1 == 0x4000
        &&& (0u16 | 0x8080) >> 1 == 0x4040
    }) by (bit_vector)
        requires
            l0 == lfsr & 1,
            l1 == (lfsr >> 1) & 1,
    ;
}

/// A noise output step is the envelope's current volume when bit 1 of the
/// shift register is set and 0 otherwise, and the register shifts once.
pub proof fn lemma_noise_output(g: NoiseGenerator)
    requires
        g.wf(),
    ensures
        g.spec_clock_tick_256khz().1 matches Some(o) ==> {
            &&& o == (if (g.lfsr >> 1) & 1 != 0 { g.eg.volume as u8 } else { 0u8 })
            &&& g.spec_clock_tick_256khz().0.lfsr == NoiseGenerator::spec_lfsr_step(
                g.lfsr,
                g.lfsr_mask,
            )
        },
        g.spec_clock_tick_256khz().1 is None ==> g.spec_clock_tick_256khz().0.lfsr == g.lfsr,
{
}

/// The wave channel steps through all 32 samples of wave RAM in turn: an
/// output plays the sample at the current index and moves to the next one,
/// wrapping from 31 to 0; between outputs the index stays.
pub proof fn lemma_wave_channel_steps(g: SampleGenerator)
    requires
        g.wf(),
    ensures
        g.spec_clock_tick_2mhz().1 matches Some(o) ==> {
            &&& o == g.wave_ram@[g.wave_ram_index as int] >> g.output_level_shift
            &&& g.spec_clock_tick_2mhz().0.wave_ram_index == (g.wave_ram_index + 1) % 32
        },
        g.spec_clock_tick_2mhz().1 is None ==> g.spec_clock_tick_2mhz().0.wave_ram_index
            == g.wave_ram_index,
        g.wave_ram_index < 31 ==> (g.wave_ram_index + 1) % 32 == g.wave_ram_index + 1,
        g.wave_ram_index == 31 ==> (g.wave_ram_index + 1) % 32 == 0,
{
}

/// NR32 scales a wave sample `x` (0..=15): level 0 mutes it, 1 plays it as
/// it is, 2 at half and 3 at a quarter.
pub proof fn lemma_wave_output_level(value: u8, x: u8)
    requires
        x <= 15,
    ensures
        (value >> 5) & 0x3 == 0 ==> x >> spec_output_level_shift(value) == 0,
        (value >> 5) & 0x3 == 1 ==> x >> spec_output_level_shift(value) == x,
        (value >> 5) & 0x3 == 2 ==> x >> spec_output_level_shift(value) == x / 2,
        (value >> 5) & 0x3 == 3 ==> x >> spec_output_level_shift(value) == x / 4,
{
    assert(x <= 15 ==> x >> 4u8 == 0 && x >> 0u8 == x && x >> 1u8 == x / 2 && x >> 2u8 == x / 4)
        by (bit_vector);
}


/// A trigger starts the envelope as the volume envelope register `v` says:
/// at the initial volume `v / 16`, stepping up when bit 3 is set and down
/// otherwise, once every `v % 8` periods of 64 Hz; pace 0 keeps it still.
pub proof fn lemma_envelope_trigger(e: EnvelopeGenerator, v: u8)
    requires
        e.wf(),
    ensures
        ({
            let t = e.spec_set_volume_envelope(v).spec_process_trigger();
            &&& t.volume == v / 16
            &&& t.volume_delta == (if v & 0x8 != 0 { 1int } else { -1int })
            &&& t.volume_update_period == (v % 8) * e.update_period
            &&& t.clock_count == 0
        }),
{
    lemma_u8_nibbles(v);
    assert((v % 8) * e.update_period <= 7 * 0x1000_0000) by (nonlinear_arith)
        requires
            v % 8 <= 7,
            e.update_period <= 0x1000_0000,
    ;
}

/// NR43 = `v` sets the noise clock: the register shifts every `r * 2^s`
/// ticks of 256 kHz for divider code `r` = `v % 8` (1..=7) and shift
/// `s` = `v / 16`, every `2^(s - 1)` ticks for `r` = 0 (half a unit), and
/// runs 7 bit when bit 3 is set.
pub proof fn lemma_noise_clock(g: NoiseGenerator, v: u8)
    ensures
        ({
            let t = g.spec_set_frequency_randomness(v);
            let r = v % 8;
            let sh = v / 16;
            &&& r != 0 ==> t.lfsr_update_period == r * vstd::arithmetic::power2::pow2(sh as nat)
            &&& r == 0 && sh >= 1 ==> t.lfsr_update_period == vstd::arithmetic::power2::pow2(
                (sh - 1) as nat,
            )
            &&& r == 0 && sh == 0 ==> t.lfsr_update_period == 0
            &&& t.lfsr_short_mode == (v & 0x8 != 0)
            &&& t.lfsr_mask == (if v & 0x8 != 0 { 0x8080u16 } else { 0x8000u16 })
        }),
{
    lemma_u8_nibbles(v);
    let sh = v / 16;
    vstd::arithmetic::power2::lemma_pow2_pos(sh as nat);
    vstd::arithmetic::power2::lemma2_to64();
    if sh >= 1 {
        vstd::arithmetic::power2::lemma_pow2_unfold(sh as nat);
    }
    if sh <= 15 {
        vstd::arithmetic::power2::lemma_pow2_strictly_increases(sh as nat, 16);
    }
    assert(v % 8 * vstd::arithmetic::power2::pow2(sh as nat) <= 7 * 0x10000) by (nonlinear_arith)
        requires
            v % 8 <= 7,
            vstd::arithmetic::power2::pow2(sh as nat) <= 0x10000,
    ;
}


/// The 11 bit period two register writes give: NR13 (or NR33) = `lo` is its
/// low byte and bits 2-0 of NR14 (or NR34) = `hi` its high bits.
proof fn lemma_period_of_writes(p: u16, lo: u8, hi: u8)
    ensures
        ((((hi & 0x7) as u16) << 8) | (((p & 0xFF00) | (lo as u16)) & 0x00FF)) as int == (hi % 8)
            * 256 + lo,
{
    assert(((((hi & 0x7) as u16) << 8) | (((p & 0xFF00) | (lo as u16)) & 0x00FF)) == ((hi % 8)
        * 256 + lo) as u16) by (bit_vector);
}

/// Writing NR13 = `lo` and then NR14 = `hi` with the trigger bit starts a
/// pulse channel with period `(hi % 8) * 256 + lo`: it sounds, and its wave
/// steps once every `2048 - period` ticks; each step moves to the next of
/// the 8 steps of the wave.
pub proof fn lemma_pulse_trigger_period(g: PulseGenerator, lo: u8, hi: u8)
    requires
        g.wf(),
        hi & 0x80 != 0,
    ensures
        ({
            let t = g.spec_set_period_low(lo).spec_set_period_high_control(hi);
            &&& t.period == (hi % 8) * 256 + lo
            &&& t.sample_update_period == 2048 - t.period
            &&& t.enable
        }),
        g.spec_clock_tick_1mhz().1 is Some ==> g.spec_clock_tick_1mhz().0.pulse_table_index == (
        g.pulse_table_index + 1) % 8,
{
    lemma_period_of_writes(g.period, lo, hi);
}

/// Writing NR33 = `lo` and then NR34 = `hi` with the trigger bit starts the
/// wave channel with period `(hi % 8) * 256 + lo`: it sounds from sample 1,
/// and steps once every `2048 - period` ticks.
pub proof fn lemma_wave_trigger_period(g: SampleGenerator, lo: u8, hi: u8)
    requires
        g.wf(),
        hi & 0x80 != 0,
    ensures
        ({
            let t = g.spec_set_period_low(lo).spec_set_period_high_control(hi);
            &&& t.period == (hi % 8) * 256 + lo
            &&& t.sample_update_period == 2048 - t.period
            &&& t.enable
            &&& t.wave_ram_index == 1
        }),
{
    lemma_period_of_writes(g.period, lo, hi);
}

} // verus!
