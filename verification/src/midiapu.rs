//! A sound unit that reports the sound registers as MIDI: channel
//! messages with running status, collected per output period and handed
//! out in one batch.
//!
//! The note numbers, expressions and pitch bends come from floating-point
//! conversions of the channel volume and frequency, which are made outside
//! this crate and handed in: `write_register` says when a note-on is due,
//! and `tick_generators` when the periodic update is due.
use vstd::prelude::*;
use vstd::array::spec_array_update;
use crate::types::{
    Pan, HWREG_CHANNEL3_WAVE_PATTERN_RAM_END, HWREG_CHANNEL3_WAVE_PATTERN_RAM_START,
    HWREG_NR10_CHANNEL1_SWEEP, HWREG_NR11_CHANNEL1_LENGTH_TIMER_DURY_CYCLE,
    HWREG_NR12_CHANNEL1_VOLUME_ENVELOPE, HWREG_NR13_CHANNEL1_PERIOD_LOW,
    HWREG_NR14_CHANNEL1_PERIOD_HIGH_CONTROL, HWREG_NR21_CHANNEL2_LENGTH_TIMER_DURY_CYCLE,
    HWREG_NR22_CHANNEL2_VOLUME_ENVELOPE, HWREG_NR23_CHANNEL2_PERIOD_LOW,
    HWREG_NR24_CHANNEL2_PERIOD_HIGH_CONTROL, HWREG_NR30_CHANNEL3_DAC_ENABLE,
    HWREG_NR31_CHANNEL3_LENGTH_TIMER, HWREG_NR32_CHANNEL3_OUTPUT_LEVEL,
    HWREG_NR33_CHANNEL3_PERIOD_HIGH_CONTROL, HWREG_NR33_CHANNEL3_PERIOD_LOW,
    HWREG_NR41_CHANNEL4_LENGTH_TIMER, HWREG_NR42_CHANNEL4_VOLUME_ENVELOPE,
    HWREG_NR43_CHANNEL4_FREQUENCY_RANDOMNESS, HWREG_NR44_CHANNEL4_CONTROL,
    HWREG_NR50_MASTER_VOLUME_VIN_PANNING, HWREG_NR51_SOUND_PANNING,
    HWREG_NR52_AUDIO_MASTER_CONTROL,
};
use crate::apu::{nr51_of, pan_of, spec_nr51_prefix, spec_pan_of};
use crate::sound_generator::{is_wave_ram_address, NoiseGenerator, PulseGenerator, SampleGenerator};

verus! {

/// Most MIDI messages one output holds.
pub const MAX_NUM_MIDI_OUTPUT_MESSAGES: usize = 100;

/// A MIDI message.
#[derive(Debug, Clone, Copy)]
pub struct MIDIMessage {
    /// The bytes; the first `length` of them are the message.
    pub data: [u8; 3],
    /// Number of bytes.
    pub length: usize,
    /// Time of the message in 2 MHz clock ticks.
    pub clock_tick_2mhz: u64,
}

/// A batch of MIDI messages.
#[derive(Debug, Clone, Copy)]
pub struct MIDIOutput {
    /// The messages; the first `num_messages` of them are in the batch.
    pub messages: [MIDIMessage; 100],
    /// Number of messages.
    pub num_messages: usize,
}

/// Whether `m` is the empty message: no bytes, all zero, at time zero.
pub open spec fn spec_is_empty_message(m: MIDIMessage) -> bool {
    &&& m.length == 0
    &&& m.clock_tick_2mhz == 0
    &&& m.data@ == seq![0u8, 0u8, 0u8]
}

/// The bytes a channel message `data` is sent as after status byte
/// `status`: without its status byte when that repeats (running status).
pub open spec fn spec_running_status_bytes(status: u8, data: Seq<u8>) -> Seq<u8> {
    if data[0] == status {
        data.subrange(1, data.len() as int)
    } else {
        data
    }
}

/// Whether message `m` holds `bytes` at its start, the rest of `old` after
/// them, and time `clock`.
pub open spec fn spec_message_filled(m: MIDIMessage, old: MIDIMessage, bytes: Seq<u8>, clock: u64) -> bool {
    &&& m.length == bytes.len()
    &&& m.clock_tick_2mhz == clock
    &&& forall|i: int| 0 <= i < 3 ==> m.data@[i] == (if i < bytes.len() {
        bytes[i]
    } else {
        old.data@[i]
    })
}

/// The controller values a channel placement is sent as: pan position and
/// channel volume (a silenced channel keeps the center and gets volume 0).
pub open spec fn spec_midi_pan_volume(pan: Pan) -> (u8, u8) {
    match pan {
        Pan::Center => (64, 127),
        Pan::Left => (0, 127),
        Pan::Right => (127, 127),
        Pan::Ignore => (64, 0),
    }
}

/// The controller values a channel placement is sent as: pan position and
/// channel volume.
pub fn midi_pan_volume(pan: Pan) -> (r: (u8, u8))
    ensures
        r == spec_midi_pan_volume(pan),
{
    match pan {
        Pan::Center => (64, 127),
        Pan::Left => (0, 127),
        Pan::Right => (127, 127),
        Pan::Ignore => (64, 0),
    }
}

/// The sent list after the messages `msgs` are sent in order at time
/// `clock`, starting from the sent list `sent` and status byte `status`,
/// each with running status; and the status byte after them.
pub open spec fn spec_send_all(
    sent: Seq<(Seq<u8>, u64)>,
    status: u8,
    clock: u64,
    msgs: Seq<Seq<u8>>,
) -> (Seq<(Seq<u8>, u64)>, u8)
    decreases msgs.len(),
{
    if msgs.len() == 0 {
        (sent, status)
    } else {
        let (s, st) = spec_send_all(sent, status, clock, msgs.drop_last());
        (s.push((spec_running_status_bytes(st, msgs.last()), clock)), msgs.last()[0])
    }
}

/// Sending `a` and then `b` is sending `a + b`.
pub proof fn lemma_send_all_append(
    sent: Seq<(Seq<u8>, u64)>,
    status: u8,
    clock: u64,
    a: Seq<Seq<u8>>,
    b: Seq<Seq<u8>>,
)
    ensures
        spec_send_all(sent, status, clock, a + b) == ({
            let (s, st) = spec_send_all(sent, status, clock, a);
            spec_send_all(s, st, clock, b)
        }),
    decreases b.len(),
{
    if b.len() == 0 {
        assert(a + b =~= a);
    } else {
        lemma_send_all_append(sent, status, clock, a, b.drop_last());
        assert((a + b).drop_last() =~= a + b.drop_last());
        assert((a + b).last() == b.last());
    }
}

impl MIDIOutput {
    /// The invariant: at most `MAX_NUM_MIDI_OUTPUT_MESSAGES` messages, each
    /// of at most three bytes.
    pub open spec fn wf(&self) -> bool {
        &&& self.num_messages <= MAX_NUM_MIDI_OUTPUT_MESSAGES
        &&& forall|i: int| 0 <= i < self.num_messages ==> #[trigger] self.messages@[i].length <= 3
    }

    /// The messages in the batch: their bytes and times.
    pub open spec fn spec_sent(&self) -> Seq<(Seq<u8>, u64)> {
        Seq::new(
            self.num_messages as nat,
            |i: int|
                (
                    self.messages@[i].data@.subrange(0, self.messages@[i].length as int),
                    self.messages@[i].clock_tick_2mhz,
                ),
        )
    }

    /// An empty batch.
    pub fn new() -> (r: Self)
        ensures
            r.wf(),
            r.spec_sent() == Seq::<(Seq<u8>, u64)>::empty(),
            r.num_messages == 0,
            r.messages@.len() == MAX_NUM_MIDI_OUTPUT_MESSAGES,
            forall|i: int|
                0 <= i < MAX_NUM_MIDI_OUTPUT_MESSAGES ==> spec_is_empty_message(
                    #[trigger] r.messages@[i],
                ),
    {
        let r = MIDIOutput {
            messages: [MIDIMessage { data: [0u8; 3], length: 0, clock_tick_2mhz: 0 }; 100],
            num_messages: 0,
        };
        assert(r.messages[0].data@ =~= seq![0u8, 0u8, 0u8]);
        r
    }

    /// Appends channel message `data` at time `clock_tick_2mhz`, leaving out
    /// its status byte when it equals `status_byte`, the status byte of the
    /// message sent before (running status). Returns the status byte of
    /// this message.
    pub fn push_channel_message(&mut self, status_byte: u8, clock_tick_2mhz: u64, data: &[u8]) -> (r: u8)
        requires
            1 <= data@.len() <= 3,
            old(self).num_messages < MAX_NUM_MIDI_OUTPUT_MESSAGES,
        ensures
            r == data@[0],
            old(self).wf() ==> final(self).wf(),
            old(self).wf() ==> (final(self).spec_sent(), r) == spec_send_all(
                old(self).spec_sent(),
                status_byte,
                clock_tick_2mhz,
                seq![data@],
            ),
            final(self).num_messages == old(self).num_messages + 1,
            final(self).messages@ == old(self).messages@.update(
                old(self).num_messages as int,
                final(self).messages@[old(self).num_messages as int],
            ),
            spec_message_filled(
                final(self).messages@[old(self).num_messages as int],
                old(self).messages@[old(self).num_messages as int],
                spec_running_status_bytes(status_byte, data@),
                clock_tick_2mhz,
            ),
    {
        let ghost old_sent = self.spec_sent();
        let n = self.num_messages;
        let length = data.len();
        let mut message = self.messages[n];
        let ghost old_message = message;
        if status_byte == data[0] {
            // running status: the status byte is left out
            let mut i: usize = 0;
            while i < length - 1
                invariant
                    1 <= length <= 3,
                    length == data@.len(),
                    i <= length - 1,
                    message.data@.len() == 3,
                    forall|j: int| 0 <= j < 3 ==> message.data@[j] == (if j < i {
                        data@[j + 1]
                    } else {
                        old_message.data@[j]
                    }),
                decreases length - 1 - i,
            {
                message.data[i] = data[i + 1];
                i += 1;
            }
            message.length = length - 1;
        } else {
            let mut i: usize = 0;
            while i < length
                invariant
                    1 <= length <= 3,
                    length == data@.len(),
                    i <= length,
                    message.data@.len() == 3,
                    forall|j: int| 0 <= j < 3 ==> message.data@[j] == (if j < i {
                        data@[j]
                    } else {
                        old_message.data@[j]
                    }),
                decreases length - i,
            {
                message.data[i] = data[i];
                i += 1;
            }
            message.length = length;
        }
        message.clock_tick_2mhz = clock_tick_2mhz;
        self.messages[n] = message;
        self.num_messages = n + 1;
        proof {
            let msgs = seq![data@];
            assert(msgs.drop_last() =~= Seq::<Seq<u8>>::empty());
            assert(spec_send_all(old_sent, status_byte, clock_tick_2mhz, msgs.drop_last()) == (
            old_sent, status_byte));
            assert(msgs.last() == data@);
            let bytes = spec_running_status_bytes(status_byte, data@);
            assert(message.data@.subrange(0, message.length as int) =~= bytes);
            if old(self).wf() {
                assert(self.spec_sent() =~= old_sent.push((bytes, clock_tick_2mhz)));
            }
        }
        data[0]
    }

    /// Hands out the batch: a copy of the messages collected so far, the
    /// other slots empty; the buffer is then emptied.
    pub fn compute_output(&mut self) -> (r: MIDIOutput)
        requires
            old(self).num_messages <= MAX_NUM_MIDI_OUTPUT_MESSAGES,
        ensures
            old(self).wf() ==> r.wf() && r.spec_sent() == old(self).spec_sent(),
            final(self).wf(),
            final(self).spec_sent() == Seq::<(Seq<u8>, u64)>::empty(),
            r.num_messages == old(self).num_messages,
            r.messages@.len() == MAX_NUM_MIDI_OUTPUT_MESSAGES,
            forall|i: int|
                0 <= i < old(self).num_messages ==> r.messages@[i] == old(self).messages@[i],
            forall|i: int|
                old(self).num_messages <= i < MAX_NUM_MIDI_OUTPUT_MESSAGES
                    ==> spec_is_empty_message(#[trigger] r.messages@[i]),
            final(self).num_messages == 0,
            final(self).messages == old(self).messages,
    {
        let mut ret = MIDIOutput::new();
        let n = self.num_messages;
        let mut i: usize = 0;
        while i < n
            invariant
                i <= n <= MAX_NUM_MIDI_OUTPUT_MESSAGES,
                ret.messages@.len() == 100,
                forall|j: int| 0 <= j < i ==> ret.messages@[j] == self.messages@[j],
                forall|j: int|
                    i <= j < MAX_NUM_MIDI_OUTPUT_MESSAGES ==> spec_is_empty_message(
                        #[trigger] ret.messages@[j],
                    ),
            decreases n - i,
        {
            ret.messages[i] = self.messages[i];
            i += 1;
        }
        ret.num_messages = self.num_messages;
        proof {
            if self.wf() {
                assert(ret.spec_sent() =~= self.spec_sent());
            }
        }
        self.num_messages = 0;
        proof {
            assert(self.spec_sent() =~= Seq::<(Seq<u8>, u64)>::empty());
        }
        ret
    }
}

/// MIDI status: note on.
pub const MIDIMSG_NOTE_ON: u8 = 0x90;

/// MIDI status: note off.
pub const MIDIMSG_NOTE_OFF: u8 = 0x80;

/// MIDI status: control change.
pub const MIDIMSG_CONTROL_CHANGE: u8 = 0xB0;

/// MIDI status: pitch bend.
pub const MIDIMSG_PITCH_BEND: u8 = 0xE0;

/// MIDI controller: channel volume.
pub const MIDICC_CHANNEL_VOLUME: u8 = 0x07;

/// MIDI controller: pan.
pub const MIDICC_PANPOT: u8 = 0x0A;

/// MIDI controller: expression.
pub const MIDICC_EXPRESSION: u8 = 0x0B;

/// The pitch bend sent with a note on (the center).
pub const NOTEON_PITCH_BEND: u16 = 8192;

/// The velocity of a note on.
pub const NOTEON_VELOCITY: u8 = 127;

/// Default rate of the periodic MIDI update (Hz).
pub const MIDIAPU_DEFAULT_UPDATE_PERIOD_HZ: u64 = 64;

/// What has been sent to MIDI for a channel.
#[derive(Debug, Clone, Copy)]
pub struct MIDIChannelStatus {
    /// Whether the channel's messages are held back.
    pub mute: bool,
    /// Whether a note sounds.
    pub noteon: bool,
    /// The sounding note.
    pub noteno: u8,
    /// The pitch bend last sent.
    pub pitch_bend: u16,
    /// The expression last sent.
    pub expression: u8,
    /// The pan last sent.
    pub pan: u8,
    /// The channel volume last sent.
    pub volume: u8,
}

/// A sound unit that reports the sound registers as MIDI.
pub struct MIDIAPU {
    /// Whether sound is on (NR52 bit 7).
    pub audio_on: bool,
    /// Placement of each channel.
    pub ch_pan: [Pan; 4],
    /// Master volume of the left and the right output (0..=7).
    pub master_volume: [u8; 2],
    /// CH1.
    pub pulse_generator_ch1: PulseGenerator,
    /// CH2.
    pub pulse_generator_ch2: PulseGenerator,
    /// CH3.
    pub sample_generator: SampleGenerator,
    /// CH4.
    pub noise_generator: NoiseGenerator,
    /// The messages collected for the next batch.
    pub message_buffer: MIDIOutput,
    /// What has been sent for each channel.
    pub apu_ch_status: [MIDIChannelStatus; 4],
    /// The status byte of the last message (for running status).
    pub status_byte: u8,
    /// 2 MHz ticks between the periodic updates.
    pub midi_update_period_cycles: u64,
    /// 2 MHz ticks since creation (wraps).
    pub clock_count: u64,
}

/// The status `st` of channel `ch` once NR51 = `value` has placed it: the
/// pan and channel volume of its new placement are what was last sent.
pub open spec fn spec_panned(st: MIDIChannelStatus, value: u8, ch: int) -> MIDIChannelStatus {
    let (pan, volume) = spec_midi_pan_volume(spec_pan_of(value, ch));
    MIDIChannelStatus { pan, volume, ..st }
}

/// `msgs`, or nothing for a muted channel.
pub open spec fn spec_unless_muted(mute: bool, msgs: Seq<Seq<u8>>) -> Seq<Seq<u8>> {
    if mute {
        seq![]
    } else {
        msgs
    }
}

/// `seq![m]` when `cond` holds, else nothing.
pub open spec fn spec_message_if(cond: bool, m: Seq<u8>) -> Seq<Seq<u8>> {
    if cond {
        seq![m]
    } else {
        seq![]
    }
}

/// Sending adds one entry per message to the sent list.
pub proof fn lemma_send_all_len(sent: Seq<(Seq<u8>, u64)>, status: u8, clock: u64, msgs: Seq<Seq<u8>>)
    ensures
        spec_send_all(sent, status, clock, msgs).0.len() == sent.len() + msgs.len(),
    decreases msgs.len(),
{
    if msgs.len() > 0 {
        lemma_send_all_len(sent, status, clock, msgs.drop_last());
    }
}

/// The MIDI pan of a placement runs from hard left (0) through the center
/// (64, the middle of 0..=127) to hard right (127); a channel routed
/// nowhere keeps the center and is silenced (volume 0), every other one
/// plays at full volume (127).
pub proof fn lemma_pan_positions(pan: Pan)
    ensures
        spec_midi_pan_volume(Pan::Left).0 < spec_midi_pan_volume(Pan::Center).0 < spec_midi_pan_volume(
            Pan::Right,
        ).0,
        spec_midi_pan_volume(Pan::Left).0 == 0,
        spec_midi_pan_volume(Pan::Right).0 == 127,
        2 * spec_midi_pan_volume(Pan::Center).0 == 128,
        spec_midi_pan_volume(Pan::Ignore).0 == spec_midi_pan_volume(Pan::Center).0,
        (spec_midi_pan_volume(pan).1 == 0) == (pan == Pan::Ignore),
        pan != Pan::Ignore ==> spec_midi_pan_volume(pan).1 == 127,
{
}

/// Writing NR51 again with the value just written sends nothing: each
/// channel's pan and channel volume were recorded as sent.
pub proof fn lemma_panning_settles(unit: MIDIAPU, value: u8)
    ensures
        unit.spec_write_units(HWREG_NR51_SOUND_PANNING, value).spec_register_messages(
            HWREG_NR51_SOUND_PANNING,
            value,
        ) == Seq::<Seq<u8>>::empty(),
{
    let u = unit.spec_write_units(HWREG_NR51_SOUND_PANNING, value);
    reveal_with_fuel(MIDIAPU::spec_panning_messages, 5);
    assert(u.spec_pan_messages(value, 0) =~= Seq::<Seq<u8>>::empty());
    assert(u.spec_pan_messages(value, 1) =~= Seq::<Seq<u8>>::empty());
    assert(u.spec_pan_messages(value, 2) =~= Seq::<Seq<u8>>::empty());
    assert(u.spec_pan_messages(value, 3) =~= Seq::<Seq<u8>>::empty());
    assert(u.spec_panning_messages(value, 4) =~= Seq::<Seq<u8>>::empty());
}

/// Once the periodic update has run, running it again on the same channel
/// volumes and frequencies sends nothing: every stopped note was turned off
/// and every sounding one already carries that expression and pitch bend.
pub proof fn lemma_update_settles(unit: MIDIAPU, expression: [u8; 2], pitch_bend: [u16; 2])
    ensures
        unit.spec_with_status(unit.spec_update_status(expression, pitch_bend)).spec_update_messages(
            expression,
            pitch_bend,
        ) == Seq::<Seq<u8>>::empty(),
{
    let u = unit.spec_with_status(unit.spec_update_status(expression, pitch_bend));
    let (s1, s2, s3) = u.spec_update_stages(expression, pitch_bend);
    assert(u.spec_note_off_messages(0) =~= Seq::<Seq<u8>>::empty());
    assert(s1.spec_note_off_messages(1) =~= Seq::<Seq<u8>>::empty());
    assert(s2.spec_refresh_messages(0, expression@[0], pitch_bend@[0]) =~= Seq::<Seq<u8>>::empty());
    assert(s3.spec_refresh_messages(1, expression@[1], pitch_bend@[1]) =~= Seq::<Seq<u8>>::empty());
    assert(u.spec_update_messages(expression, pitch_bend) =~= Seq::<Seq<u8>>::empty());
}

impl MIDIAPU {
    /// The invariant: every generator and the buffer keep their own.
    pub open spec fn wf(&self) -> bool {
        &&& self.pulse_generator_ch1.wf()
        &&& self.pulse_generator_ch2.wf()
        &&& self.sample_generator.wf()
        &&& self.noise_generator.wf()
        &&& self.message_buffer.wf()
    }

    /// The sent list and status byte after `msgs` are sent now.
    pub open spec fn spec_after_sending(&self, msgs: Seq<Seq<u8>>) -> (Seq<(Seq<u8>, u64)>, u8) {
        spec_send_all(self.message_buffer.spec_sent(), self.status_byte, self.clock_count, msgs)
    }

    /// The controller messages NR51 = `value` sends for channel `ch`: the
    /// pan and the channel volume of its new placement, where they differ
    /// from what was last sent.
    pub open spec fn spec_pan_messages(&self, value: u8, ch: int) -> Seq<Seq<u8>> {
        let st = self.apu_ch_status@[ch];
        let (pan, volume) = spec_midi_pan_volume(spec_pan_of(value, ch));
        let c = MIDIMSG_CONTROL_CHANGE | (ch as u8);
        spec_unless_muted(
            st.mute,
            spec_message_if(st.pan != pan, seq![c, MIDICC_PANPOT, pan]) + spec_message_if(
                st.volume != volume,
                seq![c, MIDICC_CHANNEL_VOLUME, volume],
            ),
        )
    }

    /// The messages NR51 = `value` sends for channels 0 to `n` - 1.
    pub open spec fn spec_panning_messages(&self, value: u8, n: int) -> Seq<Seq<u8>>
        decreases n,
    {
        if n <= 0 {
            seq![]
        } else {
            self.spec_panning_messages(value, n - 1) + self.spec_pan_messages(value, n - 1)
        }
    }

    /// The messages a write of `value` to `address` sends.
    pub open spec fn spec_register_messages(&self, address: usize, value: u8) -> Seq<Seq<u8>> {
        if address == HWREG_NR51_SOUND_PANNING {
            self.spec_panning_messages(value, 4)
        } else {
            seq![]
        }
    }

    /// The unit after `value` is written to `address`, the messages aside:
    /// the generators take their registers; NR50 sets the master volumes;
    /// NR51 the placements; NR52 switches sound and each channel on or off.
    pub open spec fn spec_write_units(self, address: usize, value: u8) -> MIDIAPU {
        if address == HWREG_NR10_CHANNEL1_SWEEP {
            MIDIAPU { pulse_generator_ch1: self.pulse_generator_ch1.spec_set_sweep(value), ..self }
        } else if address == HWREG_NR11_CHANNEL1_LENGTH_TIMER_DURY_CYCLE {
            MIDIAPU {
                pulse_generator_ch1: self.pulse_generator_ch1.spec_set_length_timer_duty_cycle(value),
                ..self
            }
        } else if address == HWREG_NR12_CHANNEL1_VOLUME_ENVELOPE {
            MIDIAPU {
                pulse_generator_ch1: self.pulse_generator_ch1.spec_set_volume_envelope(value),
                ..self
            }
        } else if address == HWREG_NR13_CHANNEL1_PERIOD_LOW {
            MIDIAPU { pulse_generator_ch1: self.pulse_generator_ch1.spec_set_period_low(value), ..self }
        } else if address == HWREG_NR14_CHANNEL1_PERIOD_HIGH_CONTROL {
            MIDIAPU {
                pulse_generator_ch1: self.pulse_generator_ch1.spec_set_period_high_control(value),
                ..self
            }
        } else if address == HWREG_NR21_CHANNEL2_LENGTH_TIMER_DURY_CYCLE {
            MIDIAPU {
                pulse_generator_ch2: self.pulse_generator_ch2.spec_set_length_timer_duty_cycle(value),
                ..self
            }
        } else if address == HWREG_NR22_CHANNEL2_VOLUME_ENVELOPE {
            MIDIAPU {
                pulse_generator_ch2: self.pulse_generator_ch2.spec_set_volume_envelope(value),
                ..self
            }
        } else if address == HWREG_NR23_CHANNEL2_PERIOD_LOW {
            MIDIAPU { pulse_generator_ch2: self.pulse_generator_ch2.spec_set_period_low(value), ..self }
        } else if address == HWREG_NR24_CHANNEL2_PERIOD_HIGH_CONTROL {
            MIDIAPU {
                pulse_generator_ch2: self.pulse_generator_ch2.spec_set_period_high_control(value),
                ..self
            }
        } else if address == HWREG_NR30_CHANNEL3_DAC_ENABLE {
            MIDIAPU { sample_generator: self.sample_generator.spec_set_dac_enable(value), ..self }
        } else if address == HWREG_NR31_CHANNEL3_LENGTH_TIMER {
            MIDIAPU { sample_generator: self.sample_generator.spec_set_length_timer(value), ..self }
        } else if address == HWREG_NR32_CHANNEL3_OUTPUT_LEVEL {
            MIDIAPU { sample_generator: self.sample_generator.spec_set_output_level(value), ..self }
        } else if address == HWREG_NR33_CHANNEL3_PERIOD_LOW {
            MIDIAPU { sample_generator: self.sample_generator.spec_set_period_low(value), ..self }
        } else if address == HWREG_NR33_CHANNEL3_PERIOD_HIGH_CONTROL {
            MIDIAPU {
                sample_generator: self.sample_generator.spec_set_period_high_control(value),
                ..self
            }
        } else if address == HWREG_NR41_CHANNEL4_LENGTH_TIMER {
            MIDIAPU { noise_generator: self.noise_generator.spec_set_length_timer(value), ..self }
        } else if address == HWREG_NR42_CHANNEL4_VOLUME_ENVELOPE {
            MIDIAPU { noise_generator: self.noise_generator.spec_set_volume_envelope(value), ..self }
        } else if address == HWREG_NR43_CHANNEL4_FREQUENCY_RANDOMNESS {
            MIDIAPU {
                noise_generator: self.noise_generator.spec_set_frequency_randomness(value),
                ..self
            }
        } else if address == HWREG_NR44_CHANNEL4_CONTROL {
            MIDIAPU { noise_generator: self.noise_generator.spec_set_control(value), ..self }
        } else if address == HWREG_NR50_MASTER_VOLUME_VIN_PANNING {
            MIDIAPU {
                master_volume: spec_array_update(
                    spec_array_update(self.master_volume, 0, (value >> 4) & 0x7),
                    1,
                    (value >> 0) & 0x7,
                ),
                ..self
            }
        } else if address == HWREG_NR51_SOUND_PANNING {
            MIDIAPU {
                ch_pan: spec_array_update(
                    spec_array_update(
                        spec_array_update(
                            spec_array_update(self.ch_pan, 0, spec_pan_of(value, 0)),
                            1,
                            spec_pan_of(value, 1),
                        ),
                        2,
                        spec_pan_of(value, 2),
                    ),
                    3,
                    spec_pan_of(value, 3),
                ),
                apu_ch_status: spec_array_update(
                    spec_array_update(
                        spec_array_update(
                            spec_array_update(
                                self.apu_ch_status,
                                0,
                                spec_panned(self.apu_ch_status@[0], value, 0),
                            ),
                            1,
                            spec_panned(self.apu_ch_status@[1], value, 1),
                        ),
                        2,
                        spec_panned(self.apu_ch_status@[2], value, 2),
                    ),
                    3,
                    spec_panned(self.apu_ch_status@[3], value, 3),
                ),
                ..self
            }
        } else if address == HWREG_NR52_AUDIO_MASTER_CONTROL {
            MIDIAPU {
                audio_on: (value & 0x80) != 0,
                pulse_generator_ch1: PulseGenerator {
                    enable: (value & 0x1) != 0,
                    ..self.pulse_generator_ch1
                },
                pulse_generator_ch2: PulseGenerator {
                    enable: (value & 0x2) != 0,
                    ..self.pulse_generator_ch2
                },
                sample_generator: SampleGenerator {
                    enable: (value & 0x4) != 0,
                    ..self.sample_generator
                },
                noise_generator: NoiseGenerator {
                    enable: (value & 0x8) != 0,
                    ..self.noise_generator
                },
                ..self
            }
        } else if is_wave_ram_address(address) {
            MIDIAPU { sample_generator: self.sample_generator.spec_set_wave_ram(address, value), ..self }
        } else {
            self
        }
    }

    /// The value read from register `address`: the generators report their
    /// registers, NR50 the master volumes (no VIN), NR51 the placements,
    /// NR52 sound and the channels on or off; other addresses read 0.
    pub open spec fn spec_read_register(&self, address: usize) -> u8 {
        if address == HWREG_NR10_CHANNEL1_SWEEP {
            self.pulse_generator_ch1.spec_sweep()
        } else if address == HWREG_NR11_CHANNEL1_LENGTH_TIMER_DURY_CYCLE {
            self.pulse_generator_ch1.spec_length_timer_duty_cycle()
        } else if address == HWREG_NR12_CHANNEL1_VOLUME_ENVELOPE {
            self.pulse_generator_ch1.eg.spec_volume_envelope()
        } else if address == HWREG_NR13_CHANNEL1_PERIOD_LOW {
            self.pulse_generator_ch1.spec_period_low()
        } else if address == HWREG_NR14_CHANNEL1_PERIOD_HIGH_CONTROL {
            self.pulse_generator_ch1.spec_period_high_control()
        } else if address == HWREG_NR21_CHANNEL2_LENGTH_TIMER_DURY_CYCLE {
            self.pulse_generator_ch2.spec_length_timer_duty_cycle()
        } else if address == HWREG_NR22_CHANNEL2_VOLUME_ENVELOPE {
            self.pulse_generator_ch2.eg.spec_volume_envelope()
        } else if address == HWREG_NR23_CHANNEL2_PERIOD_LOW {
            self.pulse_generator_ch2.spec_period_low()
        } else if address == HWREG_NR24_CHANNEL2_PERIOD_HIGH_CONTROL {
            self.pulse_generator_ch2.spec_period_high_control()
        } else if address == HWREG_NR30_CHANNEL3_DAC_ENABLE {
            self.sample_generator.spec_dac_enable()
        } else if address == HWREG_NR31_CHANNEL3_LENGTH_TIMER {
            self.sample_generator.length_timer.initial_length_timer
        } else if address == HWREG_NR32_CHANNEL3_OUTPUT_LEVEL {
            self.sample_generator.spec_output_level()
        } else if address == HWREG_NR33_CHANNEL3_PERIOD_LOW {
            self.sample_generator.spec_period_low()
        } else if address == HWREG_NR33_CHANNEL3_PERIOD_HIGH_CONTROL {
            self.sample_generator.spec_period_high_control()
        } else if address == HWREG_NR41_CHANNEL4_LENGTH_TIMER {
            self.noise_generator.length_timer.initial_length_timer
        } else if address == HWREG_NR42_CHANNEL4_VOLUME_ENVELOPE {
            self.noise_generator.eg.spec_volume_envelope()
        } else if address == HWREG_NR43_CHANNEL4_FREQUENCY_RANDOMNESS {
            self.noise_generator.spec_frequency_randomness()
        } else if address == HWREG_NR44_CHANNEL4_CONTROL {
            self.noise_generator.spec_control()
        } else if address == HWREG_NR50_MASTER_VOLUME_VIN_PANNING {
            (0u8 | (self.master_volume@[0] << 4u8)) | (self.master_volume@[1] << 0u8)
        } else if address == HWREG_NR51_SOUND_PANNING {
            spec_nr51_prefix(self.ch_pan@, 4)
        } else if address == HWREG_NR52_AUDIO_MASTER_CONTROL {
            ((((0u8 | (if self.audio_on { 0x80u8 } else { 0u8 })) | (
            if self.pulse_generator_ch1.enable {
                0x01u8
            } else {
                0u8
            })) | (if self.pulse_generator_ch2.enable { 0x02u8 } else { 0u8 })) | (
            if self.sample_generator.enable {
                0x04u8
            } else {
                0u8
            })) | (if self.noise_generator.enable { 0x08u8 } else { 0u8 })
        } else if is_wave_ram_address(address) {
            self.sample_generator.spec_wave_ram(address)
        } else {
            0
        }
    }

    /// The unit after the generators run one 2 MHz tick: the pulse
    /// generators on even ticks, the wave generator on every tick, the noise
    /// generator on every eighth; their outputs are not used.
    pub open spec fn spec_tick_generators(self) -> MIDIAPU {
        let c = self.clock_count;
        MIDIAPU {
            pulse_generator_ch1: if c % 2 == 0 {
                self.pulse_generator_ch1.spec_clock_tick_1mhz().0
            } else {
                self.pulse_generator_ch1
            },
            pulse_generator_ch2: if c % 2 == 0 {
                self.pulse_generator_ch2.spec_clock_tick_1mhz().0
            } else {
                self.pulse_generator_ch2
            },
            sample_generator: self.sample_generator.spec_clock_tick_2mhz().0,
            noise_generator: if c % 8 == 0 {
                self.noise_generator.spec_clock_tick_256khz().0
            } else {
                self.noise_generator
            },
            ..self
        }
    }

    /// The unit with other channel statuses.
    pub open spec fn spec_with_status(self, st: [MIDIChannelStatus; 4]) -> MIDIAPU {
        MIDIAPU { apu_ch_status: st, ..self }
    }

    /// The messages a note-on of pulse channel `ch` sends: a note-off of a
    /// note still sounding, the expression where it changed, the pitch bend
    /// back to the center where it moved, and the note-on itself.
    pub open spec fn spec_noteon_messages(&self, ch: u8, expression: u8, noteno: u8) -> Seq<Seq<u8>> {
        let st = self.apu_ch_status@[ch as int];
        spec_unless_muted(
            st.mute,
            spec_message_if(st.noteon, seq![MIDIMSG_NOTE_OFF | ch, st.noteno, 0u8])
                + spec_message_if(
                expression != st.expression,
                seq![MIDIMSG_CONTROL_CHANGE | ch, MIDICC_EXPRESSION, expression],
            ) + spec_message_if(
                NOTEON_PITCH_BEND != st.pitch_bend,
                seq![
                    MIDIMSG_PITCH_BEND | ch,
                    (NOTEON_PITCH_BEND & 0x7F) as u8,
                    ((NOTEON_PITCH_BEND >> 7u16) & 0x7F) as u8,
                ],
            ) + seq![seq![MIDIMSG_NOTE_ON | ch, noteno, NOTEON_VELOCITY]],
        )
    }

    /// The channel statuses after a note-on of pulse channel `ch`.
    pub open spec fn spec_noteon_status(&self, ch: u8, expression: u8, noteno: u8) -> [MIDIChannelStatus; 4] {
        let st = self.apu_ch_status@[ch as int];
        spec_array_update(
            self.apu_ch_status,
            ch as int,
            MIDIChannelStatus {
                noteon: true,
                noteno,
                pitch_bend: NOTEON_PITCH_BEND,
                expression,
                ..st
            },
        )
    }

    /// Whether pulse channel `ch` sounds.
    pub open spec fn spec_pulse_enabled(&self, ch: int) -> bool {
        if ch == 0 {
            self.pulse_generator_ch1.enable
        } else {
            self.pulse_generator_ch2.enable
        }
    }

    /// Whether the note of pulse channel `ch` sounds though the channel stopped.
    pub open spec fn spec_note_stopped(&self, ch: int) -> bool {
        self.apu_ch_status@[ch].noteon && !self.spec_pulse_enabled(ch)
    }

    /// The note-off a stopped pulse channel `ch` sends.
    pub open spec fn spec_note_off_messages(&self, ch: int) -> Seq<Seq<u8>> {
        let st = self.apu_ch_status@[ch];
        spec_unless_muted(
            st.mute,
            spec_message_if(
                self.spec_note_stopped(ch),
                seq![MIDIMSG_NOTE_OFF | (ch as u8), st.noteno, 0u8],
            ),
        )
    }

    /// The channel statuses after the note-off of a stopped channel `ch`.
    pub open spec fn spec_note_off_status(&self, ch: int) -> [MIDIChannelStatus; 4] {
        if self.spec_note_stopped(ch) {
            spec_array_update(
                self.apu_ch_status,
                ch,
                MIDIChannelStatus { noteon: false, ..self.apu_ch_status@[ch] },
            )
        } else {
            self.apu_ch_status
        }
    }

    /// The expression and pitch bend changes a sounding pulse channel `ch`
    /// sends.
    pub open spec fn spec_refresh_messages(&self, ch: int, expression: u8, pitch_bend: u16) -> Seq<
        Seq<u8>,
    > {
        let st = self.apu_ch_status@[ch];
        if st.noteon {
            spec_unless_muted(
                st.mute,
                spec_message_if(
                    expression != st.expression,
                    seq![MIDIMSG_CONTROL_CHANGE | (ch as u8), MIDICC_EXPRESSION, expression],
                ) + spec_message_if(
                    pitch_bend != st.pitch_bend,
                    seq![
                        MIDIMSG_PITCH_BEND | (ch as u8),
                        (pitch_bend & 0x7F) as u8,
                        ((pitch_bend >> 7u16) & 0x7F) as u8,
                    ],
                ),
            )
        } else {
            seq![]
        }
    }

    /// The channel statuses after the refresh of pulse channel `ch`.
    pub open spec fn spec_refresh_status(&self, ch: int, expression: u8, pitch_bend: u16) -> [MIDIChannelStatus; 4] {
        let st = self.apu_ch_status@[ch];
        if st.noteon {
            spec_array_update(
                self.apu_ch_status,
                ch,
                MIDIChannelStatus { expression, pitch_bend, ..st },
            )
        } else {
            self.apu_ch_status
        }
    }

    /// The unit after the stopped pulse channels are turned off, and
    /// after the first of them is refreshed.
    pub open spec fn spec_update_stages(&self, expression: [u8; 2], pitch_bend: [u16; 2]) -> (
        MIDIAPU,
        MIDIAPU,
        MIDIAPU,
    ) {
        let s1 = self.spec_with_status(self.spec_note_off_status(0));
        let s2 = s1.spec_with_status(s1.spec_note_off_status(1));
        let s3 = s2.spec_with_status(s2.spec_refresh_status(0, expression@[0], pitch_bend@[0]));
        (s1, s2, s3)
    }

    /// The messages the periodic update sends: note-offs of the stopped
    /// pulse channels, then the expression and pitch bend changes of the
    /// sounding ones.
    pub open spec fn spec_update_messages(&self, expression: [u8; 2], pitch_bend: [u16; 2]) -> Seq<
        Seq<u8>,
    > {
        let (s1, s2, s3) = self.spec_update_stages(expression, pitch_bend);
        self.spec_note_off_messages(0) + s1.spec_note_off_messages(1) + s2.spec_refresh_messages(
            0,
            expression@[0],
            pitch_bend@[0],
        ) + s3.spec_refresh_messages(1, expression@[1], pitch_bend@[1])
    }

    /// The channel statuses after the periodic update.
    pub open spec fn spec_update_status(&self, expression: [u8; 2], pitch_bend: [u16; 2]) -> [MIDIChannelStatus; 4] {
        let (s1, s2, s3) = self.spec_update_stages(expression, pitch_bend);
        s3.spec_refresh_status(1, expression@[1], pitch_bend@[1])
    }

    /// Creates a silent unit: every channel in the center, nothing sent,
    /// periodic updates 64 times a second.
    pub fn new() -> (r: Self)
        ensures
            r.wf(),
            !r.audio_on,
            r.ch_pan@ == seq![Pan::Center, Pan::Center, Pan::Center, Pan::Center],
            r.master_volume@ == seq![0u8, 0u8],
            r.pulse_generator_ch1.spec_is_power_on(),
            r.pulse_generator_ch2.spec_is_power_on(),
            r.sample_generator.spec_is_power_on(),
            r.noise_generator.spec_is_power_on(),
            r.message_buffer.spec_sent() == Seq::<(Seq<u8>, u64)>::empty(),
            forall|ch: int|
                0 <= ch < 4 ==> #[trigger] r.apu_ch_status@[ch] == (MIDIChannelStatus {
                    mute: false,
                    noteon: false,
                    noteno: 0,
                    pitch_bend: NOTEON_PITCH_BEND,
                    expression: 0,
                    pan: 0,
                    volume: 0,
                }),
            r.status_byte == 0,
            r.midi_update_period_cycles == 0x8000,
            r.clock_count == 0,
    {
        let status = MIDIChannelStatus {
            mute: false,
            noteon: false,
            noteno: 0,
            pitch_bend: NOTEON_PITCH_BEND,
            expression: 0,
            pan: 0,
            volume: 0,
        };
        let r = Self {
            audio_on: false,
            ch_pan: [Pan::Center; 4],
            master_volume: [0u8; 2],
            sample_generator: SampleGenerator::new(),
            pulse_generator_ch1: PulseGenerator::new(),
            pulse_generator_ch2: PulseGenerator::new(),
            noise_generator: NoiseGenerator::new(),
            apu_ch_status: [status; 4],
            message_buffer: MIDIOutput::new(),
            status_byte: 0,
            midi_update_period_cycles: 2 * 0x10_0000 / MIDIAPU_DEFAULT_UPDATE_PERIOD_HZ,
            clock_count: 0,
        };
        assert(r.ch_pan@ =~= seq![Pan::Center, Pan::Center, Pan::Center, Pan::Center]);
        assert(r.master_volume@ =~= seq![0u8, 0u8]);
        r
    }

    /// Sets the period of the MIDI updates in 2 MHz ticks.
    pub fn set_midi_update_period_cycles(&mut self, cycles: u64)
        ensures
            *final(self) == (MIDIAPU { midi_update_period_cycles: cycles, ..*old(self) }),
    {
        self.midi_update_period_cycles = cycles;
    }

    /// Sends channel message `data` unless the channel is muted.
    fn push_channel_message(&mut self, mute: bool, data: &[u8])
        requires
            old(self).wf(),
            1 <= data@.len() <= 3,
            old(self).message_buffer.num_messages + spec_unless_muted(mute, seq![data@]).len()
                <= MAX_NUM_MIDI_OUTPUT_MESSAGES,
        ensures
            final(self).wf(),
            (final(self).message_buffer.spec_sent(), final(self).status_byte) == old(
                self,
            ).spec_after_sending(spec_unless_muted(mute, seq![data@])),
            final(self).message_buffer.num_messages == old(self).message_buffer.num_messages
                + spec_unless_muted(mute, seq![data@]).len(),
            (MIDIAPU {
                message_buffer: old(self).message_buffer,
                status_byte: old(self).status_byte,
                ..*final(self)
            }) == *old(self),
    {
        if mute {
            proof {
                assert(spec_unless_muted(mute, seq![data@]) =~= Seq::<Seq<u8>>::empty());
            }
            return;
        }
        let status = self.message_buffer.push_channel_message(
            self.status_byte,
            self.clock_count,
            data,
        );
        self.status_byte = status;
    }

    /// Places channel `ch` as NR51 = `value` says and sends its pan and
    /// channel volume where they changed.
    fn write_pan_channel(&mut self, value: u8, ch: usize)
        requires
            old(self).wf(),
            ch < 4,
            old(self).message_buffer.num_messages + old(self).spec_pan_messages(value, ch as int).len()
                <= MAX_NUM_MIDI_OUTPUT_MESSAGES,
        ensures
            final(self).wf(),
            (final(self).message_buffer.spec_sent(), final(self).status_byte) == old(
                self,
            ).spec_after_sending(old(self).spec_pan_messages(value, ch as int)),
            final(self).message_buffer.num_messages == old(self).message_buffer.num_messages
                + old(self).spec_pan_messages(value, ch as int).len(),
            (MIDIAPU {
                message_buffer: old(self).message_buffer,
                status_byte: old(self).status_byte,
                ..*final(self)
            }) == (MIDIAPU {
                ch_pan: spec_array_update(old(self).ch_pan, ch as int, spec_pan_of(value, ch as int)),
                apu_ch_status: spec_array_update(
                    old(self).apu_ch_status,
                    ch as int,
                    spec_panned(old(self).apu_ch_status@[ch as int], value, ch as int),
                ),
                ..*old(self)
            }),
    {
        self.ch_pan[ch] = pan_of(value, ch);
        let (pan, volume) = midi_pan_volume(self.ch_pan[ch]);
        let st = self.apu_ch_status[ch];
        let c = MIDIMSG_CONTROL_CHANGE | ch as u8;
        let ghost a = spec_message_if(st.pan != pan, seq![c, MIDICC_PANPOT, pan]);
        let ghost b = spec_message_if(st.volume != volume, seq![c, MIDICC_CHANNEL_VOLUME, volume]);
        let ghost s0 = *self;
        if st.pan != pan {
            let msg = [c, MIDICC_PANPOT, pan];
            assert(msg@ =~= seq![c, MIDICC_PANPOT, pan]);
            self.push_channel_message(st.mute, &msg);
        } else {
            assert(spec_unless_muted(st.mute, a) =~= Seq::<Seq<u8>>::empty());
            assert(spec_send_all(
                s0.message_buffer.spec_sent(),
                s0.status_byte,
                s0.clock_count,
                Seq::<Seq<u8>>::empty(),
            ) == (s0.message_buffer.spec_sent(), s0.status_byte));
        }
        let ghost s1 = *self;
        if st.volume != volume {
            let msg = [c, MIDICC_CHANNEL_VOLUME, volume];
            assert(msg@ =~= seq![c, MIDICC_CHANNEL_VOLUME, volume]);
            self.push_channel_message(st.mute, &msg);
        } else {
            assert(spec_unless_muted(st.mute, b) =~= Seq::<Seq<u8>>::empty());
            assert(spec_send_all(
                s1.message_buffer.spec_sent(),
                s1.status_byte,
                s1.clock_count,
                Seq::<Seq<u8>>::empty(),
            ) == (s1.message_buffer.spec_sent(), s1.status_byte));
        }
        // what is placed is what was last sent
        self.apu_ch_status[ch] = MIDIChannelStatus { pan, volume, ..st };
        proof {
            assert(spec_unless_muted(st.mute, a + b) =~= spec_unless_muted(st.mute, a)
                + spec_unless_muted(st.mute, b));
            lemma_send_all_append(
                s0.message_buffer.spec_sent(),
                s0.status_byte,
                s0.clock_count,
                spec_unless_muted(st.mute, a),
                spec_unless_muted(st.mute, b),
            );
        }
    }

    /// Places the four channels as NR51 = `value` says and sends their pans
    /// and channel volumes where they changed.
    fn write_panning(&mut self, value: u8)
        requires
            old(self).wf(),
            old(self).message_buffer.num_messages + old(self).spec_panning_messages(value, 4).len()
                <= MAX_NUM_MIDI_OUTPUT_MESSAGES,
        ensures
            final(self).wf(),
            (final(self).message_buffer.spec_sent(), final(self).status_byte) == old(
                self,
            ).spec_after_sending(old(self).spec_panning_messages(value, 4)),
            (MIDIAPU {
                message_buffer: old(self).message_buffer,
                status_byte: old(self).status_byte,
                ..*final(self)
            }) == old(self).spec_write_units(HWREG_NR51_SOUND_PANNING, value),
    {
        let ghost s0 = *self;
        let ghost x = s0.message_buffer.spec_sent();
        let ghost st = s0.status_byte;
        let ghost c = s0.clock_count;
        let ghost p0 = s0.spec_pan_messages(value, 0);
        let ghost p1 = s0.spec_pan_messages(value, 1);
        let ghost p2 = s0.spec_pan_messages(value, 2);
        let ghost p3 = s0.spec_pan_messages(value, 3);
        proof {
            reveal_with_fuel(MIDIAPU::spec_panning_messages, 5);
            assert(s0.spec_panning_messages(value, 1) =~= p0);
            assert(s0.spec_panning_messages(value, 4) =~= p0 + p1 + p2 + p3);
        }
        self.write_pan_channel(value, 0);
        self.write_pan_channel(value, 1);
        self.write_pan_channel(value, 2);
        self.write_pan_channel(value, 3);
        proof {
            lemma_send_all_append(x, st, c, p0, p1);
            let (x1, st1) = spec_send_all(x, st, c, p0);
            lemma_send_all_append(x1, st1, c, p1, p2);
            lemma_send_all_append(x, st, c, p0 + p1, p2);
            lemma_send_all_append(x, st, c, p0 + p1 + p2, p3);
        }
    }

    /// Writes a register of CH1 (NR10-NR14).
    fn write_pulse1_register(&mut self, address: usize, value: u8)
        requires
            old(self).wf(),
            HWREG_NR10_CHANNEL1_SWEEP <= address <= HWREG_NR14_CHANNEL1_PERIOD_HIGH_CONTROL,
        ensures
            final(self).wf(),
            *final(self) == old(self).spec_write_units(address, value),
    {
        match address {
            HWREG_NR10_CHANNEL1_SWEEP => self.pulse_generator_ch1.set_sweep(value),
            HWREG_NR11_CHANNEL1_LENGTH_TIMER_DURY_CYCLE => {
                self.pulse_generator_ch1.set_length_timer_duty_cycle(value)
            },
            HWREG_NR12_CHANNEL1_VOLUME_ENVELOPE => self.pulse_generator_ch1.set_volume_envelope(value),
            HWREG_NR13_CHANNEL1_PERIOD_LOW => self.pulse_generator_ch1.set_period_low(value),
            _ => self.pulse_generator_ch1.set_period_high_control(value),
        }
    }

    /// Writes a register of CH2 (NR21-NR24).
    fn write_pulse2_register(&mut self, address: usize, value: u8)
        requires
            old(self).wf(),
            HWREG_NR21_CHANNEL2_LENGTH_TIMER_DURY_CYCLE <= address
                <= HWREG_NR24_CHANNEL2_PERIOD_HIGH_CONTROL,
        ensures
            final(self).wf(),
            *final(self) == old(self).spec_write_units(address, value),
    {
        match address {
            HWREG_NR21_CHANNEL2_LENGTH_TIMER_DURY_CYCLE => {
                self.pulse_generator_ch2.set_length_timer_duty_cycle(value)
            },
            HWREG_NR22_CHANNEL2_VOLUME_ENVELOPE => self.pulse_generator_ch2.set_volume_envelope(value),
            HWREG_NR23_CHANNEL2_PERIOD_LOW => self.pulse_generator_ch2.set_period_low(value),
            _ => self.pulse_generator_ch2.set_period_high_control(value),
        }
    }

    /// Writes a register of CH3 (NR30-NR34) or the wave pattern.
    fn write_sample_register(&mut self, address: usize, value: u8)
        requires
            old(self).wf(),
            HWREG_NR30_CHANNEL3_DAC_ENABLE <= address <= HWREG_NR33_CHANNEL3_PERIOD_HIGH_CONTROL
                || is_wave_ram_address(address),
        ensures
            final(self).wf(),
            *final(self) == old(self).spec_write_units(address, value),
    {
        match address {
            HWREG_NR30_CHANNEL3_DAC_ENABLE => self.sample_generator.set_dac_enable(value),
            HWREG_NR31_CHANNEL3_LENGTH_TIMER => self.sample_generator.set_length_timer(value),
            HWREG_NR32_CHANNEL3_OUTPUT_LEVEL => self.sample_generator.set_output_level(value),
            HWREG_NR33_CHANNEL3_PERIOD_LOW => self.sample_generator.set_period_low(value),
            HWREG_NR33_CHANNEL3_PERIOD_HIGH_CONTROL => {
                self.sample_generator.set_period_high_control(value)
            },
            _ => self.sample_generator.set_wave_ram(address, value),
        }
    }

    /// Writes a register of CH4 (NR41-NR44).
    fn write_noise_register(&mut self, address: usize, value: u8)
        requires
            old(self).wf(),
            HWREG_NR41_CHANNEL4_LENGTH_TIMER <= address <= HWREG_NR44_CHANNEL4_CONTROL,
        ensures
            final(self).wf(),
            *final(self) == old(self).spec_write_units(address, value),
    {
        match address {
            HWREG_NR41_CHANNEL4_LENGTH_TIMER => self.noise_generator.set_length_timer(value),
            HWREG_NR42_CHANNEL4_VOLUME_ENVELOPE => self.noise_generator.set_volume_envelope(value),
            HWREG_NR43_CHANNEL4_FREQUENCY_RANDOMNESS => {
                self.noise_generator.set_frequency_randomness(value)
            },
            _ => self.noise_generator.set_control(value),
        }
    }

    /// Writes NR50 or NR52.
    fn write_master_register(&mut self, address: usize, value: u8)
        requires
            old(self).wf(),
            address == HWREG_NR50_MASTER_VOLUME_VIN_PANNING || address
                == HWREG_NR52_AUDIO_MASTER_CONTROL,
        ensures
            final(self).wf(),
            *final(self) == old(self).spec_write_units(address, value),
    {
        if address == HWREG_NR50_MASTER_VOLUME_VIN_PANNING {
            self.master_volume[0] = (value >> 4) & 0x7;
            self.master_volume[1] = (value >> 0) & 0x7;
        } else {
            self.audio_on = (value & 0x80) != 0;
            // read-only on the hardware; writable here so that parts can be heard one by one
            self.pulse_generator_ch1.set_enable((value & 0x1) != 0);
            self.pulse_generator_ch2.set_enable((value & 0x2) != 0);
            self.sample_generator.set_enable((value & 0x4) != 0);
            self.noise_generator.set_enable((value & 0x8) != 0);
        }
    }

    /// Writes a sound register. A write to NR51 sends the pan and volume
    /// changes; a write to NR14 or NR24 with bit 7 set returns the pulse
    /// channel (0 or 1) whose note-on is due: `noteon_pulse_generator`
    /// sends it with the note and expression made from the channel.
    pub fn write_register(&mut self, address: usize, value: u8) -> (r: Option<u8>)
        requires
            old(self).wf(),
            old(self).message_buffer.num_messages + old(self).spec_register_messages(
                address,
                value,
            ).len() <= MAX_NUM_MIDI_OUTPUT_MESSAGES,
        ensures
            final(self).wf(),
            (final(self).message_buffer.spec_sent(), final(self).status_byte) == old(
                self,
            ).spec_after_sending(old(self).spec_register_messages(address, value)),
            (MIDIAPU {
                message_buffer: old(self).message_buffer,
                status_byte: old(self).status_byte,
                ..*final(self)
            }) == old(self).spec_write_units(address, value),
            r == (if address == HWREG_NR14_CHANNEL1_PERIOD_HIGH_CONTROL && value & 0x80 != 0 {
                Some(0u8)
            } else if address == HWREG_NR24_CHANNEL2_PERIOD_HIGH_CONTROL && value & 0x80 != 0 {
                Some(1u8)
            } else {
                None
            }),
    {
        if address == HWREG_NR51_SOUND_PANNING {
            self.write_panning(value);
            return None;
        }
        proof {
            assert(spec_send_all(
                self.message_buffer.spec_sent(),
                self.status_byte,
                self.clock_count,
                Seq::<Seq<u8>>::empty(),
            ) == (self.message_buffer.spec_sent(), self.status_byte));
        }
        if HWREG_NR10_CHANNEL1_SWEEP <= address && address <= HWREG_NR14_CHANNEL1_PERIOD_HIGH_CONTROL {
            self.write_pulse1_register(address, value);
        } else if HWREG_NR21_CHANNEL2_LENGTH_TIMER_DURY_CYCLE <= address && address
            <= HWREG_NR24_CHANNEL2_PERIOD_HIGH_CONTROL {
            self.write_pulse2_register(address, value);
        } else if (HWREG_NR30_CHANNEL3_DAC_ENABLE <= address && address
            <= HWREG_NR33_CHANNEL3_PERIOD_HIGH_CONTROL) || (HWREG_CHANNEL3_WAVE_PATTERN_RAM_START
            <= address && address <= HWREG_CHANNEL3_WAVE_PATTERN_RAM_END) {
            self.write_sample_register(address, value);
        } else if HWREG_NR41_CHANNEL4_LENGTH_TIMER <= address && address
            <= HWREG_NR44_CHANNEL4_CONTROL {
            self.write_noise_register(address, value);
        } else if address == HWREG_NR50_MASTER_VOLUME_VIN_PANNING || address
            == HWREG_NR52_AUDIO_MASTER_CONTROL {
            self.write_master_register(address, value);
        }
        // a trigger of a pulse channel starts a note
        if address == HWREG_NR14_CHANNEL1_PERIOD_HIGH_CONTROL && value & 0x80 != 0 {
            Some(0)
        } else if address == HWREG_NR24_CHANNEL2_PERIOD_HIGH_CONTROL && value & 0x80 != 0 {
            Some(1)
        } else {
            None
        }
    }

    /// Reads a sound register.
    #[verifier::rlimit(60)]
    pub fn read_register(&self, address: usize) -> (r: u8)
        requires
            self.wf(),
        ensures
            r == self.spec_read_register(address),
    {
        match address {
            HWREG_NR10_CHANNEL1_SWEEP => self.pulse_generator_ch1.get_sweep(),
            HWREG_NR11_CHANNEL1_LENGTH_TIMER_DURY_CYCLE => {
                self.pulse_generator_ch1.get_length_timer_duty_cycle()
            },
            HWREG_NR12_CHANNEL1_VOLUME_ENVELOPE => self.pulse_generator_ch1.get_volume_envelope(),
            HWREG_NR13_CHANNEL1_PERIOD_LOW => self.pulse_generator_ch1.get_period_low(),
            HWREG_NR14_CHANNEL1_PERIOD_HIGH_CONTROL => {
                self.pulse_generator_ch1.get_period_high_control()
            },
            HWREG_NR21_CHANNEL2_LENGTH_TIMER_DURY_CYCLE => {
                self.pulse_generator_ch2.get_length_timer_duty_cycle()
            },
            HWREG_NR22_CHANNEL2_VOLUME_ENVELOPE => self.pulse_generator_ch2.get_volume_envelope(),
            HWREG_NR23_CHANNEL2_PERIOD_LOW => self.pulse_generator_ch2.get_period_low(),
            HWREG_NR24_CHANNEL2_PERIOD_HIGH_CONTROL => {
                self.pulse_generator_ch2.get_period_high_control()
            },
            HWREG_NR30_CHANNEL3_DAC_ENABLE => self.sample_generator.get_dac_enable(),
            HWREG_NR31_CHANNEL3_LENGTH_TIMER => self.sample_generator.get_length_timer(),
            HWREG_NR32_CHANNEL3_OUTPUT_LEVEL => self.sample_generator.get_output_level(),
            HWREG_NR33_CHANNEL3_PERIOD_LOW => self.sample_generator.get_period_low(),
            HWREG_NR33_CHANNEL3_PERIOD_HIGH_CONTROL => {
                self.sample_generator.get_period_high_control()
            },
            HWREG_NR41_CHANNEL4_LENGTH_TIMER => self.noise_generator.get_length_timer(),
            HWREG_NR42_CHANNEL4_VOLUME_ENVELOPE => self.noise_generator.get_volume_envelope(),
            HWREG_NR43_CHANNEL4_FREQUENCY_RANDOMNESS => {
                self.noise_generator.get_frequency_randomness()
            },
            HWREG_NR44_CHANNEL4_CONTROL => self.noise_generator.get_control(),
            HWREG_NR50_MASTER_VOLUME_VIN_PANNING => {
                // VIN is never routed here
                let mut ret: u8 = 0;
                ret |= self.master_volume[0] << 4;
                ret |= self.master_volume[1] << 0;
                ret
            },
            HWREG_NR51_SOUND_PANNING => nr51_of(&self.ch_pan),
            HWREG_NR52_AUDIO_MASTER_CONTROL => {
                let mut ret: u8 = 0;
                ret |= if self.audio_on { 0x80 } else { 0 };
                ret |= if self.pulse_generator_ch1.enable { 0x01 } else { 0 };
                ret |= if self.pulse_generator_ch2.enable { 0x02 } else { 0 };
                ret |= if self.sample_generator.enable { 0x04 } else { 0 };
                ret |= if self.noise_generator.enable { 0x08 } else { 0 };
                ret
            },
            HWREG_CHANNEL3_WAVE_PATTERN_RAM_START..=HWREG_CHANNEL3_WAVE_PATTERN_RAM_END => {
                self.sample_generator.get_wave_ram(address)
            },
            _ => 0,
        }
    }

    /// Runs the generators for one 2 MHz tick; returns whether the periodic
    /// MIDI update is due on this tick (`update_midi_message_buffer`, then
    /// `finish_clock_tick`).
    pub fn tick_generators(&mut self) -> (due: bool)
        requires
            old(self).wf(),
            old(self).midi_update_period_cycles > 0,
        ensures
            final(self).wf(),
            *final(self) == old(self).spec_tick_generators(),
            due == (old(self).clock_count % old(self).midi_update_period_cycles == 0),
    {
        if self.clock_count % 2 == 0 {
            let _ = self.pulse_generator_ch1.clock_tick_1mhz();
            let _ = self.pulse_generator_ch2.clock_tick_1mhz();
        }
        let _ = self.sample_generator.clock_tick_2mhz();
        if self.clock_count % 8 == 0 {
            let _ = self.noise_generator.clock_tick_256khz();
        }
        self.clock_count % self.midi_update_period_cycles == 0
    }

    /// Ends a 2 MHz tick: the clock count advances (wrapping).
    pub fn finish_clock_tick(&mut self)
        ensures
            *final(self) == (MIDIAPU {
                clock_count: if old(self).clock_count == u64::MAX {
                    0
                } else {
                    (old(self).clock_count + 1) as u64
                },
                ..*old(self)
            }),
    {
        self.clock_count = self.clock_count.wrapping_add(1);
    }

    /// Hands out the messages collected since the last call.
    pub fn compute_output(&mut self) -> (r: MIDIOutput)
        requires
            old(self).wf(),
        ensures
            final(self).wf(),
            r.wf(),
            r.spec_sent() == old(self).message_buffer.spec_sent(),
            final(self).message_buffer.spec_sent() == Seq::<(Seq<u8>, u64)>::empty(),
            (MIDIAPU { message_buffer: old(self).message_buffer, ..*final(self) }) == *old(self),
    {
        self.message_buffer.compute_output()
    }

    /// Sends `data` when `cond` holds and the channel is not muted.
    fn push_channel_message_if(&mut self, cond: bool, mute: bool, data: &[u8])
        requires
            old(self).wf(),
            1 <= data@.len() <= 3,
            old(self).message_buffer.num_messages + spec_unless_muted(
                mute,
                spec_message_if(cond, data@),
            ).len() <= MAX_NUM_MIDI_OUTPUT_MESSAGES,
        ensures
            final(self).wf(),
            (final(self).message_buffer.spec_sent(), final(self).status_byte) == old(
                self,
            ).spec_after_sending(spec_unless_muted(mute, spec_message_if(cond, data@))),
            final(self).message_buffer.num_messages == old(self).message_buffer.num_messages
                + spec_unless_muted(mute, spec_message_if(cond, data@)).len(),
            (MIDIAPU {
                message_buffer: old(self).message_buffer,
                status_byte: old(self).status_byte,
                ..*final(self)
            }) == *old(self),
    {
        if cond {
            self.push_channel_message(mute, data);
        } else {
            proof {
                assert(spec_unless_muted(mute, spec_message_if(cond, data@)) =~= Seq::<
                    Seq<u8>,
                >::empty());
                assert(spec_send_all(
                    self.message_buffer.spec_sent(),
                    self.status_byte,
                    self.clock_count,
                    Seq::<Seq<u8>>::empty(),
                ) == (self.message_buffer.spec_sent(), self.status_byte));
            }
        }
    }

    /// Sends the note-on of pulse channel `ch` with note `noteno` and
    /// expression `expression` (made from the channel's frequency and
    /// volume), after a note-off of a note still sounding, the expression
    /// where it changed and the pitch bend back to the center where it moved.
    pub fn noteon_pulse_generator(&mut self, ch: u8, expression: u8, noteno: u8)
        requires
            old(self).wf(),
            ch < 2,
            old(self).message_buffer.num_messages + old(self).spec_noteon_messages(
                ch,
                expression,
                noteno,
            ).len() <= MAX_NUM_MIDI_OUTPUT_MESSAGES,
        ensures
            final(self).wf(),
            (final(self).message_buffer.spec_sent(), final(self).status_byte) == old(
                self,
            ).spec_after_sending(old(self).spec_noteon_messages(ch, expression, noteno)),
            (MIDIAPU {
                message_buffer: old(self).message_buffer,
                status_byte: old(self).status_byte,
                ..*final(self)
            }) == old(self).spec_with_status(old(self).spec_noteon_status(ch, expression, noteno)),
    {
        let st = self.apu_ch_status[ch as usize];
        let ghost x = self.message_buffer.spec_sent();
        let ghost sb = self.status_byte;
        let ghost c = self.clock_count;
        let m1 = [MIDIMSG_NOTE_OFF | ch, st.noteno, 0];
        let m2 = [MIDIMSG_CONTROL_CHANGE | ch, MIDICC_EXPRESSION, expression];
        let m3 = [
            MIDIMSG_PITCH_BEND | ch,
            (NOTEON_PITCH_BEND & 0x7F) as u8,
            ((NOTEON_PITCH_BEND >> 7) & 0x7F) as u8,
        ];
        let m4 = [MIDIMSG_NOTE_ON | ch, noteno, NOTEON_VELOCITY];
        let ghost l1 = spec_unless_muted(st.mute, spec_message_if(st.noteon, m1@));
        let ghost l2 = spec_unless_muted(st.mute, spec_message_if(expression != st.expression, m2@));
        let ghost l3 = spec_unless_muted(
            st.mute,
            spec_message_if(NOTEON_PITCH_BEND != st.pitch_bend, m3@),
        );
        let ghost l4 = spec_unless_muted(st.mute, spec_message_if(true, m4@));
        proof {
            assert(m1@ =~= seq![MIDIMSG_NOTE_OFF | ch, st.noteno, 0u8]);
            assert(m2@ =~= seq![MIDIMSG_CONTROL_CHANGE | ch, MIDICC_EXPRESSION, expression]);
            assert(m3@ =~= seq![
                MIDIMSG_PITCH_BEND | ch,
                (NOTEON_PITCH_BEND & 0x7F) as u8,
                ((NOTEON_PITCH_BEND >> 7u16) & 0x7F) as u8,
            ]);
            assert(m4@ =~= seq![MIDIMSG_NOTE_ON | ch, noteno, NOTEON_VELOCITY]);
            assert(old(self).spec_noteon_messages(ch, expression, noteno) =~= l1 + l2 + l3 + l4);
        }
        self.push_channel_message_if(st.noteon, st.mute, &m1);
        self.push_channel_message_if(expression != st.expression, st.mute, &m2);
        self.push_channel_message_if(NOTEON_PITCH_BEND != st.pitch_bend, st.mute, &m3);
        self.push_channel_message_if(true, st.mute, &m4);
        self.apu_ch_status[ch as usize] = MIDIChannelStatus {
            noteon: true,
            noteno,
            pitch_bend: NOTEON_PITCH_BEND,
            expression,
            ..st
        };
        proof {
            lemma_send_all_append(x, sb, c, l1, l2);
            lemma_send_all_append(x, sb, c, l1 + l2, l3);
            lemma_send_all_append(x, sb, c, l1 + l2 + l3, l4);
        }
    }

    /// Sends the note-off of pulse channel `ch` when its note sounds though
    /// the channel stopped.
    fn note_off_if_stopped(&mut self, ch: usize)
        requires
            old(self).wf(),
            ch < 2,
            old(self).message_buffer.num_messages + old(self).spec_note_off_messages(
                ch as int,
            ).len() <= MAX_NUM_MIDI_OUTPUT_MESSAGES,
        ensures
            final(self).wf(),
            (final(self).message_buffer.spec_sent(), final(self).status_byte) == old(
                self,
            ).spec_after_sending(old(self).spec_note_off_messages(ch as int)),
            final(self).message_buffer.num_messages == old(self).message_buffer.num_messages
                + old(self).spec_note_off_messages(ch as int).len(),
            (MIDIAPU {
                message_buffer: old(self).message_buffer,
                status_byte: old(self).status_byte,
                ..*final(self)
            }) == old(self).spec_with_status(old(self).spec_note_off_status(ch as int)),
    {
        let st = self.apu_ch_status[ch];
        let enabled = if ch == 0 {
            self.pulse_generator_ch1.enable
        } else {
            self.pulse_generator_ch2.enable
        };
        let m = [MIDIMSG_NOTE_OFF | (ch as u8), st.noteno, 0];
        proof {
            assert(m@ =~= seq![MIDIMSG_NOTE_OFF | (ch as u8), st.noteno, 0u8]);
        }
        let stopped = st.noteon && !enabled;
        self.push_channel_message_if(stopped, st.mute, &m);
        if stopped {
            self.apu_ch_status[ch] = MIDIChannelStatus { noteon: false, ..st };
        }
    }

    /// Sends the expression and pitch bend changes of pulse channel `ch`
    /// while its note sounds.
    fn refresh_channel(&mut self, ch: usize, expression: u8, pitch_bend: u16)
        requires
            old(self).wf(),
            ch < 2,
            old(self).message_buffer.num_messages + old(self).spec_refresh_messages(
                ch as int,
                expression,
                pitch_bend,
            ).len() <= MAX_NUM_MIDI_OUTPUT_MESSAGES,
        ensures
            final(self).wf(),
            (final(self).message_buffer.spec_sent(), final(self).status_byte) == old(
                self,
            ).spec_after_sending(old(self).spec_refresh_messages(ch as int, expression, pitch_bend)),
            final(self).message_buffer.num_messages == old(self).message_buffer.num_messages
                + old(self).spec_refresh_messages(ch as int, expression, pitch_bend).len(),
            (MIDIAPU {
                message_buffer: old(self).message_buffer,
                status_byte: old(self).status_byte,
                ..*final(self)
            }) == old(self).spec_with_status(
                old(self).spec_refresh_status(ch as int, expression, pitch_bend),
            ),
    {
        let st = self.apu_ch_status[ch];
        if !st.noteon {
            proof {
                assert(spec_send_all(
                    self.message_buffer.spec_sent(),
                    self.status_byte,
                    self.clock_count,
                    Seq::<Seq<u8>>::empty(),
                ) == (self.message_buffer.spec_sent(), self.status_byte));
            }
            return;
        }
        let ghost x = self.message_buffer.spec_sent();
        let ghost sb = self.status_byte;
        let ghost c = self.clock_count;
        let m1 = [MIDIMSG_CONTROL_CHANGE | (ch as u8), MIDICC_EXPRESSION, expression];
        let m2 = [
            MIDIMSG_PITCH_BEND | (ch as u8),
            (pitch_bend & 0x7F) as u8,
            ((pitch_bend >> 7) & 0x7F) as u8,
        ];
        let ghost l1 = spec_unless_muted(st.mute, spec_message_if(expression != st.expression, m1@));
        let ghost l2 = spec_unless_muted(st.mute, spec_message_if(pitch_bend != st.pitch_bend, m2@));
        proof {
            assert(m1@ =~= seq![MIDIMSG_CONTROL_CHANGE | (ch as u8), MIDICC_EXPRESSION, expression]);
            assert(m2@ =~= seq![
                MIDIMSG_PITCH_BEND | (ch as u8),
                (pitch_bend & 0x7F) as u8,
                ((pitch_bend >> 7u16) & 0x7F) as u8,
            ]);
            assert(old(self).spec_refresh_messages(ch as int, expression, pitch_bend) =~= l1 + l2);
        }
        self.push_channel_message_if(expression != st.expression, st.mute, &m1);
        self.push_channel_message_if(pitch_bend != st.pitch_bend, st.mute, &m2);
        // the status takes the values whether they were sent or already held
        self.apu_ch_status[ch] = MIDIChannelStatus { expression, pitch_bend, ..st };
        proof {
            lemma_send_all_append(x, sb, c, l1, l2);
        }
    }

    /// The periodic update: note-offs for the pulse channels that stopped,
    /// then the expression and pitch bend of the sounding ones, made from
    /// their volume and frequency (`expression`, `pitch_bend` per channel).
    pub fn update_midi_message_buffer(&mut self, expression: [u8; 2], pitch_bend: [u16; 2])
        requires
            old(self).wf(),
            old(self).message_buffer.num_messages + old(self).spec_update_messages(
                expression,
                pitch_bend,
            ).len() <= MAX_NUM_MIDI_OUTPUT_MESSAGES,
        ensures
            final(self).wf(),
            (final(self).message_buffer.spec_sent(), final(self).status_byte) == old(
                self,
            ).spec_after_sending(old(self).spec_update_messages(expression, pitch_bend)),
            (MIDIAPU {
                message_buffer: old(self).message_buffer,
                status_byte: old(self).status_byte,
                ..*final(self)
            }) == old(self).spec_with_status(old(self).spec_update_status(expression, pitch_bend)),
    {
        let ghost s0 = *self;
        let ghost x = s0.message_buffer.spec_sent();
        let ghost sb = s0.status_byte;
        let ghost c = s0.clock_count;
        let ghost (t1, t2, t3) = s0.spec_update_stages(expression, pitch_bend);
        let ghost l1 = s0.spec_note_off_messages(0);
        let ghost l2 = t1.spec_note_off_messages(1);
        let ghost l3 = t2.spec_refresh_messages(0, expression@[0], pitch_bend@[0]);
        let ghost l4 = t3.spec_refresh_messages(1, expression@[1], pitch_bend@[1]);
        self.note_off_if_stopped(0);
        self.note_off_if_stopped(1);
        self.refresh_channel(0, expression[0], pitch_bend[0]);
        self.refresh_channel(1, expression[1], pitch_bend[1]);
        proof {
            lemma_send_all_append(x, sb, c, l1, l2);
            lemma_send_all_append(x, sb, c, l1 + l2, l3);
            lemma_send_all_append(x, sb, c, l1 + l2 + l3, l4);
        }
    }

    /// How many messages a write of `value` to `address` sends: the room
    /// `write_register` needs in the buffer.
    pub fn register_message_count(&self, address: usize, value: u8) -> (r: usize)
        ensures
            r == self.spec_register_messages(address, value).len(),
    {
        if address != HWREG_NR51_SOUND_PANNING {
            return 0;
        }
        let mut n: usize = 0;
        let mut ch: usize = 0;
        while ch < 4
            invariant
                ch <= 4,
                n <= 2 * ch,
                n == self.spec_panning_messages(value, ch as int).len(),
            decreases 4 - ch,
        {
            let st = self.apu_ch_status[ch];
            let (pan, volume) = midi_pan_volume(pan_of(value, ch));
            if !st.mute {
                if st.pan != pan {
                    n = n + 1;
                }
                if st.volume != volume {
                    n = n + 1;
                }
            }
            ch = ch + 1;
        }
        n
    }

    /// How many messages a note-on of pulse channel `ch` sends: the room
    /// `noteon_pulse_generator` needs in the buffer.
    pub fn noteon_message_count(&self, ch: u8, expression: u8, noteno: u8) -> (r: usize)
        requires
            ch < 2,
        ensures
            r == self.spec_noteon_messages(ch, expression, noteno).len(),
    {
        let st = self.apu_ch_status[ch as usize];
        if st.mute {
            return 0;
        }
        let mut n: usize = 1;
        if st.noteon {
            n = n + 1;
        }
        if expression != st.expression {
            n = n + 1;
        }
        if NOTEON_PITCH_BEND != st.pitch_bend {
            n = n + 1;
        }
        n
    }

    /// How many messages the periodic update makes pulse channel `ch` send:
    /// its note-off, or else its expression and pitch bend changes.
    fn channel_update_count(&self, ch: usize, expression: u8, pitch_bend: u16) -> (r: usize)
        requires
            ch < 2,
        ensures
            r == self.spec_note_off_messages(ch as int).len() + self.spec_with_status(
                self.spec_note_off_status(ch as int),
            ).spec_refresh_messages(ch as int, expression, pitch_bend).len(),
    {
        let st = self.apu_ch_status[ch];
        let enabled = if ch == 0 {
            self.pulse_generator_ch1.enable
        } else {
            self.pulse_generator_ch2.enable
        };
        let mut n: usize = 0;
        if st.noteon && !st.mute {
            if !enabled {
                n = 1;
            } else {
                if expression != st.expression {
                    n = n + 1;
                }
                if pitch_bend != st.pitch_bend {
                    n = n + 1;
                }
            }
        }
        n
    }

    /// How many messages the periodic update sends: the room
    /// `update_midi_message_buffer` needs in the buffer.
    pub fn update_message_count(&self, expression: [u8; 2], pitch_bend: [u16; 2]) -> (r: usize)
        ensures
            r == self.spec_update_messages(expression, pitch_bend).len(),
    {
        let n0 = self.channel_update_count(0, expression[0], pitch_bend[0]);
        let n1 = self.channel_update_count(1, expression[1], pitch_bend[1]);
        proof {
            let (s1, s2, s3) = self.spec_update_stages(expression, pitch_bend);
            assert(s1.apu_ch_status@[1] == self.apu_ch_status@[1]);
            assert(s1.spec_note_off_messages(1) == self.spec_note_off_messages(1));
            assert(s2.apu_ch_status@[0] == s1.apu_ch_status@[0]);
            assert(s2.spec_refresh_messages(0, expression@[0], pitch_bend@[0]) == self.spec_with_status(
                self.spec_note_off_status(0),
            ).spec_refresh_messages(0, expression@[0], pitch_bend@[0]));
            assert(s3.apu_ch_status@[1] == s2.apu_ch_status@[1]);
            assert(s3.spec_refresh_messages(1, expression@[1], pitch_bend@[1]) == self.spec_with_status(
                self.spec_note_off_status(1),
            ).spec_refresh_messages(1, expression@[1], pitch_bend@[1]));
        }
        n0 + n1
    }
}

} // verus!
