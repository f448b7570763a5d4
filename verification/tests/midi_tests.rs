use gbs_player::midiapu::{midi_pan_volume, MIDIOutput, MIDIAPU, MAX_NUM_MIDI_OUTPUT_MESSAGES};
use gbs_player::types::{
    Pan, HWREG_NR12_CHANNEL1_VOLUME_ENVELOPE, HWREG_NR14_CHANNEL1_PERIOD_HIGH_CONTROL,
    HWREG_NR24_CHANNEL2_PERIOD_HIGH_CONTROL, HWREG_NR50_MASTER_VOLUME_VIN_PANNING,
    HWREG_NR51_SOUND_PANNING, HWREG_NR52_AUDIO_MASTER_CONTROL,
};

#[test]
fn running_status_drops_repeated_status_byte() {
    let mut out = MIDIOutput::new();
    let status = out.push_channel_message(0, 10, &[0x90, 60, 127]);
    assert_eq!(status, 0x90);
    let status = out.push_channel_message(status, 20, &[0x90, 64, 127]);
    assert_eq!(status, 0x90);
    let status = out.push_channel_message(status, 30, &[0x80, 60, 0]);
    assert_eq!(status, 0x80);
    assert_eq!(out.num_messages, 3);
    assert_eq!(out.messages[0].length, 3);
    assert_eq!(out.messages[0].data, [0x90, 60, 127]);
    assert_eq!(out.messages[1].length, 2);
    assert_eq!(&out.messages[1].data[..2], &[64, 127]);
    assert_eq!(out.messages[1].clock_tick_2mhz, 20);
    assert_eq!(out.messages[2].length, 3);
    assert_eq!(out.messages[2].data, [0x80, 60, 0]);
}

#[test]
fn output_hands_out_and_empties() {
    let mut out = MIDIOutput::new();
    out.push_channel_message(0, 5, &[0xB0, 7, 100]);
    let batch = out.compute_output();
    assert_eq!(batch.num_messages, 1);
    assert_eq!(batch.messages[0].data, [0xB0, 7, 100]);
    assert_eq!(batch.messages[1].length, 0);
    assert_eq!(out.num_messages, 0);
    assert_eq!(MAX_NUM_MIDI_OUTPUT_MESSAGES, 100);
}

#[test]
fn pan_controller_values() {
    assert_eq!(midi_pan_volume(Pan::Center), (64, 127));
    assert_eq!(midi_pan_volume(Pan::Left), (0, 127));
    assert_eq!(midi_pan_volume(Pan::Right), (127, 127));
    assert_eq!(midi_pan_volume(Pan::Ignore), (64, 0));
}

fn message_bytes(out: &MIDIOutput, i: usize) -> Vec<u8> {
    out.messages[i].data[..out.messages[i].length].to_vec()
}

#[test]
fn panning_write_sends_pan_and_volume_per_channel() {
    let mut unit = MIDIAPU::new();
    assert_eq!(unit.register_message_count(HWREG_NR51_SOUND_PANNING, 0xFF), 8);
    assert_eq!(unit.write_register(HWREG_NR51_SOUND_PANNING, 0xFF), None);
    let out = unit.compute_output();
    assert_eq!(out.num_messages, 8);
    for ch in 0..4u8 {
        let i = 2 * ch as usize;
        assert_eq!(message_bytes(&out, i), vec![0xB0 | ch, 0x0A, 64]);
        // same status byte: running status drops it
        assert_eq!(message_bytes(&out, i + 1), vec![0x07, 127]);
    }
    assert_eq!(unit.read_register(HWREG_NR51_SOUND_PANNING), 0xFF);
    // the sent pan and volume are recorded, so the same write sends nothing
    assert_eq!(unit.register_message_count(HWREG_NR51_SOUND_PANNING, 0xFF), 0);
    unit.write_register(HWREG_NR51_SOUND_PANNING, 0xFF);
    assert_eq!(unit.compute_output().num_messages, 0);
    assert_eq!(unit.apu_ch_status[2].pan, 64);
    assert_eq!(unit.apu_ch_status[2].volume, 127);
}

#[test]
fn panning_left_right_and_silent_channels() {
    let mut unit = MIDIAPU::new();
    // ch0 left, ch1 right, ch2 center, ch3 nowhere
    unit.write_register(HWREG_NR51_SOUND_PANNING, 0x01 | 0x20 | 0x44);
    let out = unit.compute_output();
    assert_eq!(out.num_messages, 6);
    // left: pan 0 was already sent
    assert_eq!(message_bytes(&out, 0), vec![0xB0, 0x07, 127]);
    assert_eq!(message_bytes(&out, 1), vec![0xB1, 0x0A, 127]);
    assert_eq!(message_bytes(&out, 2), vec![0x07, 127]);
    assert_eq!(message_bytes(&out, 3), vec![0xB2, 0x0A, 64]);
    assert_eq!(message_bytes(&out, 4), vec![0x07, 127]);
    // nowhere: pan 64 differs from 0, volume 0 does not
    assert_eq!(message_bytes(&out, 5), vec![0xB3, 0x0A, 64]);
    assert_eq!(unit.read_register(HWREG_NR51_SOUND_PANNING), 0x65);
}

#[test]
fn trigger_of_pulse_channel_asks_for_note_on() {
    let mut unit = MIDIAPU::new();
    assert_eq!(unit.write_register(HWREG_NR14_CHANNEL1_PERIOD_HIGH_CONTROL, 0x80), Some(0));
    assert_eq!(unit.write_register(HWREG_NR24_CHANNEL2_PERIOD_HIGH_CONTROL, 0x87), Some(1));
    assert_eq!(unit.write_register(HWREG_NR14_CHANNEL1_PERIOD_HIGH_CONTROL, 0x07), None);
    assert_eq!(unit.write_register(HWREG_NR12_CHANNEL1_VOLUME_ENVELOPE, 0xF0), None);
    assert_eq!(unit.compute_output().num_messages, 0);
}

#[test]
fn note_on_sends_expression_then_note() {
    let mut unit = MIDIAPU::new();
    assert_eq!(unit.noteon_message_count(0, 100, 69), 2);
    unit.noteon_pulse_generator(0, 100, 69);
    assert!(unit.apu_ch_status[0].noteon);
    assert_eq!(unit.apu_ch_status[0].noteno, 69);
    assert_eq!(unit.apu_ch_status[0].expression, 100);
    // the sounding note is stopped first
    assert_eq!(unit.noteon_message_count(0, 100, 70), 2);
    unit.noteon_pulse_generator(0, 100, 70);
    let out = unit.compute_output();
    assert_eq!(out.num_messages, 4);
    assert_eq!(message_bytes(&out, 0), vec![0xB0, 0x0B, 100]);
    assert_eq!(message_bytes(&out, 1), vec![0x90, 69, 127]);
    assert_eq!(message_bytes(&out, 2), vec![0x80, 69, 0]);
    assert_eq!(message_bytes(&out, 3), vec![0x90, 70, 127]);
}

#[test]
fn periodic_update_bends_then_stops_note() {
    let mut unit = MIDIAPU::new();
    unit.write_register(HWREG_NR12_CHANNEL1_VOLUME_ENVELOPE, 0xF0);
    assert_eq!(unit.write_register(HWREG_NR14_CHANNEL1_PERIOD_HIGH_CONTROL, 0x80), Some(0));
    assert!(unit.pulse_generator_ch1.enable);
    unit.noteon_pulse_generator(0, 127, 60);
    let _ = unit.compute_output();
    // 8292 = 64 * 128 + 100
    assert_eq!(unit.update_message_count([127, 0], [8292, 0]), 1);
    unit.update_midi_message_buffer([127, 0], [8292, 0]);
    let out = unit.compute_output();
    assert_eq!(out.num_messages, 1);
    assert_eq!(message_bytes(&out, 0), vec![0xE0, 100, 64]);
    assert_eq!(unit.apu_ch_status[0].pitch_bend, 8292);
    // switching the channel off stops the note at the next update
    unit.write_register(HWREG_NR52_AUDIO_MASTER_CONTROL, 0x80);
    assert!(!unit.pulse_generator_ch1.enable);
    assert_eq!(unit.update_message_count([127, 0], [8292, 0]), 1);
    unit.update_midi_message_buffer([127, 0], [8292, 0]);
    let out = unit.compute_output();
    assert_eq!(out.num_messages, 1);
    assert_eq!(message_bytes(&out, 0), vec![0x80, 60, 0]);
    assert!(!unit.apu_ch_status[0].noteon);
}

#[test]
fn midi_unit_master_registers_read_back() {
    let mut unit = MIDIAPU::new();
    unit.write_register(HWREG_NR50_MASTER_VOLUME_VIN_PANNING, 0xF7);
    assert_eq!(unit.read_register(HWREG_NR50_MASTER_VOLUME_VIN_PANNING), 0x77);
    unit.write_register(HWREG_NR52_AUDIO_MASTER_CONTROL, 0x85);
    assert_eq!(unit.read_register(HWREG_NR52_AUDIO_MASTER_CONTROL), 0x85);
    assert_eq!(unit.read_register(0xFF00), 0);
}

#[test]
fn update_is_due_every_period() {
    let mut unit = MIDIAPU::new();
    assert_eq!(unit.midi_update_period_cycles, 0x8000);
    unit.set_midi_update_period_cycles(3);
    let mut due = Vec::new();
    for _ in 0..7 {
        due.push(unit.tick_generators());
        unit.finish_clock_tick();
    }
    assert_eq!(due, vec![true, false, false, true, false, false, true]);
    assert_eq!(unit.clock_count, 7);
}

#[test]
fn second_update_with_same_values_sends_nothing() {
    let mut unit = MIDIAPU::new();
    unit.write_register(HWREG_NR12_CHANNEL1_VOLUME_ENVELOPE, 0xF0);
    unit.write_register(HWREG_NR14_CHANNEL1_PERIOD_HIGH_CONTROL, 0x80);
    unit.noteon_pulse_generator(0, 127, 60);
    unit.noteon_pulse_generator(1, 90, 64);
    assert_eq!(unit.compute_output().num_messages, 4);
    // channel 2 never triggered: its note stops at the first update
    assert_eq!(unit.update_message_count([100, 90], [8000, 8192]), 3);
    unit.update_midi_message_buffer([100, 90], [8000, 8192]);
    assert_eq!(unit.compute_output().num_messages, 3);
    assert_eq!(unit.update_message_count([100, 90], [8000, 8192]), 0);
    unit.update_midi_message_buffer([100, 90], [8000, 8192]);
    assert_eq!(unit.compute_output().num_messages, 0);
}
