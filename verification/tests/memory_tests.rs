use gbs_player::sm83::SM83;
use gbs_player::types::{
    Pan, HWREG_DIV_REGISTER, HWREG_NR10_CHANNEL1_SWEEP, HWREG_NR11_CHANNEL1_LENGTH_TIMER_DURY_CYCLE,
    HWREG_NR12_CHANNEL1_VOLUME_ENVELOPE, HWREG_NR14_CHANNEL1_PERIOD_HIGH_CONTROL,
    HWREG_NR32_CHANNEL3_OUTPUT_LEVEL, HWREG_NR41_CHANNEL4_LENGTH_TIMER, HWREG_NR43_CHANNEL4_FREQUENCY_RANDOMNESS,
    HWREG_NR44_CHANNEL4_CONTROL, HWREG_NR50_MASTER_VOLUME_VIN_PANNING, HWREG_NR51_SOUND_PANNING,
    HWREG_NR52_AUDIO_MASTER_CONTROL, HWREG_CHANNEL3_WAVE_PATTERN_RAM_START,
};

fn banked_rom(banks: usize) -> Vec<u8> {
    let mut rom = vec![0u8; banks * 0x4000];
    for b in 0..banks {
        for i in 0..0x4000 {
            rom[b * 0x4000 + i] = b as u8;
        }
    }
    rom
}

#[test]
fn ram_write_read() {
    let mut cpu = SM83::new(vec![0u8; 0x8000]);
    cpu.write_mem_u8(0xC123, 0x5A);
    assert_eq!(cpu.read_mem_u8(0xC123), 0x5A);
    cpu.write_mem_u8(0xFF90, 0xA5);
    assert_eq!(cpu.read_mem_u8(0xFF90), 0xA5);
    assert_eq!(cpu.read_mem_u8(0xC124), 0);
}

#[test]
fn divider_write_resets() {
    let mut cpu = SM83::new(vec![0u8; 0x8000]);
    cpu.mem[HWREG_DIV_REGISTER] = 0x33;
    cpu.write_mem_u8(HWREG_DIV_REGISTER, 0x77);
    assert_eq!(cpu.read_mem_u8(HWREG_DIV_REGISTER), 0);
}

#[test]
fn rom_bank_switching() {
    let mut cpu = SM83::new(banked_rom(4));
    cpu.write_mem_u8(0x2000, 2);
    assert_eq!(cpu.mem[0x4000], 2);
    assert_eq!(cpu.mem[0x7FFF], 2);
    // bank 0 is read as bank 1
    cpu.write_mem_u8(0x2000, 0);
    assert_eq!(cpu.mbc1_bank1, 1);
    assert_eq!(cpu.mem[0x5000], 1);
    // bank numbers beyond the ROM are masked
    cpu.write_mem_u8(0x3FFF, 7);
    assert_eq!(cpu.mem[0x4000], 3);
    // bank 2 register, then the mode register
    cpu.write_mem_u8(0x4000, 1);
    assert_eq!(cpu.mbc1_bank2, 1);
    assert_eq!(cpu.mem[0x4000], 3);
    cpu.write_mem_u8(0x6000, 1);
    assert_eq!(cpu.mbc1_mode, 1);
}

#[test]
fn any_whole_number_of_banks() {
    // one bank: nothing to switch to, the mask is 0
    let cpu = SM83::new(banked_rom(1));
    assert_eq!(cpu.mbc1_bank_mask, 0);
    assert_eq!(cpu.regs.pc, 0);
    assert!(cpu.mem.iter().all(|&b| b == 0));
    // three banks: the mask covers bank 2; bank 3 lies past the ROM and reads as zeros
    let mut cpu = SM83::new(banked_rom(3));
    assert_eq!(cpu.mbc1_bank_mask, 3);
    cpu.write_mem_u8(0x2000, 2);
    assert_eq!(cpu.mem[0x4000], 2);
    cpu.write_mem_u8(0x2000, 0);
    assert_eq!(cpu.mem[0x7FFF], 1);
    cpu.write_mem_u8(0x2000, 3);
    assert_eq!(cpu.mem[0x4000], 0);
    assert_eq!(cpu.mem[0x7FFF], 0);
    assert_eq!(SM83::new(banked_rom(5)).mbc1_bank_mask, 7);
    assert_eq!(SM83::new(banked_rom(128)).mbc1_bank_mask, 127);
}

#[test]
fn external_ram_gate() {
    let mut cpu = SM83::new(vec![0u8; 0x8000]);
    cpu.write_mem_u8(0xA000, 0x11);
    assert_eq!(cpu.read_mem_u8(0xA000), 0x11);
    cpu.write_mem_u8(0x0000, 0x00);
    assert_eq!(cpu.ramg, 0);
    cpu.write_mem_u8(0xA000, 0x22);
    assert_eq!(cpu.read_mem_u8(0xA000), 0x11);
    cpu.write_mem_u8(0x1FFF, 0xFA);
    assert_eq!(cpu.ramg, 0xA);
    cpu.write_mem_u8(0xA000, 0x33);
    assert_eq!(cpu.read_mem_u8(0xA000), 0x33);
}

#[test]
fn master_registers_read_back() {
    let mut cpu = SM83::new(vec![0u8; 0x8000]);
    cpu.write_mem_u8(HWREG_NR50_MASTER_VOLUME_VIN_PANNING, 0x77);
    assert_eq!(cpu.read_mem_u8(HWREG_NR50_MASTER_VOLUME_VIN_PANNING), 0x77);
    cpu.write_mem_u8(HWREG_NR51_SOUND_PANNING, 0xA5);
    assert_eq!(cpu.read_mem_u8(HWREG_NR51_SOUND_PANNING), 0xA5);
    assert_eq!(cpu.apu.ch_pan, [Pan::Left, Pan::Right, Pan::Left, Pan::Right]);
    cpu.write_mem_u8(HWREG_NR52_AUDIO_MASTER_CONTROL, 0xFF);
    assert_eq!(cpu.read_mem_u8(HWREG_NR52_AUDIO_MASTER_CONTROL), 0x8F);
    assert!(cpu.apu.audio_on);
}

#[test]
fn channel_registers_read_back() {
    let mut cpu = SM83::new(vec![0u8; 0x8000]);
    cpu.write_mem_u8(HWREG_NR10_CHANNEL1_SWEEP, 0xFF);
    assert_eq!(cpu.read_mem_u8(HWREG_NR10_CHANNEL1_SWEEP), 0x7F);
    cpu.write_mem_u8(HWREG_NR11_CHANNEL1_LENGTH_TIMER_DURY_CYCLE, 0x3F);
    assert_eq!(cpu.read_mem_u8(HWREG_NR11_CHANNEL1_LENGTH_TIMER_DURY_CYCLE), 0x3F);
    cpu.write_mem_u8(HWREG_NR12_CHANNEL1_VOLUME_ENVELOPE, 0xF3);
    assert_eq!(cpu.read_mem_u8(HWREG_NR12_CHANNEL1_VOLUME_ENVELOPE), 0xF3);
    cpu.write_mem_u8(HWREG_NR14_CHANNEL1_PERIOD_HIGH_CONTROL, 0x47);
    assert_eq!(cpu.read_mem_u8(HWREG_NR14_CHANNEL1_PERIOD_HIGH_CONTROL), 0x47);
    cpu.write_mem_u8(HWREG_NR32_CHANNEL3_OUTPUT_LEVEL, 0xFF);
    assert_eq!(cpu.read_mem_u8(HWREG_NR32_CHANNEL3_OUTPUT_LEVEL), 0x60);
    cpu.write_mem_u8(HWREG_NR41_CHANNEL4_LENGTH_TIMER, 0xFF);
    assert_eq!(cpu.read_mem_u8(HWREG_NR41_CHANNEL4_LENGTH_TIMER), 0x3F);
    cpu.write_mem_u8(HWREG_NR43_CHANNEL4_FREQUENCY_RANDOMNESS, 0x9C);
    assert_eq!(cpu.read_mem_u8(HWREG_NR43_CHANNEL4_FREQUENCY_RANDOMNESS), 0x9C);
    cpu.write_mem_u8(HWREG_NR44_CHANNEL4_CONTROL, 0x40);
    assert_eq!(cpu.read_mem_u8(HWREG_NR44_CHANNEL4_CONTROL), 0x40);
}

#[test]
fn duty_read_back_above_0x40() {
    // the duty is written to bits 7-6 and reported there
    let mut cpu = SM83::new(vec![0u8; 0x8000]);
    for v in [0x40u8, 0x80, 0xC0, 0xBF] {
        cpu.write_mem_u8(HWREG_NR11_CHANNEL1_LENGTH_TIMER_DURY_CYCLE, v);
        assert_eq!(cpu.read_mem_u8(HWREG_NR11_CHANNEL1_LENGTH_TIMER_DURY_CYCLE), v);
    }
}

#[test]
fn wave_ram_read_back() {
    let mut cpu = SM83::new(vec![0u8; 0x8000]);
    cpu.write_mem_u8(HWREG_CHANNEL3_WAVE_PATTERN_RAM_START + 3, 0x9E);
    assert_eq!(cpu.read_mem_u8(HWREG_CHANNEL3_WAVE_PATTERN_RAM_START + 3), 0x9E);
    assert_eq!(cpu.apu.sample_generator.wave_ram[6], 0x9);
    assert_eq!(cpu.apu.sample_generator.wave_ram[7], 0xE);
}

#[test]
fn register_keeps_its_value_under_other_writes() {
    let mut cpu = SM83::new(vec![0u8; 0x8000]);
    cpu.write_mem_u8(HWREG_NR12_CHANNEL1_VOLUME_ENVELOPE, 0xF3);
    cpu.write_mem_u8(HWREG_NR11_CHANNEL1_LENGTH_TIMER_DURY_CYCLE, 0x81);
    cpu.write_mem_u8(HWREG_NR14_CHANNEL1_PERIOD_HIGH_CONTROL, 0x87);
    cpu.write_mem_u8(HWREG_NR52_AUDIO_MASTER_CONTROL, 0x80);
    cpu.write_mem_u8(HWREG_NR51_SOUND_PANNING, 0x11);
    assert_eq!(cpu.read_mem_u8(HWREG_NR12_CHANNEL1_VOLUME_ENVELOPE), 0xF3);
    assert_eq!(cpu.read_mem_u8(HWREG_NR11_CHANNEL1_LENGTH_TIMER_DURY_CYCLE), 0x81);
    assert_eq!(cpu.read_mem_u8(HWREG_NR14_CHANNEL1_PERIOD_HIGH_CONTROL), 0x87);
}
