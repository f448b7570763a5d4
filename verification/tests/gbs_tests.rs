use gbs_player::gbs_file::{build_rom_image, parse_gbs_header, GBS_HEADER_SIZE};
use gbs_player::gbs_player::GBSPlayer;

/// A GBS file with load/init at 0x0400 and play at 0x0404; init returns at
/// once, play counts its calls at 0xC000.
fn gbs_file(tac: u8) -> Vec<u8> {
    let mut data = vec![0u8; GBS_HEADER_SIZE];
    data[0] = b'G';
    data[1] = b'B';
    data[2] = b'S';
    data[3] = 1; // version
    data[4] = 2; // songs
    data[5] = 1; // first song
    data[6] = 0x00; // load 0x0400
    data[7] = 0x04;
    data[8] = 0x00; // init 0x0400
    data[9] = 0x04;
    data[0xA] = 0x04; // play 0x0404
    data[0xB] = 0x04;
    data[0xC] = 0xFE; // SP 0xDFFE
    data[0xD] = 0xDF;
    data[0xE] = 0x00; // TMA
    data[0xF] = tac;
    for (i, c) in b"Title".iter().enumerate() {
        data[0x10 + i] = *c;
    }
    // init: RET
    data.extend_from_slice(&[0xC9, 0x00, 0x00, 0x00]);
    // play: LD HL, 0xC000; INC (HL); RET
    data.extend_from_slice(&[0x21, 0x00, 0xC0, 0x34, 0xC9]);
    data
}

fn rom_image(data: &[u8], load_address: usize) -> Vec<u8> {
    let mut rom = vec![0u8; 0x8000];
    let image = &data[GBS_HEADER_SIZE..];
    rom[load_address..load_address + image.len()].copy_from_slice(image);
    rom
}

#[test]
fn parse_header_fields() {
    let data = gbs_file(0x05);
    let h = parse_gbs_header(&data).unwrap();
    assert_eq!(h.version, 1);
    assert_eq!(h.num_songs, 2);
    assert_eq!(h.first_song, 1);
    assert_eq!(h.load_address, 0x0400);
    assert_eq!(h.init_address, 0x0400);
    assert_eq!(h.play_address, 0x0404);
    assert_eq!(h.stack_pointer, 0xDFFE);
    assert_eq!(h.timer_modulo, 0);
    assert_eq!(h.timer_control, 0x05);
    assert_eq!(&h.title[..5], b"Title");
    assert_eq!(h.title[5], 0);
}

#[test]
fn parse_rejects_short_or_unsigned_data() {
    let data = gbs_file(0);
    assert!(parse_gbs_header(&data[..GBS_HEADER_SIZE - 1]).is_none());
    assert!(parse_gbs_header(&data[..GBS_HEADER_SIZE]).is_some());
    let mut bad = data.clone();
    bad[2] = b'X';
    assert!(parse_gbs_header(&bad).is_none());
}

#[test]
fn init_returns_and_resets_timers() {
    let data = gbs_file(0x00);
    let h = parse_gbs_header(&data).unwrap();
    let mut player = GBSPlayer::new(&h, rom_image(&data, 0x0400), 44100);
    player.load();
    assert_eq!(player.cpu.mem[0x0400], 0xC9);
    assert_eq!(player.init(1), Ok(()));
    assert_eq!(player.cpu.regs.pc, 0x0000);
    assert_eq!(player.cpu.regs.a, 1);
    assert_eq!(player.cpu.regs.sp, 0xDFFE);
    assert_eq!(player.cpu.div_mcycle_count, 0);
    assert_eq!(player.elapsed_cycles, 0);
}

#[test]
fn one_sample_runs_one_sample_period() {
    let data = gbs_file(0x00);
    let h = parse_gbs_header(&data).unwrap();
    let mut player = GBSPlayer::new(&h, rom_image(&data, 0x0400), 44100);
    player.load();
    player.init(0).unwrap();
    assert_eq!(player.output_audio_sample(), Ok(()));
    // 24 one-clock instructions make up 24 * 44100 >= 2^20 counted clocks
    assert_eq!(player.cpu.regs.pc, 24);
    assert_eq!(player.elapsed_cycles, 24 * 44100 - (1 << 20));
}

#[test]
fn timer_interrupt_calls_play() {
    let data = gbs_file(0x05);
    let h = parse_gbs_header(&data).unwrap();
    let mut player = GBSPlayer::new(&h, rom_image(&data, 0x0400), 512);
    player.load();
    player.init(0).unwrap();
    assert_eq!(player.cpu.mem[0xC000], 0);
    player.output_audio_sample().unwrap();
    assert!(player.cpu.mem[0xC000] >= 1);
    assert!(player.cpu.regs.sp <= 0xDFFE);
}

#[test]
fn rom_image_is_padded_to_whole_banks() {
    let image = vec![0xAAu8; 0x100];
    let rom = build_rom_image(&image, 0x0400).unwrap();
    assert_eq!(rom.len(), 0x8000);
    assert_eq!(rom[0x03FF], 0);
    assert_eq!(rom[0x0400], 0xAA);
    assert_eq!(rom[0x04FF], 0xAA);
    assert_eq!(rom[0x0500], 0);
    // one bank more than the image, rounded up: three banks
    let rom = build_rom_image(&vec![1u8; 0x8000], 0x0400).unwrap();
    assert_eq!(rom.len(), 3 * 0x4000);
    assert_eq!(rom[0x83FF], 1);
    assert_eq!(rom[0x8400], 0);
    // an image that does not fit at its address
    assert!(build_rom_image(&vec![1u8; 0x100], 0x7F80).is_none());
    // beyond 128 banks there is no ROM
    assert!(build_rom_image(&vec![0u8; 128 * 0x4000], 0x0400).is_none());
}
