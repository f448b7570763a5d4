# gbs_player

A player for GBS (Game Boy Sound) files: an emulated SM83 CPU with the
Game Boy memory map, MBC1 bank switching, timers and interrupts, and the
four-channel audio unit, proved correct with Verus.

Layout:

- `src/types.rs`: hardware constants and the shared data types.
- `src/assembler.rs`: the instruction decoder, proved against a bit-field
  statement of the instruction set.
- `src/sound_generator.rs`: length timer, envelope, pulse, wave and noise
  generators, with register read-back laws.
- `src/apu.rs`: the audio unit and its register map.
- `src/sm83.rs`: the machine state, memory map, stack, timers and clocks.
- `src/instructions.rs`: what each instruction does; `src/cpu.rs`: the
  fetch-execute step with interrupts and a step budget.
- `src/gbs_file.rs`, `src/gbs_player.rs`: the file header and playback.
- `src/midiapu.rs`: the MIDI sound unit: message buffering with running
  status, and which messages each register write, note-on and periodic
  update sends.
- `app/lib.rs`: the floating-point side: the output stage (DAC, mixing,
  high-pass filter) and the conversions of channel volume and frequency
  into MIDI expression, note numbers and pitch bends.
