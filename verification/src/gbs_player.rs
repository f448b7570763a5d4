//! Playing a GBS file: the program image is loaded into the emulated
//! machine, its init routine is run once for the chosen song, and its play
//! routine is called on every timer (or VBlank) interrupt request while the
//! machine runs in step with the output sample rate.
use vstd::prelude::*;
use crate::types::{
    SM83Registers, DMG_SYSTEM_CLOCK_HZ, HWREG_IF_INTERRUPT_FLAG, HWREG_TAC_TIMER_CONTROL,
    HWREG_TMA_TIMER_MODULO,
};
use crate::gbs_file::GBSFileHeader;
use crate::sm83::{
    spec_is_bank_count, SM83, SM83State, SM83_INTERRUPT_FLAG_TIMER, SM83_INTERRUPT_FLAG_VBLANK,
};
use crate::cpu::{StepError, INTERRUPT_STEP_BUDGET};
use crate::types::lemma_u16_to_bytes;

verus! {

/// The address init and play return to; reaching it ends the routine.
pub const GBSPLAYER_INIT_PLAY_RETURN_ADDRESS: u16 = 0x0000;

/// Instructions the init routine may run before it returns: every step
/// count a `u64` holds, so a routine that never returns keeps running for
/// as long as any run can last.
pub const INIT_STEP_BUDGET: u64 = 0xFFFF_FFFF_FFFF_FFFF;

/// The mathematical view of a player.
pub struct GBSPlayerState {
    /// The header of the file being played.
    pub gbs_header: GBSFileHeader,
    /// The machine.
    pub cpu: SM83State,
    /// Output samples per second.
    pub sampling_rate: u32,
    /// System clocks run ahead of the output, scaled by the sample rate.
    pub elapsed_cycles: u32,
}

/// GBS player.
pub struct GBSPlayer {
    /// The header of the file being played.
    pub gbs_header: GBSFileHeader,
    /// The machine.
    pub cpu: SM83,
    /// Output samples per second.
    pub sampling_rate: u32,
    /// System clocks run ahead of the output, scaled by the sample rate.
    pub elapsed_cycles: u32,
}

impl View for GBSPlayer {
    type V = GBSPlayerState;

    open spec fn view(&self) -> GBSPlayerState {
        GBSPlayerState {
            gbs_header: self.gbs_header,
            cpu: self.cpu@,
            sampling_rate: self.sampling_rate,
            elapsed_cycles: self.elapsed_cycles,
        }
    }
}

/// The machine after the init routine has run from `s` for at most `n`
/// instructions: it stops when PC reaches the return address; running out
/// of instructions or a failed step is an error.
pub open spec fn spec_run_to_return(s: SM83State, n: nat) -> (SM83State, Result<(), StepError>)
    decreases n,
{
    if s.regs.pc == GBSPLAYER_INIT_PLAY_RETURN_ADDRESS {
        (s, Ok(()))
    } else if n == 0 {
        (s, Err(StepError::BudgetExhausted))
    } else {
        let (s2, r, _) = s.spec_step(INTERRUPT_STEP_BUDGET as nat);
        match r {
            Err(e) => (s2, Err(e)),
            Ok(_) => spec_run_to_return(s2, (n - 1) as nat),
        }
    }
}

impl GBSPlayerState {
    /// The invariant of a player: a sound machine, a positive sample rate
    /// small enough for the clock count, and the count in range.
    pub open spec fn wf(self) -> bool {
        &&& self.cpu.wf()
        &&& self.sampling_rate > 0
        &&& 6 * self.sampling_rate + DMG_SYSTEM_CLOCK_HZ <= u32::MAX
        &&& self.elapsed_cycles < DMG_SYSTEM_CLOCK_HZ + 6 * self.sampling_rate
    }

    /// The interrupt request that calls play: the timer's when TAC enables
    /// the timer, VBlank's otherwise.
    pub open spec fn spec_play_flag(self) -> u8 {
        if self.cpu.mem[HWREG_TAC_TIMER_CONTROL as int] & 0x4 == 0 {
            SM83_INTERRUPT_FLAG_VBLANK
        } else {
            SM83_INTERRUPT_FLAG_TIMER
        }
    }

    /// Whether play is due.
    pub open spec fn spec_play_requested(self) -> bool {
        self.cpu.mem[HWREG_IF_INTERRUPT_FLAG as int] & self.spec_play_flag() != 0
    }

    /// The machine with the program image loaded: the start of the ROM, up
    /// to the two banks of 0x0000-0x7FFF, copied to memory.
    pub open spec fn spec_load(self) -> GBSPlayerState {
        let size = if self.cpu.rom.len() >= 0x8000 {
            0x8000
        } else {
            self.cpu.rom.len() as int
        };
        GBSPlayerState {
            cpu: SM83State {
                mem: Seq::new(
                    0x10000,
                    |i: int|
                        if i < size {
                            self.cpu.rom[i]
                        } else {
                            self.cpu.mem[i]
                        },
                ),
                ..self.cpu
            },
            ..self
        }
    }

    /// The machine ready to run init for `song`: registers, flags and RAM
    /// reset, A holding the song, SP from the header, TMA and TAC written
    /// from the header, the return address pushed and PC at init.
    pub open spec fn spec_prepare_init(self, song: u8) -> SM83State {
        let h = self.gbs_header;
        let s = self.cpu.spec_reset_registers().spec_reset_flags().spec_clear_ram();
        let s = s.with_regs(SM83Registers { a: song, sp: h.stack_pointer, ..s.regs });
        let s = s.spec_write_mem(HWREG_TMA_TIMER_MODULO as int, h.timer_modulo).spec_write_mem(
            HWREG_TAC_TIMER_CONTROL as int,
            h.timer_control,
        );
        s.spec_push16(GBSPLAYER_INIT_PLAY_RETURN_ADDRESS).with_pc(h.init_address)
    }

    /// The player after `init(song)`: init runs to its return, then the
    /// timers are reset so that playing starts at time zero.
    pub open spec fn spec_init(self, song: u8) -> (GBSPlayerState, Result<(), StepError>) {
        let (s, r) = spec_run_to_return(self.spec_prepare_init(song), INIT_STEP_BUDGET as nat);
        let p = GBSPlayerState { elapsed_cycles: 0, ..self };
        match r {
            Err(e) => (GBSPlayerState { cpu: s, ..p }, Err(e)),
            Ok(_) => (GBSPlayerState { cpu: s.spec_reset_timers(), ..p }, Ok(())),
        }
    }

    /// What playback does after an instruction of `cycle` clocks: the
    /// clocks, times the sample rate, are counted; a program that wanders
    /// into play, init or load is sent back to the return address; and play
    /// is called when it is due.
    pub open spec fn spec_after_step(self, cycle: u8) -> GBSPlayerState {
        let h = self.gbs_header;
        let c = self.cpu;
        let c1 = if c.regs.pc == h.play_address || c.regs.pc == h.init_address || c.regs.pc
            == h.load_address {
            c.with_pc(GBSPLAYER_INIT_PLAY_RETURN_ADDRESS)
        } else {
            c
        };
        GBSPlayerState {
            cpu: c1,
            elapsed_cycles: (self.elapsed_cycles + cycle * self.sampling_rate) as u32,
            ..self
        }.spec_serve_play()
    }

    /// When play is due: its request is withdrawn, SP is pulled back to the
    /// header's value if it went past it, and play is called.
    pub open spec fn spec_serve_play(self) -> GBSPlayerState {
        let h = self.gbs_header;
        let c1 = self.cpu;
        if self.spec_play_requested() {
            let c2 = c1.with_mem(
                HWREG_IF_INTERRUPT_FLAG as int,
                c1.mem[HWREG_IF_INTERRUPT_FLAG as int] & !self.spec_play_flag(),
            );
            let c3 = if c2.regs.sp > h.stack_pointer {
                c2.with_regs(SM83Registers { sp: h.stack_pointer, ..c2.regs })
            } else {
                c2
            };
            GBSPlayerState {
                cpu: c3.spec_push16(GBSPLAYER_INIT_PLAY_RETURN_ADDRESS).with_pc(h.play_address),
                ..self
            }
        } else {
            self
        }
    }

    /// One instruction of playback.
    pub open spec fn spec_sample_iteration(self) -> (GBSPlayerState, Result<(), StepError>) {
        let (c, r, _) = self.cpu.spec_step(INTERRUPT_STEP_BUDGET as nat);
        match r {
            Err(e) => (GBSPlayerState { cpu: c, ..self }, Err(e)),
            Ok((_, cycle)) => (GBSPlayerState { cpu: c, ..self }.spec_after_step(cycle), Ok(())),
        }
    }

    /// Playback for one output sample: instructions run until the counted
    /// clocks reach one second's worth (`DMG_SYSTEM_CLOCK_HZ`), which is then
    /// taken off the count. `fuel` bounds the instructions; every
    /// instruction counts at least one clock.
    pub open spec fn spec_run_sample(self, fuel: nat) -> (GBSPlayerState, Result<(), StepError>)
        decreases fuel,
    {
        if self.elapsed_cycles >= DMG_SYSTEM_CLOCK_HZ {
            (
                GBSPlayerState {
                    elapsed_cycles: (self.elapsed_cycles - DMG_SYSTEM_CLOCK_HZ) as u32,
                    ..self
                },
                Ok(()),
            )
        } else if fuel == 0 {
            (self, Ok(()))
        } else {
            let (p, r) = self.spec_sample_iteration();
            match r {
                Err(e) => (p, Err(e)),
                Ok(_) => p.spec_run_sample((fuel - 1) as nat),
            }
        }
    }
}

impl GBSPlayer {
    /// The invariant of a player.
    pub open spec fn wf(&self) -> bool {
        self@.wf()
    }

    /// Creates a player for the file with header `gbs_header` and program
    /// image `rom` (1 to 128 banks of 16 KiB, the image placed at its
    /// load address), producing `sampling_rate` samples per second.
    pub fn new(gbs_header: &GBSFileHeader, rom: Vec<u8>, sampling_rate: u32) -> (r: Self)
        requires
            rom@.len() % 0x4000 == 0,
            spec_is_bank_count(rom@.len() as int / 0x4000),
            sampling_rate > 0,
            6 * sampling_rate + DMG_SYSTEM_CLOCK_HZ <= u32::MAX,
        ensures
            r.wf(),
            r.gbs_header == *gbs_header,
            r.cpu@.spec_is_power_on(rom@),
            r.sampling_rate == sampling_rate,
            r.elapsed_cycles == 0,
    {
        Self { gbs_header: *gbs_header, cpu: SM83::new(rom), sampling_rate, elapsed_cycles: 0 }
    }

    /// Loads the program image: the start of the ROM, up to 0x8000 bytes, is
    /// copied to memory; the rest is reached by bank switching.
    pub fn load(&mut self)
        requires
            old(self).wf(),
        ensures
            final(self).wf(),
            final(self)@ == old(self)@.spec_load(),
    {
        let mut load_size = self.cpu.rom.len();
        if load_size >= 0x8000 {
            load_size = 0x8000;
        }
        let mut i: usize = 0;
        while i < load_size
            invariant
                i <= load_size,
                load_size <= 0x8000,
                load_size <= self.cpu.rom@.len(),
                load_size == (if old(self).cpu.rom@.len() >= 0x8000 {
                    0x8000
                } else {
                    old(self).cpu.rom@.len() as int
                }),
                self@ == (GBSPlayerState {
                    cpu: SM83State { mem: self.cpu.mem@, ..old(self)@.cpu },
                    ..old(self)@
                }),
                forall|j: int|
                    0 <= j < 0x10000 ==> self.cpu.mem@[j] == (if j < i {
                        self.cpu.rom@[j]
                    } else {
                        old(self).cpu.mem@[j]
                    }),
            decreases load_size - i,
        {
            self.cpu.mem[i] = self.cpu.rom[i];
            i += 1;
        }
        proof {
            assert(self.cpu.mem@ =~= old(self)@.spec_load().cpu.mem);
        }
    }

    /// Pushes a byte onto the program's stack.
    fn push_stack(&mut self, value: u8)
        requires
            old(self).wf(),
        ensures
            final(self).wf(),
            final(self)@ == (GBSPlayerState { cpu: old(self)@.cpu.spec_push(value), ..old(self)@ }),
    {
        self.cpu.regs.sp = self.cpu.regs.sp.wrapping_sub(1);
        let sp = self.cpu.regs.sp as usize;
        self.cpu.write_mem_u8(sp, value);
    }

    /// The interrupt request bit that calls play.
    fn play_flag(&self) -> (r: u8)
        requires
            self.wf(),
        ensures
            r == self@.spec_play_flag(),
    {
        if (self.cpu.mem[HWREG_TAC_TIMER_CONTROL] & 0x4) == 0 {
            // with the timer disabled, VBlank drives play
            SM83_INTERRUPT_FLAG_VBLANK
        } else {
            SM83_INTERRUPT_FLAG_TIMER
        }
    }

    /// Whether play is due.
    fn check_play_interrupt(&self) -> (r: bool)
        requires
            self.wf(),
        ensures
            r == self@.spec_play_requested(),
    {
        let flag = self.play_flag();
        (self.cpu.mem[HWREG_IF_INTERRUPT_FLAG] & flag) != 0
    }

    /// Withdraws the request that calls play.
    fn clear_play_interrupt_flag(&mut self)
        requires
            old(self).wf(),
        ensures
            final(self).wf(),
            final(self)@ == (GBSPlayerState {
                cpu: old(self)@.cpu.with_mem(
                    HWREG_IF_INTERRUPT_FLAG as int,
                    old(self)@.cpu.mem[HWREG_IF_INTERRUPT_FLAG as int] & !old(
                        self,
                    )@.spec_play_flag(),
                ),
                ..old(self)@
            }),
    {
        let flag = self.play_flag();
        self.cpu.mem[HWREG_IF_INTERRUPT_FLAG] &= !flag;
    }

    /// Runs the init routine of `song_number` to its return, then resets the
    /// timers so that playing starts at time zero.
    pub fn init(&mut self, song_number: u8) -> (r: Result<(), StepError>)
        requires
            old(self).wf(),
            song_number < old(self).gbs_header.num_songs,
        ensures
            final(self).wf(),
            (final(self)@, r) == old(self)@.spec_init(song_number),
    {
        self.prepare_init(song_number);
        match self.run_to_return(INIT_STEP_BUDGET) {
            Err(e) => Err(e),
            Ok(_) => {
                // playing starts at time zero from here
                self.cpu.reset_timers();
                Ok(())
            },
        }
    }

    /// Runs instructions until PC reaches the return address, for at most
    /// `budget` instructions.
    fn run_to_return(&mut self, budget: u64) -> (r: Result<(), StepError>)
        requires
            old(self).wf(),
        ensures
            final(self).wf(),
            final(self)@ == (GBSPlayerState {
                cpu: spec_run_to_return(old(self)@.cpu, budget as nat).0,
                ..old(self)@
            }),
            r == spec_run_to_return(old(self)@.cpu, budget as nat).1,
    {
        let mut n = budget;
        while self.cpu.regs.pc != GBSPLAYER_INIT_PLAY_RETURN_ADDRESS
            invariant
                self.wf(),
                n <= budget,
                self@ == (GBSPlayerState { cpu: self@.cpu, ..old(self)@ }),
                spec_run_to_return(old(self)@.cpu, budget as nat) == spec_run_to_return(
                    self@.cpu,
                    n as nat,
                ),
            decreases n,
        {
            if n == 0 {
                return Err(StepError::BudgetExhausted);
            }
            match self.cpu.execute_step() {
                Err(e) => {
                    return Err(e);
                },
                Ok(_) => {},
            }
            n -= 1;
        }
        Ok(())
    }

    /// Runs the program for one output sample: instructions run, and play is
    /// called whenever it is due, until the counted clocks reach one
    /// second's worth, which is then taken off the count. The sample itself
    /// is mixed from the state of `cpu.apu`.
    pub fn output_audio_sample(&mut self) -> (r: Result<(), StepError>)
        requires
            old(self).wf(),
        ensures
            final(self).wf(),
            (final(self)@, r) == old(self)@.spec_run_sample(DMG_SYSTEM_CLOCK_HZ as nat),
    {
        let ghost mut fuel: nat = DMG_SYSTEM_CLOCK_HZ as nat;
        while self.elapsed_cycles < DMG_SYSTEM_CLOCK_HZ
            invariant
                self.wf(),
                fuel >= DMG_SYSTEM_CLOCK_HZ - self.elapsed_cycles,
                old(self)@.spec_run_sample(DMG_SYSTEM_CLOCK_HZ as nat) == self@.spec_run_sample(
                    fuel,
                ),
            decreases fuel,
        {
            let r = self.sample_iteration();
            if r.is_err() {
                return r;
            }
            proof {
                fuel = (fuel - 1) as nat;
            }
        }
        self.elapsed_cycles -= DMG_SYSTEM_CLOCK_HZ;
        Ok(())
    }

    /// One instruction of playback.
    fn sample_iteration(&mut self) -> (r: Result<(), StepError>)
        requires
            old(self).wf(),
            old(self).elapsed_cycles < DMG_SYSTEM_CLOCK_HZ,
        ensures
            final(self).wf(),
            (final(self)@, r) == old(self)@.spec_sample_iteration(),
            r is Ok ==> final(self).elapsed_cycles > old(self).elapsed_cycles,
    {
        let cycle = match self.cpu.execute_step() {
            Err(e) => {
                return Err(e);
            },
            Ok((_, cycle)) => cycle,
        };
        self.after_step(cycle);
        Ok(())
    }

    /// Counts the clocks of an instruction, sends a wandering program back
    /// and calls play when it is due.
    fn after_step(&mut self, cycle: u8)
        requires
            old(self).wf(),
            old(self).elapsed_cycles < DMG_SYSTEM_CLOCK_HZ,
            1 <= cycle <= 6,
        ensures
            final(self).wf(),
            final(self)@ == old(self)@.spec_after_step(cycle),
            final(self).elapsed_cycles > old(self).elapsed_cycles,
    {
        proof {
            let c = cycle as int;
            let rate = self.sampling_rate as int;
            assert(c * rate >= 1 && c * rate <= 6 * rate) by (nonlinear_arith)
                requires
                    1 <= c <= 6,
                    rate >= 1,
            ;
        }
        self.elapsed_cycles += cycle as u32 * self.sampling_rate;
        // a program that wanders into play, init or load goes back to the return address
        if self.cpu.regs.pc == self.gbs_header.play_address || self.cpu.regs.pc
            == self.gbs_header.init_address || self.cpu.regs.pc == self.gbs_header.load_address {
            self.cpu.regs.pc = GBSPLAYER_INIT_PLAY_RETURN_ADDRESS;
        }
        self.serve_play();
    }

    /// Calls play when it is due.
    fn serve_play(&mut self)
        requires
            old(self).wf(),
        ensures
            final(self).wf(),
            final(self)@ == old(self)@.spec_serve_play(),
    {
        if self.check_play_interrupt() {
            self.clear_play_interrupt_flag();
            // a stack that keeps growing across calls is pulled back
            if self.cpu.regs.sp > self.gbs_header.stack_pointer {
                self.cpu.regs.sp = self.gbs_header.stack_pointer;
            }
            proof {
                lemma_u16_to_bytes(GBSPLAYER_INIT_PLAY_RETURN_ADDRESS);
            }
            self.push_stack(((GBSPLAYER_INIT_PLAY_RETURN_ADDRESS >> 8) & 0xFF) as u8);
            self.push_stack(((GBSPLAYER_INIT_PLAY_RETURN_ADDRESS >> 0) & 0xFF) as u8);
            self.cpu.regs.pc = self.gbs_header.play_address;
        }
    }

    /// Gets the machine ready to run init for `song_number`.
    fn prepare_init(&mut self, song_number: u8)
        requires
            old(self).wf(),
        ensures
            final(self).wf(),
            final(self)@ == (GBSPlayerState {
                cpu: old(self)@.spec_prepare_init(song_number),
                elapsed_cycles: 0,
                ..old(self)@
            }),
    {
        // registers, flags and RAM
        self.cpu.reset_registers();
        self.cpu.reset_flags();
        self.cpu.clear_ram();
        // the song number goes in A
        self.cpu.regs.a = song_number;
        self.cpu.regs.sp = self.gbs_header.stack_pointer;
        // timer
        self.cpu.write_mem_u8(HWREG_TMA_TIMER_MODULO, self.gbs_header.timer_modulo);
        self.cpu.write_mem_u8(HWREG_TAC_TIMER_CONTROL, self.gbs_header.timer_control);
        self.elapsed_cycles = 0;
        // call init
        proof {
            lemma_u16_to_bytes(GBSPLAYER_INIT_PLAY_RETURN_ADDRESS);
        }
        self.push_stack(((GBSPLAYER_INIT_PLAY_RETURN_ADDRESS >> 8) & 0xFF) as u8);
        self.push_stack(((GBSPLAYER_INIT_PLAY_RETURN_ADDRESS >> 0) & 0xFF) as u8);
        self.cpu.regs.pc = self.gbs_header.init_address;
    }
}

/// Running to the return address succeeds only once PC is there.
proof fn lemma_run_to_return_ok(s: SM83State, n: nat)
    ensures
        spec_run_to_return(s, n).1 is Ok ==> spec_run_to_return(s, n).0.regs.pc
            == GBSPLAYER_INIT_PLAY_RETURN_ADDRESS,
    decreases n,
{
    if s.regs.pc != GBSPLAYER_INIT_PLAY_RETURN_ADDRESS && n > 0 {
        let (s2, r, _) = s.spec_step(INTERRUPT_STEP_BUDGET as nat);
        if r is Ok {
            lemma_run_to_return_ok(s2, (n - 1) as nat);
        }
    }
}

/// A successful init leaves the program returned (PC at the return
/// address) and the clock counts of the machine and of the player at zero.
pub proof fn lemma_init_returns(p: GBSPlayerState, song: u8)
    ensures
        ({
            let (q, r) = p.spec_init(song);
            r is Ok ==> {
                &&& q.cpu.regs.pc == GBSPLAYER_INIT_PLAY_RETURN_ADDRESS
                &&& q.elapsed_cycles == 0
                &&& q.cpu.timer_tick_mcycle_count == 0
                &&& q.cpu.div_mcycle_count == 0
                &&& q.cpu.vblank_mcycle_count == 0
            }
        }),
{
    let s = p.spec_prepare_init(song);
    lemma_run_to_return_ok(s, INIT_STEP_BUDGET as nat);
}

} // verus!
