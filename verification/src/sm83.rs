//! The SM83 CPU of the Game Boy with its memory map, MBC1 bank switching,
//! timers and interrupts.
//!
//! `SM83State` is the mathematical view of the machine; the `spec_*`
//! functions on it state what each operation does, and the executable
//! methods are proved to follow them.
use vstd::prelude::*;
use crate::types::{
    lemma_u16_from_bytes, lemma_u16_to_bytes, SM83ConditionCode, SM83Opcode, SM83Oprand,
    SM83Register16, SM83Register8, SM83Registers, DMG_ROM_BANK_SIZE, ECHO_RAM_START_ADDRESS,
    EXTERNAL_RAM_START_ADDRESS, HWREG_DIV_REGISTER, HWREG_IE_INTERRUPT_ENABLE,
    HWREG_IF_INTERRUPT_FLAG, HWREG_LCDC_LCD_CONTROL, HWREG_NR10_CHANNEL1_SWEEP,
    HWREG_PCM12_AUDIO_DIGITAL_OUTPUTS_12, HWREG_PCM34_AUDIO_DIGITAL_OUTPUTS_34,
    HWREG_START_ADDRESS, HWREG_TAC_TIMER_CONTROL, HWREG_TIMA_TIMER_COUNTER,
    HWREG_TMA_TIMER_MODULO, MASTER_CLOCKS_PER_VBLANK, ROM_BANK1_START_ADDRESS,
    VRAM_START_ADDRESS, WRAM_BANK0_START_ADDRESS, WRAM_BANK1_START_ADDRESS,
};
use crate::apu::{APU, APUDevice};

verus! {

/// System clocks (M-cycles) per frame.
pub const SYSTEM_CLOCKS_PER_VBLANK: u32 = MASTER_CLOCKS_PER_VBLANK / 4;

/// System clocks per count of the DIV register.
pub const DIVIDER_RATE_STSTEM_CLOCKS: u32 = 64;

/// Zero flag (bit 7 of F).
pub const FLAG_Z: u8 = 0x80;

/// Subtraction (BCD) flag (bit 6 of F).
pub const FLAG_N: u8 = 0x40;

/// Half carry flag (bit 5 of F).
pub const FLAG_H: u8 = 0x20;

/// Carry flag (bit 4 of F).
pub const FLAG_C: u8 = 0x10;

/// Joypad interrupt (bit 4 of IF and IE).
pub const SM83_INTERRUPT_FLAG_JOYPAD: u8 = 0x10;

/// Serial interrupt (bit 3 of IF and IE).
pub const SM83_INTERRUPT_FLAG_SERIAL: u8 = 0x08;

/// Timer interrupt (bit 2 of IF and IE).
pub const SM83_INTERRUPT_FLAG_TIMER: u8 = 0x04;

/// LCD interrupt (bit 1 of IF and IE).
pub const SM83_INTERRUPT_FLAG_LCD: u8 = 0x02;

/// VBlank interrupt (bit 0 of IF and IE).
pub const SM83_INTERRUPT_FLAG_VBLANK: u8 = 0x01;

/// MBC1 RAM gate register.
pub const RAMG_START_ADDRESS: usize = 0x0000;

/// MBC1 bank register 1.
pub const BANK1_START_ADDRESS: usize = 0x2000;

/// MBC1 bank register 2.
pub const BANK2_START_ADDRESS: usize = 0x4000;

/// MBC1 mode register.
pub const MODE_START_ADDRESS: usize = 0x6000;

// ---------------------------------------------------------------------------
// Registers and flags
// ---------------------------------------------------------------------------

/// The 16 bit value of a high and a low byte.
pub open spec fn spec_pair(hi: u8, lo: u8) -> u16 {
    (hi * 256 + lo) as u16
}

/// The value of an 8 bit register.
pub open spec fn spec_get_r8(regs: SM83Registers, r: SM83Register8) -> u8 {
    match r {
        SM83Register8::A => regs.a,
        SM83Register8::B => regs.b,
        SM83Register8::C => regs.c,
        SM83Register8::D => regs.d,
        SM83Register8::E => regs.e,
        SM83Register8::H => regs.h,
        SM83Register8::L => regs.l,
    }
}

/// The registers with one 8 bit register set.
pub open spec fn spec_set_r8(regs: SM83Registers, r: SM83Register8, v: u8) -> SM83Registers {
    match r {
        SM83Register8::A => SM83Registers { a: v, ..regs },
        SM83Register8::B => SM83Registers { b: v, ..regs },
        SM83Register8::C => SM83Registers { c: v, ..regs },
        SM83Register8::D => SM83Registers { d: v, ..regs },
        SM83Register8::E => SM83Registers { e: v, ..regs },
        SM83Register8::H => SM83Registers { h: v, ..regs },
        SM83Register8::L => SM83Registers { l: v, ..regs },
    }
}

/// The value of a 16 bit register (HL+ and HL- read HL).
pub open spec fn spec_get_r16(regs: SM83Registers, r: SM83Register16) -> u16 {
    match r {
        SM83Register16::AF => spec_pair(regs.a, regs.f),
        SM83Register16::BC => spec_pair(regs.b, regs.c),
        SM83Register16::DE => spec_pair(regs.d, regs.e),
        SM83Register16::HL | SM83Register16::HLincrement | SM83Register16::HLdecrement => spec_pair(
            regs.h,
            regs.l,
        ),
        SM83Register16::SP => regs.sp,
    }
}

/// The registers with one 16 bit register set (HL+ and HL- set HL).
pub open spec fn spec_set_r16(regs: SM83Registers, r: SM83Register16, v: u16) -> SM83Registers {
    let hi = (v / 256) as u8;
    let lo = (v % 256) as u8;
    match r {
        SM83Register16::AF => SM83Registers { a: hi, f: lo, ..regs },
        SM83Register16::BC => SM83Registers { b: hi, c: lo, ..regs },
        SM83Register16::DE => SM83Registers { d: hi, e: lo, ..regs },
        SM83Register16::HL | SM83Register16::HLincrement | SM83Register16::HLdecrement => {
            SM83Registers { h: hi, l: lo, ..regs }
        },
        SM83Register16::SP => SM83Registers { sp: v, ..regs },
    }
}

/// Whether flag bit `flag` is set in `f`.
pub open spec fn spec_test_flag(f: u8, flag: u8) -> bool {
    (f & flag) != 0
}

/// `f` with flag bit `flag` set when `cond` holds and cleared otherwise.
pub open spec fn spec_set_flag(f: u8, flag: u8, cond: bool) -> u8 {
    if cond {
        f | flag
    } else {
        f & !flag
    }
}

/// Whether a branch condition holds for the flags `f`.
pub open spec fn spec_condition(f: u8, cc: SM83ConditionCode) -> bool {
    match cc {
        SM83ConditionCode::Z => spec_test_flag(f, FLAG_Z),
        SM83ConditionCode::NZ => !spec_test_flag(f, FLAG_Z),
        SM83ConditionCode::C => spec_test_flag(f, FLAG_C),
        SM83ConditionCode::NC => !spec_test_flag(f, FLAG_C),
    }
}

/// `x + 1` wrapped to 16 bits.
pub open spec fn spec_inc16(x: u16) -> u16 {
    ((x + 1) % 0x10000) as u16
}

/// `x - 1` wrapped to 16 bits.
pub open spec fn spec_dec16(x: u16) -> u16 {
    ((x - 1) % 0x10000) as u16
}

// ---------------------------------------------------------------------------
// Arithmetic
// ---------------------------------------------------------------------------

/// 8 bit addition: the result, the carry out of bit 7 and the carry out of bit 3.
pub open spec fn spec_add8(a: u8, b: u8) -> (u8, bool, bool) {
    (((a + b) % 256) as u8, a + b > 255, a % 16 + b % 16 > 15)
}

/// 16 bit addition: the result, the carry out of bit 15 and the carry out of bit 11.
pub open spec fn spec_add16(a: u16, b: u16) -> (u16, bool, bool) {
    (((a + b) % 0x10000) as u16, a + b > 0xFFFF, a % 4096 + b % 4096 > 4095)
}

/// 8 bit subtraction: the result, the borrow into bit 7 and the borrow into bit 3.
pub open spec fn spec_sub8(a: u8, b: u8) -> (u8, bool, bool) {
    (((a - b) % 256) as u8, a < b, a % 16 < b % 16)
}

/// 8 bit addition with carry in `c`.
pub open spec fn spec_adc8(a: u8, b: u8, c: bool) -> (u8, bool, bool) {
    let ci: int = if c { 1 } else { 0 };
    (((a + b + ci) % 256) as u8, a + b + ci > 255, a % 16 + b % 16 + ci > 15)
}

/// 8 bit subtraction with borrow in `c`.
pub open spec fn spec_sbc8(a: u8, b: u8, c: bool) -> (u8, bool, bool) {
    let ci: int = if c { 1 } else { 0 };
    (((a - b - ci) % 256) as u8, b + ci > a, b % 16 + ci > a % 16)
}

/// The byte that holds a signed offset in two's complement.
pub open spec fn spec_i8_byte(e8: i8) -> int {
    if e8 < 0 {
        e8 + 256
    } else {
        e8 as int
    }
}

/// `x + e` wrapped to 16 bits.
pub open spec fn spec_offset16(x: u16, e: i8) -> u16 {
    ((x + e) % 0x10000) as u16
}

/// Addition of a signed byte to a 16 bit register (`ADD SP, e8`): the
/// result and the carries out of bits 3 and 7 of the low byte.
pub open spec fn spec_add16_e8(reg: u16, e8: i8) -> (u16, bool, bool) {
    let b = spec_i8_byte(e8);
    (spec_offset16(reg, e8), reg % 16 + b % 16 > 15, reg % 256 + b > 255)
}

/// The arithmetic operations that share one operand fetch.
#[derive(Clone, Copy, PartialEq, Eq, Structural)]
pub enum ArithOp {
    /// Subtraction (also used by `CP`).
    Sub,
    /// Addition with carry.
    Adc,
    /// Subtraction with borrow.
    Sbc,
}

/// The result of an arithmetic operation and its two carries.
pub open spec fn spec_arith(op: ArithOp, a: u8, b: u8, c: bool) -> (u8, bool, bool) {
    match op {
        ArithOp::Sub => spec_sub8(a, b),
        ArithOp::Adc => spec_adc8(a, b, c),
        ArithOp::Sbc => spec_sbc8(a, b, c),
    }
}

pub(crate) fn add_u8(v1: u8, v2: u8) -> (r: (u8, bool, bool))
    ensures
        r == spec_add8(v1, v2),
{
    let ret = v1.wrapping_add(v2);
    let overflow = v1 as u16 + v2 as u16 > 0xFF;
    proof {
        lemma_u8_low_nibble(v1);
        lemma_u8_low_nibble(v2);
    }
    let half_overflow = ((v1 & 0xF) + (v2 & 0xF)) > 0xF;
    (ret, overflow, half_overflow)
}

pub(crate) fn add_u16(v1: u16, v2: u16) -> (r: (u16, bool, bool))
    ensures
        r == spec_add16(v1, v2),
{
    let ret = v1.wrapping_add(v2);
    let overflow = v1 as u32 + v2 as u32 > 0xFFFF;
    proof {
        lemma_u16_low_bits(v1);
        lemma_u16_low_bits(v2);
    }
    let half_overflow = ((v1 & 0xFFF) + (v2 & 0xFFF)) > 0xFFF;
    (ret, overflow, half_overflow)
}

fn sub(a: u8, b: u8) -> (r: (u8, bool, bool))
    ensures
        r == spec_sub8(a, b),
{
    let ret = a.wrapping_sub(b);
    let overflow = a < b;
    proof {
        lemma_u8_low_nibble(a);
        lemma_u8_low_nibble(b);
    }
    let half_overflow = ((a & 0xF) as i16 - (b & 0xF) as i16) < 0;
    (ret, overflow, half_overflow)
}

fn adc(a: u8, b: u8, carry: bool) -> (r: (u8, bool, bool))
    ensures
        r == spec_adc8(a, b, carry),
{
    let a16 = a as u16;
    let b16 = b as u16;
    let c: u16 = if carry { 1 } else { 0 };
    let ret = a16 + b16 + c;
    proof {
        lemma_adc_half_carry(a16, b16, c);
        lemma_u16_to_bytes(ret);
    }
    ((ret & 0xFF) as u8, ret >= 0x100, (a16 ^ b16 ^ ret) & 0x10 != 0)
}

fn sbc(a: u8, b: u8, carry: bool) -> (r: (u8, bool, bool))
    ensures
        r == spec_sbc8(a, b, carry),
{
    let a16 = a as u16;
    let b16 = b as u16;
    let c: u16 = if carry { 1 } else { 0 };
    let ret = a16.wrapping_sub(b16).wrapping_sub(c);
    proof {
        lemma_u16_to_bytes(ret);
        lemma_u16_low_bits(a16);
        lemma_u16_low_bits(b16);
        assert(ret as int % 256 == (a - b - c) % 256) by {
            lemma_wrap_mod_256(a16 as int - b16 as int - c as int, ret as int);
        }
    }
    ((ret & 0xFF) as u8, (b16 + c) > a16, ((b16 & 0x0F) + c) > (a16 & 0x0F))
}

/// `x + e` wrapped to 16 bits.
pub(crate) fn offset_u16(x: u16, e: i8) -> (r: u16)
    ensures
        r == spec_offset16(x, e),
{
    if e < 0 {
        x.wrapping_sub((0 - (e as i16)) as u16)
    } else {
        x.wrapping_add(e as u16)
    }
}

/// Adds a signed byte to a 16 bit value; returns the result and the carries
/// out of bits 3 and 7.
pub(crate) fn add_u16_e8(reg: u16, e8: i8) -> (r: (u16, bool, bool))
    ensures
        r == spec_add16_e8(reg, e8),
{
    let b: u8 = if e8 < 0 {
        (e8 as i16 + 256) as u8
    } else {
        e8 as u8
    };
    let ret = offset_u16(reg, e8);
    proof {
        lemma_u16_low_bits(reg);
        lemma_u16_low_bits(b as u16);
        lemma_u16_to_bytes(reg);
    }
    let half_overflow = (reg & 0xF) + ((b as u16) & 0xF) > 0xF;
    let overflow = (reg & 0xFF) + (b as u16) > 0xFF;
    (ret, half_overflow, overflow)
}

pub(crate) fn arith(op: ArithOp, a: u8, b: u8, carry: bool) -> (r: (u8, bool, bool))
    ensures
        r == spec_arith(op, a, b, carry),
{
    match op {
        ArithOp::Sub => self::sub(a, b),
        ArithOp::Adc => adc(a, b, carry),
        ArithOp::Sbc => sbc(a, b, carry),
    }
}

/// The low nibble of a byte, as arithmetic.
pub(crate) proof fn lemma_u8_low_nibble(v: u8)
    by (bit_vector)
    ensures
        v & 0xF == v % 16,
        v & 0x0F == v % 16,
        (v & 0xF0) >> 4 == v / 16,
{
}

/// The low bits of a 16 bit value, as arithmetic.
proof fn lemma_u16_low_bits(v: u16)
    by (bit_vector)
    ensures
        v & 0xF == v % 16,
        v & 0x0F == v % 16,
        v & 0xFFF == v % 4096,
{
}

/// The half carry of an addition with carry is bit 4 of `a ^ b ^ (a + b + c)`.
proof fn lemma_adc_half_carry(a: u16, b: u16, c: u16)
    requires
        a < 256,
        b < 256,
        c < 2,
    ensures
        ((a ^ b ^ ((a + b + c) as u16)) & 0x10 != 0) == (a % 16 + b % 16 + c > 15),
{
    assert(((a ^ b ^ ((a + b + c) as u16)) & 0x10 != 0) == ((a & 0xF) + (b & 0xF) + c > 15))
        by (bit_vector)
        requires
            a < 256,
            b < 256,
            c < 2,
    ;
    lemma_u16_low_bits(a);
    lemma_u16_low_bits(b);
}

/// A value that wraps `x` into 16 bits agrees with it modulo 256.
proof fn lemma_wrap_mod_256(x: int, w: int)
    requires
        w == x % 0x10000,
    ensures
        w % 256 == x % 256,
{
    assert(w % 256 == x % 256) by (nonlinear_arith)
        requires
            w == x % 0x10000,
    ;
}


// ---------------------------------------------------------------------------
// Machine state
// ---------------------------------------------------------------------------

/// The mathematical view of the machine.
pub struct SM83State {
    /// Registers.
    pub regs: SM83Registers,
    /// The 64 KiB address space.
    pub mem: Seq<u8>,
    /// The cartridge ROM.
    pub rom: Seq<u8>,
    /// The audio unit.
    pub apu: APU,
    /// MBC1 RAM gate.
    pub ramg: u8,
    /// MBC1 bank register 1.
    pub mbc1_bank1: u8,
    /// MBC1 bank register 2.
    pub mbc1_bank2: u8,
    /// MBC1 mode register.
    pub mbc1_mode: u8,
    /// Mask of the ROM bank numbers.
    pub mbc1_bank_mask: u8,
    /// Interrupt master enable.
    pub ime_flag: bool,
    /// Whether TIMA counts.
    pub timer_enable: bool,
    /// System clocks per TIMA count.
    pub timer_increment_mcycle: u32,
    /// System clocks since the last TIMA count.
    pub timer_tick_mcycle_count: u32,
    /// System clocks since the last DIV count.
    pub div_mcycle_count: u32,
    /// System clocks since the last VBlank.
    pub vblank_mcycle_count: u32,
}

/// SM83 emulator.
pub struct SM83 {
    /// Registers.
    pub regs: SM83Registers,
    /// The 64 KiB address space.
    pub mem: [u8; 65536],
    /// The cartridge ROM; a whole number of 16 KiB banks.
    pub rom: Vec<u8>,
    /// The audio unit.
    pub apu: APU,
    /// MBC1 RAM gate.
    pub ramg: u8,
    /// MBC1 bank register 1.
    pub mbc1_bank1: u8,
    /// MBC1 bank register 2.
    pub mbc1_bank2: u8,
    /// MBC1 mode register.
    pub mbc1_mode: u8,
    /// Mask of the ROM bank numbers.
    pub mbc1_bank_mask: u8,
    /// Interrupt master enable.
    pub ime_flag: bool,
    /// Whether TIMA counts.
    pub timer_enable: bool,
    /// System clocks per TIMA count.
    pub timer_increment_mcycle: u32,
    /// System clocks since the last TIMA count.
    pub timer_tick_mcycle_count: u32,
    /// System clocks since the last DIV count.
    pub div_mcycle_count: u32,
    /// System clocks since the last VBlank.
    pub vblank_mcycle_count: u32,
}

impl View for SM83 {
    type V = SM83State;

    open spec fn view(&self) -> SM83State {
        SM83State {
            regs: self.regs,
            mem: self.mem@,
            rom: self.rom@,
            apu: self.apu,
            ramg: self.ramg,
            mbc1_bank1: self.mbc1_bank1,
            mbc1_bank2: self.mbc1_bank2,
            mbc1_mode: self.mbc1_mode,
            mbc1_bank_mask: self.mbc1_bank_mask,
            ime_flag: self.ime_flag,
            timer_enable: self.timer_enable,
            timer_increment_mcycle: self.timer_increment_mcycle,
            timer_tick_mcycle_count: self.timer_tick_mcycle_count,
            div_mcycle_count: self.div_mcycle_count,
            vblank_mcycle_count: self.vblank_mcycle_count,
        }
    }
}

/// Whether `n` is a number of ROM banks MBC1 can switch between: 1 to 128.
pub open spec fn spec_is_bank_count(n: int) -> bool {
    1 <= n <= 128
}

/// The mask of the bank numbers for `n` banks: the smallest `2^k - 1` that
/// covers the last bank `n - 1`.
pub open spec fn spec_bank_mask(n: int) -> int {
    if n <= 1 {
        0
    } else if n <= 2 {
        1
    } else if n <= 4 {
        3
    } else if n <= 8 {
        7
    } else if n <= 16 {
        15
    } else if n <= 32 {
        31
    } else if n <= 64 {
        63
    } else {
        127
    }
}

/// Whether `address` belongs to the audio unit.
pub open spec fn spec_is_apu_address(address: int) -> bool {
    (HWREG_NR10_CHANNEL1_SWEEP <= address < HWREG_LCDC_LCD_CONTROL)
        || address == HWREG_PCM12_AUDIO_DIGITAL_OUTPUTS_12
        || address == HWREG_PCM34_AUDIO_DIGITAL_OUTPUTS_34
}

/// System clocks per TIMA count selected by bits 1-0 of TAC.
pub open spec fn spec_timer_increment(value: u8) -> u32 {
    let sel = value & 0x3;
    if sel == 0 {
        256
    } else if sel == 1 {
        4
    } else if sel == 2 {
        16
    } else {
        64
    }
}

impl SM83State {
    /// The invariant of the machine.
    pub open spec fn wf(self) -> bool {
        &&& self.mem.len() == 0x10000
        &&& self.rom.len() % 0x4000 == 0
        &&& spec_is_bank_count(self.rom.len() as int / 0x4000)
        &&& self.mbc1_bank_mask as int == spec_bank_mask(self.rom.len() as int / 0x4000)
        &&& self.apu.wf()
        &&& self.timer_increment_mcycle == 4 || self.timer_increment_mcycle == 16
            || self.timer_increment_mcycle == 64 || self.timer_increment_mcycle == 256
        &&& self.timer_tick_mcycle_count <= 256
        &&& self.div_mcycle_count < DIVIDER_RATE_STSTEM_CLOCKS
        &&& self.vblank_mcycle_count < SYSTEM_CLOCKS_PER_VBLANK
    }

    /// The value of an 8 bit register.
    pub open spec fn r8(self, r: SM83Register8) -> u8 {
        spec_get_r8(self.regs, r)
    }

    /// The value of a 16 bit register.
    pub open spec fn r16(self, r: SM83Register16) -> u16 {
        spec_get_r16(self.regs, r)
    }

    /// Whether flag bit `flag` is set.
    pub open spec fn flag(self, flag: u8) -> bool {
        spec_test_flag(self.regs.f, flag)
    }

    /// The machine with an 8 bit register set.
    pub open spec fn with_r8(self, r: SM83Register8, v: u8) -> SM83State {
        self.with_regs(spec_set_r8(self.regs, r, v))
    }

    /// The machine with a 16 bit register set.
    pub open spec fn with_r16(self, r: SM83Register16, v: u16) -> SM83State {
        self.with_regs(spec_set_r16(self.regs, r, v))
    }

    /// The machine with another program counter.
    pub open spec fn with_pc(self, pc: u16) -> SM83State {
        self.with_regs(SM83Registers { pc, ..self.regs })
    }

    /// Whether this is the machine as created around `rom`: registers and
    /// memory cleared, RAM gate open, bank 1 selected, the bank mask the
    /// smallest `2^k - 1` covering the last bank, interrupts and timer off (at the slowest
    /// rate), clock counts zero, the audio unit as created.
    pub open spec fn spec_is_power_on(self, rom: Seq<u8>) -> bool {
        &&& self.rom == rom
        &&& self.regs == SM83Registers { a: 0, f: 0, b: 0, c: 0, d: 0, e: 0, h: 0, l: 0, sp: 0, pc: 0 }
        &&& forall|i: int| 0 <= i < 0x10000 ==> self.mem[i] == 0
        &&& self.ramg == 0xA
        &&& self.mbc1_bank1 == 1
        &&& self.mbc1_bank2 == 0
        &&& self.mbc1_mode == 0
        &&& self.mbc1_bank_mask as int == spec_bank_mask(rom.len() as int / 0x4000)
        &&& !self.ime_flag
        &&& !self.timer_enable
        &&& self.timer_increment_mcycle == 256
        &&& self.timer_tick_mcycle_count == 0
        &&& self.div_mcycle_count == 0
        &&& self.vblank_mcycle_count == 0
        &&& self.apu.spec_is_power_on()
    }

    /// Whether a write to `address` stores the byte where a read finds it:
    /// above the MBC1 registers, outside DIV and the audio registers, and in
    /// external RAM only while the RAM gate is open.
    pub open spec fn spec_is_plain_memory(self, address: int) -> bool {
        &&& VRAM_START_ADDRESS <= address < 0x10000
        &&& address != HWREG_DIV_REGISTER
        &&& !spec_is_apu_address(address)
        &&& (EXTERNAL_RAM_START_ADDRESS <= address < WRAM_BANK0_START_ADDRESS ==> self.ramg == 0xA)
    }

    /// The machine with other registers.
    pub open spec fn with_regs(self, regs: SM83Registers) -> SM83State {
        SM83State { regs, ..self }
    }

    /// The machine with byte `address` of the address space set directly.
    pub open spec fn with_mem(self, address: int, value: u8) -> SM83State {
        SM83State { mem: self.mem.update(address, value), ..self }
    }

    /// The machine with flag bit `flag` set to `cond`.
    pub open spec fn with_flag(self, flag: u8, cond: bool) -> SM83State {
        self.with_regs(SM83Registers { f: spec_set_flag(self.regs.f, flag, cond), ..self.regs })
    }

    /// The ROM bank selected by the MBC1 bank registers.
    pub open spec fn spec_rom_bank(self) -> u8 {
        ((self.mbc1_bank2 << 5) | self.mbc1_bank1) & self.mbc1_bank_mask
    }

    /// The machine with the selected ROM bank copied to 0x4000..0x8000; a
    /// bank past the end of the ROM (possible when the number of banks is
    /// not a power of two) reads as zeros, as if the ROM were padded.
    pub open spec fn spec_switch_rom_bank_mbc1(self) -> SM83State {
        let offset = self.spec_rom_bank() as int * 0x4000;
        SM83State {
            mem: Seq::new(
                0x10000,
                |i: int|
                    if ROM_BANK1_START_ADDRESS <= i < ROM_BANK1_START_ADDRESS + DMG_ROM_BANK_SIZE {
                        if offset + i - ROM_BANK1_START_ADDRESS < self.rom.len() {
                            self.rom[offset + i - ROM_BANK1_START_ADDRESS]
                        } else {
                            0
                        }
                    } else {
                        self.mem[i]
                    },
            ),
            ..self
        }
    }

    /// The byte a read of `address` gives.
    pub closed spec fn spec_read_mem(self, address: int) -> u8 {
        if spec_is_apu_address(address) {
            self.apu.spec_read_register(address as usize)
        } else {
            self.mem[address]
        }
    }

    /// The machine after `value` is written to `address`.
    pub closed spec fn spec_write_mem(self, address: int, value: u8) -> SM83State {
        if address < BANK1_START_ADDRESS {
            SM83State { ramg: value & 0xF, ..self }
        } else if address < BANK2_START_ADDRESS {
            let b = value & 0x1F;
            SM83State { mbc1_bank1: if b == 0 { 1 } else { b }, ..self }.spec_switch_rom_bank_mbc1()
        } else if address < MODE_START_ADDRESS {
            SM83State { mbc1_bank2: value & 0x3, ..self }.spec_switch_rom_bank_mbc1()
        } else if address < VRAM_START_ADDRESS {
            SM83State { mbc1_mode: value & 0x1, ..self }.spec_switch_rom_bank_mbc1()
        } else if EXTERNAL_RAM_START_ADDRESS <= address < WRAM_BANK0_START_ADDRESS {
            if self.ramg == 0xA {
                self.with_mem(address, value)
            } else {
                self
            }
        } else if WRAM_BANK0_START_ADDRESS <= address < ECHO_RAM_START_ADDRESS {
            self.with_mem(address, value)
        } else if address == HWREG_DIV_REGISTER {
            self.with_mem(address, 0)
        } else if address == HWREG_TAC_TIMER_CONTROL {
            SM83State {
                timer_enable: (value & 0x4) != 0,
                timer_increment_mcycle: spec_timer_increment(value),
                ..self
            }.with_mem(address, value)
        } else if spec_is_apu_address(address) {
            SM83State {
                apu: self.apu.spec_write_register(address as usize, value),
                ..self
            }.with_mem(address, value)
        } else {
            self.with_mem(address, value)
        }
    }

    /// The machine after a push of `value`: SP is decremented, then written.
    pub open spec fn spec_push(self, value: u8) -> SM83State {
        let sp = spec_dec16(self.regs.sp);
        self.with_regs(SM83Registers { sp, ..self.regs }).spec_write_mem(sp as int, value)
    }

    /// The byte a pop gives and the machine after it: SP is read, then incremented.
    pub open spec fn spec_pop(self) -> (SM83State, u8) {
        (
            self.with_regs(SM83Registers { sp: spec_inc16(self.regs.sp), ..self.regs }),
            self.spec_read_mem(self.regs.sp as int),
        )
    }

    /// The machine after a 16 bit value is pushed, high byte first.
    pub open spec fn spec_push16(self, value: u16) -> SM83State {
        self.spec_push((value / 256) as u8).spec_push((value % 256) as u8)
    }

    /// The 16 bit value of two pops (low byte first) and the machine after them.
    pub open spec fn spec_pop16(self) -> (SM83State, u16) {
        let (s1, low) = self.spec_pop();
        let (s2, high) = s1.spec_pop();
        (s2, spec_pair(high, low))
    }

    /// The TIMA part of a system clock: the count advances, and when it
    /// reaches the rate it is reduced by the rate and, while the timer is
    /// enabled, TIMA counts; an overflow reloads TMA and requests the timer
    /// interrupt.
    pub open spec fn spec_tick_timer(self) -> SM83State {
        let tick = self.timer_tick_mcycle_count + 1;
        if tick >= self.timer_increment_mcycle {
            let s = SM83State {
                timer_tick_mcycle_count: (tick - self.timer_increment_mcycle) as u32,
                ..self
            };
            if self.timer_enable {
                let tima = self.mem[HWREG_TIMA_TIMER_COUNTER as int];
                if tima == 0xFF {
                    let s = s.with_mem(
                        HWREG_IF_INTERRUPT_FLAG as int,
                        s.mem[HWREG_IF_INTERRUPT_FLAG as int] | SM83_INTERRUPT_FLAG_TIMER,
                    );
                    s.with_mem(HWREG_TIMA_TIMER_COUNTER as int, s.mem[HWREG_TMA_TIMER_MODULO as int])
                } else {
                    s.with_mem(HWREG_TIMA_TIMER_COUNTER as int, (tima + 1) as u8)
                }
            } else {
                s
            }
        } else {
            SM83State { timer_tick_mcycle_count: tick as u32, ..self }
        }
    }

    /// The DIV part of a system clock: DIV counts once every
    /// `DIVIDER_RATE_STSTEM_CLOCKS` clocks, wrapping at 256.
    pub open spec fn spec_tick_divider(self) -> SM83State {
        let div = self.div_mcycle_count + 1;
        if div >= DIVIDER_RATE_STSTEM_CLOCKS {
            let d = self.mem[HWREG_DIV_REGISTER as int];
            SM83State {
                div_mcycle_count: (div - DIVIDER_RATE_STSTEM_CLOCKS) as u32,
                ..self
            }.with_mem(HWREG_DIV_REGISTER as int, ((d + 1) % 256) as u8)
        } else {
            SM83State { div_mcycle_count: div as u32, ..self }
        }
    }

    /// The VBlank part of a system clock: every `SYSTEM_CLOCKS_PER_VBLANK`
    /// clocks the VBlank interrupt is requested.
    pub open spec fn spec_tick_vblank(self) -> SM83State {
        let vb = self.vblank_mcycle_count + 1;
        if vb >= SYSTEM_CLOCKS_PER_VBLANK {
            SM83State {
                vblank_mcycle_count: (vb - SYSTEM_CLOCKS_PER_VBLANK) as u32,
                ..self
            }.with_mem(
                HWREG_IF_INTERRUPT_FLAG as int,
                self.mem[HWREG_IF_INTERRUPT_FLAG as int] | SM83_INTERRUPT_FLAG_VBLANK,
            )
        } else {
            SM83State { vblank_mcycle_count: vb as u32, ..self }
        }
    }

    /// The machine after one system clock (M-cycle): the timer, DIV and the
    /// VBlank counter advance, and the audio unit runs two 2 MHz ticks.
    pub open spec fn spec_system_clock_tick(self) -> SM83State {
        let s = self.spec_tick_timer().spec_tick_divider().spec_tick_vblank();
        SM83State { apu: s.apu.spec_clock_tick_2mhz().spec_clock_tick_2mhz(), ..s }
    }

    /// The machine after `n` system clocks.
    pub open spec fn spec_system_clock_ticks(self, n: nat) -> SM83State
        decreases n,
    {
        if n == 0 {
            self
        } else {
            self.spec_system_clock_tick().spec_system_clock_ticks((n - 1) as nat)
        }
    }

    /// The machine after `reset_flags`: Z, H and C set, N cleared, interrupts disabled.
    pub open spec fn spec_reset_flags(self) -> SM83State {
        SM83State {
            ime_flag: false,
            ..self.with_flag(FLAG_Z, true).with_flag(FLAG_N, false).with_flag(FLAG_H, true).with_flag(
                FLAG_C,
                true,
            )
        }
    }

    /// The machine after `reset_registers`: A to L cleared, F kept, SP at
    /// 0xFFFE and PC at 0x0100.
    pub open spec fn spec_reset_registers(self) -> SM83State {
        self.with_regs(
            SM83Registers {
                a: 0,
                f: self.regs.f,
                b: 0,
                c: 0,
                d: 0,
                e: 0,
                h: 0,
                l: 0,
                sp: 0xFFFE,
                pc: 0x0100,
            },
        )
    }

    /// The machine after `clear_ram`: external RAM and both work RAM banks
    /// (0xA000-0xDFFF) cleared.
    pub open spec fn spec_clear_ram(self) -> SM83State {
        SM83State {
            mem: Seq::new(
                0x10000,
                |i: int|
                    if EXTERNAL_RAM_START_ADDRESS <= i < ECHO_RAM_START_ADDRESS {
                        0u8
                    } else {
                        self.mem[i]
                    },
            ),
            ..self
        }
    }

    /// The machine after `reset_timers`: the three clock counts and DIV
    /// cleared, the timer and VBlank requests withdrawn.
    pub open spec fn spec_reset_timers(self) -> SM83State {
        SM83State {
            timer_tick_mcycle_count: 0,
            div_mcycle_count: 0,
            vblank_mcycle_count: 0,
            ..self
        }.with_mem(HWREG_DIV_REGISTER as int, 0).with_mem(
            HWREG_IF_INTERRUPT_FLAG as int,
            self.mem[HWREG_IF_INTERRUPT_FLAG as int] & !(SM83_INTERRUPT_FLAG_TIMER
                | SM83_INTERRUPT_FLAG_VBLANK),
        )
    }

}


impl SM83 {
    /// The invariant of the machine.
    pub open spec fn wf(&self) -> bool {
        self@.wf()
    }

    /// Creates a machine with cleared registers and memory around `rom`,
    /// which holds 1 to 128 banks of 16 KiB. Bank 1 is selected but not yet
    /// copied; the mask of the bank numbers is the smallest `2^k - 1` that
    /// covers the last bank.
    pub fn new(rom: Vec<u8>) -> (r: Self)
        requires
            rom@.len() % 0x4000 == 0,
            spec_is_bank_count(rom@.len() as int / 0x4000),
        ensures
            r.wf(),
            r@.spec_is_power_on(rom@),
    {
        let num_rom_banks = rom.len() / DMG_ROM_BANK_SIZE;
        // the smallest 2^k - 1 that covers the last bank
        let bank_mask: u8 = if num_rom_banks <= 1 {
            0
        } else if num_rom_banks <= 2 {
            1
        } else if num_rom_banks <= 4 {
            3
        } else if num_rom_banks <= 8 {
            7
        } else if num_rom_banks <= 16 {
            15
        } else if num_rom_banks <= 32 {
            31
        } else if num_rom_banks <= 64 {
            63
        } else {
            127
        };
        SM83 {
            regs: SM83Registers { a: 0, f: 0, b: 0, c: 0, d: 0, e: 0, h: 0, l: 0, sp: 0, pc: 0 },
            mem: [0; 65536],
            apu: APU::new(),
            ramg: 0xA,
            mbc1_bank1: 1,
            mbc1_bank2: 0,
            mbc1_mode: 0,
            mbc1_bank_mask: bank_mask,
            rom: rom,
            ime_flag: false,
            timer_enable: false,
            timer_increment_mcycle: 256,
            timer_tick_mcycle_count: 0,
            div_mcycle_count: 0,
            vblank_mcycle_count: 0,
        }
    }

    /// Whether flag bit `flag` is set.
    pub(crate) fn test_flag(&self, flag: u8) -> (r: bool)
        ensures
            r == spec_test_flag(self.regs.f, flag),
    {
        (self.regs.f & flag) != 0
    }

    /// Sets flag bit `flag` when `condition` holds and clears it otherwise.
    pub(crate) fn set_flag(&mut self, flag: u8, condition: bool)
        ensures
            final(self)@ == old(self)@.with_flag(flag, condition),
    {
        self.regs.f = if condition {
            self.regs.f | flag
        } else {
            self.regs.f & !flag
        };
    }

    /// Whether a branch condition holds.
    pub(crate) fn test_condition_code(&self, cc: &SM83ConditionCode) -> (r: bool)
        ensures
            r == spec_condition(self.regs.f, *cc),
    {
        match cc {
            SM83ConditionCode::Z => self.test_flag(FLAG_Z),
            SM83ConditionCode::NZ => !self.test_flag(FLAG_Z),
            SM83ConditionCode::C => self.test_flag(FLAG_C),
            SM83ConditionCode::NC => !self.test_flag(FLAG_C),
        }
    }

    /// The value of an 8 bit register.
    pub(crate) fn get_r8(&self, r8: &SM83Register8) -> (r: u8)
        ensures
            r == spec_get_r8(self.regs, *r8),
    {
        match r8 {
            SM83Register8::A => self.regs.a,
            SM83Register8::B => self.regs.b,
            SM83Register8::C => self.regs.c,
            SM83Register8::D => self.regs.d,
            SM83Register8::E => self.regs.e,
            SM83Register8::H => self.regs.h,
            SM83Register8::L => self.regs.l,
        }
    }

    /// Sets an 8 bit register.
    pub(crate) fn set_r8(&mut self, r8: &SM83Register8, value: u8)
        ensures
            final(self)@ == old(self)@.with_regs(spec_set_r8(old(self).regs, *r8, value)),
    {
        match r8 {
            SM83Register8::A => {
                self.regs.a = value;
            },
            SM83Register8::B => {
                self.regs.b = value;
            },
            SM83Register8::C => {
                self.regs.c = value;
            },
            SM83Register8::D => {
                self.regs.d = value;
            },
            SM83Register8::E => {
                self.regs.e = value;
            },
            SM83Register8::H => {
                self.regs.h = value;
            },
            SM83Register8::L => {
                self.regs.l = value;
            },
        }
    }

    /// The value of a 16 bit register.
    pub(crate) fn get_r16(&self, r16: &SM83Register16) -> (r: u16)
        ensures
            r == spec_get_r16(self.regs, *r16),
    {
        proof {
            lemma_u16_from_bytes(self.regs.a, self.regs.f);
            lemma_u16_from_bytes(self.regs.b, self.regs.c);
            lemma_u16_from_bytes(self.regs.d, self.regs.e);
            lemma_u16_from_bytes(self.regs.h, self.regs.l);
        }
        match r16 {
            SM83Register16::AF => ((self.regs.a as u16) << 8) | (self.regs.f as u16),
            SM83Register16::BC => ((self.regs.b as u16) << 8) | (self.regs.c as u16),
            SM83Register16::DE => ((self.regs.d as u16) << 8) | (self.regs.e as u16),
            SM83Register16::HL | SM83Register16::HLincrement | SM83Register16::HLdecrement => {
                ((self.regs.h as u16) << 8) | (self.regs.l as u16)
            },
            SM83Register16::SP => self.regs.sp,
        }
    }

    /// Sets a 16 bit register.
    pub(crate) fn set_r16(&mut self, r16: &SM83Register16, value: u16)
        ensures
            final(self)@ == old(self)@.with_regs(spec_set_r16(old(self).regs, *r16, value)),
    {
        proof {
            lemma_u16_to_bytes(value);
        }
        let high = ((value >> 8) & 0xFF) as u8;
        let low = ((value >> 0) & 0xFF) as u8;
        match r16 {
            SM83Register16::AF => {
                self.regs.a = high;
                self.regs.f = low;
            },
            SM83Register16::BC => {
                self.regs.b = high;
                self.regs.c = low;
            },
            SM83Register16::DE => {
                self.regs.d = high;
                self.regs.e = low;
            },
            SM83Register16::HL | SM83Register16::HLincrement | SM83Register16::HLdecrement => {
                self.regs.h = high;
                self.regs.l = low;
            },
            SM83Register16::SP => {
                self.regs.sp = value;
            },
        }
    }

    /// Copies the ROM bank selected by the MBC1 registers to 0x4000..0x8000.
    fn switch_rom_bank_mbc1(&mut self)
        requires
            old(self).wf(),
        ensures
            final(self).wf(),
            final(self)@ == old(self)@.spec_switch_rom_bank_mbc1(),
    {
        let bank_number = ((self.mbc1_bank2 << 5) | (self.mbc1_bank1)) & self.mbc1_bank_mask;
        proof {
            let m = self.mbc1_bank_mask;
            let x = (self.mbc1_bank2 << 5) | self.mbc1_bank1;
            assert(x & m <= m) by (bit_vector);
        }
        let offset = (bank_number as usize) * DMG_ROM_BANK_SIZE;
        let ghost target = self@.spec_switch_rom_bank_mbc1().mem;
        let mut i: usize = 0;
        while i < DMG_ROM_BANK_SIZE
            invariant
                0 <= i <= DMG_ROM_BANK_SIZE,
                offset <= 127 * 0x4000,
                offset == old(self)@.spec_rom_bank() as int * 0x4000,
                target == old(self)@.spec_switch_rom_bank_mbc1().mem,
                self@ == (SM83State { mem: self.mem@, ..old(self)@ }),
                forall|j: int|
                    0 <= j < 0x10000 && !(ROM_BANK1_START_ADDRESS <= j < ROM_BANK1_START_ADDRESS
                        + i) ==> self.mem@[j] == old(self).mem@[j],
                forall|j: int|
                    ROM_BANK1_START_ADDRESS <= j < ROM_BANK1_START_ADDRESS + i ==> self.mem@[j]
                        == target[j],
            decreases DMG_ROM_BANK_SIZE - i,
        {
            // a bank past the end of the ROM reads as zeros
            let byte = if offset + i < self.rom.len() {
                self.rom[offset + i]
            } else {
                0
            };
            self.mem[ROM_BANK1_START_ADDRESS + i] = byte;
            i += 1;
        }
        proof {
            assert(self.mem@ =~= target);
        }
    }

    /// Writes one byte of the address space, with the side effects of the
    /// memory map: the MBC1 registers at 0x0000-0x7FFF (a bank write copies
    /// the selected bank), external RAM behind the RAM gate, DIV reset,
    /// the timer control, and the audio registers.
    pub fn write_mem_u8(&mut self, address: usize, value: u8)
        requires
            old(self).wf(),
            address < 0x10000,
        ensures
            final(self).wf(),
            final(self)@ == old(self)@.spec_write_mem(address as int, value),
    {
        if address < VRAM_START_ADDRESS {
            self.write_mbc_register(address, value);
        } else {
            self.write_memory_map(address, value);
        }
    }

    /// A write to the MBC1 registers (0x0000-0x7FFF).
    fn write_mbc_register(&mut self, address: usize, value: u8)
        requires
            old(self).wf(),
            address < VRAM_START_ADDRESS,
        ensures
            final(self).wf(),
            final(self)@ == old(self)@.spec_write_mem(address as int, value),
    {
        if address < BANK1_START_ADDRESS {
            self.ramg = value & 0xF;
        } else if address < BANK2_START_ADDRESS {
            self.mbc1_bank1 = value & 0x1F;
            // bank 0 is read as bank 1
            if self.mbc1_bank1 == 0 {
                self.mbc1_bank1 = 1;
            }
            self.switch_rom_bank_mbc1();
        } else if address < MODE_START_ADDRESS {
            self.mbc1_bank2 = value & 0x3;
            self.switch_rom_bank_mbc1();
        } else {
            self.mbc1_mode = value & 0x1;
            self.switch_rom_bank_mbc1();
        }
    }

    /// A write above the MBC1 registers (0x8000-0xFFFF).
    fn write_memory_map(&mut self, address: usize, value: u8)
        requires
            old(self).wf(),
            VRAM_START_ADDRESS <= address < 0x10000,
        ensures
            final(self).wf(),
            final(self)@ == old(self)@.spec_write_mem(address as int, value),
    {
        if EXTERNAL_RAM_START_ADDRESS <= address && address < WRAM_BANK0_START_ADDRESS {
            // external RAM is writable only when RAMG is 0xA
            if self.ramg == 0xA {
                self.mem[address] = value;
            }
        } else if WRAM_BANK0_START_ADDRESS <= address && address < ECHO_RAM_START_ADDRESS {
            self.mem[address] = value;
        } else if address == HWREG_DIV_REGISTER {
            // any write resets DIV
            self.mem[HWREG_DIV_REGISTER] = 0;
        } else if address == HWREG_TAC_TIMER_CONTROL {
            self.write_timer_control(value);
        } else if (HWREG_NR10_CHANNEL1_SWEEP <= address && address < HWREG_LCDC_LCD_CONTROL)
            || address == HWREG_PCM12_AUDIO_DIGITAL_OUTPUTS_12
            || address == HWREG_PCM34_AUDIO_DIGITAL_OUTPUTS_34 {
            self.write_audio_register(address, value);
        } else {
            // TIMA, TMA and everything else are plain memory
            self.mem[address] = value;
        }
    }

    /// A write to TAC: the timer enable (bit 2) and rate (bits 1-0).
    fn write_timer_control(&mut self, value: u8)
        requires
            old(self).wf(),
        ensures
            final(self).wf(),
            final(self)@ == old(self)@.spec_write_mem(HWREG_TAC_TIMER_CONTROL as int, value),
    {
        proof {
            lemma_timer_increment(value);
        }
        self.timer_enable = (value & 0x4) != 0;
        self.timer_increment_mcycle = match value & 0x3 {
            0 => 256,
            1 => 4,
            2 => 16,
            _ => 64,
        };
        self.mem[HWREG_TAC_TIMER_CONTROL] = value;
    }

    /// A write to an audio register: the audio unit takes it and the byte
    /// is also stored.
    fn write_audio_register(&mut self, address: usize, value: u8)
        requires
            old(self).wf(),
            spec_is_apu_address(address as int),
        ensures
            final(self).wf(),
            final(self)@ == old(self)@.spec_write_mem(address as int, value),
    {
        self.apu.write_register(address, value);
        self.mem[address] = value;
    }

    /// Reads one byte of the address space; the audio registers are read
    /// from the audio unit.
    pub fn read_mem_u8(&mut self, address: usize) -> (r: u8)
        requires
            old(self).wf(),
            address < 0x10000,
        ensures
            *final(self) == *old(self),
            r == old(self)@.spec_read_mem(address as int),
    {
        match address {
            HWREG_NR10_CHANNEL1_SWEEP..HWREG_LCDC_LCD_CONTROL
            | HWREG_PCM12_AUDIO_DIGITAL_OUTPUTS_12
            | HWREG_PCM34_AUDIO_DIGITAL_OUTPUTS_34 => self.apu.read_register(address),
            _ => self.mem[address],
        }
    }

    /// Writes a little-endian 16 bit value directly to memory.
    pub(crate) fn write_mem_u16(&mut self, address: usize, value: u16)
        requires
            old(self).wf(),
            address < 0xFFFF,
        ensures
            final(self).wf(),
            final(self)@ == old(self)@.with_mem(address as int, (value % 256) as u8).with_mem(
                address + 1,
                (value / 256) as u8,
            ),
    {
        proof {
            lemma_u16_to_bytes(value);
        }
        self.mem[address + 0] = ((value >> 0) & 0xFF) as u8;
        self.mem[address + 1] = ((value >> 8) & 0xFF) as u8;
    }

    /// Resets the flags for a call into the program: Z, H and C set, N
    /// cleared; interrupts are disabled.
    pub fn reset_flags(&mut self)
        requires
            old(self).wf(),
        ensures
            final(self).wf(),
            final(self)@ == old(self)@.spec_reset_flags(),
    {
        self.set_flag(FLAG_Z, true);
        self.set_flag(FLAG_N, false);
        self.set_flag(FLAG_H, true);
        self.set_flag(FLAG_C, true);
        self.ime_flag = false;
    }

    /// Clears A to L (F is kept) and sets SP to 0xFFFE and PC to 0x0100.
    pub fn reset_registers(&mut self)
        requires
            old(self).wf(),
        ensures
            final(self).wf(),
            final(self)@ == old(self)@.spec_reset_registers(),
    {
        self.regs.a = 0;
        self.regs.b = 0;
        self.regs.c = 0;
        self.regs.d = 0;
        self.regs.e = 0;
        self.regs.h = 0;
        self.regs.l = 0;
        self.regs.sp = 0xFFFE;
        self.regs.pc = 0x0100;
    }

    /// Clears external RAM and both work RAM banks (0xA000-0xDFFF).
    pub fn clear_ram(&mut self)
        requires
            old(self).wf(),
        ensures
            final(self).wf(),
            final(self)@ == old(self)@.spec_clear_ram(),
    {
        let mut i: usize = EXTERNAL_RAM_START_ADDRESS;
        while i < ECHO_RAM_START_ADDRESS
            invariant
                EXTERNAL_RAM_START_ADDRESS <= i <= ECHO_RAM_START_ADDRESS,
                self@ == (SM83State { mem: self.mem@, ..old(self)@ }),
                forall|j: int|
                    0 <= j < 0x10000 ==> self.mem@[j] == (if EXTERNAL_RAM_START_ADDRESS <= j < i {
                        0u8
                    } else {
                        old(self).mem@[j]
                    }),
            decreases ECHO_RAM_START_ADDRESS - i,
        {
            self.mem[i] = 0;
            i += 1;
        }
        proof {
            assert(self.mem@ =~= old(self)@.spec_clear_ram().mem);
        }
    }

    /// Resets the clock counts and DIV, and withdraws pending timer and
    /// VBlank interrupt requests.
    pub fn reset_timers(&mut self)
        requires
            old(self).wf(),
        ensures
            final(self).wf(),
            final(self)@ == old(self)@.spec_reset_timers(),
    {
        self.timer_tick_mcycle_count = 0;
        self.div_mcycle_count = 0;
        self.vblank_mcycle_count = 0;
        self.mem[HWREG_DIV_REGISTER] = 0;
        self.mem[HWREG_IF_INTERRUPT_FLAG] &= !(SM83_INTERRUPT_FLAG_TIMER
            | SM83_INTERRUPT_FLAG_VBLANK);
    }

    /// Advances the machine by one system clock (M-cycle): the timer, DIV
    /// and the VBlank counter advance, and the audio unit runs two 2 MHz ticks.
    pub(crate) fn system_clock_tick(&mut self)
        requires
            old(self).wf(),
        ensures
            final(self).wf(),
            final(self)@ == old(self)@.spec_system_clock_tick(),
    {
        self.tick_timer();
        self.tick_divider();
        self.tick_vblank();
        self.apu.clock_tick_2mhz();
        self.apu.clock_tick_2mhz();
    }

    fn tick_timer(&mut self)
        requires
            old(self).wf(),
        ensures
            final(self).wf(),
            final(self)@ == old(self)@.spec_tick_timer(),
    {
        self.timer_tick_mcycle_count += 1;
        if self.timer_tick_mcycle_count >= self.timer_increment_mcycle {
            if self.timer_enable {
                let tima = self.mem[HWREG_TIMA_TIMER_COUNTER];
                if tima == 0xFF {
                    // an overflow requests the timer interrupt and reloads TMA
                    self.mem[HWREG_IF_INTERRUPT_FLAG] = self.mem[HWREG_IF_INTERRUPT_FLAG]
                        | SM83_INTERRUPT_FLAG_TIMER;
                    self.mem[HWREG_TIMA_TIMER_COUNTER] = self.mem[HWREG_TMA_TIMER_MODULO];
                } else {
                    self.mem[HWREG_TIMA_TIMER_COUNTER] = tima + 1;
                }
            }
            self.timer_tick_mcycle_count -= self.timer_increment_mcycle;
        }
    }

    fn tick_divider(&mut self)
        requires
            old(self).wf(),
        ensures
            final(self).wf(),
            final(self)@ == old(self)@.spec_tick_divider(),
    {
        self.div_mcycle_count += 1;
        if self.div_mcycle_count >= DIVIDER_RATE_STSTEM_CLOCKS {
            self.mem[HWREG_DIV_REGISTER] = self.mem[HWREG_DIV_REGISTER].wrapping_add(1);
            self.div_mcycle_count -= DIVIDER_RATE_STSTEM_CLOCKS;
        }
    }

    fn tick_vblank(&mut self)
        requires
            old(self).wf(),
        ensures
            final(self).wf(),
            final(self)@ == old(self)@.spec_tick_vblank(),
    {
        self.vblank_mcycle_count += 1;
        if self.vblank_mcycle_count >= SYSTEM_CLOCKS_PER_VBLANK {
            self.mem[HWREG_IF_INTERRUPT_FLAG] = self.mem[HWREG_IF_INTERRUPT_FLAG]
                | SM83_INTERRUPT_FLAG_VBLANK;
            self.vblank_mcycle_count -= SYSTEM_CLOCKS_PER_VBLANK;
        }
    }

    /// Advances the machine by `cycles` system clocks.
    pub(crate) fn system_clock_ticks(&mut self, cycles: u8)
        requires
            old(self).wf(),
        ensures
            final(self).wf(),
            final(self)@ == old(self)@.spec_system_clock_ticks(cycles as nat),
    {
        let mut i: u8 = 0;
        while i < cycles
            invariant
                i <= cycles,
                self.wf(),
                old(self)@.spec_system_clock_ticks(cycles as nat) == self@.spec_system_clock_ticks(
                    (cycles - i) as nat,
                ),
            decreases cycles - i,
        {
            self.system_clock_tick();
            i += 1;
        }
    }

    /// Pushes a byte: SP is decremented, then written.
    pub(crate) fn push_stack(&mut self, value: u8)
        requires
            old(self).wf(),
        ensures
            final(self).wf(),
            final(self)@ == old(self)@.spec_push(value),
    {
        self.regs.sp = self.regs.sp.wrapping_sub(1);
        self.write_mem_u8(self.regs.sp as usize, value);
    }

    /// Pushes a 16 bit value, high byte first.
    pub(crate) fn push16(&mut self, value: u16)
        requires
            old(self).wf(),
        ensures
            final(self).wf(),
            final(self)@ == old(self)@.spec_push16(value),
    {
        proof {
            lemma_u16_to_bytes(value);
        }
        self.push_stack(((value >> 8) & 0xFF) as u8);
        self.push_stack(((value >> 0) & 0xFF) as u8);
    }

    /// Pops a 16 bit value, low byte first.
    pub(crate) fn pop16(&mut self) -> (r: u16)
        requires
            old(self).wf(),
        ensures
            final(self).wf(),
            (final(self)@, r) == old(self)@.spec_pop16(),
    {
        let low = self.pop_stack();
        let high = self.pop_stack();
        proof {
            lemma_u16_from_bytes(high, low);
        }
        ((high as u16) << 8) | (low as u16)
    }

    /// Pops a byte: SP is read, then incremented.
    pub(crate) fn pop_stack(&mut self) -> (r: u8)
        requires
            old(self).wf(),
        ensures
            final(self).wf(),
            (final(self)@, r) == old(self)@.spec_pop(),
    {
        let ret = self.read_mem_u8(self.regs.sp as usize);
        self.regs.sp = self.regs.sp.wrapping_add(1);
        ret
    }
}

/// The TIMA rate selected by bits 1-0 of TAC.
proof fn lemma_timer_increment(v: u8)
    ensures
        spec_timer_increment(v) == 4 || spec_timer_increment(v) == 16 || spec_timer_increment(v)
            == 64 || spec_timer_increment(v) == 256,
        (v & 0x3) <= 3,
{
    assert((v & 0x3) <= 3) by (bit_vector);
}

/// A write to plain memory keeps the machine's invariant.
proof fn lemma_plain_write_wf(s: SM83State, address: int, value: u8)
    requires
        s.wf(),
        s.spec_is_plain_memory(address),
    ensures
        s.spec_write_mem(address, value).wf(),
        s.spec_write_mem(address, value).ramg == s.ramg,
        s.spec_write_mem(address, value).regs == s.regs,
{
    lemma_timer_increment(value);
}

/// A read gives the memory byte, or for an audio register what the audio
/// unit reports. A write to plain memory stores the value and is read back,
/// and leaves every other byte as it was; a write to DIV stores 0.
pub proof fn lemma_memory_write_read(s: SM83State, address: int, value: u8, other: int)
    requires
        s.wf(),
        0 <= other < 0x10000,
    ensures
        !spec_is_apu_address(other) ==> s.spec_read_mem(other) == s.mem[other],
        spec_is_apu_address(other) ==> s.spec_read_mem(other) == s.apu.spec_read_register(
            other as usize,
        ),
        s.spec_is_plain_memory(address) ==> s.spec_write_mem(address, value).mem == s.mem.update(
            address,
            value,
        ),
        s.spec_write_mem(HWREG_DIV_REGISTER as int, value).mem == s.mem.update(
            HWREG_DIV_REGISTER as int,
            0,
        ),
        s.spec_is_plain_memory(address) ==> s.spec_write_mem(address, value).spec_read_mem(address)
            == value,
        s.spec_is_plain_memory(address) && other != address ==> s.spec_write_mem(
            address,
            value,
        ).spec_read_mem(other) == s.spec_read_mem(other),
        s.spec_write_mem(HWREG_DIV_REGISTER as int, value).spec_read_mem(
            HWREG_DIV_REGISTER as int,
        ) == 0,
{
}

/// A write to an audio register reads back as the audio unit reports it
/// (see `lemma_apu_register_readback`).
pub proof fn lemma_audio_register_write_read(s: SM83State, address: int, value: u8)
    requires
        s.wf(),
        spec_is_apu_address(address),
    ensures
        s.spec_write_mem(address, value).spec_read_mem(address) == s.apu.spec_write_register(
            address as usize,
            value,
        ).spec_read_register(address as usize),
{
}

/// A pushed 16 bit value pops back, with every register as before, when
/// both stack bytes are plain memory.
pub proof fn lemma_push_pop16(s: SM83State, value: u16)
    requires
        s.wf(),
        s.spec_is_plain_memory(spec_dec16(s.regs.sp) as int),
        s.spec_is_plain_memory(spec_dec16(spec_dec16(s.regs.sp)) as int),
    ensures
        s.spec_push16(value).spec_pop16().1 == value,
        s.spec_push16(value).spec_pop16().0.regs == s.regs,
{
    let sp1 = spec_dec16(s.regs.sp);
    let sp2 = spec_dec16(sp1);
    let hi = (value / 256) as u8;
    let lo = (value % 256) as u8;
    let t0 = s.with_regs(SM83Registers { sp: sp1, ..s.regs });
    let t1 = t0.spec_write_mem(sp1 as int, hi);
    lemma_plain_write_wf(t0, sp1 as int, hi);
    assert(t1.regs.sp == sp1);
    assert(t1.ramg == s.ramg);
    let t2 = t1.with_regs(SM83Registers { sp: sp2, ..t1.regs });
    let t3 = t2.spec_write_mem(sp2 as int, lo);
    lemma_plain_write_wf(t2, sp2 as int, lo);
    assert(t3 == s.spec_push16(value));
    assert(t3.regs.sp == sp2);
    lemma_memory_write_read(t2, sp2 as int, lo, sp1 as int);
    lemma_memory_write_read(t0, sp1 as int, hi, sp1 as int);
    assert(sp1 != sp2);
    assert(t3.spec_read_mem(sp2 as int) == lo);
    assert(t3.spec_read_mem(sp1 as int) == hi);
    assert(spec_inc16(sp2) == sp1);
    assert(spec_inc16(sp1) == s.regs.sp);
}

/// After a write of `value` to the bank 1 register (0x2000-0x3FFF), the
/// switchable area 0x4000-0x7FFF holds, and reads, the ROM bank the MBC1
/// registers now select: bank 2 shifted above the low five bits of `value`
/// (0 standing for 1), masked by the bank mask; a bank past the end of the
/// ROM holds zeros. So with bank 2 at 0, writing 0 selects bank 1.
pub proof fn lemma_rom_bank_switch(s: SM83State, address: int, value: u8, i: int)
    requires
        s.wf(),
        BANK1_START_ADDRESS <= address < BANK2_START_ADDRESS,
        0 <= i < DMG_ROM_BANK_SIZE,
    ensures
        ({
            let low = if value & 0x1F == 0 {
                1u8
            } else {
                value & 0x1F
            };
            let bank = ((s.mbc1_bank2 << 5u8) | low) & s.mbc1_bank_mask;
            let r = s.spec_write_mem(address, value);
            &&& r.mem[ROM_BANK1_START_ADDRESS + i] == (if bank * DMG_ROM_BANK_SIZE + i
                < s.rom.len() {
                s.rom[bank * DMG_ROM_BANK_SIZE + i]
            } else {
                0
            })
            &&& r.spec_read_mem(ROM_BANK1_START_ADDRESS + i) == r.mem[ROM_BANK1_START_ADDRESS + i]
        }),
        s.mbc1_bank2 == 0 && value & 0x1F == 0 && s.rom.len() >= 2 * DMG_ROM_BANK_SIZE ==> s.spec_write_mem(
            address,
            value,
        ).mem[ROM_BANK1_START_ADDRESS + i] == s.rom[DMG_ROM_BANK_SIZE + i],
{
    let m = s.mbc1_bank_mask;
    assert(m == 1 || m == 3 || m == 7 || m == 15 || m == 31 || m == 63 || m == 127 ==> ((0u8
        << 5u8) | 1u8) & m == 1u8) by (bit_vector);
}

/// One system clock: DIV and its count advance as the divider part says,
/// and memory keeps its length.
proof fn lemma_tick_divider_part(s: SM83State)
    requires
        s.mem.len() == 0x10000,
        s.div_mcycle_count < DIVIDER_RATE_STSTEM_CLOCKS,
    ensures
        ({
            let t = s.spec_system_clock_tick();
            &&& t.mem.len() == 0x10000
            &&& s.div_mcycle_count + 1 < DIVIDER_RATE_STSTEM_CLOCKS ==> {
                &&& t.div_mcycle_count == s.div_mcycle_count + 1
                &&& t.mem[HWREG_DIV_REGISTER as int] == s.mem[HWREG_DIV_REGISTER as int]
            }
            &&& s.div_mcycle_count + 1 == DIVIDER_RATE_STSTEM_CLOCKS ==> {
                &&& t.div_mcycle_count == 0
                &&& t.mem[HWREG_DIV_REGISTER as int] == (s.mem[HWREG_DIV_REGISTER as int] + 1)
                    % 256
            }
        }),
{
    let a = s.spec_tick_timer();
    assert(a.mem.len() == 0x10000);
    assert(a.mem[HWREG_DIV_REGISTER as int] == s.mem[HWREG_DIV_REGISTER as int]);
    assert(a.div_mcycle_count == s.div_mcycle_count);
    let b = a.spec_tick_divider();
    let c = b.spec_tick_vblank();
    assert(c.mem[HWREG_DIV_REGISTER as int] == b.mem[HWREG_DIV_REGISTER as int]);
}

/// From count `c`, `n` more system clocks with `c + n` at most the DIV
/// rate: DIV is unchanged until the count reaches the rate, then one more.
proof fn lemma_divider_steps(s: SM83State, n: nat)
    requires
        s.mem.len() == 0x10000,
        s.div_mcycle_count < DIVIDER_RATE_STSTEM_CLOCKS,
        s.div_mcycle_count + n <= DIVIDER_RATE_STSTEM_CLOCKS,
    ensures
        ({
            let t = s.spec_system_clock_ticks(n);
            &&& s.div_mcycle_count + n < DIVIDER_RATE_STSTEM_CLOCKS ==> {
                &&& t.div_mcycle_count == s.div_mcycle_count + n
                &&& t.mem[HWREG_DIV_REGISTER as int] == s.mem[HWREG_DIV_REGISTER as int]
            }
            &&& s.div_mcycle_count + n == DIVIDER_RATE_STSTEM_CLOCKS ==> {
                &&& t.div_mcycle_count == 0
                &&& t.mem[HWREG_DIV_REGISTER as int] == (s.mem[HWREG_DIV_REGISTER as int] + 1)
                    % 256
            }
        }),
    decreases n,
{
    if n > 0 {
        lemma_tick_divider_part(s);
        let s1 = s.spec_system_clock_tick();
        assert(s.spec_system_clock_ticks(n) == s1.spec_system_clock_ticks((n - 1) as nat));
        if s.div_mcycle_count + 1 < DIVIDER_RATE_STSTEM_CLOCKS {
            lemma_divider_steps(s1, (n - 1) as nat);
        } else {
            assert(n == 1);
            assert(s1.spec_system_clock_ticks(0) == s1);
        }
    }
}

/// DIV counts once every `DIVIDER_RATE_STSTEM_CLOCKS` (64) system clocks:
/// from a count of zero it is unchanged for 63 clocks and one more (wrapping
/// at 256) on the 64th.
pub proof fn lemma_divider_rate(s: SM83State, n: nat)
    requires
        s.wf(),
        s.div_mcycle_count == 0,
        n <= DIVIDER_RATE_STSTEM_CLOCKS,
    ensures
        s.spec_system_clock_ticks(n).mem[HWREG_DIV_REGISTER as int] == (if n
            < DIVIDER_RATE_STSTEM_CLOCKS {
            s.mem[HWREG_DIV_REGISTER as int] as int
        } else {
            (s.mem[HWREG_DIV_REGISTER as int] + 1) % 256
        }),
{
    lemma_divider_steps(s, n);
}

/// One system clock: the VBlank count advances, and on reaching the frame
/// length the VBlank interrupt is requested; memory keeps its length.
proof fn lemma_tick_vblank_part(s: SM83State)
    requires
        s.mem.len() == 0x10000,
        s.vblank_mcycle_count < SYSTEM_CLOCKS_PER_VBLANK,
    ensures
        ({
            let t = s.spec_system_clock_tick();
            &&& t.mem.len() == 0x10000
            &&& s.vblank_mcycle_count + 1 < SYSTEM_CLOCKS_PER_VBLANK ==> t.vblank_mcycle_count
                == s.vblank_mcycle_count + 1
            &&& s.vblank_mcycle_count + 1 == SYSTEM_CLOCKS_PER_VBLANK ==> {
                &&& t.vblank_mcycle_count == 0
                &&& t.mem[HWREG_IF_INTERRUPT_FLAG as int] & SM83_INTERRUPT_FLAG_VBLANK
                    == SM83_INTERRUPT_FLAG_VBLANK
            }
        }),
{
    let a = s.spec_tick_timer().spec_tick_divider();
    assert(a.mem.len() == 0x10000);
    assert(a.vblank_mcycle_count == s.vblank_mcycle_count);
    let x = a.mem[HWREG_IF_INTERRUPT_FLAG as int];
    assert((x | SM83_INTERRUPT_FLAG_VBLANK) & SM83_INTERRUPT_FLAG_VBLANK
        == SM83_INTERRUPT_FLAG_VBLANK) by (bit_vector);
}

/// From VBlank count `c`, `n` more system clocks with `c + n` at most the
/// frame length: the count advances, and when it reaches the frame length
/// the VBlank interrupt has just been requested.
proof fn lemma_vblank_steps(s: SM83State, n: nat)
    requires
        s.mem.len() == 0x10000,
        s.vblank_mcycle_count < SYSTEM_CLOCKS_PER_VBLANK,
        s.vblank_mcycle_count + n <= SYSTEM_CLOCKS_PER_VBLANK,
    ensures
        ({
            let t = s.spec_system_clock_ticks(n);
            &&& s.vblank_mcycle_count + n < SYSTEM_CLOCKS_PER_VBLANK ==> t.vblank_mcycle_count
                == s.vblank_mcycle_count + n
            &&& s.vblank_mcycle_count + n == SYSTEM_CLOCKS_PER_VBLANK ==> {
                &&& t.vblank_mcycle_count == 0
                &&& t.mem[HWREG_IF_INTERRUPT_FLAG as int] & SM83_INTERRUPT_FLAG_VBLANK
                    == SM83_INTERRUPT_FLAG_VBLANK
            }
        }),
    decreases n,
{
    if n > 0 {
        lemma_tick_vblank_part(s);
        let s1 = s.spec_system_clock_tick();
        assert(s.spec_system_clock_ticks(n) == s1.spec_system_clock_ticks((n - 1) as nat));
        if s.vblank_mcycle_count + 1 < SYSTEM_CLOCKS_PER_VBLANK {
            lemma_vblank_steps(s1, (n - 1) as nat);
        } else {
            assert(s1.spec_system_clock_ticks(0) == s1);
        }
    }
}

/// The VBlank interrupt is requested once a frame: from a VBlank count of
/// zero, `SYSTEM_CLOCKS_PER_VBLANK` system clocks later the request bit is
/// set and the count is back to zero.
pub proof fn lemma_vblank_rate(s: SM83State)
    requires
        s.wf(),
        s.vblank_mcycle_count == 0,
    ensures
        s.spec_system_clock_ticks(SYSTEM_CLOCKS_PER_VBLANK as nat).mem[HWREG_IF_INTERRUPT_FLAG as int]
            & SM83_INTERRUPT_FLAG_VBLANK == SM83_INTERRUPT_FLAG_VBLANK,
        s.spec_system_clock_ticks(SYSTEM_CLOCKS_PER_VBLANK as nat).vblank_mcycle_count == 0,
{
    lemma_vblank_steps(s, SYSTEM_CLOCKS_PER_VBLANK as nat);
}

/// `spec_read_mem` spelled out, for proofs outside this module.
pub proof fn lemma_read_mem_def(machine: SM83State, address: int)
    ensures
        ({
            let d: u8 = {
                if spec_is_apu_address(address) {
                    machine.apu.spec_read_register(address as usize)
                } else {
                    machine.mem[address]
                }
            };
            machine.spec_read_mem(address) == d
        }),
{
}

/// `spec_write_mem` spelled out, for proofs outside this module.
pub proof fn lemma_write_mem_def(machine: SM83State, address: int, value: u8)
    ensures
        ({
            let d: SM83State = {
                if address < BANK1_START_ADDRESS {
                    SM83State { ramg: value & 0xF, ..machine }
                } else if address < BANK2_START_ADDRESS {
                    let b = value & 0x1F;
                    SM83State { mbc1_bank1: if b == 0 { 1 } else { b }, ..machine }.spec_switch_rom_bank_mbc1()
                } else if address < MODE_START_ADDRESS {
                    SM83State { mbc1_bank2: value & 0x3, ..machine }.spec_switch_rom_bank_mbc1()
                } else if address < VRAM_START_ADDRESS {
                    SM83State { mbc1_mode: value & 0x1, ..machine }.spec_switch_rom_bank_mbc1()
                } else if EXTERNAL_RAM_START_ADDRESS <= address < WRAM_BANK0_START_ADDRESS {
                    if machine.ramg == 0xA {
                        machine.with_mem(address, value)
                    } else {
                        machine
                    }
                } else if WRAM_BANK0_START_ADDRESS <= address < ECHO_RAM_START_ADDRESS {
                    machine.with_mem(address, value)
                } else if address == HWREG_DIV_REGISTER {
                    machine.with_mem(address, 0)
                } else if address == HWREG_TAC_TIMER_CONTROL {
                    SM83State {
                        timer_enable: (value & 0x4) != 0,
                        timer_increment_mcycle: spec_timer_increment(value),
                        ..machine
                    }.with_mem(address, value)
                } else if spec_is_apu_address(address) {
                    SM83State {
                        apu: machine.apu.spec_write_register(address as usize, value),
                        ..machine
                    }.with_mem(address, value)
                } else {
                    machine.with_mem(address, value)
                }
            };
            machine.spec_write_mem(address, value) == d
        }),
{
}


/// The TIMA rate TAC selects, as a power of four: bits 1-0 = 1, 2, 3, 0 give
/// one count every 4, 16, 64, 256 system clocks (4^1 to 4^4), so each step
/// of the selector slows the timer by four, with 0 the slowest.
pub proof fn lemma_timer_rate_select(v: u8)
    ensures
        spec_timer_increment(v) as int == vstd::arithmetic::power::pow(
            4,
            ((((v & 0x3) + 3) % 4) + 1) as nat,
        ),
        v & 0x3 == 0 ==> spec_timer_increment(v) == 256,
        v & 0x3 == 1 ==> spec_timer_increment(v) == 4,
        v & 0x3 == 2 ==> spec_timer_increment(v) == 16,
        v & 0x3 == 3 ==> spec_timer_increment(v) == 64,
{
    assert((v & 0x3) <= 3) by (bit_vector);
    reveal_with_fuel(vstd::arithmetic::power::pow, 5);
}

/// One system clock of a running timer whose count is below its rate:
/// the count advances, and on reaching the rate TIMA counts and the count
/// restarts; memory keeps its length.
proof fn lemma_tick_timer_part(s: SM83State)
    requires
        s.mem.len() == 0x10000,
        s.timer_enable,
        s.timer_tick_mcycle_count < s.timer_increment_mcycle,
        s.mem[HWREG_TIMA_TIMER_COUNTER as int] < 0xFF,
    ensures
        ({
            let t = s.spec_system_clock_tick();
            &&& t.mem.len() == 0x10000
            &&& t.timer_enable
            &&& t.timer_increment_mcycle == s.timer_increment_mcycle
            &&& s.timer_tick_mcycle_count + 1 < s.timer_increment_mcycle ==> {
                &&& t.timer_tick_mcycle_count == s.timer_tick_mcycle_count + 1
                &&& t.mem[HWREG_TIMA_TIMER_COUNTER as int] == s.mem[HWREG_TIMA_TIMER_COUNTER as int]
            }
            &&& s.timer_tick_mcycle_count + 1 == s.timer_increment_mcycle ==> {
                &&& t.timer_tick_mcycle_count == 0
                &&& t.mem[HWREG_TIMA_TIMER_COUNTER as int] == s.mem[HWREG_TIMA_TIMER_COUNTER as int]
                    + 1
            }
        }),
{
    let a = s.spec_tick_timer();
    assert(a.mem.len() == 0x10000);
    let b = a.spec_tick_divider();
    assert(b.mem[HWREG_TIMA_TIMER_COUNTER as int] == a.mem[HWREG_TIMA_TIMER_COUNTER as int]);
    let c = b.spec_tick_vblank();
    assert(c.mem[HWREG_TIMA_TIMER_COUNTER as int] == b.mem[HWREG_TIMA_TIMER_COUNTER as int]);
}

/// From count `c`, `n` more system clocks of a running timer with `c + n`
/// at most its rate: TIMA is unchanged until the count reaches the rate,
/// then one more.
proof fn lemma_timer_steps(s: SM83State, n: nat)
    requires
        s.mem.len() == 0x10000,
        s.timer_enable,
        s.timer_tick_mcycle_count < s.timer_increment_mcycle,
        s.timer_tick_mcycle_count + n <= s.timer_increment_mcycle,
        s.mem[HWREG_TIMA_TIMER_COUNTER as int] < 0xFF,
    ensures
        ({
            let t = s.spec_system_clock_ticks(n);
            &&& s.timer_tick_mcycle_count + n < s.timer_increment_mcycle ==> t.mem[
                HWREG_TIMA_TIMER_COUNTER as int] == s.mem[HWREG_TIMA_TIMER_COUNTER as int]
            &&& s.timer_tick_mcycle_count + n == s.timer_increment_mcycle ==> t.mem[
                HWREG_TIMA_TIMER_COUNTER as int] == s.mem[HWREG_TIMA_TIMER_COUNTER as int] + 1
        }),
    decreases n,
{
    if n > 0 {
        lemma_tick_timer_part(s);
        let s1 = s.spec_system_clock_tick();
        assert(s.spec_system_clock_ticks(n) == s1.spec_system_clock_ticks((n - 1) as nat));
        if s.timer_tick_mcycle_count + 1 < s.timer_increment_mcycle {
            lemma_timer_steps(s1, (n - 1) as nat);
        } else {
            assert(n == 1);
            assert(s1.spec_system_clock_ticks(0) == s1);
        }
    }
}

/// With the timer started by writing TAC = `v` (bit 2 set) and its count at
/// zero, TIMA (below 0xFF) keeps its value for the first `4^k - 1` system
/// clocks and counts one on clock `4^k`, where `4^k` is the rate bits 1-0
/// of `v` select (4, 16, 64 for 1, 2, 3; 256 for 0).
pub proof fn lemma_timer_counts_at_selected_rate(s: SM83State, v: u8, n: nat)
    requires
        s.wf(),
        v & 0x4 != 0,
        s.timer_tick_mcycle_count == 0,
        s.mem[HWREG_TIMA_TIMER_COUNTER as int] < 0xFF,
        n <= vstd::arithmetic::power::pow(4, ((((v & 0x3) + 3) % 4) + 1) as nat),
    ensures
        ({
            let t = s.spec_write_mem(HWREG_TAC_TIMER_CONTROL as int, v).spec_system_clock_ticks(n);
            let rate = vstd::arithmetic::power::pow(4, ((((v & 0x3) + 3) % 4) + 1) as nat);
            &&& n < rate ==> t.mem[HWREG_TIMA_TIMER_COUNTER as int] == s.mem[
                HWREG_TIMA_TIMER_COUNTER as int]
            &&& n == rate ==> t.mem[HWREG_TIMA_TIMER_COUNTER as int] == s.mem[
                HWREG_TIMA_TIMER_COUNTER as int] + 1
        }),
{
    lemma_timer_rate_select(v);
    lemma_timer_increment(v);
    let w = s.spec_write_mem(HWREG_TAC_TIMER_CONTROL as int, v);
    assert(w.mem[HWREG_TIMA_TIMER_COUNTER as int] == s.mem[HWREG_TIMA_TIMER_COUNTER as int]);
    lemma_timer_steps(w, n);
}


/// The low nibble of a folded 8 bit result `x` (in -512..512) is that of
/// the unfolded one.
proof fn lemma_fold_nibble(x: int, r: int, k: int)
    requires
        r == x + 256 * k,
    ensures
        r % 16 == x % 16,
{
    vstd::arithmetic::div_mod::lemma_fundamental_div_mod(x, 16);
    vstd::arithmetic::div_mod::lemma_fundamental_div_mod(r, 16);
    vstd::arithmetic::div_mod::lemma_mod_bound(x, 16);
    vstd::arithmetic::div_mod::lemma_mod_bound(r, 16);
    vstd::arithmetic::div_mod::lemma_fundamental_div_mod_converse(r, 16, x / 16 + 16 * k, x % 16);
}

/// `d` = `a % 16 + b % 16 + e` (in -32..48) tells the nibble carry: the
/// low nibble of `a + b + e` is `d` folded into 0..=15.
proof fn lemma_nibble_sum(a: int, b: int, e: int)
    requires
        0 <= a,
        0 <= b,
    ensures
        (a + b + e) % 16 == (a % 16 + b % 16 + e) % 16,
{
    vstd::arithmetic::div_mod::lemma_fundamental_div_mod(a, 16);
    vstd::arithmetic::div_mod::lemma_fundamental_div_mod(b, 16);
    vstd::arithmetic::div_mod::lemma_mod_multiples_vanish(a / 16 + b / 16, a % 16 + b % 16 + e, 16);
}

/// 8 bit addition as integers: the result is the true sum folded into
/// 0..=255, C tells whether it was folded (the carry out of bit 7) and H the
/// same for the low nibble (the carry out of bit 3).
pub proof fn lemma_add8_arithmetic(a: u8, b: u8)
    ensures
        ({
            let (r, cy, h) = spec_add8(a, b);
            &&& r + (if cy { 256int } else { 0 }) == a + b
            &&& (r % 16) + (if h { 16int } else { 0 }) == a % 16 + b % 16
        }),
        spec_adc8(a, b, false) == spec_add8(a, b),
        spec_sub8(spec_add8(a, b).0, b).0 == a,
{
    let x = a + b;
    let r = spec_add8(a, b).0;
    if x > 255 {
        lemma_fold_nibble(x, r as int, -1);
    } else {
        lemma_fold_nibble(x, r as int, 0);
    }
    lemma_nibble_sum(a as int, b as int, 0);
}

/// 8 bit subtraction as integers: the result is the true difference folded
/// into 0..=255, C tells whether it was folded (a borrow) and H the same for
/// the low nibble; with no borrow in, SBC is SUB.
pub proof fn lemma_sub8_arithmetic(a: u8, b: u8)
    ensures
        ({
            let (r, cy, h) = spec_sub8(a, b);
            &&& r - (if cy { 256int } else { 0 }) == a - b
            &&& (r % 16) - (if h { 16int } else { 0 }) == a % 16 - b % 16
        }),
        spec_sbc8(a, b, false) == spec_sub8(a, b),
        spec_arith(ArithOp::Sub, a, b, false) == spec_sub8(a, b),
{
    let x = a - b;
    let r = spec_sub8(a, b).0;
    if a < b {
        lemma_fold_nibble(x, r as int, 1);
    } else {
        lemma_fold_nibble(x, r as int, 0);
    }
    lemma_nibble_sum(a as int, 0, -(b as int));
    vstd::arithmetic::div_mod::lemma_fundamental_div_mod(b as int, 16);
    vstd::arithmetic::div_mod::lemma_mod_multiples_vanish(-(b / 16) as int, a % 16 - b % 16, 16);
}

/// ADC as an integer sum: the carry in `c` adds one, and the flags are the
/// folds as for ADD.
pub proof fn lemma_adc8_arithmetic(a: u8, b: u8, c: bool)
    ensures
        ({
            let ci: int = if c { 1 } else { 0 };
            let (r, cy, h) = spec_adc8(a, b, c);
            &&& r + (if cy { 256int } else { 0 }) == a + b + ci
            &&& (r % 16) + (if h { 16int } else { 0 }) == a % 16 + b % 16 + ci
        }),
        spec_arith(ArithOp::Adc, a, b, c) == spec_adc8(a, b, c),
{
    let ci: int = if c { 1 } else { 0 };
    let x = a + b + ci;
    let r = spec_adc8(a, b, c).0;
    if x > 255 {
        lemma_fold_nibble(x, r as int, -1);
    } else {
        lemma_fold_nibble(x, r as int, 0);
    }
    lemma_nibble_sum(a as int, b as int, ci);
}

/// SBC as an integer difference: the borrow in `c` subtracts one more, and
/// the flags are the folds as for SUB.
pub proof fn lemma_sbc8_arithmetic(a: u8, b: u8, c: bool)
    ensures
        ({
            let ci: int = if c { 1 } else { 0 };
            let (r, cy, h) = spec_sbc8(a, b, c);
            &&& r - (if cy { 256int } else { 0 }) == a - b - ci
            &&& (r % 16) - (if h { 16int } else { 0 }) == a % 16 - b % 16 - ci
        }),
        spec_arith(ArithOp::Sbc, a, b, c) == spec_sbc8(a, b, c),
{
    let ci: int = if c { 1 } else { 0 };
    let y = a - b - ci;
    let q = spec_sbc8(a, b, c).0;
    if b + ci > a {
        lemma_fold_nibble(y, q as int, 1);
    } else {
        lemma_fold_nibble(y, q as int, 0);
    }
    lemma_nibble_sum(a as int, 0, -(b as int) - ci);
    vstd::arithmetic::div_mod::lemma_fundamental_div_mod(b as int, 16);
    vstd::arithmetic::div_mod::lemma_mod_multiples_vanish(-(b / 16) as int, a % 16 - b % 16 - ci, 16);
}

/// 16 bit addition as integers: the true sum folded into 0..=0xFFFF, C
/// telling whether it was folded and H the same for bits 11-0.
pub proof fn lemma_add16_arithmetic(a: u16, b: u16)
    ensures
        ({
            let (r, cy, h) = spec_add16(a, b);
            &&& r + (if cy { 0x10000int } else { 0 }) == a + b
            &&& (r % 4096) + (if h { 4096int } else { 0 }) == a % 4096 + b % 4096
        }),
{
}

} // verus!
