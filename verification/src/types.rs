//! Hardware constants and the data types shared by the CPU, the decoder and the sound unit.
use vstd::prelude::*;

verus! {

/// Master clock of the Game Boy (Hz).
pub const DMG_MASTER_CLOCK_HZ: u32 = 4194304;
/// System clock (M-cycle rate) of the Game Boy (Hz).
pub const DMG_SYSTEM_CLOCK_HZ: u32 = DMG_MASTER_CLOCK_HZ / 4;
/// Size of one ROM bank.
pub const DMG_ROM_BANK_SIZE: usize = 0x4000;
/// Master clocks per frame (456 cycles per line times 154 lines).
pub const MASTER_CLOCKS_PER_VBLANK: u32 = 70224;
/// Update rate of the volume envelope (Hz).
pub const APU_ENVELOPE_SWEEP_HZ: u32 = 64;
/// Update rate of the sound length timer (Hz).
pub const APU_SOUND_LENGTH_HZ: u32 = 256;
/// Update rate of the channel 1 frequency sweep (Hz).
pub const APU_FREQUENCY_SWEEP_HZ: u32 = 128;
/// Address: rom bank0 start address.
pub const ROM_BANK0_START_ADDRESS: usize = 0x0000;
/// Address: rom bank1 start address.
pub const ROM_BANK1_START_ADDRESS: usize = 0x4000;
/// Address: vram start address.
pub const VRAM_START_ADDRESS: usize = 0x8000;
/// Address: external ram start address.
pub const EXTERNAL_RAM_START_ADDRESS: usize = 0xA000;
/// Address: wram bank0 start address.
pub const WRAM_BANK0_START_ADDRESS: usize = 0xC000;
/// Address: wram bank1 start address.
pub const WRAM_BANK1_START_ADDRESS: usize = 0xD000;
/// Address: echo ram start address.
pub const ECHO_RAM_START_ADDRESS: usize = 0xE000;
/// Address: oam start address.
pub const OAM_START_ADDRESS: usize = 0xFE00;
/// Address: not usable start address.
pub const NOT_USABLE_START_ADDRESS: usize = 0xFEA0;
/// Address: hwreg start address.
pub const HWREG_START_ADDRESS: usize = 0xFF00;
/// Address: hram start address.
pub const HRAM_START_ADDRESS: usize = 0xFF80;
/// Address: hwreg p1 joypad.
pub const HWREG_P1_JOYPAD: usize = 0xFF00;
/// Address: hwreg sb serial transfer data.
pub const HWREG_SB_SERIAL_TRANSFER_DATA: usize = 0xFF01;
/// Address: hwreg sc serial transfer control.
pub const HWREG_SC_SERIAL_TRANSFER_CONTROL: usize = 0xFF02;
/// Address: hwreg div register.
pub const HWREG_DIV_REGISTER: usize = 0xFF04;
/// Address: hwreg tima timer counter.
pub const HWREG_TIMA_TIMER_COUNTER: usize = 0xFF05;
/// Address: hwreg tma timer modulo.
pub const HWREG_TMA_TIMER_MODULO: usize = 0xFF06;
/// Address: hwreg tac timer control.
pub const HWREG_TAC_TIMER_CONTROL: usize = 0xFF07;
/// Address: hwreg if interrupt flag.
pub const HWREG_IF_INTERRUPT_FLAG: usize = 0xFF0F;
/// Address: hwreg nr10 channel1 sweep.
pub const HWREG_NR10_CHANNEL1_SWEEP: usize = 0xFF10;
/// Address: hwreg nr11 channel1 length timer dury cycle.
pub const HWREG_NR11_CHANNEL1_LENGTH_TIMER_DURY_CYCLE: usize = 0xFF11;
/// Address: hwreg nr12 channel1 volume envelope.
pub const HWREG_NR12_CHANNEL1_VOLUME_ENVELOPE: usize = 0xFF12;
/// Address: hwreg nr13 channel1 period low.
pub const HWREG_NR13_CHANNEL1_PERIOD_LOW: usize = 0xFF13;
/// Address: hwreg nr14 channel1 period high control.
pub const HWREG_NR14_CHANNEL1_PERIOD_HIGH_CONTROL: usize = 0xFF14;
/// Address: hwreg nr21 channel2 length timer dury cycle.
pub const HWREG_NR21_CHANNEL2_LENGTH_TIMER_DURY_CYCLE: usize = 0xFF16;
/// Address: hwreg nr22 channel2 volume envelope.
pub const HWREG_NR22_CHANNEL2_VOLUME_ENVELOPE: usize = 0xFF17;
/// Address: hwreg nr23 channel2 period low.
pub const HWREG_NR23_CHANNEL2_PERIOD_LOW: usize = 0xFF18;
/// Address: hwreg nr24 channel2 period high control.
pub const HWREG_NR24_CHANNEL2_PERIOD_HIGH_CONTROL: usize = 0xFF19;
/// Address: hwreg nr30 channel3 dac enable.
pub const HWREG_NR30_CHANNEL3_DAC_ENABLE: usize = 0xFF1A;
/// Address: hwreg nr31 channel3 length timer.
pub const HWREG_NR31_CHANNEL3_LENGTH_TIMER: usize = 0xFF1B;
/// Address: hwreg nr32 channel3 output level.
pub const HWREG_NR32_CHANNEL3_OUTPUT_LEVEL: usize = 0xFF1C;
/// Address: hwreg nr33 channel3 period low.
pub const HWREG_NR33_CHANNEL3_PERIOD_LOW: usize = 0xFF1D;
/// Address: hwreg nr33 channel3 period high control.
pub const HWREG_NR33_CHANNEL3_PERIOD_HIGH_CONTROL: usize = 0xFF1E;
/// Address: hwreg nr41 channel4 length timer.
pub const HWREG_NR41_CHANNEL4_LENGTH_TIMER: usize = 0xFF20;
/// Address: hwreg nr42 channel4 volume envelope.
pub const HWREG_NR42_CHANNEL4_VOLUME_ENVELOPE: usize = 0xFF21;
/// Address: hwreg nr43 channel4 frequency randomness.
pub const HWREG_NR43_CHANNEL4_FREQUENCY_RANDOMNESS: usize = 0xFF22;
/// Address: hwreg nr44 channel4 control.
pub const HWREG_NR44_CHANNEL4_CONTROL: usize = 0xFF23;
/// Address: hwreg nr50 master volume vin panning.
pub const HWREG_NR50_MASTER_VOLUME_VIN_PANNING: usize = 0xFF24;
/// Address: hwreg nr51 sound panning.
pub const HWREG_NR51_SOUND_PANNING: usize = 0xFF25;
/// Address: hwreg nr52 audio master control.
pub const HWREG_NR52_AUDIO_MASTER_CONTROL: usize = 0xFF26;
/// Address: hwreg channel3 wave pattern ram start.
pub const HWREG_CHANNEL3_WAVE_PATTERN_RAM_START: usize = 0xFF30;
/// Address: hwreg channel3 wave pattern ram end.
pub const HWREG_CHANNEL3_WAVE_PATTERN_RAM_END: usize = HWREG_CHANNEL3_WAVE_PATTERN_RAM_START + 15;
/// Address: hwreg lcdc lcd control.
pub const HWREG_LCDC_LCD_CONTROL: usize = 0xFF40;
/// Address: hwreg stat lcd status.
pub const HWREG_STAT_LCD_STATUS: usize = 0xFF41;
/// Address: hwreg scy viewport y.
pub const HWREG_SCY_VIEWPORT_Y: usize = 0xFF42;
/// Address: hwreg scx viewport x.
pub const HWREG_SCX_VIEWPORT_X: usize = 0xFF43;
/// Address: hwreg ly lcd y coordinate.
pub const HWREG_LY_LCD_Y_COORDINATE: usize = 0xFF44;
/// Address: hwreg lyc ly compare.
pub const HWREG_LYC_LY_COMPARE: usize = 0xFF45;
/// Address: hwreg dma source address start.
pub const HWREG_DMA_SOURCE_ADDRESS_START: usize = 0xFF46;
/// Address: hwreg bgp bg palette data.
pub const HWREG_BGP_BG_PALETTE_DATA: usize = 0xFF47;
/// Address: hwreg obp0 obj palette0.
pub const HWREG_OBP0_OBJ_PALETTE0: usize = 0xFF48;
/// Address: hwreg obp1 obj palette1.
pub const HWREG_OBP1_OBJ_PALETTE1: usize = 0xFF49;
/// Address: hwreg wy window y.
pub const HWREG_WY_WINDOW_Y: usize = 0xFF4A;
/// Address: hwreg wx window x plus 7.
pub const HWREG_WX_WINDOW_X_PLUS_7: usize = 0xFF4B;
/// Address: hwreg key0 cpu mode select.
pub const HWREG_KEY0_CPU_MODE_SELECT: usize = 0xFF4C;
/// Address: hwreg key1 prepare speed switch.
pub const HWREG_KEY1_PREPARE_SPEED_SWITCH: usize = 0xFF4D;
/// Address: hwreg vbk vram bank.
pub const HWREG_VBK_VRAM_BANK: usize = 0xFF4F;
/// Address: hwreg bank bootrom mapping control.
pub const HWREG_BANK_BOOTROM_MAPPING_CONTROL: usize = 0xFF50;
/// Address: hwreg hdma1 vramdma source high.
pub const HWREG_HDMA1_VRAMDMA_SOURCE_HIGH: usize = 0xFF51;
/// Address: hwreg hdma2 vramdma source low.
pub const HWREG_HDMA2_VRAMDMA_SOURCE_LOW: usize = 0xFF52;
/// Address: hwreg hdma3 vramdma destination high.
pub const HWREG_HDMA3_VRAMDMA_DESTINATION_HIGH: usize = 0xFF53;
/// Address: hwreg hdma4 vramdma destination low.
pub const HWREG_HDMA4_VRAMDMA_DESTINATION_LOW: usize = 0xFF54;
/// Address: hwreg hdma5 length mode start.
pub const HWREG_HDMA5_LENGTH_MODE_START: usize = 0xFF55;
/// Address: hwreg rp infrated communications port.
pub const HWREG_RP_INFRATED_COMMUNICATIONS_PORT: usize = 0xFF56;
/// Address: hwreg bcps background color palette specification.
pub const HWREG_BCPS_BACKGROUND_COLOR_PALETTE_SPECIFICATION: usize = 0xFF68;
/// Address: hwreg bcps background color palette data.
pub const HWREG_BCPS_BACKGROUND_COLOR_PALETTE_DATA: usize = 0xFF69;
/// Address: hwreg ocps obj color palette specification.
pub const HWREG_OCPS_OBJ_COLOR_PALETTE_SPECIFICATION: usize = 0xFF6A;
/// Address: hwreg ocps obj color palette data.
pub const HWREG_OCPS_OBJ_COLOR_PALETTE_DATA: usize = 0xFF6B;
/// Address: hwreg opri object prioroty mode.
pub const HWREG_OPRI_OBJECT_PRIOROTY_MODE: usize = 0xFF6C;
/// Address: hwreg svbk wram bank.
pub const HWREG_SVBK_WRAM_BANK: usize = 0xFF70;
/// Address: hwreg pcm12 audio digital outputs 12.
pub const HWREG_PCM12_AUDIO_DIGITAL_OUTPUTS_12: usize = 0xFF76;
/// Address: hwreg pcm34 audio digital outputs 34.
pub const HWREG_PCM34_AUDIO_DIGITAL_OUTPUTS_34: usize = 0xFF77;
/// Address: hwreg ie interrupt enable.
pub const HWREG_IE_INTERRUPT_ENABLE: usize = 0xFFFF;

/// The register file of the SM83 CPU.
#[derive(Debug, Clone, Copy, PartialEq, Eq, Structural)]
pub struct SM83Registers {
    /// Accumulator.
    pub a: u8,
    /// Flags (Z N H C in bits 7..4).
    pub f: u8,
    /// General purpose register B.
    pub b: u8,
    /// General purpose register C.
    pub c: u8,
    /// General purpose register D.
    pub d: u8,
    /// General purpose register E.
    pub e: u8,
    /// High byte of the memory pointer HL.
    pub h: u8,
    /// Low byte of the memory pointer HL.
    pub l: u8,
    /// Stack pointer.
    pub sp: u16,
    /// Program counter.
    pub pc: u16,
}

/// A 16 bit register operand.
#[derive(Debug, Clone, Copy, PartialEq, Eq, Structural)]
pub enum SM83Register16 {
    /// AF
    AF,
    /// BC
    BC,
    /// DE
    DE,
    /// HL
    HL,
    /// SP
    SP,
    /// HL, incremented after the access
    HLincrement,
    /// HL, decremented after the access
    HLdecrement,
}

/// An 8 bit register operand.
#[derive(Debug, Clone, Copy, PartialEq, Eq, Structural)]
pub enum SM83Register8 {
    /// A
    A,
    /// B
    B,
    /// C
    C,
    /// D
    D,
    /// E
    E,
    /// H
    H,
    /// L
    L,
}

/// A branch condition.
#[derive(Debug, Clone, Copy, PartialEq, Eq, Structural)]
pub enum SM83ConditionCode {
    /// Z is set
    Z,
    /// Z is not set
    NZ,
    /// C is set
    C,
    /// C is not set
    NC,
}

/// The operands of an instruction.
#[allow(inconsistent_fields)]
#[derive(Debug, Clone, Copy, PartialEq, Eq, Structural)]
pub enum SM83Oprand {
    N16ToR16 { dst: SM83Register16, n16: u16 },
    R16ToA16 { a16: u16, src: SM83Register16 },
    R16 { r16: SM83Register16 },
    R8 { r8: SM83Register8 },
    R16Indirect { r16: SM83Register16 },
    N8ToR8 { dst: SM83Register8, n8: u8 },
    N8ToR8Indirect { dst: SM83Register8, n8: u8 },
    N8ToR16Indirect { dst: SM83Register16, n8: u8 },
    R16ToR16 { dst: SM83Register16, src: SM83Register16 },
    R8ToR8 { dst: SM83Register8, src: SM83Register8 },
    R16IndirectToR8 { dst: SM83Register8, src: SM83Register16 },
    R8ToR16Indirect { dst: SM83Register16, src: SM83Register8 },
    E8 { e8: i8 },
    CCAndE8 { cc: SM83ConditionCode, e8: i8 },
    R8AndR8 { r1: SM83Register8, r2: SM83Register8 },
    R8AndR16Indirect { r8: SM83Register8, r16: SM83Register16 },
    CC { cc: SM83ConditionCode },
    CCAndA16 { cc: SM83ConditionCode, a16: u16 },
    A16 { a16: u16 },
    R8AndN8 { r8: SM83Register8, n8: u8 },
    R8ToA8 { dst: u8, src: SM83Register8 },
    R8ToR8Indirect { dst: SM83Register8, src: SM83Register8 },
    R16AndR16 { r1: SM83Register16, r2: SM83Register16 },
    R16AndE8 { r16: SM83Register16, e8: i8 },
    R8ToA16 { dst: u16, src: SM83Register8 },
    A8ToR8 { dst: SM83Register8, src: u8 },
    R8IndirectToR8 { dst: SM83Register8, src: SM83Register8 },
    R16E8IndirectToR16 { dst: SM83Register16, src_r16: SM83Register16, src_e8: i8 },
    A16ToR8 { dst: SM83Register8, src: u16 },
}

/// A decoded SM83 instruction.
#[derive(Debug, Clone, Copy, PartialEq, Eq, Structural)]
pub enum SM83Opcode {
    /// No operation
    NOP,
    /// Load
    LD { oprand: SM83Oprand },
    /// Increment
    INC { oprand: SM83Oprand },
    /// Decrement
    DEC { oprand: SM83Oprand },
    /// Rotate A left
    RLCA,
    /// Add
    ADD { oprand: SM83Oprand },
    /// Rotate A right
    RRCA,
    /// Stop
    STOP,
    /// Relative jump
    JR { oprand: SM83Oprand },
    /// Rotate A left through carry
    RLA,
    /// Rotate A right through carry
    RRA,
    /// Decimal adjust A
    DAA,
    /// Complement A
    CPL,
    /// Set carry flag
    SCF,
    /// Complement carry flag
    CCF,
    /// Halt
    HALT,
    /// Add with carry
    ADC { oprand: SM83Oprand },
    /// Subtract
    SUB { oprand: SM83Oprand },
    /// Subtract with carry
    SBC { oprand: SM83Oprand },
    /// Bitwise and
    AND { oprand: SM83Oprand },
    /// Bitwise xor
    XOR { oprand: SM83Oprand },
    /// Bitwise or
    OR { oprand: SM83Oprand },
    /// Compare
    CP { oprand: SM83Oprand },
    /// Unconditional return
    RETNooprand,
    /// Conditional return
    RET { oprand: SM83Oprand },
    /// Pop from the stack
    POP { oprand: SM83Oprand },
    /// Absolute jump
    JP { oprand: SM83Oprand },
    /// Call
    CALL { oprand: SM83Oprand },
    /// Push onto the stack
    PUSH { oprand: SM83Oprand },
    /// Call a vector address
    RST { vec: u8 },
    /// Return and enable interrupts
    RETI,
    /// Load from or to the high page
    LDH { oprand: SM83Oprand },
    /// Disable interrupts
    DI,
    /// Enable interrupts
    EI,
    /// Rotate left
    RLC { oprand: SM83Oprand },
    /// Rotate right
    RRC { oprand: SM83Oprand },
    /// Rotate right through carry
    RR { oprand: SM83Oprand },
    /// Rotate left through carry
    RL { oprand: SM83Oprand },
    /// Shift left arithmetically
    SLA { oprand: SM83Oprand },
    /// Shift right arithmetically
    SRA { oprand: SM83Oprand },
    /// Swap the nibbles
    SWAP { oprand: SM83Oprand },
    /// Shift right logically
    SRL { oprand: SM83Oprand },
    /// Test bit u3
    BIT { u3: u8, oprand: SM83Oprand },
    /// Reset bit u3
    RES { u3: u8, oprand: SM83Oprand },
    /// Set bit u3
    SET { u3: u8, oprand: SM83Oprand },
}

/// Direction of a sweep.
#[derive(Debug, Clone, Copy, PartialEq, Eq, Structural)]
pub enum SweepDirection {
    /// Upwards
    Positive,
    /// Downwards
    Negative,
}

/// Stereo placement of a channel.
#[derive(Debug, Clone, Copy, PartialEq, Eq, Structural)]
pub enum Pan {
    /// Left only
    Left,
    /// Right only
    Right,
    /// Both sides
    Center,
    /// Neither side (silent)
    Ignore,
}

/// Duty ratio of a pulse channel.
#[derive(Debug, Clone, Copy, PartialEq, Eq, Structural)]
pub enum DutyRatio {
    /// 12.5%
    Duty125,
    /// 25%
    Duty250,
    /// 50%
    Duty500,
    /// 75%
    Duty750,
}

/// The little-endian 16 bit value held in two bytes.
pub open spec fn spec_u16_le(lo: u8, hi: u8) -> u16 {
    (lo as int + 256 * hi as int) as u16
}

/// Reads a little-endian 16 bit value from a slice of exactly two bytes.
pub fn make_u16_from_u8(data: &[u8]) -> (r: u16)
    requires
        data@.len() == 2,
    ensures
        r == spec_u16_le(data@[0], data@[1]),
        r as int == data@[0] as int + 256 * data@[1] as int,
{
    let lo = data[0];
    let hi = data[1];
    proof {
        lemma_u16_from_bytes(hi, lo);
    }
    ((hi as u16) << 8) | lo as u16
}

/// Joining two bytes into a 16 bit value, as arithmetic.
pub proof fn lemma_u16_from_bytes(hi: u8, lo: u8)
    by (bit_vector)
    ensures
        ((hi as u16) << 8) | (lo as u16) == (hi as u16) * 256 + (lo as u16),
{
}

/// Splitting a 16 bit value into its two bytes, as arithmetic.
pub proof fn lemma_u16_to_bytes(v: u16)
    by (bit_vector)
    ensures
        (v >> 8) & 0xFF == v / 256,
        (v >> 0) & 0xFF == v % 256,
        v & 0xFF == v % 256,
{
}

} // verus!
