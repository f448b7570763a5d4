//! Decoding of SM83 machine code.
//!
//! `spec_decode` states the instruction set by the bit fields of the opcode
//! byte (`x` = bits 7-6, `y` = bits 5-3, `z` = bits 2-0, `p` = bits 5-4,
//! `q` = bit 3), and the decoder's table is proved to agree with it on every
//! byte. Immediates and offsets are read from the instruction's own bytes
//! only: 8 bit ones from the byte after the opcode, 16 bit ones from the two
//! bytes after it, low byte first.
use vstd::prelude::*;
use vstd::slice::slice_subrange;
use crate::types::{
    make_u16_from_u8, spec_u16_le, SM83ConditionCode, SM83Opcode, SM83Oprand, SM83Register16,
    SM83Register8,
};

verus! {

/// The 8 bit register with index `i` in the encoding (6 stands for (HL) and is not a register).
pub open spec fn spec_reg8(i: int) -> SM83Register8 {
    if i == 0 {
        SM83Register8::B
    } else if i == 1 {
        SM83Register8::C
    } else if i == 2 {
        SM83Register8::D
    } else if i == 3 {
        SM83Register8::E
    } else if i == 4 {
        SM83Register8::H
    } else if i == 5 {
        SM83Register8::L
    } else {
        SM83Register8::A
    }
}

/// The register operand with index `i`: a register, or (HL) for 6.
pub open spec fn spec_reg8_operand(i: int) -> SM83Oprand {
    if i == 6 {
        SM83Oprand::R16Indirect { r16: SM83Register16::HL }
    } else {
        SM83Oprand::R8 { r8: spec_reg8(i) }
    }
}

/// The register pair with index `p` in loads of immediates, `INC`, `DEC` and `ADD HL`.
pub open spec fn spec_rp(p: int) -> SM83Register16 {
    if p == 0 {
        SM83Register16::BC
    } else if p == 1 {
        SM83Register16::DE
    } else if p == 2 {
        SM83Register16::HL
    } else {
        SM83Register16::SP
    }
}

/// The pointer with index `p` in loads through BC, DE, HL+ and HL-.
pub open spec fn spec_rp_indirect(p: int) -> SM83Register16 {
    if p == 0 {
        SM83Register16::BC
    } else if p == 1 {
        SM83Register16::DE
    } else if p == 2 {
        SM83Register16::HLincrement
    } else {
        SM83Register16::HLdecrement
    }
}

/// The register pair with index `p` in `PUSH` and `POP`.
pub open spec fn spec_rp2(p: int) -> SM83Register16 {
    if p == 0 {
        SM83Register16::BC
    } else if p == 1 {
        SM83Register16::DE
    } else if p == 2 {
        SM83Register16::HL
    } else {
        SM83Register16::AF
    }
}

/// The branch condition with index `i`.
pub open spec fn spec_cc(i: int) -> SM83ConditionCode {
    if i == 0 {
        SM83ConditionCode::NZ
    } else if i == 1 {
        SM83ConditionCode::Z
    } else if i == 2 {
        SM83ConditionCode::NC
    } else {
        SM83ConditionCode::C
    }
}

/// The arithmetic or logic instruction with index `i` on an operand.
pub open spec fn spec_alu(i: int, oprand: SM83Oprand) -> SM83Opcode {
    if i == 0 {
        SM83Opcode::ADD { oprand }
    } else if i == 1 {
        SM83Opcode::ADC { oprand }
    } else if i == 2 {
        SM83Opcode::SUB { oprand }
    } else if i == 3 {
        SM83Opcode::SBC { oprand }
    } else if i == 4 {
        SM83Opcode::AND { oprand }
    } else if i == 5 {
        SM83Opcode::XOR { oprand }
    } else if i == 6 {
        SM83Opcode::OR { oprand }
    } else {
        SM83Opcode::CP { oprand }
    }
}

/// The instruction that follows the 0xCB prefix, coded by `op`.
pub open spec fn spec_decode_prefixed(op: u8) -> SM83Opcode {
    let x = op / 64;
    let y = (op / 8) % 8;
    let oprand = spec_reg8_operand((op % 8) as int);
    if x == 0 {
        if y == 0 {
            SM83Opcode::RLC { oprand }
        } else if y == 1 {
            SM83Opcode::RRC { oprand }
        } else if y == 2 {
            SM83Opcode::RL { oprand }
        } else if y == 3 {
            SM83Opcode::RR { oprand }
        } else if y == 4 {
            SM83Opcode::SLA { oprand }
        } else if y == 5 {
            SM83Opcode::SRA { oprand }
        } else if y == 6 {
            SM83Opcode::SWAP { oprand }
        } else {
            SM83Opcode::SRL { oprand }
        }
    } else if x == 1 {
        SM83Opcode::BIT { u3: y, oprand }
    } else if x == 2 {
        SM83Opcode::RES { u3: y, oprand }
    } else {
        SM83Opcode::SET { u3: y, oprand }
    }
}

/// Whether `op` is the first byte of an instruction.
pub open spec fn spec_is_opcode(op: u8) -> bool {
    !(op == 0xD3 || op == 0xDB || op == 0xDD || op == 0xE3 || op == 0xE4 || op == 0xEB
        || op == 0xEC || op == 0xED || op == 0xF4 || op == 0xFC || op == 0xFD)
}

/// How many bytes the decoder reads for an instruction starting with `op`:
/// the instruction's length.
pub open spec fn spec_bytes_read(op: u8) -> int {
    spec_decode(op, 0, 0).1 as int
}

/// The instruction coded by `op` with the following bytes `b1` and `b2`,
/// and its length in bytes.
pub open spec fn spec_decode(op: u8, b1: u8, b2: u8) -> (SM83Opcode, u16) {
    let x = op / 64;
    let y = ((op / 8) % 8) as int;
    let z = op % 8;
    let p = y / 2;
    let q = y % 2;
    let a16 = spec_u16_le(b1, b2);
    let hl = SM83Register16::HL;
    let a = SM83Register8::A;
    if x == 0 {
        if z == 0 {
            if y == 0 {
                (SM83Opcode::NOP, 1)
            } else if y == 1 {
                (SM83Opcode::LD { oprand: SM83Oprand::R16ToA16 { a16, src: SM83Register16::SP } }, 3)
            } else if y == 2 {
                (SM83Opcode::STOP, 1)
            } else if y == 3 {
                (SM83Opcode::JR { oprand: SM83Oprand::E8 { e8: b1 as i8 } }, 2)
            } else {
                (SM83Opcode::JR { oprand: SM83Oprand::CCAndE8 { cc: spec_cc(y - 4), e8: b1 as i8 } }, 2)
            }
        } else if z == 1 {
            if q == 0 {
                (SM83Opcode::LD { oprand: SM83Oprand::N16ToR16 { dst: spec_rp(p), n16: a16 } }, 3)
            } else {
                (SM83Opcode::ADD { oprand: SM83Oprand::R16ToR16 { dst: hl, src: spec_rp(p) } }, 1)
            }
        } else if z == 2 {
            if q == 0 {
                (
                    SM83Opcode::LD {
                        oprand: SM83Oprand::R8ToR16Indirect { dst: spec_rp_indirect(p), src: a },
                    },
                    1,
                )
            } else {
                (
                    SM83Opcode::LD {
                        oprand: SM83Oprand::R16IndirectToR8 { dst: a, src: spec_rp_indirect(p) },
                    },
                    1,
                )
            }
        } else if z == 3 {
            if q == 0 {
                (SM83Opcode::INC { oprand: SM83Oprand::R16 { r16: spec_rp(p) } }, 1)
            } else {
                (SM83Opcode::DEC { oprand: SM83Oprand::R16 { r16: spec_rp(p) } }, 1)
            }
        } else if z == 4 {
            (SM83Opcode::INC { oprand: spec_reg8_operand(y) }, 1)
        } else if z == 5 {
            (SM83Opcode::DEC { oprand: spec_reg8_operand(y) }, 1)
        } else if z == 6 {
            if y == 6 {
                (SM83Opcode::LD { oprand: SM83Oprand::N8ToR16Indirect { dst: hl, n8: b1 } }, 2)
            } else {
                (SM83Opcode::LD { oprand: SM83Oprand::N8ToR8 { dst: spec_reg8(y), n8: b1 } }, 2)
            }
        } else {
            (
                if y == 0 {
                    SM83Opcode::RLCA
                } else if y == 1 {
                    SM83Opcode::RRCA
                } else if y == 2 {
                    SM83Opcode::RLA
                } else if y == 3 {
                    SM83Opcode::RRA
                } else if y == 4 {
                    SM83Opcode::DAA
                } else if y == 5 {
                    SM83Opcode::CPL
                } else if y == 6 {
                    SM83Opcode::SCF
                } else {
                    SM83Opcode::CCF
                },
                1,
            )
        }
    } else if x == 1 {
        if op == 0x76 {
            (SM83Opcode::HALT, 1)
        } else if z == 6 {
            (SM83Opcode::LD { oprand: SM83Oprand::R16IndirectToR8 { dst: spec_reg8(y), src: hl } }, 1)
        } else if y == 6 {
            (
                SM83Opcode::LD {
                    oprand: SM83Oprand::R8ToR16Indirect { dst: hl, src: spec_reg8(z as int) },
                },
                1,
            )
        } else {
            (
                SM83Opcode::LD {
                    oprand: SM83Oprand::R8ToR8 { dst: spec_reg8(y), src: spec_reg8(z as int) },
                },
                1,
            )
        }
    } else if x == 2 {
        if z == 6 {
            (spec_alu(y, SM83Oprand::R8AndR16Indirect { r8: a, r16: hl }), 1)
        } else {
            (spec_alu(y, SM83Oprand::R8AndR8 { r1: a, r2: spec_reg8(z as int) }), 1)
        }
    } else if z == 0 {
        if y < 4 {
            (SM83Opcode::RET { oprand: SM83Oprand::CC { cc: spec_cc(y) } }, 1)
        } else if y == 4 {
            (SM83Opcode::LDH { oprand: SM83Oprand::R8ToA8 { dst: b1, src: a } }, 2)
        } else if y == 5 {
            (
                SM83Opcode::ADD {
                    oprand: SM83Oprand::R16AndE8 { r16: SM83Register16::SP, e8: b1 as i8 },
                },
                2,
            )
        } else if y == 6 {
            (SM83Opcode::LDH { oprand: SM83Oprand::A8ToR8 { dst: a, src: b1 } }, 2)
        } else {
            (
                SM83Opcode::LD {
                    oprand: SM83Oprand::R16E8IndirectToR16 {
                        dst: hl,
                        src_r16: SM83Register16::SP,
                        src_e8: b1 as i8,
                    },
                },
                2,
            )
        }
    } else if z == 1 {
        if q == 0 {
            (SM83Opcode::POP { oprand: SM83Oprand::R16 { r16: spec_rp2(p) } }, 1)
        } else if p == 0 {
            (SM83Opcode::RETNooprand, 1)
        } else if p == 1 {
            (SM83Opcode::RETI, 1)
        } else if p == 2 {
            (SM83Opcode::JP { oprand: SM83Oprand::R16 { r16: hl } }, 1)
        } else {
            (SM83Opcode::LD { oprand: SM83Oprand::R16ToR16 { dst: SM83Register16::SP, src: hl } }, 1)
        }
    } else if z == 2 {
        if y < 4 {
            (SM83Opcode::JP { oprand: SM83Oprand::CCAndA16 { cc: spec_cc(y), a16 } }, 3)
        } else if y == 4 {
            (SM83Opcode::LDH { oprand: SM83Oprand::R8ToR8Indirect { dst: SM83Register8::C, src: a } }, 1)
        } else if y == 5 {
            (SM83Opcode::LD { oprand: SM83Oprand::R8ToA16 { dst: a16, src: a } }, 3)
        } else if y == 6 {
            (SM83Opcode::LDH { oprand: SM83Oprand::R8IndirectToR8 { dst: a, src: SM83Register8::C } }, 1)
        } else {
            (SM83Opcode::LD { oprand: SM83Oprand::A16ToR8 { dst: a, src: a16 } }, 3)
        }
    } else if z == 3 {
        if y == 0 {
            (SM83Opcode::JP { oprand: SM83Oprand::A16 { a16 } }, 3)
        } else if y == 1 {
            (spec_decode_prefixed(b1), 2)
        } else if y == 6 {
            (SM83Opcode::DI, 1)
        } else {
            (SM83Opcode::EI, 1)
        }
    } else if z == 4 {
        (SM83Opcode::CALL { oprand: SM83Oprand::CCAndA16 { cc: spec_cc(y), a16 } }, 3)
    } else if z == 5 {
        if q == 0 {
            (SM83Opcode::PUSH { oprand: SM83Oprand::R16 { r16: spec_rp2(p) } }, 1)
        } else {
            (SM83Opcode::CALL { oprand: SM83Oprand::A16 { a16 } }, 3)
        }
    } else if z == 6 {
        (spec_alu(y, SM83Oprand::R8AndN8 { r8: a, n8: b1 }), 2)
    } else {
        (SM83Opcode::RST { vec: (y * 8) as u8 }, 1)
    }
}

/// Whether `op` is the first byte of an instruction.
pub fn is_opcode(op: u8) -> (r: bool)
    ensures
        r == spec_is_opcode(op),
{
    !(op == 0xD3 || op == 0xDB || op == 0xDD || op == 0xE3 || op == 0xE4 || op == 0xEB || op
        == 0xEC || op == 0xED || op == 0xF4 || op == 0xFC || op == 0xFD)
}

/// The length in bytes of the instruction starting with `op`.
fn instruction_length(op: u8) -> (r: u16)
    ensures
        r == spec_decode(op, 0, 0).1,
{
    let x = op / 64;
    let y = (op / 8) % 8;
    let z = op % 8;
    let q = y % 2;
    if x == 0 {
        if z == 0 {
            if y == 0 || y == 2 {
                1
            } else if y == 1 {
                3
            } else {
                2
            }
        } else if z == 1 {
            if q == 0 {
                3
            } else {
                1
            }
        } else if z == 6 {
            2
        } else {
            1
        }
    } else if x == 1 || x == 2 {
        1
    } else if z == 0 {
        if y < 4 {
            1
        } else {
            2
        }
    } else if z == 1 {
        1
    } else if z == 2 {
        if y == 4 || y == 6 {
            1
        } else {
            3
        }
    } else if z == 3 {
        if y == 0 {
            3
        } else if y == 1 {
            2
        } else {
            1
        }
    } else if z == 4 {
        3
    } else if z == 5 {
        if q == 0 {
            1
        } else {
            3
        }
    } else if z == 6 {
        2
    } else {
        1
    }
}

/// How many bytes the decoder reads for an instruction starting with `op`.
pub fn bytes_read(op: u8) -> (r: usize)
    ensures
        r == spec_bytes_read(op),
{
    instruction_length(op) as usize
}

/// Whether `rom` starts with an instruction that the decoder can read whole.
pub open spec fn spec_decodable(rom: Seq<u8>) -> bool {
    &&& rom.len() >= 1
    &&& spec_is_opcode(rom[0])
    &&& rom.len() >= spec_bytes_read(rom[0])
}

/// The instruction at the start of `rom` and its length.
pub open spec fn spec_parse_opcode(rom: Seq<u8>) -> (SM83Opcode, u16) {
    spec_decode(rom[0], rom[1], rom[2])
}

/// Decodes the instruction at the start of `rom`; returns it with its length in bytes.
#[verifier::rlimit(100)]
pub fn parse_opcode(rom: &[u8]) -> (r: (SM83Opcode, u16))
    requires
        spec_decodable(rom@),
    ensures
        r == spec_parse_opcode(rom@),
{
    match rom[0] {
        0x00 => (SM83Opcode::NOP, 1),
        0x01 => (SM83Opcode::LD { oprand: SM83Oprand::N16ToR16 { dst: SM83Register16::BC, n16: make_u16_from_u8(slice_subrange(rom, 1, 3)) } }, 3),
        0x02 => (SM83Opcode::LD { oprand: SM83Oprand::R8ToR16Indirect { dst: SM83Register16::BC, src: SM83Register8::A } }, 1),
        0x03 => (SM83Opcode::INC { oprand: SM83Oprand::R16 { r16: SM83Register16::BC } }, 1),
        0x04 => (SM83Opcode::INC { oprand: SM83Oprand::R8 { r8: SM83Register8::B } }, 1),
        0x05 => (SM83Opcode::DEC { oprand: SM83Oprand::R8 { r8: SM83Register8::B } }, 1),
        0x06 => (SM83Opcode::LD { oprand: SM83Oprand::N8ToR8 { dst: SM83Register8::B, n8: rom[1] } }, 2),
        0x07 => (SM83Opcode::RLCA, 1),
        0x08 => (SM83Opcode::LD { oprand: SM83Oprand::R16ToA16 { a16: make_u16_from_u8(slice_subrange(rom, 1, 3)), src: SM83Register16::SP } }, 3),
        0x09 => (SM83Opcode::ADD { oprand: SM83Oprand::R16ToR16 { dst: SM83Register16::HL, src: SM83Register16::BC } }, 1),
        0x0A => (SM83Opcode::LD { oprand: SM83Oprand::R16IndirectToR8 { dst: SM83Register8::A, src: SM83Register16::BC } }, 1),
        0x0B => (SM83Opcode::DEC { oprand: SM83Oprand::R16 { r16: SM83Register16::BC } }, 1),
        0x0C => (SM83Opcode::INC { oprand: SM83Oprand::R8 { r8: SM83Register8::C } }, 1),
        0x0D => (SM83Opcode::DEC { oprand: SM83Oprand::R8 { r8: SM83Register8::C } }, 1),
        0x0E => (SM83Opcode::LD { oprand: SM83Oprand::N8ToR8 { dst: SM83Register8::C, n8: rom[1] } }, 2),
        0x0F => (SM83Opcode::RRCA, 1),
        0x10 => (SM83Opcode::STOP, 1),
        0x11 => (SM83Opcode::LD { oprand: SM83Oprand::N16ToR16 { dst: SM83Register16::DE, n16: make_u16_from_u8(slice_subrange(rom, 1, 3)) } }, 3),
        0x12 => (SM83Opcode::LD { oprand: SM83Oprand::R8ToR16Indirect { dst: SM83Register16::DE, src: SM83Register8::A } }, 1),
        0x13 => (SM83Opcode::INC { oprand: SM83Oprand::R16 { r16: SM83Register16::DE } }, 1),
        0x14 => (SM83Opcode::INC { oprand: SM83Oprand::R8 { r8: SM83Register8::D } }, 1),
        0x15 => (SM83Opcode::DEC { oprand: SM83Oprand::R8 { r8: SM83Register8::D } }, 1),
        0x16 => (SM83Opcode::LD { oprand: SM83Oprand::N8ToR8 { dst: SM83Register8::D, n8: rom[1] } }, 2),
        0x17 => (SM83Opcode::RLA, 1),
        0x18 => (SM83Opcode::JR { oprand: SM83Oprand::E8 { e8: rom[1] as i8 } }, 2),
        0x19 => (SM83Opcode::ADD { oprand: SM83Oprand::R16ToR16 { dst: SM83Register16::HL, src: SM83Register16::DE } }, 1),
        0x1A => (SM83Opcode::LD { oprand: SM83Oprand::R16IndirectToR8 { dst: SM83Register8::A, src: SM83Register16::DE } }, 1),
        0x1B => (SM83Opcode::DEC { oprand: SM83Oprand::R16 { r16: SM83Register16::DE } }, 1),
        0x1C => (SM83Opcode::INC { oprand: SM83Oprand::R8 { r8: SM83Register8::E } }, 1),
        0x1D => (SM83Opcode::DEC { oprand: SM83Oprand::R8 { r8: SM83Register8::E } }, 1),
        0x1E => (SM83Opcode::LD { oprand: SM83Oprand::N8ToR8 { dst: SM83Register8::E, n8: rom[1] } }, 2),
        0x1F => (SM83Opcode::RRA, 1),
        0x20 => (SM83Opcode::JR { oprand: SM83Oprand::CCAndE8 { cc: SM83ConditionCode::NZ, e8: rom[1] as i8 } }, 2),
        0x21 => (SM83Opcode::LD { oprand: SM83Oprand::N16ToR16 { dst: SM83Register16::HL, n16: make_u16_from_u8(slice_subrange(rom, 1, 3)) } }, 3),
        0x22 => (SM83Opcode::LD { oprand: SM83Oprand::R8ToR16Indirect { dst: SM83Register16::HLincrement, src: SM83Register8::A } }, 1),
        0x23 => (SM83Opcode::INC { oprand: SM83Oprand::R16 { r16: SM83Register16::HL } }, 1),
        0x24 => (SM83Opcode::INC { oprand: SM83Oprand::R8 { r8: SM83Register8::H } }, 1),
        0x25 => (SM83Opcode::DEC { oprand: SM83Oprand::R8 { r8: SM83Register8::H } }, 1),
        0x26 => (SM83Opcode::LD { oprand: SM83Oprand::N8ToR8 { dst: SM83Register8::H, n8: rom[1] } }, 2),
        0x27 => (SM83Opcode::DAA, 1),
        0x28 => (SM83Opcode::JR { oprand: SM83Oprand::CCAndE8 { cc: SM83ConditionCode::Z, e8: rom[1] as i8 } }, 2),
        0x29 => (SM83Opcode::ADD { oprand: SM83Oprand::R16ToR16 { dst: SM83Register16::HL, src: SM83Register16::HL } }, 1),
        0x2A => (SM83Opcode::LD { oprand: SM83Oprand::R16IndirectToR8 { dst: SM83Register8::A, src: SM83Register16::HLincrement } }, 1),
        0x2B => (SM83Opcode::DEC { oprand: SM83Oprand::R16 { r16: SM83Register16::HL } }, 1),
        0x2C => (SM83Opcode::INC { oprand: SM83Oprand::R8 { r8: SM83Register8::L } }, 1),
        0x2D => (SM83Opcode::DEC { oprand: SM83Oprand::R8 { r8: SM83Register8::L } }, 1),
        0x2E => (SM83Opcode::LD { oprand: SM83Oprand::N8ToR8 { dst: SM83Register8::L, n8: rom[1] } }, 2),
        0x2F => (SM83Opcode::CPL, 1),
        0x30 => (SM83Opcode::JR { oprand: SM83Oprand::CCAndE8 { cc: SM83ConditionCode::NC, e8: rom[1] as i8 } }, 2),
        0x31 => (SM83Opcode::LD { oprand: SM83Oprand::N16ToR16 { dst: SM83Register16::SP, n16: make_u16_from_u8(slice_subrange(rom, 1, 3)) } }, 3),
        0x32 => (SM83Opcode::LD { oprand: SM83Oprand::R8ToR16Indirect { dst: SM83Register16::HLdecrement, src: SM83Register8::A } }, 1),
        0x33 => (SM83Opcode::INC { oprand: SM83Oprand::R16 { r16: SM83Register16::SP } }, 1),
        0x34 => (SM83Opcode::INC { oprand: SM83Oprand::R16Indirect { r16: SM83Register16::HL } }, 1),
        0x35 => (SM83Opcode::DEC { oprand: SM83Oprand::R16Indirect { r16: SM83Register16::HL } }, 1),
        0x36 => (SM83Opcode::LD { oprand: SM83Oprand::N8ToR16Indirect { dst: SM83Register16::HL, n8: rom[1] } }, 2),
        0x37 => (SM83Opcode::SCF, 1),
        0x38 => (SM83Opcode::JR { oprand: SM83Oprand::CCAndE8 { cc: SM83ConditionCode::C, e8: rom[1] as i8 } }, 2),
        0x39 => (SM83Opcode::ADD { oprand: SM83Oprand::R16ToR16 { dst: SM83Register16::HL, src: SM83Register16::SP } }, 1),
        0x3A => (SM83Opcode::LD { oprand: SM83Oprand::R16IndirectToR8 { dst: SM83Register8::A, src: SM83Register16::HLdecrement } }, 1),
        0x3B => (SM83Opcode::DEC { oprand: SM83Oprand::R16 { r16: SM83Register16::SP } }, 1),
        0x3C => (SM83Opcode::INC { oprand: SM83Oprand::R8 { r8: SM83Register8::A } }, 1),
        0x3D => (SM83Opcode::DEC { oprand: SM83Oprand::R8 { r8: SM83Register8::A } }, 1),
        0x3E => (SM83Opcode::LD { oprand: SM83Oprand::N8ToR8 { dst: SM83Register8::A, n8: rom[1] } }, 2),
        0x3F => (SM83Opcode::CCF, 1),
        0x40 => (SM83Opcode::LD { oprand: SM83Oprand::R8ToR8 { dst: SM83Register8::B, src: SM83Register8::B } }, 1),
        0x41 => (SM83Opcode::LD { oprand: SM83Oprand::R8ToR8 { dst: SM83Register8::B, src: SM83Register8::C } }, 1),
        0x42 => (SM83Opcode::LD { oprand: SM83Oprand::R8ToR8 { dst: SM83Register8::B, src: SM83Register8::D } }, 1),
        0x43 => (SM83Opcode::LD { oprand: SM83Oprand::R8ToR8 { dst: SM83Register8::B, src: SM83Register8::E } }, 1),
        0x44 => (SM83Opcode::LD { oprand: SM83Oprand::R8ToR8 { dst: SM83Register8::B, src: SM83Register8::H } }, 1),
        0x45 => (SM83Opcode::LD { oprand: SM83Oprand::R8ToR8 { dst: SM83Register8::B, src: SM83Register8::L } }, 1),
        0x46 => (SM83Opcode::LD { oprand: SM83Oprand::R16IndirectToR8 { dst: SM83Register8::B, src: SM83Register16::HL } }, 1),
        0x47 => (SM83Opcode::LD { oprand: SM83Oprand::R8ToR8 { dst: SM83Register8::B, src: SM83Register8::A } }, 1),
        0x48 => (SM83Opcode::LD { oprand: SM83Oprand::R8ToR8 { dst: SM83Register8::C, src: SM83Register8::B } }, 1),
        0x49 => (SM83Opcode::LD { oprand: SM83Oprand::R8ToR8 { dst: SM83Register8::C, src: SM83Register8::C } }, 1),
        0x4A => (SM83Opcode::LD { oprand: SM83Oprand::R8ToR8 { dst: SM83Register8::C, src: SM83Register8::D } }, 1),
        0x4B => (SM83Opcode::LD { oprand: SM83Oprand::R8ToR8 { dst: SM83Register8::C, src: SM83Register8::E } }, 1),
        0x4C => (SM83Opcode::LD { oprand: SM83Oprand::R8ToR8 { dst: SM83Register8::C, src: SM83Register8::H } }, 1),
        0x4D => (SM83Opcode::LD { oprand: SM83Oprand::R8ToR8 { dst: SM83Register8::C, src: SM83Register8::L } }, 1),
        0x4E => (SM83Opcode::LD { oprand: SM83Oprand::R16IndirectToR8 { dst: SM83Register8::C, src: SM83Register16::HL } }, 1),
        0x4F => (SM83Opcode::LD { oprand: SM83Oprand::R8ToR8 { dst: SM83Register8::C, src: SM83Register8::A } }, 1),
        0x50 => (SM83Opcode::LD { oprand: SM83Oprand::R8ToR8 { dst: SM83Register8::D, src: SM83Register8::B } }, 1),
        0x51 => (SM83Opcode::LD { oprand: SM83Oprand::R8ToR8 { dst: SM83Register8::D, src: SM83Register8::C } }, 1),
        0x52 => (SM83Opcode::LD { oprand: SM83Oprand::R8ToR8 { dst: SM83Register8::D, src: SM83Register8::D } }, 1),
        0x53 => (SM83Opcode::LD { oprand: SM83Oprand::R8ToR8 { dst: SM83Register8::D, src: SM83Register8::E } }, 1),
        0x54 => (SM83Opcode::LD { oprand: SM83Oprand::R8ToR8 { dst: SM83Register8::D, src: SM83Register8::H } }, 1),
        0x55 => (SM83Opcode::LD { oprand: SM83Oprand::R8ToR8 { dst: SM83Register8::D, src: SM83Register8::L } }, 1),
        0x56 => (SM83Opcode::LD { oprand: SM83Oprand::R16IndirectToR8 { dst: SM83Register8::D, src: SM83Register16::HL } }, 1),
        0x57 => (SM83Opcode::LD { oprand: SM83Oprand::R8ToR8 { dst: SM83Register8::D, src: SM83Register8::A } }, 1),
        0x58 => (SM83Opcode::LD { oprand: SM83Oprand::R8ToR8 { dst: SM83Register8::E, src: SM83Register8::B } }, 1),
        0x59 => (SM83Opcode::LD { oprand: SM83Oprand::R8ToR8 { dst: SM83Register8::E, src: SM83Register8::C } }, 1),
        0x5A => (SM83Opcode::LD { oprand: SM83Oprand::R8ToR8 { dst: SM83Register8::E, src: SM83Register8::D } }, 1),
        0x5B => (SM83Opcode::LD { oprand: SM83Oprand::R8ToR8 { dst: SM83Register8::E, src: SM83Register8::E } }, 1),
        0x5C => (SM83Opcode::LD { oprand: SM83Oprand::R8ToR8 { dst: SM83Register8::E, src: SM83Register8::H } }, 1),
        0x5D => (SM83Opcode::LD { oprand: SM83Oprand::R8ToR8 { dst: SM83Register8::E, src: SM83Register8::L } }, 1),
        0x5E => (SM83Opcode::LD { oprand: SM83Oprand::R16IndirectToR8 { dst: SM83Register8::E, src: SM83Register16::HL } }, 1),
        0x5F => (SM83Opcode::LD { oprand: SM83Oprand::R8ToR8 { dst: SM83Register8::E, src: SM83Register8::A } }, 1),
        0x60 => (SM83Opcode::LD { oprand: SM83Oprand::R8ToR8 { dst: SM83Register8::H, src: SM83Register8::B } }, 1),
        0x61 => (SM83Opcode::LD { oprand: SM83Oprand::R8ToR8 { dst: SM83Register8::H, src: SM83Register8::C } }, 1),
        0x62 => (SM83Opcode::LD { oprand: SM83Oprand::R8ToR8 { dst: SM83Register8::H, src: SM83Register8::D } }, 1),
        0x63 => (SM83Opcode::LD { oprand: SM83Oprand::R8ToR8 { dst: SM83Register8::H, src: SM83Register8::E } }, 1),
        0x64 => (SM83Opcode::LD { oprand: SM83Oprand::R8ToR8 { dst: SM83Register8::H, src: SM83Register8::H } }, 1),
        0x65 => (SM83Opcode::LD { oprand: SM83Oprand::R8ToR8 { dst: SM83Register8::H, src: SM83Register8::L } }, 1),
        0x66 => (SM83Opcode::LD { oprand: SM83Oprand::R16IndirectToR8 { dst: SM83Register8::H, src: SM83Register16::HL } }, 1),
        0x67 => (SM83Opcode::LD { oprand: SM83Oprand::R8ToR8 { dst: SM83Register8::H, src: SM83Register8::A } }, 1),
        0x68 => (SM83Opcode::LD { oprand: SM83Oprand::R8ToR8 { dst: SM83Register8::L, src: SM83Register8::B } }, 1),
        0x69 => (SM83Opcode::LD { oprand: SM83Oprand::R8ToR8 { dst: SM83Register8::L, src: SM83Register8::C } }, 1),
        0x6A => (SM83Opcode::LD { oprand: SM83Oprand::R8ToR8 { dst: SM83Register8::L, src: SM83Register8::D } }, 1),
        0x6B => (SM83Opcode::LD { oprand: SM83Oprand::R8ToR8 { dst: SM83Register8::L, src: SM83Register8::E } }, 1),
        0x6C => (SM83Opcode::LD { oprand: SM83Oprand::R8ToR8 { dst: SM83Register8::L, src: SM83Register8::H } }, 1),
        0x6D => (SM83Opcode::LD { oprand: SM83Oprand::R8ToR8 { dst: SM83Register8::L, src: SM83Register8::L } }, 1),
        0x6E => (SM83Opcode::LD { oprand: SM83Oprand::R16IndirectToR8 { dst: SM83Register8::L, src: SM83Register16::HL } }, 1),
        0x6F => (SM83Opcode::LD { oprand: SM83Oprand::R8ToR8 { dst: SM83Register8::L, src: SM83Register8::A } }, 1),
        0x70 => (SM83Opcode::LD { oprand: SM83Oprand::R8ToR16Indirect { dst: SM83Register16::HL, src: SM83Register8::B } }, 1),
        0x71 => (SM83Opcode::LD { oprand: SM83Oprand::R8ToR16Indirect { dst: SM83Register16::HL, src: SM83Register8::C } }, 1),
        0x72 => (SM83Opcode::LD { oprand: SM83Oprand::R8ToR16Indirect { dst: SM83Register16::HL, src: SM83Register8::D } }, 1),
        0x73 => (SM83Opcode::LD { oprand: SM83Oprand::R8ToR16Indirect { dst: SM83Register16::HL, src: SM83Register8::E } }, 1),
        0x74 => (SM83Opcode::LD { oprand: SM83Oprand::R8ToR16Indirect { dst: SM83Register16::HL, src: SM83Register8::H } }, 1),
        0x75 => (SM83Opcode::LD { oprand: SM83Oprand::R8ToR16Indirect { dst: SM83Register16::HL, src: SM83Register8::L } }, 1),
        0x76 => (SM83Opcode::HALT, 1),
        0x77 => (SM83Opcode::LD { oprand: SM83Oprand::R8ToR16Indirect { dst: SM83Register16::HL, src: SM83Register8::A } }, 1),
        0x78 => (SM83Opcode::LD { oprand: SM83Oprand::R8ToR8 { dst: SM83Register8::A, src: SM83Register8::B } }, 1),
        0x79 => (SM83Opcode::LD { oprand: SM83Oprand::R8ToR8 { dst: SM83Register8::A, src: SM83Register8::C } }, 1),
        0x7A => (SM83Opcode::LD { oprand: SM83Oprand::R8ToR8 { dst: SM83Register8::A, src: SM83Register8::D } }, 1),
        0x7B => (SM83Opcode::LD { oprand: SM83Oprand::R8ToR8 { dst: SM83Register8::A, src: SM83Register8::E } }, 1),
        0x7C => (SM83Opcode::LD { oprand: SM83Oprand::R8ToR8 { dst: SM83Register8::A, src: SM83Register8::H } }, 1),
        0x7D => (SM83Opcode::LD { oprand: SM83Oprand::R8ToR8 { dst: SM83Register8::A, src: SM83Register8::L } }, 1),
        0x7E => (SM83Opcode::LD { oprand: SM83Oprand::R16IndirectToR8 { dst: SM83Register8::A, src: SM83Register16::HL } }, 1),
        0x7F => (SM83Opcode::LD { oprand: SM83Oprand::R8ToR8 { dst: SM83Register8::A, src: SM83Register8::A } }, 1),
        0x80 => (SM83Opcode::ADD { oprand: SM83Oprand::R8AndR8 { r1: SM83Register8::A, r2: SM83Register8::B } }, 1),
        0x81 => (SM83Opcode::ADD { oprand: SM83Oprand::R8AndR8 { r1: SM83Register8::A, r2: SM83Register8::C } }, 1),
        0x82 => (SM83Opcode::ADD { oprand: SM83Oprand::R8AndR8 { r1: SM83Register8::A, r2: SM83Register8::D } }, 1),
        0x83 => (SM83Opcode::ADD { oprand: SM83Oprand::R8AndR8 { r1: SM83Register8::A, r2: SM83Register8::E } }, 1),
        0x84 => (SM83Opcode::ADD { oprand: SM83Oprand::R8AndR8 { r1: SM83Register8::A, r2: SM83Register8::H } }, 1),
        0x85 => (SM83Opcode::ADD { oprand: SM83Oprand::R8AndR8 { r1: SM83Register8::A, r2: SM83Register8::L } }, 1),
        0x86 => (SM83Opcode::ADD { oprand: SM83Oprand::R8AndR16Indirect { r8: SM83Register8::A, r16: SM83Register16::HL } }, 1),
        0x87 => (SM83Opcode::ADD { oprand: SM83Oprand::R8AndR8 { r1: SM83Register8::A, r2: SM83Register8::A } }, 1),
        0x88 => (SM83Opcode::ADC { oprand: SM83Oprand::R8AndR8 { r1: SM83Register8::A, r2: SM83Register8::B } }, 1),
        0x89 => (SM83Opcode::ADC { oprand: SM83Oprand::R8AndR8 { r1: SM83Register8::A, r2: SM83Register8::C } }, 1),
        0x8A => (SM83Opcode::ADC { oprand: SM83Oprand::R8AndR8 { r1: SM83Register8::A, r2: SM83Register8::D } }, 1),
        0x8B => (SM83Opcode::ADC { oprand: SM83Oprand::R8AndR8 { r1: SM83Register8::A, r2: SM83Register8::E } }, 1),
        0x8C => (SM83Opcode::ADC { oprand: SM83Oprand::R8AndR8 { r1: SM83Register8::A, r2: SM83Register8::H } }, 1),
        0x8D => (SM83Opcode::ADC { oprand: SM83Oprand::R8AndR8 { r1: SM83Register8::A, r2: SM83Register8::L } }, 1),
        0x8E => (SM83Opcode::ADC { oprand: SM83Oprand::R8AndR16Indirect { r8: SM83Register8::A, r16: SM83Register16::HL } }, 1),
        0x8F => (SM83Opcode::ADC { oprand: SM83Oprand::R8AndR8 { r1: SM83Register8::A, r2: SM83Register8::A } }, 1),
        0x90 => (SM83Opcode::SUB { oprand: SM83Oprand::R8AndR8 { r1: SM83Register8::A, r2: SM83Register8::B } }, 1),
        0x91 => (SM83Opcode::SUB { oprand: SM83Oprand::R8AndR8 { r1: SM83Register8::A, r2: SM83Register8::C } }, 1),
        0x92 => (SM83Opcode::SUB { oprand: SM83Oprand::R8AndR8 { r1: SM83Register8::A, r2: SM83Register8::D } }, 1),
        0x93 => (SM83Opcode::SUB { oprand: SM83Oprand::R8AndR8 { r1: SM83Register8::A, r2: SM83Register8::E } }, 1),
        0x94 => (SM83Opcode::SUB { oprand: SM83Oprand::R8AndR8 { r1: SM83Register8::A, r2: SM83Register8::H } }, 1),
        0x95 => (SM83Opcode::SUB { oprand: SM83Oprand::R8AndR8 { r1: SM83Register8::A, r2: SM83Register8::L } }, 1),
        0x96 => (SM83Opcode::SUB { oprand: SM83Oprand::R8AndR16Indirect { r8: SM83Register8::A, r16: SM83Register16::HL } }, 1),
        0x97 => (SM83Opcode::SUB { oprand: SM83Oprand::R8AndR8 { r1: SM83Register8::A, r2: SM83Register8::A } }, 1),
        0x98 => (SM83Opcode::SBC { oprand: SM83Oprand::R8AndR8 { r1: SM83Register8::A, r2: SM83Register8::B } }, 1),
        0x99 => (SM83Opcode::SBC { oprand: SM83Oprand::R8AndR8 { r1: SM83Register8::A, r2: SM83Register8::C } }, 1),
        0x9A => (SM83Opcode::SBC { oprand: SM83Oprand::R8AndR8 { r1: SM83Register8::A, r2: SM83Register8::D } }, 1),
        0x9B => (SM83Opcode::SBC { oprand: SM83Oprand::R8AndR8 { r1: SM83Register8::A, r2: SM83Register8::E } }, 1),
        0x9C => (SM83Opcode::SBC { oprand: SM83Oprand::R8AndR8 { r1: SM83Register8::A, r2: SM83Register8::H } }, 1),
        0x9D => (SM83Opcode::SBC { oprand: SM83Oprand::R8AndR8 { r1: SM83Register8::A, r2: SM83Register8::L } }, 1),
        0x9E => (SM83Opcode::SBC { oprand: SM83Oprand::R8AndR16Indirect { r8: SM83Register8::A, r16: SM83Register16::HL } }, 1),
        0x9F => (SM83Opcode::SBC { oprand: SM83Oprand::R8AndR8 { r1: SM83Register8::A, r2: SM83Register8::A } }, 1),
        0xA0 => (SM83Opcode::AND { oprand: SM83Oprand::R8AndR8 { r1: SM83Register8::A, r2: SM83Register8::B } }, 1),
        0xA1 => (SM83Opcode::AND { oprand: SM83Oprand::R8AndR8 { r1: SM83Register8::A, r2: SM83Register8::C } }, 1),
        0xA2 => (SM83Opcode::AND { oprand: SM83Oprand::R8AndR8 { r1: SM83Register8::A, r2: SM83Register8::D } }, 1),
        0xA3 => (SM83Opcode::AND { oprand: SM83Oprand::R8AndR8 { r1: SM83Register8::A, r2: SM83Register8::E } }, 1),
        0xA4 => (SM83Opcode::AND { oprand: SM83Oprand::R8AndR8 { r1: SM83Register8::A, r2: SM83Register8::H } }, 1),
        0xA5 => (SM83Opcode::AND { oprand: SM83Oprand::R8AndR8 { r1: SM83Register8::A, r2: SM83Register8::L } }, 1),
        0xA6 => (SM83Opcode::AND { oprand: SM83Oprand::R8AndR16Indirect { r8: SM83Register8::A, r16: SM83Register16::HL } }, 1),
        0xA7 => (SM83Opcode::AND { oprand: SM83Oprand::R8AndR8 { r1: SM83Register8::A, r2: SM83Register8::A } }, 1),
        0xA8 => (SM83Opcode::XOR { oprand: SM83Oprand::R8AndR8 { r1: SM83Register8::A, r2: SM83Register8::B } }, 1),
        0xA9 => (SM83Opcode::XOR { oprand: SM83Oprand::R8AndR8 { r1: SM83Register8::A, r2: SM83Register8::C } }, 1),
        0xAA => (SM83Opcode::XOR { oprand: SM83Oprand::R8AndR8 { r1: SM83Register8::A, r2: SM83Register8::D } }, 1),
        0xAB => (SM83Opcode::XOR { oprand: SM83Oprand::R8AndR8 { r1: SM83Register8::A, r2: SM83Register8::E } }, 1),
        0xAC => (SM83Opcode::XOR { oprand: SM83Oprand::R8AndR8 { r1: SM83Register8::A, r2: SM83Register8::H } }, 1),
        0xAD => (SM83Opcode::XOR { oprand: SM83Oprand::R8AndR8 { r1: SM83Register8::A, r2: SM83Register8::L } }, 1),
        0xAE => (SM83Opcode::XOR { oprand: SM83Oprand::R8AndR16Indirect { r8: SM83Register8::A, r16: SM83Register16::HL } }, 1),
        0xAF => (SM83Opcode::XOR { oprand: SM83Oprand::R8AndR8 { r1: SM83Register8::A, r2: SM83Register8::A } }, 1),
        0xB0 => (SM83Opcode::OR { oprand: SM83Oprand::R8AndR8 { r1: SM83Register8::A, r2: SM83Register8::B } }, 1),
        0xB1 => (SM83Opcode::OR { oprand: SM83Oprand::R8AndR8 { r1: SM83Register8::A, r2: SM83Register8::C } }, 1),
        0xB2 => (SM83Opcode::OR { oprand: SM83Oprand::R8AndR8 { r1: SM83Register8::A, r2: SM83Register8::D } }, 1),
        0xB3 => (SM83Opcode::OR { oprand: SM83Oprand::R8AndR8 { r1: SM83Register8::A, r2: SM83Register8::E } }, 1),
        0xB4 => (SM83Opcode::OR { oprand: SM83Oprand::R8AndR8 { r1: SM83Register8::A, r2: SM83Register8::H } }, 1),
        0xB5 => (SM83Opcode::OR { oprand: SM83Oprand::R8AndR8 { r1: SM83Register8::A, r2: SM83Register8::L } }, 1),
        0xB6 => (SM83Opcode::OR { oprand: SM83Oprand::R8AndR16Indirect { r8: SM83Register8::A, r16: SM83Register16::HL } }, 1),
        0xB7 => (SM83Opcode::OR { oprand: SM83Oprand::R8AndR8 { r1: SM83Register8::A, r2: SM83Register8::A } }, 1),
        0xB8 => (SM83Opcode::CP { oprand: SM83Oprand::R8AndR8 { r1: SM83Register8::A, r2: SM83Register8::B } }, 1),
        0xB9 => (SM83Opcode::CP { oprand: SM83Oprand::R8AndR8 { r1: SM83Register8::A, r2: SM83Register8::C } }, 1),
        0xBA => (SM83Opcode::CP { oprand: SM83Oprand::R8AndR8 { r1: SM83Register8::A, r2: SM83Register8::D } }, 1),
        0xBB => (SM83Opcode::CP { oprand: SM83Oprand::R8AndR8 { r1: SM83Register8::A, r2: SM83Register8::E } }, 1),
        0xBC => (SM83Opcode::CP { oprand: SM83Oprand::R8AndR8 { r1: SM83Register8::A, r2: SM83Register8::H } }, 1),
        0xBD => (SM83Opcode::CP { oprand: SM83Oprand::R8AndR8 { r1: SM83Register8::A, r2: SM83Register8::L } }, 1),
        0xBE => (SM83Opcode::CP { oprand: SM83Oprand::R8AndR16Indirect { r8: SM83Register8::A, r16: SM83Register16::HL } }, 1),
        0xBF => (SM83Opcode::CP { oprand: SM83Oprand::R8AndR8 { r1: SM83Register8::A, r2: SM83Register8::A } }, 1),
        0xC0 => (SM83Opcode::RET { oprand: SM83Oprand::CC { cc: SM83ConditionCode::NZ } }, 1),
        0xC1 => (SM83Opcode::POP { oprand: SM83Oprand::R16 { r16: SM83Register16::BC } }, 1),
        0xC2 => (SM83Opcode::JP { oprand: SM83Oprand::CCAndA16 { cc: SM83ConditionCode::NZ, a16: make_u16_from_u8(slice_subrange(rom, 1, 3)) } }, 3),
        0xC3 => (SM83Opcode::JP { oprand: SM83Oprand::A16 { a16: make_u16_from_u8(slice_subrange(rom, 1, 3)) } }, 3),
        0xC4 => (SM83Opcode::CALL { oprand: SM83Oprand::CCAndA16 { cc: SM83ConditionCode::NZ, a16: make_u16_from_u8(slice_subrange(rom, 1, 3)) } }, 3),
        0xC5 => (SM83Opcode::PUSH { oprand: SM83Oprand::R16 { r16: SM83Register16::BC } }, 1),
        0xC6 => (SM83Opcode::ADD { oprand: SM83Oprand::R8AndN8 { r8: SM83Register8::A, n8: rom[1] } }, 2),
        0xC7 => (SM83Opcode::RST { vec: 0x00 }, 1),
        0xC8 => (SM83Opcode::RET { oprand: SM83Oprand::CC { cc: SM83ConditionCode::Z } }, 1),
        0xC9 => (SM83Opcode::RETNooprand, 1),
        0xCA => (SM83Opcode::JP { oprand: SM83Oprand::CCAndA16 { cc: SM83ConditionCode::Z, a16: make_u16_from_u8(slice_subrange(rom, 1, 3)) } }, 3),
        0xCB => parse_prefixed_opcode(rom),
        0xCC => (SM83Opcode::CALL { oprand: SM83Oprand::CCAndA16 { cc: SM83ConditionCode::Z, a16: make_u16_from_u8(slice_subrange(rom, 1, 3)) } }, 3),
        0xCD => (SM83Opcode::CALL { oprand: SM83Oprand::A16 { a16: make_u16_from_u8(slice_subrange(rom, 1, 3)) } }, 3),
        0xCE => (SM83Opcode::ADC { oprand: SM83Oprand::R8AndN8 { r8: SM83Register8::A, n8: rom[1] } }, 2),
        0xCF => (SM83Opcode::RST { vec: 0x08 }, 1),
        0xD0 => (SM83Opcode::RET { oprand: SM83Oprand::CC { cc: SM83ConditionCode::NC } }, 1),
        0xD1 => (SM83Opcode::POP { oprand: SM83Oprand::R16 { r16: SM83Register16::DE } }, 1),
        0xD2 => (SM83Opcode::JP { oprand: SM83Oprand::CCAndA16 { cc: SM83ConditionCode::NC, a16: make_u16_from_u8(slice_subrange(rom, 1, 3)) } }, 3),
        0xD4 => (SM83Opcode::CALL { oprand: SM83Oprand::CCAndA16 { cc: SM83ConditionCode::NC, a16: make_u16_from_u8(slice_subrange(rom, 1, 3)) } }, 3),
        0xD5 => (SM83Opcode::PUSH { oprand: SM83Oprand::R16 { r16: SM83Register16::DE } }, 1),
        0xD6 => (SM83Opcode::SUB { oprand: SM83Oprand::R8AndN8 { r8: SM83Register8::A, n8: rom[1] } }, 2),
        0xD7 => (SM83Opcode::RST { vec: 0x10 }, 1),
        0xD8 => (SM83Opcode::RET { oprand: SM83Oprand::CC { cc: SM83ConditionCode::C } }, 1),
        0xD9 => (SM83Opcode::RETI, 1),
        0xDA => (SM83Opcode::JP { oprand: SM83Oprand::CCAndA16 { cc: SM83ConditionCode::C, a16: make_u16_from_u8(slice_subrange(rom, 1, 3)) } }, 3),
        0xDC => (SM83Opcode::CALL { oprand: SM83Oprand::CCAndA16 { cc: SM83ConditionCode::C, a16: make_u16_from_u8(slice_subrange(rom, 1, 3)) } }, 3),
        0xDE => (SM83Opcode::SBC { oprand: SM83Oprand::R8AndN8 { r8: SM83Register8::A, n8: rom[1] } }, 2),
        0xDF => (SM83Opcode::RST { vec: 0x18 }, 1),
        0xE0 => (SM83Opcode::LDH { oprand: SM83Oprand::R8ToA8 { dst: rom[1], src: SM83Register8::A } }, 2),
        0xE1 => (SM83Opcode::POP { oprand: SM83Oprand::R16 { r16: SM83Register16::HL } }, 1),
        0xE2 => (SM83Opcode::LDH { oprand: SM83Oprand::R8ToR8Indirect { dst: SM83Register8::C, src: SM83Register8::A } }, 1),
        0xE5 => (SM83Opcode::PUSH { oprand: SM83Oprand::R16 { r16: SM83Register16::HL } }, 1),
        0xE6 => (SM83Opcode::AND { oprand: SM83Oprand::R8AndN8 { r8: SM83Register8::A, n8: rom[1] } }, 2),
        0xE7 => (SM83Opcode::RST { vec: 0x20 }, 1),
        0xE8 => (SM83Opcode::ADD { oprand: SM83Oprand::R16AndE8 { r16: SM83Register16::SP, e8: rom[1] as i8 } }, 2),
        0xE9 => (SM83Opcode::JP { oprand: SM83Oprand::R16 { r16: SM83Register16::HL } }, 1),
        0xEA => (SM83Opcode::LD { oprand: SM83Oprand::R8ToA16 { dst: make_u16_from_u8(slice_subrange(rom, 1, 3)), src: SM83Register8::A } }, 3),
        0xEE => (SM83Opcode::XOR { oprand: SM83Oprand::R8AndN8 { r8: SM83Register8::A, n8: rom[1] } }, 2),
        0xEF => (SM83Opcode::RST { vec: 0x28 }, 1),
        0xF0 => (SM83Opcode::LDH { oprand: SM83Oprand::A8ToR8 { dst: SM83Register8::A, src: rom[1] } }, 2),
        0xF1 => (SM83Opcode::POP { oprand: SM83Oprand::R16 { r16: SM83Register16::AF } }, 1),
        0xF2 => (SM83Opcode::LDH { oprand: SM83Oprand::R8IndirectToR8 { dst: SM83Register8::A, src: SM83Register8::C } }, 1),
        0xF3 => (SM83Opcode::DI, 1),
        0xF5 => (SM83Opcode::PUSH { oprand: SM83Oprand::R16 { r16: SM83Register16::AF } }, 1),
        0xF6 => (SM83Opcode::OR { oprand: SM83Oprand::R8AndN8 { r8: SM83Register8::A, n8: rom[1] } }, 2),
        0xF7 => (SM83Opcode::RST { vec: 0x30 }, 1),
        0xF8 => (SM83Opcode::LD { oprand: SM83Oprand::R16E8IndirectToR16 { dst: SM83Register16::HL, src_r16: SM83Register16::SP, src_e8: rom[1] as i8 } }, 2),
        0xF9 => (SM83Opcode::LD { oprand: SM83Oprand::R16ToR16 { dst: SM83Register16::SP, src: SM83Register16::HL } }, 1),
        0xFA => (SM83Opcode::LD { oprand: SM83Oprand::A16ToR8 { dst: SM83Register8::A, src: make_u16_from_u8(slice_subrange(rom, 1, 3)) } }, 3),
        0xFB => (SM83Opcode::EI, 1),
        0xFE => (SM83Opcode::CP { oprand: SM83Oprand::R8AndN8 { r8: SM83Register8::A, n8: rom[1] } }, 2),
        0xFF => (SM83Opcode::RST { vec: 0x38 }, 1),
        0xD3 | 0xDB | 0xDD | 0xE3 | 0xE4 | 0xEB | 0xEC | 0xED | 0xF4 | 0xFC | 0xFD => {
            // no instruction has these codes; the precondition excludes them
            proof {
                assert(false);
            }
            (SM83Opcode::NOP, 1)
        },
    }
}

/// Decodes an instruction with the 0xCB prefix at the start of `rom`;
/// returns it with its length in bytes (always 2).
#[verifier::rlimit(100)]
pub fn parse_prefixed_opcode(rom: &[u8]) -> (r: (SM83Opcode, u16))
    requires
        rom@.len() >= 2,
        rom@[0] == 0xCB,
    ensures
        r == (spec_decode_prefixed(rom@[1]), 2u16),
{
    match rom[1] {
        0x00 => (SM83Opcode::RLC { oprand: SM83Oprand::R8 { r8: SM83Register8::B } }, 2),
        0x01 => (SM83Opcode::RLC { oprand: SM83Oprand::R8 { r8: SM83Register8::C } }, 2),
        0x02 => (SM83Opcode::RLC { oprand: SM83Oprand::R8 { r8: SM83Register8::D } }, 2),
        0x03 => (SM83Opcode::RLC { oprand: SM83Oprand::R8 { r8: SM83Register8::E } }, 2),
        0x04 => (SM83Opcode::RLC { oprand: SM83Oprand::R8 { r8: SM83Register8::H } }, 2),
        0x05 => (SM83Opcode::RLC { oprand: SM83Oprand::R8 { r8: SM83Register8::L } }, 2),
        0x06 => (SM83Opcode::RLC { oprand: SM83Oprand::R16Indirect { r16: SM83Register16::HL } }, 2),
        0x07 => (SM83Opcode::RLC { oprand: SM83Oprand::R8 { r8: SM83Register8::A } }, 2),
        0x08 => (SM83Opcode::RRC { oprand: SM83Oprand::R8 { r8: SM83Register8::B } }, 2),
        0x09 => (SM83Opcode::RRC { oprand: SM83Oprand::R8 { r8: SM83Register8::C } }, 2),
        0x0A => (SM83Opcode::RRC { oprand: SM83Oprand::R8 { r8: SM83Register8::D } }, 2),
        0x0B => (SM83Opcode::RRC { oprand: SM83Oprand::R8 { r8: SM83Register8::E } }, 2),
        0x0C => (SM83Opcode::RRC { oprand: SM83Oprand::R8 { r8: SM83Register8::H } }, 2),
        0x0D => (SM83Opcode::RRC { oprand: SM83Oprand::R8 { r8: SM83Register8::L } }, 2),
        0x0E => (SM83Opcode::RRC { oprand: SM83Oprand::R16Indirect { r16: SM83Register16::HL } }, 2),
        0x0F => (SM83Opcode::RRC { oprand: SM83Oprand::R8 { r8: SM83Register8::A } }, 2),
        0x10 => (SM83Opcode::RL { oprand: SM83Oprand::R8 { r8: SM83Register8::B } }, 2),
        0x11 => (SM83Opcode::RL { oprand: SM83Oprand::R8 { r8: SM83Register8::C } }, 2),
        0x12 => (SM83Opcode::RL { oprand: SM83Oprand::R8 { r8: SM83Register8::D } }, 2),
        0x13 => (SM83Opcode::RL { oprand: SM83Oprand::R8 { r8: SM83Register8::E } }, 2),
        0x14 => (SM83Opcode::RL { oprand: SM83Oprand::R8 { r8: SM83Register8::H } }, 2),
        0x15 => (SM83Opcode::RL { oprand: SM83Oprand::R8 { r8: SM83Register8::L } }, 2),
        0x16 => (SM83Opcode::RL { oprand: SM83Oprand::R16Indirect { r16: SM83Register16::HL } }, 2),
        0x17 => (SM83Opcode::RL { oprand: SM83Oprand::R8 { r8: SM83Register8::A } }, 2),
        0x18 => (SM83Opcode::RR { oprand: SM83Oprand::R8 { r8: SM83Register8::B } }, 2),
        0x19 => (SM83Opcode::RR { oprand: SM83Oprand::R8 { r8: SM83Register8::C } }, 2),
        0x1A => (SM83Opcode::RR { oprand: SM83Oprand::R8 { r8: SM83Register8::D } }, 2),
        0x1B => (SM83Opcode::RR { oprand: SM83Oprand::R8 { r8: SM83Register8::E } }, 2),
        0x1C => (SM83Opcode::RR { oprand: SM83Oprand::R8 { r8: SM83Register8::H } }, 2),
        0x1D => (SM83Opcode::RR { oprand: SM83Oprand::R8 { r8: SM83Register8::L } }, 2),
        0x1E => (SM83Opcode::RR { oprand: SM83Oprand::R16Indirect { r16: SM83Register16::HL } }, 2),
        0x1F => (SM83Opcode::RR { oprand: SM83Oprand::R8 { r8: SM83Register8::A } }, 2),
        0x20 => (SM83Opcode::SLA { oprand: SM83Oprand::R8 { r8: SM83Register8::B } }, 2),
        0x21 => (SM83Opcode::SLA { oprand: SM83Oprand::R8 { r8: SM83Register8::C } }, 2),
        0x22 => (SM83Opcode::SLA { oprand: SM83Oprand::R8 { r8: SM83Register8::D } }, 2),
        0x23 => (SM83Opcode::SLA { oprand: SM83Oprand::R8 { r8: SM83Register8::E } }, 2),
        0x24 => (SM83Opcode::SLA { oprand: SM83Oprand::R8 { r8: SM83Register8::H } }, 2),
        0x25 => (SM83Opcode::SLA { oprand: SM83Oprand::R8 { r8: SM83Register8::L } }, 2),
        0x26 => (SM83Opcode::SLA { oprand: SM83Oprand::R16Indirect { r16: SM83Register16::HL } }, 2),
        0x27 => (SM83Opcode::SLA { oprand: SM83Oprand::R8 { r8: SM83Register8::A } }, 2),
        0x28 => (SM83Opcode::SRA { oprand: SM83Oprand::R8 { r8: SM83Register8::B } }, 2),
        0x29 => (SM83Opcode::SRA { oprand: SM83Oprand::R8 { r8: SM83Register8::C } }, 2),
        0x2A => (SM83Opcode::SRA { oprand: SM83Oprand::R8 { r8: SM83Register8::D } }, 2),
        0x2B => (SM83Opcode::SRA { oprand: SM83Oprand::R8 { r8: SM83Register8::E } }, 2),
        0x2C => (SM83Opcode::SRA { oprand: SM83Oprand::R8 { r8: SM83Register8::H } }, 2),
        0x2D => (SM83Opcode::SRA { oprand: SM83Oprand::R8 { r8: SM83Register8::L } }, 2),
        0x2E => (SM83Opcode::SRA { oprand: SM83Oprand::R16Indirect { r16: SM83Register16::HL } }, 2),
        0x2F => (SM83Opcode::SRA { oprand: SM83Oprand::R8 { r8: SM83Register8::A } }, 2),
        0x30 => (SM83Opcode::SWAP { oprand: SM83Oprand::R8 { r8: SM83Register8::B } }, 2),
        0x31 => (SM83Opcode::SWAP { oprand: SM83Oprand::R8 { r8: SM83Register8::C } }, 2),
        0x32 => (SM83Opcode::SWAP { oprand: SM83Oprand::R8 { r8: SM83Register8::D } }, 2),
        0x33 => (SM83Opcode::SWAP { oprand: SM83Oprand::R8 { r8: SM83Register8::E } }, 2),
        0x34 => (SM83Opcode::SWAP { oprand: SM83Oprand::R8 { r8: SM83Register8::H } }, 2),
        0x35 => (SM83Opcode::SWAP { oprand: SM83Oprand::R8 { r8: SM83Register8::L } }, 2),
        0x36 => (SM83Opcode::SWAP { oprand: SM83Oprand::R16Indirect { r16: SM83Register16::HL } }, 2),
        0x37 => (SM83Opcode::SWAP { oprand: SM83Oprand::R8 { r8: SM83Register8::A } }, 2),
        0x38 => (SM83Opcode::SRL { oprand: SM83Oprand::R8 { r8: SM83Register8::B } }, 2),
        0x39 => (SM83Opcode::SRL { oprand: SM83Oprand::R8 { r8: SM83Register8::C } }, 2),
        0x3A => (SM83Opcode::SRL { oprand: SM83Oprand::R8 { r8: SM83Register8::D } }, 2),
        0x3B => (SM83Opcode::SRL { oprand: SM83Oprand::R8 { r8: SM83Register8::E } }, 2),
        0x3C => (SM83Opcode::SRL { oprand: SM83Oprand::R8 { r8: SM83Register8::H } }, 2),
        0x3D => (SM83Opcode::SRL { oprand: SM83Oprand::R8 { r8: SM83Register8::L } }, 2),
        0x3E => (SM83Opcode::SRL { oprand: SM83Oprand::R16Indirect { r16: SM83Register16::HL } }, 2),
        0x3F => (SM83Opcode::SRL { oprand: SM83Oprand::R8 { r8: SM83Register8::A } }, 2),
        0x40 => (SM83Opcode::BIT { u3: 0, oprand: SM83Oprand::R8 { r8: SM83Register8::B } }, 2),
        0x41 => (SM83Opcode::BIT { u3: 0, oprand: SM83Oprand::R8 { r8: SM83Register8::C } }, 2),
        0x42 => (SM83Opcode::BIT { u3: 0, oprand: SM83Oprand::R8 { r8: SM83Register8::D } }, 2),
        0x43 => (SM83Opcode::BIT { u3: 0, oprand: SM83Oprand::R8 { r8: SM83Register8::E } }, 2),
        0x44 => (SM83Opcode::BIT { u3: 0, oprand: SM83Oprand::R8 { r8: SM83Register8::H } }, 2),
        0x45 => (SM83Opcode::BIT { u3: 0, oprand: SM83Oprand::R8 { r8: SM83Register8::L } }, 2),
        0x46 => (SM83Opcode::BIT { u3: 0, oprand: SM83Oprand::R16Indirect { r16: SM83Register16::HL } }, 2),
        0x47 => (SM83Opcode::BIT { u3: 0, oprand: SM83Oprand::R8 { r8: SM83Register8::A } }, 2),
        0x48 => (SM83Opcode::BIT { u3: 1, oprand: SM83Oprand::R8 { r8: SM83Register8::B } }, 2),
        0x49 => (SM83Opcode::BIT { u3: 1, oprand: SM83Oprand::R8 { r8: SM83Register8::C } }, 2),
        0x4A => (SM83Opcode::BIT { u3: 1, oprand: SM83Oprand::R8 { r8: SM83Register8::D } }, 2),
        0x4B => (SM83Opcode::BIT { u3: 1, oprand: SM83Oprand::R8 { r8: SM83Register8::E } }, 2),
        0x4C => (SM83Opcode::BIT { u3: 1, oprand: SM83Oprand::R8 { r8: SM83Register8::H } }, 2),
        0x4D => (SM83Opcode::BIT { u3: 1, oprand: SM83Oprand::R8 { r8: SM83Register8::L } }, 2),
        0x4E => (SM83Opcode::BIT { u3: 1, oprand: SM83Oprand::R16Indirect { r16: SM83Register16::HL } }, 2),
        0x4F => (SM83Opcode::BIT { u3: 1, oprand: SM83Oprand::R8 { r8: SM83Register8::A } }, 2),
        0x50 => (SM83Opcode::BIT { u3: 2, oprand: SM83Oprand::R8 { r8: SM83Register8::B } }, 2),
        0x51 => (SM83Opcode::BIT { u3: 2, oprand: SM83Oprand::R8 { r8: SM83Register8::C } }, 2),
        0x52 => (SM83Opcode::BIT { u3: 2, oprand: SM83Oprand::R8 { r8: SM83Register8::D } }, 2),
        0x53 => (SM83Opcode::BIT { u3: 2, oprand: SM83Oprand::R8 { r8: SM83Register8::E } }, 2),
        0x54 => (SM83Opcode::BIT { u3: 2, oprand: SM83Oprand::R8 { r8: SM83Register8::H } }, 2),
        0x55 => (SM83Opcode::BIT { u3: 2, oprand: SM83Oprand::R8 { r8: SM83Register8::L } }, 2),
        0x56 => (SM83Opcode::BIT { u3: 2, oprand: SM83Oprand::R16Indirect { r16: SM83Register16::HL } }, 2),
        0x57 => (SM83Opcode::BIT { u3: 2, oprand: SM83Oprand::R8 { r8: SM83Register8::A } }, 2),
        0x58 => (SM83Opcode::BIT { u3: 3, oprand: SM83Oprand::R8 { r8: SM83Register8::B } }, 2),
        0x59 => (SM83Opcode::BIT { u3: 3, oprand: SM83Oprand::R8 { r8: SM83Register8::C } }, 2),
        0x5A => (SM83Opcode::BIT { u3: 3, oprand: SM83Oprand::R8 { r8: SM83Register8::D } }, 2),
        0x5B => (SM83Opcode::BIT { u3: 3, oprand: SM83Oprand::R8 { r8: SM83Register8::E } }, 2),
        0x5C => (SM83Opcode::BIT { u3: 3, oprand: SM83Oprand::R8 { r8: SM83Register8::H } }, 2),
        0x5D => (SM83Opcode::BIT { u3: 3, oprand: SM83Oprand::R8 { r8: SM83Register8::L } }, 2),
        0x5E => (SM83Opcode::BIT { u3: 3, oprand: SM83Oprand::R16Indirect { r16: SM83Register16::HL } }, 2),
        0x5F => (SM83Opcode::BIT { u3: 3, oprand: SM83Oprand::R8 { r8: SM83Register8::A } }, 2),
        0x60 => (SM83Opcode::BIT { u3: 4, oprand: SM83Oprand::R8 { r8: SM83Register8::B } }, 2),
        0x61 => (SM83Opcode::BIT { u3: 4, oprand: SM83Oprand::R8 { r8: SM83Register8::C } }, 2),
        0x62 => (SM83Opcode::BIT { u3: 4, oprand: SM83Oprand::R8 { r8: SM83Register8::D } }, 2),
        0x63 => (SM83Opcode::BIT { u3: 4, oprand: SM83Oprand::R8 { r8: SM83Register8::E } }, 2),
        0x64 => (SM83Opcode::BIT { u3: 4, oprand: SM83Oprand::R8 { r8: SM83Register8::H } }, 2),
        0x65 => (SM83Opcode::BIT { u3: 4, oprand: SM83Oprand::R8 { r8: SM83Register8::L } }, 2),
        0x66 => (SM83Opcode::BIT { u3: 4, oprand: SM83Oprand::R16Indirect { r16: SM83Register16::HL } }, 2),
        0x67 => (SM83Opcode::BIT { u3: 4, oprand: SM83Oprand::R8 { r8: SM83Register8::A } }, 2),
        0x68 => (SM83Opcode::BIT { u3: 5, oprand: SM83Oprand::R8 { r8: SM83Register8::B } }, 2),
        0x69 => (SM83Opcode::BIT { u3: 5, oprand: SM83Oprand::R8 { r8: SM83Register8::C } }, 2),
        0x6A => (SM83Opcode::BIT { u3: 5, oprand: SM83Oprand::R8 { r8: SM83Register8::D } }, 2),
        0x6B => (SM83Opcode::BIT { u3: 5, oprand: SM83Oprand::R8 { r8: SM83Register8::E } }, 2),
        0x6C => (SM83Opcode::BIT { u3: 5, oprand: SM83Oprand::R8 { r8: SM83Register8::H } }, 2),
        0x6D => (SM83Opcode::BIT { u3: 5, oprand: SM83Oprand::R8 { r8: SM83Register8::L } }, 2),
        0x6E => (SM83Opcode::BIT { u3: 5, oprand: SM83Oprand::R16Indirect { r16: SM83Register16::HL } }, 2),
        0x6F => (SM83Opcode::BIT { u3: 5, oprand: SM83Oprand::R8 { r8: SM83Register8::A } }, 2),
        0x70 => (SM83Opcode::BIT { u3: 6, oprand: SM83Oprand::R8 { r8: SM83Register8::B } }, 2),
        0x71 => (SM83Opcode::BIT { u3: 6, oprand: SM83Oprand::R8 { r8: SM83Register8::C } }, 2),
        0x72 => (SM83Opcode::BIT { u3: 6, oprand: SM83Oprand::R8 { r8: SM83Register8::D } }, 2),
        0x73 => (SM83Opcode::BIT { u3: 6, oprand: SM83Oprand::R8 { r8: SM83Register8::E } }, 2),
        0x74 => (SM83Opcode::BIT { u3: 6, oprand: SM83Oprand::R8 { r8: SM83Register8::H } }, 2),
        0x75 => (SM83Opcode::BIT { u3: 6, oprand: SM83Oprand::R8 { r8: SM83Register8::L } }, 2),
        0x76 => (SM83Opcode::BIT { u3: 6, oprand: SM83Oprand::R16Indirect { r16: SM83Register16::HL } }, 2),
        0x77 => (SM83Opcode::BIT { u3: 6, oprand: SM83Oprand::R8 { r8: SM83Register8::A } }, 2),
        0x78 => (SM83Opcode::BIT { u3: 7, oprand: SM83Oprand::R8 { r8: SM83Register8::B } }, 2),
        0x79 => (SM83Opcode::BIT { u3: 7, oprand: SM83Oprand::R8 { r8: SM83Register8::C } }, 2),
        0x7A => (SM83Opcode::BIT { u3: 7, oprand: SM83Oprand::R8 { r8: SM83Register8::D } }, 2),
        0x7B => (SM83Opcode::BIT { u3: 7, oprand: SM83Oprand::R8 { r8: SM83Register8::E } }, 2),
        0x7C => (SM83Opcode::BIT { u3: 7, oprand: SM83Oprand::R8 { r8: SM83Register8::H } }, 2),
        0x7D => (SM83Opcode::BIT { u3: 7, oprand: SM83Oprand::R8 { r8: SM83Register8::L } }, 2),
        0x7E => (SM83Opcode::BIT { u3: 7, oprand: SM83Oprand::R16Indirect { r16: SM83Register16::HL } }, 2),
        0x7F => (SM83Opcode::BIT { u3: 7, oprand: SM83Oprand::R8 { r8: SM83Register8::A } }, 2),
        0x80 => (SM83Opcode::RES { u3: 0, oprand: SM83Oprand::R8 { r8: SM83Register8::B } }, 2),
        0x81 => (SM83Opcode::RES { u3: 0, oprand: SM83Oprand::R8 { r8: SM83Register8::C } }, 2),
        0x82 => (SM83Opcode::RES { u3: 0, oprand: SM83Oprand::R8 { r8: SM83Register8::D } }, 2),
        0x83 => (SM83Opcode::RES { u3: 0, oprand: SM83Oprand::R8 { r8: SM83Register8::E } }, 2),
        0x84 => (SM83Opcode::RES { u3: 0, oprand: SM83Oprand::R8 { r8: SM83Register8::H } }, 2),
        0x85 => (SM83Opcode::RES { u3: 0, oprand: SM83Oprand::R8 { r8: SM83Register8::L } }, 2),
        0x86 => (SM83Opcode::RES { u3: 0, oprand: SM83Oprand::R16Indirect { r16: SM83Register16::HL } }, 2),
        0x87 => (SM83Opcode::RES { u3: 0, oprand: SM83Oprand::R8 { r8: SM83Register8::A } }, 2),
        0x88 => (SM83Opcode::RES { u3: 1, oprand: SM83Oprand::R8 { r8: SM83Register8::B } }, 2),
        0x89 => (SM83Opcode::RES { u3: 1, oprand: SM83Oprand::R8 { r8: SM83Register8::C } }, 2),
        0x8A => (SM83Opcode::RES { u3: 1, oprand: SM83Oprand::R8 { r8: SM83Register8::D } }, 2),
        0x8B => (SM83Opcode::RES { u3: 1, oprand: SM83Oprand::R8 { r8: SM83Register8::E } }, 2),
        0x8C => (SM83Opcode::RES { u3: 1, oprand: SM83Oprand::R8 { r8: SM83Register8::H } }, 2),
        0x8D => (SM83Opcode::RES { u3: 1, oprand: SM83Oprand::R8 { r8: SM83Register8::L } }, 2),
        0x8E => (SM83Opcode::RES { u3: 1, oprand: SM83Oprand::R16Indirect { r16: SM83Register16::HL } }, 2),
        0x8F => (SM83Opcode::RES { u3: 1, oprand: SM83Oprand::R8 { r8: SM83Register8::A } }, 2),
        0x90 => (SM83Opcode::RES { u3: 2, oprand: SM83Oprand::R8 { r8: SM83Register8::B } }, 2),
        0x91 => (SM83Opcode::RES { u3: 2, oprand: SM83Oprand::R8 { r8: SM83Register8::C } }, 2),
        0x92 => (SM83Opcode::RES { u3: 2, oprand: SM83Oprand::R8 { r8: SM83Register8::D } }, 2),
        0x93 => (SM83Opcode::RES { u3: 2, oprand: SM83Oprand::R8 { r8: SM83Register8::E } }, 2),
        0x94 => (SM83Opcode::RES { u3: 2, oprand: SM83Oprand::R8 { r8: SM83Register8::H } }, 2),
        0x95 => (SM83Opcode::RES { u3: 2, oprand: SM83Oprand::R8 { r8: SM83Register8::L } }, 2),
        0x96 => (SM83Opcode::RES { u3: 2, oprand: SM83Oprand::R16Indirect { r16: SM83Register16::HL } }, 2),
        0x97 => (SM83Opcode::RES { u3: 2, oprand: SM83Oprand::R8 { r8: SM83Register8::A } }, 2),
        0x98 => (SM83Opcode::RES { u3: 3, oprand: SM83Oprand::R8 { r8: SM83Register8::B } }, 2),
        0x99 => (SM83Opcode::RES { u3: 3, oprand: SM83Oprand::R8 { r8: SM83Register8::C } }, 2),
        0x9A => (SM83Opcode::RES { u3: 3, oprand: SM83Oprand::R8 { r8: SM83Register8::D } }, 2),
        0x9B => (SM83Opcode::RES { u3: 3, oprand: SM83Oprand::R8 { r8: SM83Register8::E } }, 2),
        0x9C => (SM83Opcode::RES { u3: 3, oprand: SM83Oprand::R8 { r8: SM83Register8::H } }, 2),
        0x9D => (SM83Opcode::RES { u3: 3, oprand: SM83Oprand::R8 { r8: SM83Register8::L } }, 2),
        0x9E => (SM83Opcode::RES { u3: 3, oprand: SM83Oprand::R16Indirect { r16: SM83Register16::HL } }, 2),
        0x9F => (SM83Opcode::RES { u3: 3, oprand: SM83Oprand::R8 { r8: SM83Register8::A } }, 2),
        0xA0 => (SM83Opcode::RES { u3: 4, oprand: SM83Oprand::R8 { r8: SM83Register8::B } }, 2),
        0xA1 => (SM83Opcode::RES { u3: 4, oprand: SM83Oprand::R8 { r8: SM83Register8::C } }, 2),
        0xA2 => (SM83Opcode::RES { u3: 4, oprand: SM83Oprand::R8 { r8: SM83Register8::D } }, 2),
        0xA3 => (SM83Opcode::RES { u3: 4, oprand: SM83Oprand::R8 { r8: SM83Register8::E } }, 2),
        0xA4 => (SM83Opcode::RES { u3: 4, oprand: SM83Oprand::R8 { r8: SM83Register8::H } }, 2),
        0xA5 => (SM83Opcode::RES { u3: 4, oprand: SM83Oprand::R8 { r8: SM83Register8::L } }, 2),
        0xA6 => (SM83Opcode::RES { u3: 4, oprand: SM83Oprand::R16Indirect { r16: SM83Register16::HL } }, 2),
        0xA7 => (SM83Opcode::RES { u3: 4, oprand: SM83Oprand::R8 { r8: SM83Register8::A } }, 2),
        0xA8 => (SM83Opcode::RES { u3: 5, oprand: SM83Oprand::R8 { r8: SM83Register8::B } }, 2),
        0xA9 => (SM83Opcode::RES { u3: 5, oprand: SM83Oprand::R8 { r8: SM83Register8::C } }, 2),
        0xAA => (SM83Opcode::RES { u3: 5, oprand: SM83Oprand::R8 { r8: SM83Register8::D } }, 2),
        0xAB => (SM83Opcode::RES { u3: 5, oprand: SM83Oprand::R8 { r8: SM83Register8::E } }, 2),
        0xAC => (SM83Opcode::RES { u3: 5, oprand: SM83Oprand::R8 { r8: SM83Register8::H } }, 2),
        0xAD => (SM83Opcode::RES { u3: 5, oprand: SM83Oprand::R8 { r8: SM83Register8::L } }, 2),
        0xAE => (SM83Opcode::RES { u3: 5, oprand: SM83Oprand::R16Indirect { r16: SM83Register16::HL } }, 2),
        0xAF => (SM83Opcode::RES { u3: 5, oprand: SM83Oprand::R8 { r8: SM83Register8::A } }, 2),
        0xB0 => (SM83Opcode::RES { u3: 6, oprand: SM83Oprand::R8 { r8: SM83Register8::B } }, 2),
        0xB1 => (SM83Opcode::RES { u3: 6, oprand: SM83Oprand::R8 { r8: SM83Register8::C } }, 2),
        0xB2 => (SM83Opcode::RES { u3: 6, oprand: SM83Oprand::R8 { r8: SM83Register8::D } }, 2),
        0xB3 => (SM83Opcode::RES { u3: 6, oprand: SM83Oprand::R8 { r8: SM83Register8::E } }, 2),
        0xB4 => (SM83Opcode::RES { u3: 6, oprand: SM83Oprand::R8 { r8: SM83Register8::H } }, 2),
        0xB5 => (SM83Opcode::RES { u3: 6, oprand: SM83Oprand::R8 { r8: SM83Register8::L } }, 2),
        0xB6 => (SM83Opcode::RES { u3: 6, oprand: SM83Oprand::R16Indirect { r16: SM83Register16::HL } }, 2),
        0xB7 => (SM83Opcode::RES { u3: 6, oprand: SM83Oprand::R8 { r8: SM83Register8::A } }, 2),
        0xB8 => (SM83Opcode::RES { u3: 7, oprand: SM83Oprand::R8 { r8: SM83Register8::B } }, 2),
        0xB9 => (SM83Opcode::RES { u3: 7, oprand: SM83Oprand::R8 { r8: SM83Register8::C } }, 2),
        0xBA => (SM83Opcode::RES { u3: 7, oprand: SM83Oprand::R8 { r8: SM83Register8::D } }, 2),
        0xBB => (SM83Opcode::RES { u3: 7, oprand: SM83Oprand::R8 { r8: SM83Register8::E } }, 2),
        0xBC => (SM83Opcode::RES { u3: 7, oprand: SM83Oprand::R8 { r8: SM83Register8::H } }, 2),
        0xBD => (SM83Opcode::RES { u3: 7, oprand: SM83Oprand::R8 { r8: SM83Register8::L } }, 2),
        0xBE => (SM83Opcode::RES { u3: 7, oprand: SM83Oprand::R16Indirect { r16: SM83Register16::HL } }, 2),
        0xBF => (SM83Opcode::RES { u3: 7, oprand: SM83Oprand::R8 { r8: SM83Register8::A } }, 2),
        0xC0 => (SM83Opcode::SET { u3: 0, oprand: SM83Oprand::R8 { r8: SM83Register8::B } }, 2),
        0xC1 => (SM83Opcode::SET { u3: 0, oprand: SM83Oprand::R8 { r8: SM83Register8::C } }, 2),
        0xC2 => (SM83Opcode::SET { u3: 0, oprand: SM83Oprand::R8 { r8: SM83Register8::D } }, 2),
        0xC3 => (SM83Opcode::SET { u3: 0, oprand: SM83Oprand::R8 { r8: SM83Register8::E } }, 2),
        0xC4 => (SM83Opcode::SET { u3: 0, oprand: SM83Oprand::R8 { r8: SM83Register8::H } }, 2),
        0xC5 => (SM83Opcode::SET { u3: 0, oprand: SM83Oprand::R8 { r8: SM83Register8::L } }, 2),
        0xC6 => (SM83Opcode::SET { u3: 0, oprand: SM83Oprand::R16Indirect { r16: SM83Register16::HL } }, 2),
        0xC7 => (SM83Opcode::SET { u3: 0, oprand: SM83Oprand::R8 { r8: SM83Register8::A } }, 2),
        0xC8 => (SM83Opcode::SET { u3: 1, oprand: SM83Oprand::R8 { r8: SM83Register8::B } }, 2),
        0xC9 => (SM83Opcode::SET { u3: 1, oprand: SM83Oprand::R8 { r8: SM83Register8::C } }, 2),
        0xCA => (SM83Opcode::SET { u3: 1, oprand: SM83Oprand::R8 { r8: SM83Register8::D } }, 2),
        0xCB => (SM83Opcode::SET { u3: 1, oprand: SM83Oprand::R8 { r8: SM83Register8::E } }, 2),
        0xCC => (SM83Opcode::SET { u3: 1, oprand: SM83Oprand::R8 { r8: SM83Register8::H } }, 2),
        0xCD => (SM83Opcode::SET { u3: 1, oprand: SM83Oprand::R8 { r8: SM83Register8::L } }, 2),
        0xCE => (SM83Opcode::SET { u3: 1, oprand: SM83Oprand::R16Indirect { r16: SM83Register16::HL } }, 2),
        0xCF => (SM83Opcode::SET { u3: 1, oprand: SM83Oprand::R8 { r8: SM83Register8::A } }, 2),
        0xD0 => (SM83Opcode::SET { u3: 2, oprand: SM83Oprand::R8 { r8: SM83Register8::B } }, 2),
        0xD1 => (SM83Opcode::SET { u3: 2, oprand: SM83Oprand::R8 { r8: SM83Register8::C } }, 2),
        0xD2 => (SM83Opcode::SET { u3: 2, oprand: SM83Oprand::R8 { r8: SM83Register8::D } }, 2),
        0xD3 => (SM83Opcode::SET { u3: 2, oprand: SM83Oprand::R8 { r8: SM83Register8::E } }, 2),
        0xD4 => (SM83Opcode::SET { u3: 2, oprand: SM83Oprand::R8 { r8: SM83Register8::H } }, 2),
        0xD5 => (SM83Opcode::SET { u3: 2, oprand: SM83Oprand::R8 { r8: SM83Register8::L } }, 2),
        0xD6 => (SM83Opcode::SET { u3: 2, oprand: SM83Oprand::R16Indirect { r16: SM83Register16::HL } }, 2),
        0xD7 => (SM83Opcode::SET { u3: 2, oprand: SM83Oprand::R8 { r8: SM83Register8::A } }, 2),
        0xD8 => (SM83Opcode::SET { u3: 3, oprand: SM83Oprand::R8 { r8: SM83Register8::B } }, 2),
        0xD9 => (SM83Opcode::SET { u3: 3, oprand: SM83Oprand::R8 { r8: SM83Register8::C } }, 2),
        0xDA => (SM83Opcode::SET { u3: 3, oprand: SM83Oprand::R8 { r8: SM83Register8::D } }, 2),
        0xDB => (SM83Opcode::SET { u3: 3, oprand: SM83Oprand::R8 { r8: SM83Register8::E } }, 2),
        0xDC => (SM83Opcode::SET { u3: 3, oprand: SM83Oprand::R8 { r8: SM83Register8::H } }, 2),
        0xDD => (SM83Opcode::SET { u3: 3, oprand: SM83Oprand::R8 { r8: SM83Register8::L } }, 2),
        0xDE => (SM83Opcode::SET { u3: 3, oprand: SM83Oprand::R16Indirect { r16: SM83Register16::HL } }, 2),
        0xDF => (SM83Opcode::SET { u3: 3, oprand: SM83Oprand::R8 { r8: SM83Register8::A } }, 2),
        0xE0 => (SM83Opcode::SET { u3: 4, oprand: SM83Oprand::R8 { r8: SM83Register8::B } }, 2),
        0xE1 => (SM83Opcode::SET { u3: 4, oprand: SM83Oprand::R8 { r8: SM83Register8::C } }, 2),
        0xE2 => (SM83Opcode::SET { u3: 4, oprand: SM83Oprand::R8 { r8: SM83Register8::D } }, 2),
        0xE3 => (SM83Opcode::SET { u3: 4, oprand: SM83Oprand::R8 { r8: SM83Register8::E } }, 2),
        0xE4 => (SM83Opcode::SET { u3: 4, oprand: SM83Oprand::R8 { r8: SM83Register8::H } }, 2),
        0xE5 => (SM83Opcode::SET { u3: 4, oprand: SM83Oprand::R8 { r8: SM83Register8::L } }, 2),
        0xE6 => (SM83Opcode::SET { u3: 4, oprand: SM83Oprand::R16Indirect { r16: SM83Register16::HL } }, 2),
        0xE7 => (SM83Opcode::SET { u3: 4, oprand: SM83Oprand::R8 { r8: SM83Register8::A } }, 2),
        0xE8 => (SM83Opcode::SET { u3: 5, oprand: SM83Oprand::R8 { r8: SM83Register8::B } }, 2),
        0xE9 => (SM83Opcode::SET { u3: 5, oprand: SM83Oprand::R8 { r8: SM83Register8::C } }, 2),
        0xEA => (SM83Opcode::SET { u3: 5, oprand: SM83Oprand::R8 { r8: SM83Register8::D } }, 2),
        0xEB => (SM83Opcode::SET { u3: 5, oprand: SM83Oprand::R8 { r8: SM83Register8::E } }, 2),
        0xEC => (SM83Opcode::SET { u3: 5, oprand: SM83Oprand::R8 { r8: SM83Register8::H } }, 2),
        0xED => (SM83Opcode::SET { u3: 5, oprand: SM83Oprand::R8 { r8: SM83Register8::L } }, 2),
        0xEE => (SM83Opcode::SET { u3: 5, oprand: SM83Oprand::R16Indirect { r16: SM83Register16::HL } }, 2),
        0xEF => (SM83Opcode::SET { u3: 5, oprand: SM83Oprand::R8 { r8: SM83Register8::A } }, 2),
        0xF0 => (SM83Opcode::SET { u3: 6, oprand: SM83Oprand::R8 { r8: SM83Register8::B } }, 2),
        0xF1 => (SM83Opcode::SET { u3: 6, oprand: SM83Oprand::R8 { r8: SM83Register8::C } }, 2),
        0xF2 => (SM83Opcode::SET { u3: 6, oprand: SM83Oprand::R8 { r8: SM83Register8::D } }, 2),
        0xF3 => (SM83Opcode::SET { u3: 6, oprand: SM83Oprand::R8 { r8: SM83Register8::E } }, 2),
        0xF4 => (SM83Opcode::SET { u3: 6, oprand: SM83Oprand::R8 { r8: SM83Register8::H } }, 2),
        0xF5 => (SM83Opcode::SET { u3: 6, oprand: SM83Oprand::R8 { r8: SM83Register8::L } }, 2),
        0xF6 => (SM83Opcode::SET { u3: 6, oprand: SM83Oprand::R16Indirect { r16: SM83Register16::HL } }, 2),
        0xF7 => (SM83Opcode::SET { u3: 6, oprand: SM83Oprand::R8 { r8: SM83Register8::A } }, 2),
        0xF8 => (SM83Opcode::SET { u3: 7, oprand: SM83Oprand::R8 { r8: SM83Register8::B } }, 2),
        0xF9 => (SM83Opcode::SET { u3: 7, oprand: SM83Oprand::R8 { r8: SM83Register8::C } }, 2),
        0xFA => (SM83Opcode::SET { u3: 7, oprand: SM83Oprand::R8 { r8: SM83Register8::D } }, 2),
        0xFB => (SM83Opcode::SET { u3: 7, oprand: SM83Oprand::R8 { r8: SM83Register8::E } }, 2),
        0xFC => (SM83Opcode::SET { u3: 7, oprand: SM83Oprand::R8 { r8: SM83Register8::H } }, 2),
        0xFD => (SM83Opcode::SET { u3: 7, oprand: SM83Oprand::R8 { r8: SM83Register8::L } }, 2),
        0xFE => (SM83Opcode::SET { u3: 7, oprand: SM83Oprand::R16Indirect { r16: SM83Register16::HL } }, 2),
        0xFF => (SM83Opcode::SET { u3: 7, oprand: SM83Oprand::R8 { r8: SM83Register8::A } }, 2),
    }
}

} // verus!
