//! What each SM83 instruction does to the machine.
//!
//! `SM83State::spec_execute_opcode` gives, for every instruction the CPU
//! carries out, the machine after it and the number of system clocks it
//! takes; `SM83::execute_opcode` is proved to follow it. The flags are set
//! in the order the CPU sets them, one `with_flag` per update.
use vstd::prelude::*;
use crate::types::{
    SM83Opcode, SM83Oprand, SM83Register16, SM83Register8, HWREG_DIV_REGISTER, HWREG_START_ADDRESS,
};
use crate::types::{SM83ConditionCode, SM83Registers};
use crate::sm83::{
    add_u16, add_u16_e8, add_u8, arith, spec_add16, spec_add16_e8, spec_add8, spec_arith,
    lemma_u8_low_nibble, offset_u16, spec_condition, spec_set_r8, spec_dec16, spec_inc16, spec_offset16,
    spec_set_flag, spec_test_flag, ArithOp, SM83, SM83State, FLAG_C, FLAG_H, FLAG_N, FLAG_Z,
};

verus! {

/// Whether an operand names a byte that instructions may read and write:
/// an 8 bit register or the byte a 16 bit register points at.
pub open spec fn spec_is_target(opr: SM83Oprand) -> bool {
    opr is R8 || opr is R16Indirect
}

/// The rotate, shift and swap instructions of the 0xCB page.
#[derive(Clone, Copy, PartialEq, Eq, Structural)]
pub enum ShiftOp {
    /// Rotate left.
    Rlc,
    /// Rotate right.
    Rrc,
    /// Rotate left through carry.
    Rl,
    /// Rotate right through carry.
    Rr,
    /// Shift left arithmetically.
    Sla,
    /// Shift right arithmetically (bit 7 kept).
    Sra,
    /// Shift right logically.
    Srl,
    /// Swap the nibbles.
    Swap,
}

/// The result of a rotate, shift or swap of `v` with carry flag `c`, and
/// the new carry.
pub open spec fn spec_shift(op: ShiftOp, v: u8, c: bool) -> (u8, bool) {
    match op {
        ShiftOp::Rlc => ((v << 1u8) | ((v & 0x80u8) >> 7u8), (v & 0x80u8) != 0),
        ShiftOp::Rrc => ((v >> 1u8) | ((v & 0x01u8) << 7u8), (v & 0x01u8) != 0),
        ShiftOp::Rl => ((v << 1u8) | (if c { 0x01u8 } else { 0x00u8 }), (v & 0x80u8) != 0),
        ShiftOp::Rr => ((v >> 1u8) | (if c { 0x80u8 } else { 0x00u8 }), (v & 0x01u8) != 0),
        ShiftOp::Sla => (v << 1u8, (v & 0x80u8) != 0),
        ShiftOp::Sra => ((v & 0x80u8) | (v >> 1u8), (v & 0x01u8) != 0),
        ShiftOp::Srl => (v >> 1u8, (v & 0x01u8) != 0),
        ShiftOp::Swap => ((v >> 4u8) | (v << 4u8), false),
    }
}

fn shift(op: ShiftOp, v: u8, c: bool) -> (r: (u8, bool))
    ensures
        r == spec_shift(op, v, c),
{
    match op {
        ShiftOp::Rlc => {
            let msb = v & 0x80;
            ((v << 1) | (msb >> 7), msb != 0)
        },
        ShiftOp::Rrc => {
            let lsb = v & 0x01;
            ((v >> 1) | (lsb << 7), lsb != 0)
        },
        ShiftOp::Rl => {
            let lsb: u8 = if c { 0x01 } else { 0x00 };
            ((v << 1) | lsb, (v & 0x80) != 0)
        },
        ShiftOp::Rr => {
            let msb: u8 = if c { 0x80 } else { 0x00 };
            ((v >> 1) | msb, (v & 0x01) != 0)
        },
        ShiftOp::Sla => (v << 1, (v & 0x80) != 0),
        ShiftOp::Sra => ((v & 0x80) | (v >> 1), (v & 0x01) != 0),
        ShiftOp::Srl => (v >> 1, (v & 0x01) != 0),
        ShiftOp::Swap => ((v >> 4) | (v << 4), false),
    }
}

impl SM83State {
    /// The byte a register or (r16) operand holds.
    pub open spec fn spec_load_target(self, opr: SM83Oprand) -> u8 {
        match opr {
            SM83Oprand::R8 { r8 } => self.r8(r8),
            SM83Oprand::R16Indirect { r16 } => self.spec_read_mem(self.r16(r16) as int),
            _ => 0,
        }
    }

    /// The machine after a register or (r16) operand is set to `v`.
    pub open spec fn spec_store_target(self, opr: SM83Oprand, v: u8) -> SM83State {
        match opr {
            SM83Oprand::R8 { r8 } => self.with_r8(r8, v),
            SM83Oprand::R16Indirect { r16 } => self.spec_write_mem(self.r16(r16) as int, v),
            _ => self,
        }
    }

    /// A rotate, shift or swap of an operand: Z from the result, N and H
    /// cleared, C from the bit shifted out. Two clocks on a register, four
    /// on memory.
    pub closed spec fn spec_exec_shift(self, op: ShiftOp, opr: SM83Oprand) -> (SM83State, u8) {
        let (ret, carry) = spec_shift(op, self.spec_load_target(opr), self.flag(FLAG_C));
        (
            self.spec_store_target(opr, ret).with_flag(FLAG_Z, ret == 0).with_flag(
                FLAG_N,
                false,
            ).with_flag(FLAG_H, false).with_flag(FLAG_C, carry),
            if opr is R8 { 2 } else { 4 },
        )
    }

    /// `BIT u3`: Z is set when bit `u3` of the operand is clear, N cleared,
    /// H set. Two clocks on a register, three on memory.
    pub closed spec fn spec_exec_bit(self, u3: u8, opr: SM83Oprand) -> (SM83State, u8) {
        let ret = self.spec_load_target(opr) & (1u8 << u3);
        (
            self.with_flag(FLAG_Z, ret == 0).with_flag(FLAG_N, false).with_flag(FLAG_H, true),
            if opr is R8 { 2 } else { 3 },
        )
    }

    /// `RES u3` (`set == false`) and `SET u3` (`set == true`): bit `u3` of the
    /// operand is cleared or set; no flag changes. Two clocks on a register,
    /// four on memory.
    pub closed spec fn spec_exec_res_set(self, u3: u8, opr: SM83Oprand, set: bool) -> (
        SM83State,
        u8,
    ) {
        let v = self.spec_load_target(opr);
        let ret = if set {
            v | (1u8 << u3)
        } else {
            v & !(1u8 << u3)
        };
        (self.spec_store_target(opr, ret), if opr is R8 { 2 } else { 4 })
    }

    /// `INC` (`up == true`) and `DEC` of a register, of (r16) or of a 16 bit
    /// register. The 8 bit forms set Z, N (for `DEC`) and H (a carry out of
    /// or borrow into the low nibble); the 16 bit form leaves the flags.
    pub closed spec fn spec_exec_inc_dec(self, opr: SM83Oprand, up: bool) -> (SM83State, u8) {
        match opr {
            SM83Oprand::R16 { r16 } => {
                let v = self.r16(r16);
                (
                    self.with_r16(
                        r16,
                        if up {
                            ((v + 1) % 0x10000) as u16
                        } else {
                            ((v - 1) % 0x10000) as u16
                        },
                    ),
                    2,
                )
            },
            _ => {
                let v = self.spec_load_target(opr);
                let ret = if up {
                    ((v + 1) % 256) as u8
                } else {
                    ((v - 1) % 256) as u8
                };
                (
                    self.spec_store_target(opr, ret).with_flag(FLAG_Z, ret == 0).with_flag(
                        FLAG_N,
                        !up,
                    ).with_flag(
                        FLAG_H,
                        if up {
                            ret % 16 == 0
                        } else {
                            ret % 16 == 15
                        },
                    ),
                    if opr is R8 { 1 } else { 3 },
                )
            },
        }
    }
}

/// Whether an operand is that of an 8 bit arithmetic or logic instruction:
/// a register and a register, (r16) or an immediate.
pub open spec fn spec_is_alu_operand(opr: SM83Oprand) -> bool {
    opr is R8AndR8 || opr is R8AndR16Indirect || opr is R8AndN8
}

/// System clocks of an 8 bit arithmetic or logic instruction.
pub open spec fn spec_alu_cycles(opr: SM83Oprand) -> u8 {
    if opr is R8AndR8 {
        1
    } else {
        2
    }
}

/// The bitwise instructions.
#[derive(Clone, Copy, PartialEq, Eq, Structural)]
pub enum LogicOp {
    /// Bitwise and.
    And,
    /// Bitwise or.
    Or,
    /// Bitwise exclusive or.
    Xor,
}

/// The result of a bitwise instruction.
pub open spec fn spec_logic(op: LogicOp, a: u8, b: u8) -> u8 {
    match op {
        LogicOp::And => a & b,
        LogicOp::Or => a | b,
        LogicOp::Xor => a ^ b,
    }
}

impl SM83State {
    /// The two operands of an 8 bit arithmetic or logic instruction.
    pub open spec fn spec_alu_operands(self, opr: SM83Oprand) -> (u8, u8) {
        match opr {
            SM83Oprand::R8AndR8 { r1, r2 } => (self.r8(r1), self.r8(r2)),
            SM83Oprand::R8AndR16Indirect { r8, r16 } => (
                self.r8(r8),
                self.spec_read_mem(self.r16(r16) as int),
            ),
            SM83Oprand::R8AndN8 { r8, n8 } => (self.r8(r8), n8),
            _ => (0, 0),
        }
    }

    /// `ADD`: 8 bit into A (Z, N cleared, H, C), `ADD HL, r16` (Z kept,
    /// N cleared, carries out of bits 11 and 15) and `ADD SP, e8` (Z and N
    /// cleared, carries out of bits 3 and 7).
    pub closed spec fn spec_exec_add(self, opr: SM83Oprand) -> (SM83State, u8) {
        match opr {
            SM83Oprand::R16ToR16 { dst, src } => {
                let (ret, c, h) = spec_add16(self.r16(dst), self.r16(src));
                (
                    self.with_r16(dst, ret).with_flag(FLAG_N, false).with_flag(FLAG_H, h).with_flag(
                        FLAG_C,
                        c,
                    ),
                    2,
                )
            },
            SM83Oprand::R16AndE8 { r16, e8 } => {
                let (ret, h, c) = spec_add16_e8(self.r16(r16), e8);
                (
                    self.with_r16(r16, ret).with_flag(FLAG_Z, false).with_flag(
                        FLAG_N,
                        false,
                    ).with_flag(FLAG_H, h).with_flag(FLAG_C, c),
                    4,
                )
            },
            _ => {
                let (a, b) = self.spec_alu_operands(opr);
                let (ret, c, h) = spec_add8(a, b);
                (
                    self.with_r8(SM83Register8::A, ret).with_flag(FLAG_Z, ret == 0).with_flag(
                        FLAG_N,
                        false,
                    ).with_flag(FLAG_H, h).with_flag(FLAG_C, c),
                    spec_alu_cycles(opr),
                )
            },
        }
    }

    /// `SUB`, `ADC`, `SBC` and (with `keep_a`) `CP`: the result goes to A
    /// (back to its old value for `CP`), Z, H and C from the operation, N set
    /// for the subtractions.
    pub closed spec fn spec_exec_arith(self, op: ArithOp, opr: SM83Oprand, keep_a: bool) -> (
        SM83State,
        u8,
    ) {
        let (a, b) = self.spec_alu_operands(opr);
        let (ret, c, h) = spec_arith(op, a, b, self.flag(FLAG_C));
        let s = self.with_r8(SM83Register8::A, ret).with_flag(FLAG_Z, ret == 0).with_flag(
            FLAG_H,
            h,
        ).with_flag(FLAG_C, c);
        let s = if keep_a {
            s.with_r8(SM83Register8::A, self.regs.a)
        } else {
            s
        };
        (s.with_flag(FLAG_N, op != ArithOp::Adc), spec_alu_cycles(opr))
    }

    /// `AND`, `OR` and `XOR` into A: Z from the result, N and C cleared, H
    /// set for `AND` only.
    pub closed spec fn spec_exec_logic(self, op: LogicOp, opr: SM83Oprand) -> (SM83State, u8) {
        let (a, b) = self.spec_alu_operands(opr);
        let ret = spec_logic(op, a, b);
        (
            self.with_r8(SM83Register8::A, ret).with_flag(FLAG_Z, ret == 0).with_flag(
                FLAG_N,
                false,
            ).with_flag(FLAG_H, op == LogicOp::And).with_flag(FLAG_C, false),
            spec_alu_cycles(opr),
        )
    }
}

/// Whether an operand is one that `LD` carries out. A 16 bit store must
/// leave room for both bytes below the end of the address space.
pub open spec fn spec_is_ld_operand(opr: SM83Oprand) -> bool {
    match opr {
        SM83Oprand::N16ToR16 { .. } | SM83Oprand::R8ToR16Indirect { .. }
        | SM83Oprand::N8ToR8 { .. } | SM83Oprand::R16IndirectToR8 { .. }
        | SM83Oprand::N8ToR16Indirect { .. } | SM83Oprand::R8ToR8 { .. }
        | SM83Oprand::R8ToA16 { .. } | SM83Oprand::A16ToR8 { .. }
        | SM83Oprand::R16ToR16 { .. } | SM83Oprand::R16E8IndirectToR16 { .. } => true,
        SM83Oprand::R16ToA16 { a16, .. } => a16 < 0xFFFF,
        _ => false,
    }
}

/// Whether an operand is one that `LDH` carries out.
pub open spec fn spec_is_ldh_operand(opr: SM83Oprand) -> bool {
    opr is R8ToA8 || opr is A8ToR8 || opr is R8IndirectToR8 || opr is R8ToR8Indirect
}

impl SM83State {
    /// The machine after HL+ or HL- steps from `address`; other registers
    /// do not step.
    pub open spec fn spec_step_hl(self, r: SM83Register16, address: u16) -> SM83State {
        match r {
            SM83Register16::HLincrement => self.with_r16(r, spec_inc16(address)),
            SM83Register16::HLdecrement => self.with_r16(r, spec_dec16(address)),
            _ => self,
        }
    }

    /// `LD`: the loads between registers, immediates and memory. Only
    /// `LD HL, SP+e8` touches the flags (Z and N cleared, H and C kept), and
    /// `LD (a16), SP` stores its two bytes directly, low byte first.
    pub closed spec fn spec_exec_ld(self, opr: SM83Oprand) -> (SM83State, u8) {
        match opr {
            SM83Oprand::N16ToR16 { dst, n16 } => (self.with_r16(dst, n16), 3),
            SM83Oprand::R8ToR16Indirect { dst, src } => {
                let address = self.r16(dst);
                (self.spec_write_mem(address as int, self.r8(src)).spec_step_hl(dst, address), 2)
            },
            SM83Oprand::N8ToR8 { dst, n8 } => (self.with_r8(dst, n8), 2),
            SM83Oprand::R16IndirectToR8 { dst, src } => {
                let address = self.r16(src);
                (
                    self.with_r8(dst, self.spec_read_mem(address as int)).spec_step_hl(
                        src,
                        address,
                    ),
                    2,
                )
            },
            SM83Oprand::N8ToR16Indirect { dst, n8 } => (
                self.spec_write_mem(self.r16(dst) as int, n8),
                3,
            ),
            SM83Oprand::R8ToR8 { dst, src } => (self.with_r8(dst, self.r8(src)), 1),
            SM83Oprand::R8ToA16 { dst, src } => (self.spec_write_mem(dst as int, self.r8(src)), 4),
            SM83Oprand::A16ToR8 { dst, src } => (
                self.with_r8(dst, self.spec_read_mem(src as int)),
                4,
            ),
            SM83Oprand::R16ToA16 { a16, src } => {
                let v = self.r16(src);
                (self.with_mem(a16 as int, (v % 256) as u8).with_mem(a16 + 1, (v / 256) as u8), 5)
            },
            SM83Oprand::R16ToR16 { dst, src } => (self.with_r16(dst, self.r16(src)), 2),
            SM83Oprand::R16E8IndirectToR16 { dst, src_r16, src_e8 } => (
                self.with_r16(dst, spec_offset16(self.r16(src_r16), src_e8)).with_flag(
                    FLAG_Z,
                    false,
                ).with_flag(FLAG_N, false),
                3,
            ),
            _ => (self, 0),
        }
    }

    /// `LDH`: loads between a register and the high page 0xFF00-0xFFFF,
    /// addressed by an immediate or by C.
    pub closed spec fn spec_exec_ldh(self, opr: SM83Oprand) -> (SM83State, u8) {
        match opr {
            SM83Oprand::R8ToA8 { dst, src } => (
                self.spec_write_mem(HWREG_START_ADDRESS + dst, self.r8(src)),
                3,
            ),
            SM83Oprand::A8ToR8 { dst, src } => (
                self.with_r8(dst, self.spec_read_mem(HWREG_START_ADDRESS + src)),
                3,
            ),
            SM83Oprand::R8IndirectToR8 { dst, src } => (
                self.with_r8(dst, self.spec_read_mem(HWREG_START_ADDRESS + self.r8(src))),
                2,
            ),
            SM83Oprand::R8ToR8Indirect { dst, src } => (
                self.spec_write_mem(HWREG_START_ADDRESS + self.r8(dst), self.r8(src)),
                2,
            ),
            _ => (self, 0),
        }
    }
}

/// `DAA`: the decimal adjustment of `a` with flags `f`, and the new carry.
/// After an addition (N clear) 0x06 is added when H is set or the low
/// nibble is above 9, then 0x60 when C is clear or the high nibble is above
/// 9; after a subtraction the same amounts are subtracted. Bit 7 of the
/// result is then forced to the old carry.
pub open spec fn spec_daa(a: u8, f: u8) -> (u8, bool) {
    let n = spec_test_flag(f, FLAG_N);
    let h = spec_test_flag(f, FLAG_H);
    let c = spec_test_flag(f, FLAG_C);
    let (r1, c1) = if h || a % 16 >= 10 {
        if n {
            (((a - 0x06) % 256) as u8, a < 0x06)
        } else {
            (((a + 0x06) % 256) as u8, a + 0x06 > 255)
        }
    } else {
        (a, c)
    };
    let (r2, c2) = if !c || r1 / 16 >= 10 {
        if n {
            (((r1 - 0x60) % 256) as u8, r1 < 0x60)
        } else {
            (((r1 + 0x60) % 256) as u8, r1 + 0x60 > 255)
        }
    } else {
        (r1, c1)
    };
    (
        if c {
            r2 | 0x80
        } else {
            r2 & 0x7F
        },
        c2,
    )
}

fn daa(a: u8, f: u8) -> (r: (u8, bool))
    ensures
        r == spec_daa(a, f),
{
    let n = (f & FLAG_N) != 0;
    let h = (f & FLAG_H) != 0;
    let c = (f & FLAG_C) != 0;
    proof {
        lemma_u8_low_nibble(a);
    }
    let (r1, c1) = daa_step(a, c, h || (a & 0x0F) >= 0xA, n, 0x06);
    proof {
        lemma_u8_low_nibble(r1);
    }
    let (r2, c2) = daa_step(r1, c1, !c || ((r1 & 0xF0) >> 4) >= 0xA, n, 0x60);
    let ret = if c {
        r2 | 0x80
    } else {
        r2 & 0x7F
    };
    (ret, c2)
}

/// One correction step of `DAA`: when `adjust` holds, `amount` is
/// subtracted (`sub`) or added, and the carry is the borrow or carry out.
fn daa_step(v: u8, carry: bool, adjust: bool, sub: bool, amount: u8) -> (r: (u8, bool))
    ensures
        r == (if adjust {
            if sub {
                (((v - amount) % 256) as u8, v < amount)
            } else {
                (((v + amount) % 256) as u8, v + amount > 255)
            }
        } else {
            (v, carry)
        }),
{
    if adjust {
        if sub {
            (v.wrapping_sub(amount), v < amount)
        } else {
            (v.wrapping_add(amount), v as u16 + amount as u16 > 0xFF)
        }
    } else {
        (v, carry)
    }
}

impl SM83State {
    /// `JP`: to `a16`, conditionally (four clocks taken, three not) or
    /// always (four), or to HL (one).
    pub closed spec fn spec_exec_jp(self, opr: SM83Oprand) -> (SM83State, u8) {
        match opr {
            SM83Oprand::CCAndA16 { cc, a16 } => if spec_condition(self.regs.f, cc) {
                (self.with_pc(a16), 4)
            } else {
                (self, 3)
            },
            SM83Oprand::A16 { a16 } => (self.with_pc(a16), 4),
            SM83Oprand::R16 { r16 } => (self.with_pc(self.r16(r16)), 1),
            _ => (self, 0),
        }
    }

    /// `JR`: PC moves by a signed offset, always (three clocks) or
    /// conditionally (three taken, two not).
    pub closed spec fn spec_exec_jr(self, opr: SM83Oprand) -> (SM83State, u8) {
        match opr {
            SM83Oprand::E8 { e8 } => (self.with_pc(spec_offset16(self.regs.pc, e8)), 3),
            SM83Oprand::CCAndE8 { cc, e8 } => if spec_condition(self.regs.f, cc) {
                (self.with_pc(spec_offset16(self.regs.pc, e8)), 3)
            } else {
                (self, 2)
            },
            _ => (self, 0),
        }
    }

    /// `CALL`: PC is pushed and set to `a16`, always (six clocks) or
    /// conditionally (six taken, three not).
    pub closed spec fn spec_exec_call(self, opr: SM83Oprand) -> (SM83State, u8) {
        match opr {
            SM83Oprand::CCAndA16 { cc, a16 } => if spec_condition(self.regs.f, cc) {
                (self.spec_push16(self.regs.pc).with_pc(a16), 6)
            } else {
                (self, 3)
            },
            SM83Oprand::A16 { a16 } => (self.spec_push16(self.regs.pc).with_pc(a16), 6),
            _ => (self, 0),
        }
    }

    /// The instructions on A and the flags, the interrupt switches, `HALT`,
    /// `STOP` (which resets DIV) and `NOP`; each takes one clock.
    pub closed spec fn spec_exec_misc(self, op: SM83Opcode) -> (SM83State, u8) {
        match op {
            SM83Opcode::RLCA | SM83Opcode::RRCA => {
                let kind = if op is RLCA {
                    ShiftOp::Rlc
                } else {
                    ShiftOp::Rrc
                };
                let (ret, carry) = spec_shift(kind, self.regs.a, self.flag(FLAG_C));
                (
                    self.with_r8(SM83Register8::A, ret).with_flag(FLAG_Z, false).with_flag(
                        FLAG_N,
                        false,
                    ).with_flag(FLAG_H, false).with_flag(FLAG_C, carry),
                    1,
                )
            },
            SM83Opcode::RLA | SM83Opcode::RRA => {
                let kind = if op is RLA {
                    ShiftOp::Rl
                } else {
                    ShiftOp::Rr
                };
                let (ret, carry) = spec_shift(kind, self.regs.a, self.flag(FLAG_C));
                (self.with_r8(SM83Register8::A, ret).with_flag(FLAG_C, carry), 1)
            },
            SM83Opcode::CCF => {
                let s = self.with_flag(FLAG_N, false).with_flag(FLAG_H, false);
                (s.with_flag(FLAG_C, !s.flag(FLAG_C)), 1)
            },
            SM83Opcode::CPL => (
                self.with_r8(SM83Register8::A, !self.regs.a).with_flag(FLAG_N, true).with_flag(
                    FLAG_H,
                    true,
                ),
                1,
            ),
            SM83Opcode::DAA => {
                let (ret, carry) = spec_daa(self.regs.a, self.regs.f);
                (
                    self.with_r8(SM83Register8::A, ret).with_flag(FLAG_Z, ret == 0).with_flag(
                        FLAG_H,
                        false,
                    ).with_flag(FLAG_C, carry),
                    1,
                )
            },
            SM83Opcode::DI => (SM83State { ime_flag: false, ..self }, 1),
            SM83Opcode::EI => (SM83State { ime_flag: true, ..self }, 1),
            SM83Opcode::HALT => (self, 1),
            SM83Opcode::SCF => (
                self.with_flag(FLAG_N, false).with_flag(FLAG_H, false).with_flag(FLAG_C, true),
                1,
            ),
            SM83Opcode::STOP => (self.with_mem(HWREG_DIV_REGISTER as int, 0), 1),
            _ => (self, 1),
        }
    }

    /// The machine after PC is popped from the stack.
    pub closed spec fn spec_return(self) -> SM83State {
        let (s, pc) = self.spec_pop16();
        s.with_pc(pc)
    }
}

impl SM83 {
    /// Reads a register or (r16) operand.
    fn load_target(&mut self, opr: SM83Oprand) -> (r: u8)
        requires
            old(self).wf(),
            spec_is_target(opr),
        ensures
            *final(self) == *old(self),
            r == old(self)@.spec_load_target(opr),
    {
        match opr {
            SM83Oprand::R8 { r8 } => self.get_r8(&r8),
            SM83Oprand::R16Indirect { r16 } => {
                let address = self.get_r16(&r16) as usize;
                self.read_mem_u8(address)
            },
            _ => 0,
        }
    }

    /// Writes a register or (r16) operand.
    fn store_target(&mut self, opr: SM83Oprand, value: u8)
        requires
            old(self).wf(),
            spec_is_target(opr),
        ensures
            final(self).wf(),
            final(self)@ == old(self)@.spec_store_target(opr, value),
    {
        match opr {
            SM83Oprand::R8 { r8 } => self.set_r8(&r8, value),
            SM83Oprand::R16Indirect { r16 } => {
                let address = self.get_r16(&r16) as usize;
                self.write_mem_u8(address, value);
            },
            _ => {},
        }
    }

    /// Carries out a rotate, shift or swap of the 0xCB page.
    pub(crate) fn execute_shift(&mut self, op: ShiftOp, opr: SM83Oprand) -> (r: u8)
        requires
            old(self).wf(),
            spec_is_target(opr),
        ensures
            final(self).wf(),
            (final(self)@, r) == old(self)@.spec_exec_shift(op, opr),
            1 <= r <= 6,
    {
        let carry = self.test_flag(FLAG_C);
        let value = self.load_target(opr);
        let (ret, carry_out) = shift(op, value, carry);
        self.store_target(opr, ret);
        self.set_flag(FLAG_Z, ret == 0);
        self.set_flag(FLAG_N, false);
        self.set_flag(FLAG_H, false);
        self.set_flag(FLAG_C, carry_out);
        if matches!(opr, SM83Oprand::R8 { .. }) {
            2
        } else {
            4
        }
    }

    /// Carries out `BIT u3`.
    pub(crate) fn execute_bit(&mut self, u3: u8, opr: SM83Oprand) -> (r: u8)
        requires
            old(self).wf(),
            spec_is_target(opr),
            u3 < 8,
        ensures
            final(self).wf(),
            (final(self)@, r) == old(self)@.spec_exec_bit(u3, opr),
            1 <= r <= 6,
    {
        let test_bit: u8 = 1 << u3;
        let ret = self.load_target(opr) & test_bit;
        self.set_flag(FLAG_Z, ret == 0);
        self.set_flag(FLAG_N, false);
        self.set_flag(FLAG_H, true);
        if matches!(opr, SM83Oprand::R8 { .. }) {
            2
        } else {
            3
        }
    }

    /// Carries out `RES u3` or `SET u3`.
    pub(crate) fn execute_res_set(&mut self, u3: u8, opr: SM83Oprand, set: bool) -> (r: u8)
        requires
            old(self).wf(),
            spec_is_target(opr),
            u3 < 8,
        ensures
            final(self).wf(),
            (final(self)@, r) == old(self)@.spec_exec_res_set(u3, opr, set),
            1 <= r <= 6,
    {
        let bit: u8 = 1 << u3;
        let value = self.load_target(opr);
        let ret = if set {
            value | bit
        } else {
            value & !bit
        };
        self.store_target(opr, ret);
        if matches!(opr, SM83Oprand::R8 { .. }) {
            2
        } else {
            4
        }
    }

    /// Carries out `INC` or `DEC`.
    #[verifier::rlimit(60)]
    pub(crate) fn execute_inc_dec(&mut self, opr: SM83Oprand, up: bool) -> (r: u8)
        requires
            old(self).wf(),
            spec_is_target(opr) || opr is R16,
        ensures
            final(self).wf(),
            (final(self)@, r) == old(self)@.spec_exec_inc_dec(opr, up),
            1 <= r <= 6,
    {
        match opr {
            SM83Oprand::R16 { r16 } => {
                let value = self.get_r16(&r16);
                let ret = if up {
                    value.wrapping_add(1)
                } else {
                    value.wrapping_sub(1)
                };
                self.set_r16(&r16, ret);
                2
            },
            _ => self.execute_inc_dec8(opr, up),
        }
    }

    /// Carries out the 8 bit forms of `INC` and `DEC`.
    #[verifier::rlimit(60)]
    fn execute_inc_dec8(&mut self, opr: SM83Oprand, up: bool) -> (r: u8)
        requires
            old(self).wf(),
            spec_is_target(opr),
        ensures
            final(self).wf(),
            (final(self)@, r) == old(self)@.spec_exec_inc_dec(opr, up),
            1 <= r <= 6,
    {
        let value = self.load_target(opr);
        let ret = if up {
            value.wrapping_add(1)
        } else {
            value.wrapping_sub(1)
        };
        let ghost stored = old(self)@.spec_store_target(opr, ret);
        self.store_target(opr, ret);
        proof {
            assert((ret & 0x0F) == ret % 16) by (bit_vector);
        }
        let half = if up {
            (ret & 0x0F) == 0
        } else {
            (ret & 0x0F) == 0x0F
        };
        self.set_flag(FLAG_Z, ret == 0);
        self.set_flag(FLAG_N, !up);
        self.set_flag(FLAG_H, half);
        assert(self@ == stored.with_flag(FLAG_Z, ret == 0).with_flag(FLAG_N, !up).with_flag(
            FLAG_H,
            half,
        ));
        if matches!(opr, SM83Oprand::R8 { .. }) {
            1
        } else {
            3
        }
    }

    /// Fetches the two operands of an 8 bit arithmetic or logic instruction.
    fn alu_operands(&mut self, opr: SM83Oprand) -> (r: (u8, u8))
        requires
            old(self).wf(),
            spec_is_alu_operand(opr),
        ensures
            *final(self) == *old(self),
            r == old(self)@.spec_alu_operands(opr),
    {
        match opr {
            SM83Oprand::R8AndR8 { r1, r2 } => (self.get_r8(&r1), self.get_r8(&r2)),
            SM83Oprand::R8AndR16Indirect { r8, r16 } => {
                let address = self.get_r16(&r16) as usize;
                let a = self.get_r8(&r8);
                (a, self.read_mem_u8(address))
            },
            SM83Oprand::R8AndN8 { r8, n8 } => (self.get_r8(&r8), n8),
            _ => (0, 0),
        }
    }

    /// Carries out `ADD`.
    pub(crate) fn execute_add(&mut self, opr: SM83Oprand) -> (r: u8)
        requires
            old(self).wf(),
            spec_is_alu_operand(opr) || opr is R16ToR16 || opr is R16AndE8,
        ensures
            final(self).wf(),
            (final(self)@, r) == old(self)@.spec_exec_add(opr),
            1 <= r <= 6,
    {
        match opr {
            SM83Oprand::R16ToR16 { dst, src } => {
                let (ret, overflow, half_overflow) = add_u16(self.get_r16(&dst), self.get_r16(&src));
                self.set_r16(&dst, ret);
                self.set_flag(FLAG_N, false);
                self.set_flag(FLAG_H, half_overflow);
                self.set_flag(FLAG_C, overflow);
                2
            },
            SM83Oprand::R16AndE8 { r16, e8 } => {
                let (ret, half_overflow, overflow) = add_u16_e8(self.get_r16(&r16), e8);
                self.set_r16(&r16, ret);
                self.set_flag(FLAG_Z, false);
                self.set_flag(FLAG_N, false);
                self.set_flag(FLAG_H, half_overflow);
                self.set_flag(FLAG_C, overflow);
                4
            },
            _ => {
                let (a, b) = self.alu_operands(opr);
                let (ret, overflow, half_overflow) = add_u8(a, b);
                self.regs.a = ret;
                self.set_flag(FLAG_Z, ret == 0);
                self.set_flag(FLAG_N, false);
                self.set_flag(FLAG_H, half_overflow);
                self.set_flag(FLAG_C, overflow);
                if matches!(opr, SM83Oprand::R8AndR8 { .. }) {
                    1
                } else {
                    2
                }
            },
        }
    }

    /// Carries out `SUB`, `ADC`, `SBC` or `CP`.
    pub(crate) fn execute_sub_adc_sbc(&mut self, op: ArithOp, opr: SM83Oprand, keep_a: bool) -> (r: u8)
        requires
            old(self).wf(),
            spec_is_alu_operand(opr),
        ensures
            final(self).wf(),
            (final(self)@, r) == old(self)@.spec_exec_arith(op, opr, keep_a),
            1 <= r <= 6,
    {
        let a_backup = self.regs.a;
        let carry = self.test_flag(FLAG_C);
        let (a, b) = self.alu_operands(opr);
        let (ret, overflow, half_overflow) = arith(op, a, b, carry);
        self.regs.a = ret;
        self.set_flag(FLAG_Z, ret == 0);
        self.set_flag(FLAG_H, half_overflow);
        self.set_flag(FLAG_C, overflow);
        if keep_a {
            self.regs.a = a_backup;
        }
        self.set_flag(FLAG_N, op != ArithOp::Adc);
        if matches!(opr, SM83Oprand::R8AndR8 { .. }) {
            1
        } else {
            2
        }
    }

    /// Carries out `AND`, `OR` or `XOR`.
    pub(crate) fn execute_logic(&mut self, op: LogicOp, opr: SM83Oprand) -> (r: u8)
        requires
            old(self).wf(),
            spec_is_alu_operand(opr),
        ensures
            final(self).wf(),
            (final(self)@, r) == old(self)@.spec_exec_logic(op, opr),
            1 <= r <= 6,
    {
        let (a, b) = self.alu_operands(opr);
        let ret = match op {
            LogicOp::And => a & b,
            LogicOp::Or => a | b,
            LogicOp::Xor => a ^ b,
        };
        self.regs.a = ret;
        self.set_flag(FLAG_Z, ret == 0);
        self.set_flag(FLAG_N, false);
        self.set_flag(FLAG_H, op == LogicOp::And);
        self.set_flag(FLAG_C, false);
        if matches!(opr, SM83Oprand::R8AndR8 { .. }) {
            1
        } else {
            2
        }
    }

    /// Steps HL after an access through HL+ or HL-.
    fn step_hl(&mut self, r16: SM83Register16, address: u16)
        requires
            old(self).wf(),
        ensures
            final(self).wf(),
            final(self)@ == old(self)@.spec_step_hl(r16, address),
    {
        match r16 {
            SM83Register16::HLincrement => self.set_r16(&r16, address.wrapping_add(1)),
            SM83Register16::HLdecrement => self.set_r16(&r16, address.wrapping_sub(1)),
            _ => {},
        }
    }

    /// Carries out `LD`.
    #[verifier::rlimit(60)]
    pub(crate) fn execute_ld(&mut self, opr: SM83Oprand) -> (r: u8)
        requires
            old(self).wf(),
            spec_is_ld_operand(opr),
        ensures
            final(self).wf(),
            (final(self)@, r) == old(self)@.spec_exec_ld(opr),
            1 <= r <= 6,
    {
        match opr {
            SM83Oprand::N16ToR16 { dst, n16 } => {
                self.set_r16(&dst, n16);
                3
            },
            SM83Oprand::R8ToR16Indirect { dst, src } => {
                let address = self.get_r16(&dst);
                let value = self.get_r8(&src);
                self.write_mem_u8(address as usize, value);
                self.step_hl(dst, address);
                2
            },
            SM83Oprand::N8ToR8 { dst, n8 } => {
                self.set_r8(&dst, n8);
                2
            },
            SM83Oprand::R16IndirectToR8 { dst, src } => {
                let address = self.get_r16(&src);
                let value = self.read_mem_u8(address as usize);
                self.set_r8(&dst, value);
                self.step_hl(src, address);
                2
            },
            SM83Oprand::N8ToR16Indirect { dst, n8 } => {
                let address = self.get_r16(&dst);
                self.write_mem_u8(address as usize, n8);
                3
            },
            SM83Oprand::R8ToR8 { dst, src } => {
                let value = self.get_r8(&src);
                self.set_r8(&dst, value);
                1
            },
            SM83Oprand::R8ToA16 { dst, src } => {
                let value = self.get_r8(&src);
                self.write_mem_u8(dst as usize, value);
                4
            },
            SM83Oprand::A16ToR8 { dst, src } => {
                let value = self.read_mem_u8(src as usize);
                self.set_r8(&dst, value);
                4
            },
            SM83Oprand::R16ToA16 { a16, src } => {
                let value = self.get_r16(&src);
                self.write_mem_u16(a16 as usize, value);
                5
            },
            SM83Oprand::R16ToR16 { dst, src } => {
                let value = self.get_r16(&src);
                self.set_r16(&dst, value);
                2
            },
            SM83Oprand::R16E8IndirectToR16 { dst, src_r16, src_e8 } => {
                let offset = self.get_r16(&src_r16);
                let value = offset_u16(offset, src_e8);
                self.set_r16(&dst, value);
                self.set_flag(FLAG_Z, false);
                self.set_flag(FLAG_N, false);
                3
            },
            _ => 0,
        }
    }

    /// Carries out `LDH`.
    pub(crate) fn execute_ldh(&mut self, opr: SM83Oprand) -> (r: u8)
        requires
            old(self).wf(),
            spec_is_ldh_operand(opr),
        ensures
            final(self).wf(),
            (final(self)@, r) == old(self)@.spec_exec_ldh(opr),
            1 <= r <= 6,
    {
        match opr {
            SM83Oprand::R8ToA8 { dst, src } => {
                let value = self.get_r8(&src);
                let address = HWREG_START_ADDRESS + dst as usize;
                self.write_mem_u8(address, value);
                3
            },
            SM83Oprand::A8ToR8 { dst, src } => {
                let address = HWREG_START_ADDRESS + src as usize;
                let value = self.read_mem_u8(address);
                self.set_r8(&dst, value);
                3
            },
            SM83Oprand::R8IndirectToR8 { dst, src } => {
                let address = HWREG_START_ADDRESS + self.get_r8(&src) as usize;
                let value = self.read_mem_u8(address);
                self.set_r8(&dst, value);
                2
            },
            SM83Oprand::R8ToR8Indirect { dst, src } => {
                let value = self.get_r8(&src);
                let address = HWREG_START_ADDRESS + self.get_r8(&dst) as usize;
                self.write_mem_u8(address, value);
                2
            },
            _ => 0,
        }
    }

    /// Carries out `JP`.
    pub(crate) fn execute_jp(&mut self, opr: SM83Oprand) -> (r: u8)
        requires
            old(self).wf(),
            opr is CCAndA16 || opr is A16 || opr == (SM83Oprand::R16 { r16: SM83Register16::HL }),
        ensures
            final(self).wf(),
            (final(self)@, r) == old(self)@.spec_exec_jp(opr),
            1 <= r <= 6,
    {
        match opr {
            SM83Oprand::CCAndA16 { cc, a16 } => {
                if self.test_condition_code(&cc) {
                    self.regs.pc = a16;
                    4
                } else {
                    3
                }
            },
            SM83Oprand::A16 { a16 } => {
                self.regs.pc = a16;
                4
            },
            SM83Oprand::R16 { r16 } => {
                self.regs.pc = self.get_r16(&r16);
                1
            },
            _ => 0,
        }
    }

    /// Carries out `JR`.
    pub(crate) fn execute_jr(&mut self, opr: SM83Oprand) -> (r: u8)
        requires
            old(self).wf(),
            opr is E8 || opr is CCAndE8,
        ensures
            final(self).wf(),
            (final(self)@, r) == old(self)@.spec_exec_jr(opr),
            1 <= r <= 6,
    {
        match opr {
            SM83Oprand::E8 { e8 } => {
                self.regs.pc = offset_u16(self.regs.pc, e8);
                3
            },
            SM83Oprand::CCAndE8 { cc, e8 } => {
                if self.test_condition_code(&cc) {
                    self.regs.pc = offset_u16(self.regs.pc, e8);
                    3
                } else {
                    2
                }
            },
            _ => 0,
        }
    }

    /// Carries out `CALL`.
    pub(crate) fn execute_call(&mut self, opr: SM83Oprand) -> (r: u8)
        requires
            old(self).wf(),
            opr is CCAndA16 || opr is A16,
        ensures
            final(self).wf(),
            (final(self)@, r) == old(self)@.spec_exec_call(opr),
            1 <= r <= 6,
    {
        match opr {
            SM83Oprand::CCAndA16 { cc, a16 } => {
                if self.test_condition_code(&cc) {
                    let pc = self.regs.pc;
                    self.push16(pc);
                    self.regs.pc = a16;
                    6
                } else {
                    3
                }
            },
            SM83Oprand::A16 { a16 } => {
                let pc = self.regs.pc;
                self.push16(pc);
                self.regs.pc = a16;
                6
            },
            _ => 0,
        }
    }

    /// Pops PC from the stack.
    pub(crate) fn return_from_call(&mut self)
        requires
            old(self).wf(),
        ensures
            final(self).wf(),
            final(self)@ == old(self)@.spec_return(),
    {
        let pc = self.pop16();
        self.regs.pc = pc;
    }

    /// Carries out the instructions on A and the flags, the interrupt
    /// switches, `HALT`, `STOP` and `NOP`.
    pub(crate) fn execute_misc(&mut self, op: SM83Opcode) -> (r: u8)
        requires
            old(self).wf(),
            op is NOP || op is RLCA || op is RRCA || op is RLA || op is RRA || op is CCF || op is CPL
                || op is DAA || op is DI || op is EI || op is HALT || op is SCF || op is STOP,
        ensures
            final(self).wf(),
            (final(self)@, r) == old(self)@.spec_exec_misc(op),
            1 <= r <= 6,
    {
        match op {
            SM83Opcode::RLCA | SM83Opcode::RRCA | SM83Opcode::RLA | SM83Opcode::RRA => {
                self.execute_rotate_a(op)
            },
            SM83Opcode::CCF | SM83Opcode::CPL | SM83Opcode::DAA | SM83Opcode::SCF => {
                self.execute_flag_op(op)
            },
            SM83Opcode::DI => {
                self.ime_flag = false;
                1
            },
            SM83Opcode::EI => {
                // takes effect from the next instruction on
                self.ime_flag = true;
                1
            },
            SM83Opcode::STOP => {
                // STOP resets DIV
                self.mem[HWREG_DIV_REGISTER] = 0;
                1
            },
            _ => {
                // NOP and HALT change nothing
                1
            },
        }
    }

    /// Carries out `RLCA`, `RRCA`, `RLA` or `RRA`.
    fn execute_rotate_a(&mut self, op: SM83Opcode) -> (r: u8)
        requires
            old(self).wf(),
            op is RLCA || op is RRCA || op is RLA || op is RRA,
        ensures
            final(self).wf(),
            (final(self)@, r) == old(self)@.spec_exec_misc(op),
            1 <= r <= 6,
    {
        match op {
            SM83Opcode::RLCA | SM83Opcode::RRCA => {
                let kind = if matches!(op, SM83Opcode::RLCA) {
                    ShiftOp::Rlc
                } else {
                    ShiftOp::Rrc
                };
                let (ret, carry) = shift(kind, self.regs.a, self.test_flag(FLAG_C));
                self.regs.a = ret;
                self.set_flag(FLAG_Z, false);
                self.set_flag(FLAG_N, false);
                self.set_flag(FLAG_H, false);
                self.set_flag(FLAG_C, carry);
            },
            _ => {
                let kind = if matches!(op, SM83Opcode::RLA) {
                    ShiftOp::Rl
                } else {
                    ShiftOp::Rr
                };
                let (ret, carry) = shift(kind, self.regs.a, self.test_flag(FLAG_C));
                self.regs.a = ret;
                self.set_flag(FLAG_C, carry);
            },
        }
        1
    }

    /// Carries out `CCF`, `CPL`, `DAA` or `SCF`.
    fn execute_flag_op(&mut self, op: SM83Opcode) -> (r: u8)
        requires
            old(self).wf(),
            op is CCF || op is CPL || op is DAA || op is SCF,
        ensures
            final(self).wf(),
            (final(self)@, r) == old(self)@.spec_exec_misc(op),
            1 <= r <= 6,
    {
        match op {
            SM83Opcode::CCF => {
                self.set_flag(FLAG_N, false);
                self.set_flag(FLAG_H, false);
                let c = self.test_flag(FLAG_C);
                self.set_flag(FLAG_C, !c);
            },
            SM83Opcode::CPL => {
                self.regs.a = !self.regs.a;
                self.set_flag(FLAG_N, true);
                self.set_flag(FLAG_H, true);
            },
            SM83Opcode::DAA => {
                let (ret, carry) = daa(self.regs.a, self.regs.f);
                self.regs.a = ret;
                self.set_flag(FLAG_Z, ret == 0);
                self.set_flag(FLAG_H, false);
                self.set_flag(FLAG_C, carry);
            },
            _ => {
                self.set_flag(FLAG_N, false);
                self.set_flag(FLAG_H, false);
                self.set_flag(FLAG_C, true);
            },
        }
        1
    }
}

/// Rotating left and then right (or the other way round), with or without
/// the carry, gives back the byte; swapping the nibbles twice too.
pub proof fn lemma_shift_inverse(v: u8, c: bool)
    ensures
        spec_shift(ShiftOp::Rrc, spec_shift(ShiftOp::Rlc, v, c).0, c).0 == v,
        spec_shift(ShiftOp::Rlc, spec_shift(ShiftOp::Rrc, v, c).0, c).0 == v,
        spec_shift(
            ShiftOp::Rr,
            spec_shift(ShiftOp::Rl, v, c).0,
            spec_shift(ShiftOp::Rl, v, c).1,
        ) == (v, c),
        spec_shift(
            ShiftOp::Rl,
            spec_shift(ShiftOp::Rr, v, c).0,
            spec_shift(ShiftOp::Rr, v, c).1,
        ) == (v, c),
        spec_shift(ShiftOp::Swap, spec_shift(ShiftOp::Swap, v, c).0, c).0 == v,
{
    assert(((((v << 1u8) | ((v & 0x80u8) >> 7u8)) >> 1u8) | ((((v << 1u8) | ((v & 0x80u8)
        >> 7u8)) & 0x01u8) << 7u8)) == v) by (bit_vector);
    assert(((((v >> 1u8) | ((v & 0x01u8) << 7u8)) << 1u8) | ((((v >> 1u8) | ((v & 0x01u8)
        << 7u8)) & 0x80u8) >> 7u8)) == v) by (bit_vector);
    let ci: u8 = if c { 0x01u8 } else { 0x00u8 };
    let co: u8 = if c { 0x80u8 } else { 0x00u8 };
    assert(ci == 0x01u8 || ci == 0x00u8);
    assert((ci == 0x01u8 || ci == 0x00u8) ==> ((((v << 1u8) | ci) >> 1u8) | (if (v & 0x80u8) != 0 {
        0x80u8
    } else {
        0x00u8
    })) == v && ((((v << 1u8) | ci) & 0x01u8) != 0) == (ci == 0x01u8)) by (bit_vector);
    assert((co == 0x80u8 || co == 0x00u8) ==> ((((v >> 1u8) | co) << 1u8) | (if (v & 0x01u8) != 0 {
        0x01u8
    } else {
        0x00u8
    })) == v && ((((v >> 1u8) | co) & 0x80u8) != 0) == (co == 0x80u8)) by (bit_vector);
    assert((((v >> 4u8) | (v << 4u8)) >> 4u8) | (((v >> 4u8) | (v << 4u8)) << 4u8) == v)
        by (bit_vector);
}

/// `DEC` undoes `INC` on a register: the registers and memory are as
/// before, the flags aside.
#[verifier::rlimit(40)]
pub proof fn lemma_inc_dec_undo(s: SM83State, r8: SM83Register8)
    ensures
        ({
            let opr = SM83Oprand::R8 { r8 };
            let t = s.spec_exec_inc_dec(opr, true).0.spec_exec_inc_dec(opr, false).0;
            &&& t.regs == (SM83Registers { f: t.regs.f, ..s.regs })
            &&& t.mem == s.mem
        }),
{
    let opr = SM83Oprand::R8 { r8 };
    let v = s.r8(r8);
    let up = ((v + 1) % 256) as u8;
    let s0 = s.with_r8(r8, up);
    let s1 = s.spec_exec_inc_dec(opr, true).0;
    assert(s1 == s0.with_flag(FLAG_Z, up == 0).with_flag(FLAG_N, false).with_flag(
        FLAG_H,
        up % 16 == 0,
    ));
    assert(s1.r8(r8) == up);
    let down = ((up - 1) % 256) as u8;
    assert(down == v);
    let t0 = s1.with_r8(r8, v);
    assert(t0.regs == (SM83Registers { f: s1.regs.f, ..s.regs }));
}

/// `DEC` undoes `INC` on a 16 bit register: the machine is as before.
pub proof fn lemma_inc_dec16_undo(s: SM83State, r16: SM83Register16)
    ensures
        ({
            let opr = SM83Oprand::R16 { r16 };
            s.spec_exec_inc_dec(opr, true).0.spec_exec_inc_dec(opr, false).0 == s
        }),
{
    let v = s.r16(r16);
    let up = ((v + 1) % 0x10000) as u16;
    let s1 = s.with_r16(r16, up);
    assert(s1.r16(r16) == up);
    assert(((up - 1) % 0x10000) as u16 == v);
    assert(s1.with_r16(r16, v).regs == s.regs);
}

/// `CP` is `SUB` that leaves A as it was: the same flags, memory, every
/// other part of the machine and the same clock count; and besides F it
/// changes no register.
pub proof fn lemma_cp_is_sub_keeping_a(s: SM83State, opr: SM83Oprand)
    ensures
        ({
            let (sub, cycles) = s.spec_exec_arith(ArithOp::Sub, opr, false);
            s.spec_exec_arith(ArithOp::Sub, opr, true) == (
                SM83State { regs: SM83Registers { a: s.regs.a, ..sub.regs }, ..sub },
                cycles,
            )
        }),
        s.spec_exec_arith(ArithOp::Sub, opr, true).0.regs == (SM83Registers {
            f: s.spec_exec_arith(ArithOp::Sub, opr, false).0.regs.f,
            ..s.regs
        }),
{
}

/// `spec_exec_shift` spelled out, for proofs outside this module.
pub proof fn lemma_exec_shift_def(machine: SM83State, op: ShiftOp, opr: SM83Oprand)
    ensures
        ({
            let d: (SM83State, u8) = {
                let (ret, carry) = spec_shift(op, machine.spec_load_target(opr), machine.flag(FLAG_C));
                (
                    machine.spec_store_target(opr, ret).with_flag(FLAG_Z, ret == 0).with_flag(
                        FLAG_N,
                        false,
                    ).with_flag(FLAG_H, false).with_flag(FLAG_C, carry),
                    if opr is R8 { 2 } else { 4 },
                )
            };
            machine.spec_exec_shift(op, opr) == d
        }),
{
}

/// `spec_exec_bit` spelled out, for proofs outside this module.
pub proof fn lemma_exec_bit_def(machine: SM83State, u3: u8, opr: SM83Oprand)
    ensures
        ({
            let d: (SM83State, u8) = {
                let ret = machine.spec_load_target(opr) & (1u8 << u3);
                (
                    machine.with_flag(FLAG_Z, ret == 0).with_flag(FLAG_N, false).with_flag(FLAG_H, true),
                    if opr is R8 { 2 } else { 3 },
                )
            };
            machine.spec_exec_bit(u3, opr) == d
        }),
{
}

/// `spec_exec_res_set` spelled out, for proofs outside this module.
pub proof fn lemma_exec_res_set_def(machine: SM83State, u3: u8, opr: SM83Oprand, set: bool)
    ensures
        ({
            let d: (SM83State, u8) = {
                let v = machine.spec_load_target(opr);
                let ret = if set {
                    v | (1u8 << u3)
                } else {
                    v & !(1u8 << u3)
                };
                (machine.spec_store_target(opr, ret), if opr is R8 { 2 } else { 4 })
            };
            machine.spec_exec_res_set(u3, opr, set) == d
        }),
{
}

/// `spec_exec_inc_dec` spelled out, for proofs outside this module.
pub proof fn lemma_exec_inc_dec_def(machine: SM83State, opr: SM83Oprand, up: bool)
    ensures
        ({
            let d: (SM83State, u8) = {
                match opr {
                    SM83Oprand::R16 { r16 } => {
                        let v = machine.r16(r16);
                        (
                            machine.with_r16(
                                r16,
                                if up {
                                    ((v + 1) % 0x10000) as u16
                                } else {
                                    ((v - 1) % 0x10000) as u16
                                },
                            ),
                            2,
                        )
                    },
                    _ => {
                        let v = machine.spec_load_target(opr);
                        let ret = if up {
                            ((v + 1) % 256) as u8
                        } else {
                            ((v - 1) % 256) as u8
                        };
                        (
                            machine.spec_store_target(opr, ret).with_flag(FLAG_Z, ret == 0).with_flag(
                                FLAG_N,
                                !up,
                            ).with_flag(
                                FLAG_H,
                                if up {
                                    ret % 16 == 0
                                } else {
                                    ret % 16 == 15
                                },
                            ),
                            if opr is R8 { 1 } else { 3 },
                        )
                    },
                }
            };
            machine.spec_exec_inc_dec(opr, up) == d
        }),
{
}

/// `spec_exec_add` spelled out, for proofs outside this module.
pub proof fn lemma_exec_add_def(machine: SM83State, opr: SM83Oprand)
    ensures
        ({
            let d: (SM83State, u8) = {
                match opr {
                    SM83Oprand::R16ToR16 { dst, src } => {
                        let (ret, c, h) = spec_add16(machine.r16(dst), machine.r16(src));
                        (
                            machine.with_r16(dst, ret).with_flag(FLAG_N, false).with_flag(FLAG_H, h).with_flag(
                                FLAG_C,
                                c,
                            ),
                            2,
                        )
                    },
                    SM83Oprand::R16AndE8 { r16, e8 } => {
                        let (ret, h, c) = spec_add16_e8(machine.r16(r16), e8);
                        (
                            machine.with_r16(r16, ret).with_flag(FLAG_Z, false).with_flag(
                                FLAG_N,
                                false,
                            ).with_flag(FLAG_H, h).with_flag(FLAG_C, c),
                            4,
                        )
                    },
                    _ => {
                        let (a, b) = machine.spec_alu_operands(opr);
                        let (ret, c, h) = spec_add8(a, b);
                        (
                            machine.with_r8(SM83Register8::A, ret).with_flag(FLAG_Z, ret == 0).with_flag(
                                FLAG_N,
                                false,
                            ).with_flag(FLAG_H, h).with_flag(FLAG_C, c),
                            spec_alu_cycles(opr),
                        )
                    },
                }
            };
            machine.spec_exec_add(opr) == d
        }),
{
}

/// `spec_exec_arith` spelled out, for proofs outside this module.
pub proof fn lemma_exec_arith_def(machine: SM83State, op: ArithOp, opr: SM83Oprand, keep_a: bool)
    ensures
        ({
            let d: (SM83State, u8) = {
                let (a, b) = machine.spec_alu_operands(opr);
                let (ret, c, h) = spec_arith(op, a, b, machine.flag(FLAG_C));
                let s = machine.with_r8(SM83Register8::A, ret).with_flag(FLAG_Z, ret == 0).with_flag(
                    FLAG_H,
                    h,
                ).with_flag(FLAG_C, c);
                let s = if keep_a {
                    s.with_r8(SM83Register8::A, machine.regs.a)
                } else {
                    s
                };
                (s.with_flag(FLAG_N, op != ArithOp::Adc), spec_alu_cycles(opr))
            };
            machine.spec_exec_arith(op, opr, keep_a) == d
        }),
{
}

/// `spec_exec_logic` spelled out, for proofs outside this module.
pub proof fn lemma_exec_logic_def(machine: SM83State, op: LogicOp, opr: SM83Oprand)
    ensures
        ({
            let d: (SM83State, u8) = {
                let (a, b) = machine.spec_alu_operands(opr);
                let ret = spec_logic(op, a, b);
                (
                    machine.with_r8(SM83Register8::A, ret).with_flag(FLAG_Z, ret == 0).with_flag(
                        FLAG_N,
                        false,
                    ).with_flag(FLAG_H, op == LogicOp::And).with_flag(FLAG_C, false),
                    spec_alu_cycles(opr),
                )
            };
            machine.spec_exec_logic(op, opr) == d
        }),
{
}

/// `spec_exec_ld` spelled out, for proofs outside this module.
pub proof fn lemma_exec_ld_def(machine: SM83State, opr: SM83Oprand)
    ensures
        ({
            let d: (SM83State, u8) = {
                match opr {
                    SM83Oprand::N16ToR16 { dst, n16 } => (machine.with_r16(dst, n16), 3),
                    SM83Oprand::R8ToR16Indirect { dst, src } => {
                        let address = machine.r16(dst);
                        (machine.spec_write_mem(address as int, machine.r8(src)).spec_step_hl(dst, address), 2)
                    },
                    SM83Oprand::N8ToR8 { dst, n8 } => (machine.with_r8(dst, n8), 2),
                    SM83Oprand::R16IndirectToR8 { dst, src } => {
                        let address = machine.r16(src);
                        (
                            machine.with_r8(dst, machine.spec_read_mem(address as int)).spec_step_hl(
                                src,
                                address,
                            ),
                            2,
                        )
                    },
                    SM83Oprand::N8ToR16Indirect { dst, n8 } => (
                        machine.spec_write_mem(machine.r16(dst) as int, n8),
                        3,
                    ),
                    SM83Oprand::R8ToR8 { dst, src } => (machine.with_r8(dst, machine.r8(src)), 1),
                    SM83Oprand::R8ToA16 { dst, src } => (machine.spec_write_mem(dst as int, machine.r8(src)), 4),
                    SM83Oprand::A16ToR8 { dst, src } => (
                        machine.with_r8(dst, machine.spec_read_mem(src as int)),
                        4,
                    ),
                    SM83Oprand::R16ToA16 { a16, src } => {
                        let v = machine.r16(src);
                        (machine.with_mem(a16 as int, (v % 256) as u8).with_mem(a16 + 1, (v / 256) as u8), 5)
                    },
                    SM83Oprand::R16ToR16 { dst, src } => (machine.with_r16(dst, machine.r16(src)), 2),
                    SM83Oprand::R16E8IndirectToR16 { dst, src_r16, src_e8 } => (
                        machine.with_r16(dst, spec_offset16(machine.r16(src_r16), src_e8)).with_flag(
                            FLAG_Z,
                            false,
                        ).with_flag(FLAG_N, false),
                        3,
                    ),
                    _ => (machine, 0),
                }
            };
            machine.spec_exec_ld(opr) == d
        }),
{
}

/// `spec_exec_ldh` spelled out, for proofs outside this module.
pub proof fn lemma_exec_ldh_def(machine: SM83State, opr: SM83Oprand)
    ensures
        ({
            let d: (SM83State, u8) = {
                match opr {
                    SM83Oprand::R8ToA8 { dst, src } => (
                        machine.spec_write_mem(HWREG_START_ADDRESS + dst, machine.r8(src)),
                        3,
                    ),
                    SM83Oprand::A8ToR8 { dst, src } => (
                        machine.with_r8(dst, machine.spec_read_mem(HWREG_START_ADDRESS + src)),
                        3,
                    ),
                    SM83Oprand::R8IndirectToR8 { dst, src } => (
                        machine.with_r8(dst, machine.spec_read_mem(HWREG_START_ADDRESS + machine.r8(src))),
                        2,
                    ),
                    SM83Oprand::R8ToR8Indirect { dst, src } => (
                        machine.spec_write_mem(HWREG_START_ADDRESS + machine.r8(dst), machine.r8(src)),
                        2,
                    ),
                    _ => (machine, 0),
                }
            };
            machine.spec_exec_ldh(opr) == d
        }),
{
}

/// `spec_exec_jp` spelled out, for proofs outside this module.
pub proof fn lemma_exec_jp_def(machine: SM83State, opr: SM83Oprand)
    ensures
        ({
            let d: (SM83State, u8) = {
                match opr {
                    SM83Oprand::CCAndA16 { cc, a16 } => if spec_condition(machine.regs.f, cc) {
                        (machine.with_pc(a16), 4)
                    } else {
                        (machine, 3)
                    },
                    SM83Oprand::A16 { a16 } => (machine.with_pc(a16), 4),
                    SM83Oprand::R16 { r16 } => (machine.with_pc(machine.r16(r16)), 1),
                    _ => (machine, 0),
                }
            };
            machine.spec_exec_jp(opr) == d
        }),
{
}

/// `spec_exec_jr` spelled out, for proofs outside this module.
pub proof fn lemma_exec_jr_def(machine: SM83State, opr: SM83Oprand)
    ensures
        ({
            let d: (SM83State, u8) = {
                match opr {
                    SM83Oprand::E8 { e8 } => (machine.with_pc(spec_offset16(machine.regs.pc, e8)), 3),
                    SM83Oprand::CCAndE8 { cc, e8 } => if spec_condition(machine.regs.f, cc) {
                        (machine.with_pc(spec_offset16(machine.regs.pc, e8)), 3)
                    } else {
                        (machine, 2)
                    },
                    _ => (machine, 0),
                }
            };
            machine.spec_exec_jr(opr) == d
        }),
{
}

/// `spec_exec_call` spelled out, for proofs outside this module.
pub proof fn lemma_exec_call_def(machine: SM83State, opr: SM83Oprand)
    ensures
        ({
            let d: (SM83State, u8) = {
                match opr {
                    SM83Oprand::CCAndA16 { cc, a16 } => if spec_condition(machine.regs.f, cc) {
                        (machine.spec_push16(machine.regs.pc).with_pc(a16), 6)
                    } else {
                        (machine, 3)
                    },
                    SM83Oprand::A16 { a16 } => (machine.spec_push16(machine.regs.pc).with_pc(a16), 6),
                    _ => (machine, 0),
                }
            };
            machine.spec_exec_call(opr) == d
        }),
{
}

/// `spec_exec_misc` spelled out, for proofs outside this module.
pub proof fn lemma_exec_misc_def(machine: SM83State, op: SM83Opcode)
    ensures
        ({
            let d: (SM83State, u8) = {
                match op {
                    SM83Opcode::RLCA | SM83Opcode::RRCA => {
                        let kind = if op is RLCA {
                            ShiftOp::Rlc
                        } else {
                            ShiftOp::Rrc
                        };
                        let (ret, carry) = spec_shift(kind, machine.regs.a, machine.flag(FLAG_C));
                        (
                            machine.with_r8(SM83Register8::A, ret).with_flag(FLAG_Z, false).with_flag(
                                FLAG_N,
                                false,
                            ).with_flag(FLAG_H, false).with_flag(FLAG_C, carry),
                            1,
                        )
                    },
                    SM83Opcode::RLA | SM83Opcode::RRA => {
                        let kind = if op is RLA {
                            ShiftOp::Rl
                        } else {
                            ShiftOp::Rr
                        };
                        let (ret, carry) = spec_shift(kind, machine.regs.a, machine.flag(FLAG_C));
                        (machine.with_r8(SM83Register8::A, ret).with_flag(FLAG_C, carry), 1)
                    },
                    SM83Opcode::CCF => {
                        let s = machine.with_flag(FLAG_N, false).with_flag(FLAG_H, false);
                        (s.with_flag(FLAG_C, !s.flag(FLAG_C)), 1)
                    },
                    SM83Opcode::CPL => (
                        machine.with_r8(SM83Register8::A, !machine.regs.a).with_flag(FLAG_N, true).with_flag(
                            FLAG_H,
                            true,
                        ),
                        1,
                    ),
                    SM83Opcode::DAA => {
                        let (ret, carry) = spec_daa(machine.regs.a, machine.regs.f);
                        (
                            machine.with_r8(SM83Register8::A, ret).with_flag(FLAG_Z, ret == 0).with_flag(
                                FLAG_H,
                                false,
                            ).with_flag(FLAG_C, carry),
                            1,
                        )
                    },
                    SM83Opcode::DI => (SM83State { ime_flag: false, ..machine }, 1),
                    SM83Opcode::EI => (SM83State { ime_flag: true, ..machine }, 1),
                    SM83Opcode::HALT => (machine, 1),
                    SM83Opcode::SCF => (
                        machine.with_flag(FLAG_N, false).with_flag(FLAG_H, false).with_flag(FLAG_C, true),
                        1,
                    ),
                    SM83Opcode::STOP => (machine.with_mem(HWREG_DIV_REGISTER as int, 0), 1),
                    _ => (machine, 1),
                }
            };
            machine.spec_exec_misc(op) == d
        }),
{
}

/// `spec_return` spelled out, for proofs outside this module.
pub proof fn lemma_return_def(machine: SM83State)
    ensures
        ({
            let d: SM83State = {
                let (s, pc) = machine.spec_pop16();
                s.with_pc(pc)
            };
            machine.spec_return() == d
        }),
{
}


/// The rotates, shifts and swap as arithmetic on the byte `v` (carry flag
/// `c`): a left shift doubles modulo 256 and carries out bit 7, a right
/// shift halves and carries out bit 0; what enters the vacated bit is the
/// other end (rotate), the carry (through carry), bit 7 itself (SRA) or 0
/// (SLA, SRL); SWAP exchanges the nibbles and clears the carry.
pub proof fn lemma_shift_arithmetic(v: u8, c: bool)
    ensures
        spec_shift(ShiftOp::Srl, v, c) == ((v / 2) as u8, v % 2 == 1),
        spec_shift(ShiftOp::Sra, v, c) == ((v / 2 + (if v >= 128 { 128int } else { 0 })) as u8, v
            % 2 == 1),
        spec_shift(ShiftOp::Sla, v, c) == (((2 * v) % 256) as u8, v >= 128),
        spec_shift(ShiftOp::Rlc, v, c) == (((2 * v) % 256 + v / 128) as u8, v >= 128),
        spec_shift(ShiftOp::Rrc, v, c) == ((v / 2 + (v % 2) * 128) as u8, v % 2 == 1),
        spec_shift(ShiftOp::Rl, v, c) == (((2 * v) % 256 + (if c { 1int } else { 0 })) as u8, v
            >= 128),
        spec_shift(ShiftOp::Rr, v, c) == ((v / 2 + (if c { 128int } else { 0 })) as u8, v % 2
            == 1),
        spec_shift(ShiftOp::Swap, v, c) == (((v % 16) * 16 + v / 16) as u8, false),
{
    assert({
        &&& v >> 1u8 == v / 2
        &&& ((v & 0x01u8) != 0) == (v % 2 == 1)
        &&& ((v & 0x80u8) != 0) == (v >= 128)
        &&& (v & 0x80u8) | (v >> 1u8) == (v / 2 + (if v >= 128 { 128u8 } else { 0u8 }))
        &&& v << 1u8 == ((2 * v) % 256) as u8
        &&& (v << 1u8) | ((v & 0x80u8) >> 7u8) == ((2 * v) % 256 + v / 128) as u8
        &&& (v >> 1u8) | ((v & 0x01u8) << 7u8) == (v / 2 + (v % 2) * 128) as u8
        &&& (v << 1u8) | 0x01u8 == ((2 * v) % 256 + 1) as u8
        &&& (v << 1u8) | 0x00u8 == ((2 * v) % 256) as u8
        &&& (v >> 1u8) | 0x80u8 == (v / 2 + 128) as u8
        &&& (v >> 1u8) | 0x00u8 == (v / 2) as u8
        &&& (v >> 4u8) | (v << 4u8) == ((v % 16) * 16 + v / 16) as u8
    }) by (bit_vector);
}

/// On a register operand a rotate, shift or swap puts its result in that
/// register and nowhere else, and sets Z for a zero result, clears N and H
/// and sets C to the bit shifted out; it takes two clocks. So `SRL r`
/// halves `r` and carries out its bit 0.
pub proof fn lemma_shift_register(s: SM83State, op: ShiftOp, r: SM83Register8)
    ensures
        ({
            let (t, cycles) = s.spec_exec_shift(op, SM83Oprand::R8 { r8: r });
            let (ret, carry) = spec_shift(op, s.r8(r), s.flag(FLAG_C));
            &&& t == s.with_r8(r, ret).with_flag(FLAG_Z, ret == 0).with_flag(FLAG_N, false)
                .with_flag(FLAG_H, false).with_flag(FLAG_C, carry)
            &&& cycles == 2
        }),
        op == ShiftOp::Srl ==> s.spec_exec_shift(op, SM83Oprand::R8 { r8: r }).0.r8(r) == s.r8(r)
            / 2,
        op == ShiftOp::Srl ==> s.spec_exec_shift(op, SM83Oprand::R8 { r8: r }).0.flag(FLAG_C) == (
        s.r8(r) % 2 == 1),
{
    lemma_shift_arithmetic(s.r8(r), s.flag(FLAG_C));
    let (t, _) = s.spec_exec_shift(op, SM83Oprand::R8 { r8: r });
    let (ret, carry) = spec_shift(op, s.r8(r), s.flag(FLAG_C));
    let u = s.with_r8(r, ret).with_flag(FLAG_Z, ret == 0).with_flag(FLAG_N, false).with_flag(
        FLAG_H,
        false,
    );
    lemma_flag_set(u.regs.f, FLAG_C, FLAG_C, carry);
}

/// Setting or clearing flag bit `f1` of `f` makes it read as `cond` and
/// leaves the other flag bits as they read.
proof fn lemma_flag_set(f: u8, f1: u8, f2: u8, cond: bool)
    requires
        f1 == FLAG_Z || f1 == FLAG_N || f1 == FLAG_H || f1 == FLAG_C,
        f2 == FLAG_Z || f2 == FLAG_N || f2 == FLAG_H || f2 == FLAG_C,
    ensures
        spec_test_flag(spec_set_flag(f, f1, cond), f2) == (if f1 == f2 {
            cond
        } else {
            spec_test_flag(f, f2)
        }),
{
    assert((f1 == 0x80u8 || f1 == 0x40u8 || f1 == 0x20u8 || f1 == 0x10u8) && (f2 == 0x80u8 || f2
        == 0x40u8 || f2 == 0x20u8 || f2 == 0x10u8) ==> (((if cond {
        f | f1
    } else {
        f & !f1
    }) & f2) != 0) == (if f1 == f2 {
        cond
    } else {
        (f & f2) != 0
    })) by (bit_vector);
}


/// `BIT u3` on a register sets Z exactly when bit `u3` of it is 0, clears N,
/// sets H, keeps C and every register; `RES u3` and `SET u3` clear or set
/// bit `u3` of the register, keep its other bits and change no flag.
pub proof fn lemma_bit_res_set_register(s: SM83State, u3: u8, r: SM83Register8, j: u8)
    requires
        u3 < 8,
        j < 8,
    ensures
        ({
            let (t, cycles) = s.spec_exec_bit(u3, SM83Oprand::R8 { r8: r });
            &&& t.flag(FLAG_Z) == ((s.r8(r) >> u3) & 1 == 0)
            &&& !t.flag(FLAG_N)
            &&& t.flag(FLAG_H)
            &&& t.flag(FLAG_C) == s.flag(FLAG_C)
            &&& t.regs == (SM83Registers { f: t.regs.f, ..s.regs })
            &&& cycles == 2
        }),
        ({
            let t = s.spec_exec_res_set(u3, SM83Oprand::R8 { r8: r }, false).0;
            &&& (t.r8(r) >> u3) & 1 == 0
            &&& j != u3 ==> (t.r8(r) >> j) & 1 == (s.r8(r) >> j) & 1
            &&& t.regs.f == s.regs.f
        }),
        ({
            let t = s.spec_exec_res_set(u3, SM83Oprand::R8 { r8: r }, true).0;
            &&& (t.r8(r) >> u3) & 1 == 1
            &&& j != u3 ==> (t.r8(r) >> j) & 1 == (s.r8(r) >> j) & 1
            &&& t.regs.f == s.regs.f
        }),
{
    let v = s.r8(r);
    assert(u3 < 8 && j < 8 ==> {
        &&& ((v & (1u8 << u3)) == 0) == ((v >> u3) & 1 == 0)
        &&& ((v & !(1u8 << u3)) >> u3) & 1 == 0
        &&& ((v | (1u8 << u3)) >> u3) & 1 == 1
        &&& j != u3 ==> ((v & !(1u8 << u3)) >> j) & 1 == (v >> j) & 1
        &&& j != u3 ==> ((v | (1u8 << u3)) >> j) & 1 == (v >> j) & 1
    }) by (bit_vector);
    let f0 = s.regs.f;
    let ret = v & (1u8 << u3);
    let f1 = spec_set_flag(f0, FLAG_Z, ret == 0);
    let f2 = spec_set_flag(f1, FLAG_N, false);
    lemma_flag_set(f0, FLAG_Z, FLAG_Z, ret == 0);
    lemma_flag_set(f0, FLAG_Z, FLAG_C, ret == 0);
    lemma_flag_set(f1, FLAG_N, FLAG_Z, false);
    lemma_flag_set(f1, FLAG_N, FLAG_N, false);
    lemma_flag_set(f1, FLAG_N, FLAG_C, false);
    lemma_flag_set(f2, FLAG_H, FLAG_Z, true);
    lemma_flag_set(f2, FLAG_H, FLAG_N, true);
    lemma_flag_set(f2, FLAG_H, FLAG_H, true);
    lemma_flag_set(f2, FLAG_H, FLAG_C, true);
}

/// `INC` and `DEC` of a register count it up or down by one modulo 256;
/// H tells that the low nibble wrapped (from 15 up, from 0 down), Z that the
/// result is 0, N that it was `DEC`; C is kept.
#[verifier::rlimit(50)]
#[verifier::spinoff_prover]
pub proof fn lemma_inc_dec_register(s: SM83State, r: SM83Register8, up: bool)
    ensures
        ({
            let (t, cycles) = s.spec_exec_inc_dec(SM83Oprand::R8 { r8: r }, up);
            let v = s.r8(r) as int;
            &&& t.r8(r) == (if up { (v + 1) % 256 } else { (v + 255) % 256 })
            &&& t.flag(FLAG_H) == (if up { v % 16 == 15 } else { v % 16 == 0 })
            &&& t.flag(FLAG_Z) == (t.r8(r) == 0)
            &&& t.flag(FLAG_N) == !up
            &&& t.flag(FLAG_C) == s.flag(FLAG_C)
            &&& cycles == 1
        }),
{
    let v = s.r8(r);
    let ret: u8 = if up { ((v + 1) % 256) as u8 } else { ((v - 1) % 256) as u8 };
    assert(((((v + 1) % 256) % 16 == 0) == (v % 16 == 15)) && ((((v + 255) % 256) % 16 == 15) == (v
        % 16 == 0))) by (bit_vector);
    if !up {
        if v == 0 {
            assert(ret == 255);
        } else {
            assert(ret == v - 1);
        }
        assert(ret == (v + 255) % 256);
    }
    let u = s.with_r8(r, ret);
    let f0 = u.regs.f;
    let f1 = spec_set_flag(f0, FLAG_Z, ret == 0);
    let hc = if up { ret % 16 == 0 } else { ret % 16 == 15 };
    let f2 = spec_set_flag(f1, FLAG_N, !up);
    lemma_flag_set(f0, FLAG_Z, FLAG_Z, ret == 0);
    lemma_flag_set(f0, FLAG_Z, FLAG_C, ret == 0);
    lemma_flag_set(f1, FLAG_N, FLAG_Z, !up);
    lemma_flag_set(f1, FLAG_N, FLAG_N, !up);
    lemma_flag_set(f1, FLAG_N, FLAG_C, !up);
    lemma_flag_set(f2, FLAG_H, FLAG_Z, hc);
    lemma_flag_set(f2, FLAG_H, FLAG_N, hc);
    lemma_flag_set(f2, FLAG_H, FLAG_H, hc);
    lemma_flag_set(f2, FLAG_H, FLAG_C, hc);
    assert(s.with_r8(r, ret).r8(r) == ret);
}


/// The branch conditions read the flags: Z and C hold when bit 7 (Z) or
/// bit 4 (C) of F is set, NZ and NC when it is clear.
pub proof fn lemma_branch_conditions(f: u8)
    ensures
        spec_condition(f, SM83ConditionCode::Z) == ((f >> 7) & 1 == 1),
        spec_condition(f, SM83ConditionCode::NZ) == ((f >> 7) & 1 == 0),
        spec_condition(f, SM83ConditionCode::C) == ((f >> 4) & 1 == 1),
        spec_condition(f, SM83ConditionCode::NC) == ((f >> 4) & 1 == 0),
{
    assert(((f & 0x80u8) != 0) == ((f >> 7u8) & 1 == 1) && ((f & 0x10u8) != 0) == ((f >> 4u8) & 1
        == 1) && ((f >> 7u8) & 1 == 0) == !((f >> 7u8) & 1 == 1) && ((f >> 4u8) & 1 == 0) == !((f
        >> 4u8) & 1 == 1)) by (bit_vector);
}

/// `JR` moves PC by the signed offset `e8`, modulo 2^16, when its condition
/// holds (three clocks) and leaves the machine as it is when not (two).
pub proof fn lemma_jr_moves_pc(s: SM83State, cc: SM83ConditionCode, e8: i8)
    ensures
        ({
            let (t, cycles) = s.spec_exec_jr(SM83Oprand::CCAndE8 { cc, e8 });
            &&& spec_condition(s.regs.f, cc) ==> t == s.with_pc(((s.regs.pc + e8 + 0x10000)
                % 0x10000) as u16) && cycles == 3
            &&& !spec_condition(s.regs.f, cc) ==> t == s && cycles == 2
        }),
        ({
            let (t, cycles) = s.spec_exec_jr(SM83Oprand::E8 { e8 });
            &&& t == s.with_pc(((s.regs.pc + e8 + 0x10000) % 0x10000) as u16)
            &&& cycles == 3
        }),
{
    let x = s.regs.pc + e8;
    assert((x + 0x10000) % 0x10000 == x % 0x10000) by {
        vstd::arithmetic::div_mod::lemma_mod_add_multiples_vanish(x, 0x10000);
    }
}

/// 8 bit arithmetic on A and an immediate: `SUB`, `ADC`, `SBC` put their
/// result in A (`CP` leaves A), set Z for a zero result, H and C from the
/// operation, N for the subtractions; the logic operations put theirs in A,
/// set Z, clear N and C and set H for `AND` only. Both take two clocks.
pub proof fn lemma_alu_immediate(s: SM83State, op: ArithOp, lop: LogicOp, n8: u8)
    ensures
        ({
            let (t, cycles) = s.spec_exec_arith(op, SM83Oprand::R8AndN8 { r8: SM83Register8::A, n8 }, false);
            let (ret, c, h) = spec_arith(op, s.regs.a, n8, s.flag(FLAG_C));
            &&& t.regs.a == ret
            &&& t.flag(FLAG_Z) == (ret == 0)
            &&& t.flag(FLAG_H) == h
            &&& t.flag(FLAG_C) == c
            &&& t.flag(FLAG_N) == (op != ArithOp::Adc)
            &&& cycles == 2
        }),
        ({
            let (t, cycles) = s.spec_exec_logic(lop, SM83Oprand::R8AndN8 { r8: SM83Register8::A, n8 });
            let ret = spec_logic(lop, s.regs.a, n8);
            &&& t.regs.a == ret
            &&& t.flag(FLAG_Z) == (ret == 0)
            &&& !t.flag(FLAG_N)
            &&& t.flag(FLAG_H) == (lop == LogicOp::And)
            &&& !t.flag(FLAG_C)
            &&& cycles == 2
        }),
{
    let (ret, c, h) = spec_arith(op, s.regs.a, n8, s.flag(FLAG_C));
    let f0 = s.with_r8(SM83Register8::A, ret).regs.f;
    let f1 = spec_set_flag(f0, FLAG_Z, ret == 0);
    let f2 = spec_set_flag(f1, FLAG_H, h);
    let f3 = spec_set_flag(f2, FLAG_C, c);
    lemma_flag_set(f0, FLAG_Z, FLAG_Z, ret == 0);
    lemma_flag_set(f1, FLAG_H, FLAG_Z, h);
    lemma_flag_set(f1, FLAG_H, FLAG_H, h);
    lemma_flag_set(f2, FLAG_C, FLAG_Z, c);
    lemma_flag_set(f2, FLAG_C, FLAG_H, c);
    lemma_flag_set(f2, FLAG_C, FLAG_C, c);
    lemma_flag_set(f3, FLAG_N, FLAG_Z, op != ArithOp::Adc);
    lemma_flag_set(f3, FLAG_N, FLAG_H, op != ArithOp::Adc);
    lemma_flag_set(f3, FLAG_N, FLAG_C, op != ArithOp::Adc);
    lemma_flag_set(f3, FLAG_N, FLAG_N, op != ArithOp::Adc);
    let l = spec_logic(lop, s.regs.a, n8);
    let g0 = s.with_r8(SM83Register8::A, l).regs.f;
    let g1 = spec_set_flag(g0, FLAG_Z, l == 0);
    let g2 = spec_set_flag(g1, FLAG_N, false);
    let g3 = spec_set_flag(g2, FLAG_H, lop == LogicOp::And);
    lemma_flag_set(g0, FLAG_Z, FLAG_Z, l == 0);
    lemma_flag_set(g1, FLAG_N, FLAG_Z, false);
    lemma_flag_set(g1, FLAG_N, FLAG_N, false);
    lemma_flag_set(g2, FLAG_H, FLAG_Z, lop == LogicOp::And);
    lemma_flag_set(g2, FLAG_H, FLAG_N, lop == LogicOp::And);
    lemma_flag_set(g2, FLAG_H, FLAG_H, lop == LogicOp::And);
    lemma_flag_set(g3, FLAG_C, FLAG_Z, false);
    lemma_flag_set(g3, FLAG_C, FLAG_N, false);
    lemma_flag_set(g3, FLAG_C, FLAG_H, false);
    lemma_flag_set(g3, FLAG_C, FLAG_C, false);
}

} // verus!
