//! The CPU's fetch-execute cycle: which decoded instructions it carries
//! out, what one instruction does, and the step with its interrupts.
use vstd::prelude::*;
use vstd::slice::slice_subrange;
use crate::types::{
    spec_u16_le, SM83Opcode, SM83Oprand, SM83Register16, HWREG_IE_INTERRUPT_ENABLE, HWREG_IF_INTERRUPT_FLAG,
};
use crate::sm83::{spec_condition, ArithOp, SM83, SM83State};
use crate::assembler::{
    bytes_read, is_opcode, parse_opcode, spec_bytes_read, spec_decode, spec_is_opcode,
    spec_parse_opcode,
};
use crate::instructions::{
    spec_is_alu_operand, spec_is_ld_operand, spec_is_ldh_operand, spec_is_target, LogicOp,
    ShiftOp,
};

verus! {

/// Whether the CPU carries out `op`: its operands have a form the
/// instruction takes, bit numbers are below 8, `JP` through a register goes
/// through HL, and a 16 bit store fits below the end of the address space.
pub open spec fn spec_executable(op: SM83Opcode) -> bool {
    match op {
        SM83Opcode::ADD { oprand } => spec_is_alu_operand(oprand) || oprand is R16ToR16
            || oprand is R16AndE8,
        SM83Opcode::SUB { oprand } | SM83Opcode::ADC { oprand } | SM83Opcode::SBC { oprand }
        | SM83Opcode::CP { oprand } | SM83Opcode::AND { oprand } | SM83Opcode::OR { oprand }
        | SM83Opcode::XOR { oprand } => spec_is_alu_operand(oprand),
        SM83Opcode::INC { oprand } | SM83Opcode::DEC { oprand } => spec_is_target(oprand)
            || oprand is R16,
        SM83Opcode::BIT { u3, oprand } | SM83Opcode::RES { u3, oprand } | SM83Opcode::SET {
            u3,
            oprand,
        } => u3 < 8 && spec_is_target(oprand),
        SM83Opcode::RLC { oprand } | SM83Opcode::RRC { oprand } | SM83Opcode::RL { oprand }
        | SM83Opcode::RR { oprand } | SM83Opcode::SLA { oprand } | SM83Opcode::SRA { oprand }
        | SM83Opcode::SRL { oprand } | SM83Opcode::SWAP { oprand } => spec_is_target(oprand),
        SM83Opcode::LD { oprand } => spec_is_ld_operand(oprand),
        SM83Opcode::LDH { oprand } => spec_is_ldh_operand(oprand),
        SM83Opcode::JP { oprand } => oprand is CCAndA16 || oprand is A16 || oprand == (
        SM83Oprand::R16 { r16: SM83Register16::HL }),
        SM83Opcode::JR { oprand } => oprand is E8 || oprand is CCAndE8,
        SM83Opcode::CALL { oprand } => oprand is CCAndA16 || oprand is A16,
        SM83Opcode::RET { oprand } => oprand is CC,
        SM83Opcode::PUSH { oprand } | SM83Opcode::POP { oprand } => oprand is R16,
        _ => true,
    }
}

/// Instructions the interrupt handlers may run, in all, during one
/// `execute_step`: every step count a `u64` holds, so a handler that never
/// returns keeps the machine running for as long as any run can last.
pub const INTERRUPT_STEP_BUDGET: u64 = 0xFFFF_FFFF_FFFF_FFFF;

/// Why a step could not be completed.
#[derive(Debug, Clone, Copy, PartialEq, Eq, Structural)]
pub enum StepError {
    /// The byte at PC is not the first byte of an instruction.
    UndefinedOpcode,
    /// The instruction at PC runs past the end of the address space.
    EndOfMemory,
    /// The decoded instruction has operands the CPU does not carry out.
    UnsupportedOperand,
    /// A step budget ran out: an interrupt handler before its `RETI`, or the
    /// init routine of a player before its return.
    BudgetExhausted,
}

/// Whether the CPU carries out `op`.
pub fn is_executable(op: &SM83Opcode) -> (r: bool)
    ensures
        r == spec_executable(*op),
{
    match *op {
        SM83Opcode::ADD { oprand } => is_alu_operand(&oprand) || matches!(
            oprand,
            SM83Oprand::R16ToR16 { .. },
        ) || matches!(oprand, SM83Oprand::R16AndE8 { .. }),
        SM83Opcode::SUB { oprand } | SM83Opcode::ADC { oprand } | SM83Opcode::SBC { oprand }
        | SM83Opcode::CP { oprand } | SM83Opcode::AND { oprand } | SM83Opcode::OR { oprand }
        | SM83Opcode::XOR { oprand } => is_alu_operand(&oprand),
        SM83Opcode::INC { oprand } | SM83Opcode::DEC { oprand } => is_target(&oprand) || matches!(
            oprand,
            SM83Oprand::R16 { .. },
        ),
        SM83Opcode::BIT { u3, oprand } | SM83Opcode::RES { u3, oprand } | SM83Opcode::SET {
            u3,
            oprand,
        } => u3 < 8 && is_target(&oprand),
        SM83Opcode::RLC { oprand } | SM83Opcode::RRC { oprand } | SM83Opcode::RL { oprand }
        | SM83Opcode::RR { oprand } | SM83Opcode::SLA { oprand } | SM83Opcode::SRA { oprand }
        | SM83Opcode::SRL { oprand } | SM83Opcode::SWAP { oprand } => is_target(&oprand),
        SM83Opcode::LD { oprand } => match oprand {
            SM83Oprand::N16ToR16 { .. } | SM83Oprand::R8ToR16Indirect { .. }
            | SM83Oprand::N8ToR8 { .. } | SM83Oprand::R16IndirectToR8 { .. }
            | SM83Oprand::N8ToR16Indirect { .. } | SM83Oprand::R8ToR8 { .. }
            | SM83Oprand::R8ToA16 { .. } | SM83Oprand::A16ToR8 { .. }
            | SM83Oprand::R16ToR16 { .. } | SM83Oprand::R16E8IndirectToR16 { .. } => true,
            SM83Oprand::R16ToA16 { a16, .. } => a16 < 0xFFFF,
            _ => false,
        },
        SM83Opcode::LDH { oprand } => matches!(
            oprand,
            SM83Oprand::R8ToA8 { .. } | SM83Oprand::A8ToR8 { .. } | SM83Oprand::R8IndirectToR8 {
                ..
            } | SM83Oprand::R8ToR8Indirect { .. }
        ),
        SM83Opcode::JP { oprand } => match oprand {
            SM83Oprand::CCAndA16 { .. } | SM83Oprand::A16 { .. } => true,
            SM83Oprand::R16 { r16 } => matches!(r16, SM83Register16::HL),
            _ => false,
        },
        SM83Opcode::JR { oprand } => matches!(
            oprand,
            SM83Oprand::E8 { .. } | SM83Oprand::CCAndE8 { .. }
        ),
        SM83Opcode::CALL { oprand } => matches!(
            oprand,
            SM83Oprand::CCAndA16 { .. } | SM83Oprand::A16 { .. }
        ),
        SM83Opcode::RET { oprand } => matches!(oprand, SM83Oprand::CC { .. }),
        SM83Opcode::PUSH { oprand } | SM83Opcode::POP { oprand } => matches!(
            oprand,
            SM83Oprand::R16 { .. }
        ),
        _ => true,
    }
}

fn is_alu_operand(opr: &SM83Oprand) -> (r: bool)
    ensures
        r == spec_is_alu_operand(*opr),
{
    matches!(
        *opr,
        SM83Oprand::R8AndR8 { .. } | SM83Oprand::R8AndR16Indirect { .. } | SM83Oprand::R8AndN8 {
            ..
        }
    )
}

fn is_target(opr: &SM83Oprand) -> (r: bool)
    ensures
        r == spec_is_target(*opr),
{
    matches!(*opr, SM83Oprand::R8 { .. } | SM83Oprand::R16Indirect { .. })
}

impl SM83State {
    /// The machine and clocks after `op`, an instruction the CPU carries out.
    pub open spec fn spec_execute_opcode(self, op: SM83Opcode) -> (SM83State, u8) {
        match op {
            SM83Opcode::ADD { oprand } => self.spec_exec_add(oprand),
            SM83Opcode::SUB { oprand } => self.spec_exec_arith(ArithOp::Sub, oprand, false),
            SM83Opcode::ADC { oprand } => self.spec_exec_arith(ArithOp::Adc, oprand, false),
            SM83Opcode::SBC { oprand } => self.spec_exec_arith(ArithOp::Sbc, oprand, false),
            SM83Opcode::CP { oprand } => self.spec_exec_arith(ArithOp::Sub, oprand, true),
            SM83Opcode::DEC { oprand } => self.spec_exec_inc_dec(oprand, false),
            SM83Opcode::INC { oprand } => self.spec_exec_inc_dec(oprand, true),
            SM83Opcode::OR { oprand } => self.spec_exec_logic(LogicOp::Or, oprand),
            SM83Opcode::AND { oprand } => self.spec_exec_logic(LogicOp::And, oprand),
            SM83Opcode::XOR { oprand } => self.spec_exec_logic(LogicOp::Xor, oprand),
            SM83Opcode::BIT { u3, oprand } => self.spec_exec_bit(u3, oprand),
            SM83Opcode::RES { u3, oprand } => self.spec_exec_res_set(u3, oprand, false),
            SM83Opcode::SET { u3, oprand } => self.spec_exec_res_set(u3, oprand, true),
            SM83Opcode::SWAP { oprand } => self.spec_exec_shift(ShiftOp::Swap, oprand),
            SM83Opcode::RLC { oprand } => self.spec_exec_shift(ShiftOp::Rlc, oprand),
            SM83Opcode::RRC { oprand } => self.spec_exec_shift(ShiftOp::Rrc, oprand),
            SM83Opcode::RL { oprand } => self.spec_exec_shift(ShiftOp::Rl, oprand),
            SM83Opcode::RR { oprand } => self.spec_exec_shift(ShiftOp::Rr, oprand),
            SM83Opcode::SLA { oprand } => self.spec_exec_shift(ShiftOp::Sla, oprand),
            SM83Opcode::SRA { oprand } => self.spec_exec_shift(ShiftOp::Sra, oprand),
            SM83Opcode::SRL { oprand } => self.spec_exec_shift(ShiftOp::Srl, oprand),
            SM83Opcode::LD { oprand } => self.spec_exec_ld(oprand),
            SM83Opcode::LDH { oprand } => self.spec_exec_ldh(oprand),
            SM83Opcode::JP { oprand } => self.spec_exec_jp(oprand),
            SM83Opcode::JR { oprand } => self.spec_exec_jr(oprand),
            SM83Opcode::CALL { oprand } => self.spec_exec_call(oprand),
            SM83Opcode::RETNooprand => (self.spec_return(), 4),
            SM83Opcode::RET { oprand } => match oprand {
                SM83Oprand::CC { cc } => if spec_condition(self.regs.f, cc) {
                    (self.spec_return(), 5)
                } else {
                    (self, 2)
                },
                _ => (self, 0),
            },
            SM83Opcode::RETI => (SM83State { ime_flag: true, ..self.spec_return() }, 4),
            SM83Opcode::RST { vec } => (self.spec_push16(self.regs.pc).with_pc(vec as u16), 4),
            SM83Opcode::PUSH { oprand } => match oprand {
                SM83Oprand::R16 { r16 } => (self.spec_push16(self.r16(r16)), 4),
                _ => (self, 0),
            },
            SM83Opcode::POP { oprand } => match oprand {
                SM83Oprand::R16 { r16 } => {
                    let (s, v) = self.spec_pop16();
                    (s.with_r16(r16, v), 3)
                },
                _ => (self, 0),
            },
            _ => self.spec_exec_misc(op),
        }
    }
}

impl SM83State {
    /// The instruction at PC and its length, or why it cannot be carried
    /// out: an undefined first byte, an instruction that runs past the end
    /// of the address space (PC may not wrap past 0xFFFF either), or
    /// operands the CPU does not take.
    pub closed spec fn spec_fetch(self) -> Result<(SM83Opcode, u16), StepError> {
        let pc = self.regs.pc as int;
        let op = self.mem[pc];
        if !spec_is_opcode(op) {
            Err(StepError::UndefinedOpcode)
        } else if pc + spec_bytes_read(op) > 0x10000 {
            Err(StepError::EndOfMemory)
        } else {
            let (opcode, len) = spec_parse_opcode(self.mem.subrange(pc, 0x10000));
            if pc + len > 0xFFFF {
                Err(StepError::EndOfMemory)
            } else if !spec_executable(opcode) {
                Err(StepError::UnsupportedOperand)
            } else {
                Ok((opcode, len))
            }
        }
    }

    /// One instruction once interrupts are dealt with: fetch, advance PC,
    /// execute, and run the system clocks it takes. A failed fetch changes
    /// nothing.
    pub closed spec fn spec_step_body(self) -> (SM83State, Result<(SM83Opcode, u8), StepError>) {
        match self.spec_fetch() {
            Err(e) => (self, Err(e)),
            Ok((opcode, len)) => {
                let (s, cycle) = self.with_pc((self.regs.pc + len) as u16).spec_execute_opcode(
                    opcode,
                );
                (s.spec_system_clock_ticks(cycle as nat), Ok((opcode, cycle)))
            },
        }
    }

    /// The machine on entry to the handler of interrupt `i`: interrupts
    /// disabled, request bit `i` withdrawn, PC pushed and set to
    /// 0x0040 + 8 * `i`.
    pub closed spec fn spec_enter_interrupt(self, i: u8) -> SM83State {
        let s = SM83State { ime_flag: false, ..self }.with_mem(
            HWREG_IF_INTERRUPT_FLAG as int,
            self.mem[HWREG_IF_INTERRUPT_FLAG as int] & !(1u8 << i),
        );
        s.spec_push16(self.regs.pc).with_pc((0x40 + 8 * i) as u16)
    }

    /// One step with `fuel` instructions left for interrupt handlers: the
    /// machine after it, the instruction and its clocks (or the error), and
    /// the fuel left.
    pub closed spec fn spec_step(self, fuel: nat) -> (
        SM83State,
        Result<(SM83Opcode, u8), StepError>,
        nat,
    )
        decreases fuel, 2nat, 0nat,
    {
        let (s, r, f) = self.spec_handle_interrupts(fuel);
        match r {
            Err(e) => (s, Err(e), f),
            Ok(_) => {
                let (s2, r2) = s.spec_step_body();
                (s2, r2, f)
            },
        }
    }

    /// Interrupt handling before an instruction: with interrupts enabled,
    /// each interrupt that is both requested and enabled at this point is
    /// served in priority order (bit 0 first).
    pub closed spec fn spec_handle_interrupts(self, fuel: nat) -> (
        SM83State,
        Result<(), StepError>,
        nat,
    )
        decreases fuel, 1nat, 6nat,
    {
        if !self.ime_flag {
            (self, Ok(()), fuel)
        } else {
            let iflags = self.mem[HWREG_IF_INTERRUPT_FLAG as int]
                & self.mem[HWREG_IE_INTERRUPT_ENABLE as int];
            self.spec_serve_interrupts(iflags, 0, fuel)
        }
    }

    /// Serves the interrupts of `iflags` from bit `i` on: each is entered
    /// and its handler run up to and including its `RETI`.
    pub closed spec fn spec_serve_interrupts(self, iflags: u8, i: u8, fuel: nat) -> (
        SM83State,
        Result<(), StepError>,
        nat,
    )
        decreases fuel, 1nat, 5 - i,
    {
        if i >= 5 {
            (self, Ok(()), fuel)
        } else if iflags & (1u8 << i) == 0 {
            self.spec_serve_interrupts(iflags, (i + 1) as u8, fuel)
        } else {
            let (s, r, f) = self.spec_enter_interrupt(i).spec_run_handler(fuel);
            match r {
                Err(e) => (s, Err(e), f),
                Ok(_) => s.spec_serve_interrupts(
                    iflags,
                    (i + 1) as u8,
                    if f <= fuel {
                        f
                    } else {
                        fuel
                    },
                ),
            }
        }
    }

    /// Runs steps until one carries out `RETI`; each step uses one unit of fuel.
    pub closed spec fn spec_run_handler(self, fuel: nat) -> (
        SM83State,
        Result<(), StepError>,
        nat,
    )
        decreases fuel, 0nat, 0nat,
    {
        if fuel == 0 {
            (self, Err(StepError::BudgetExhausted), 0)
        } else {
            let (s, r, f) = self.spec_step((fuel - 1) as nat);
            match r {
                Err(e) => (s, Err(e), f),
                Ok((op, _)) => if op is RETI {
                    (s, Ok(()), f)
                } else {
                    s.spec_run_handler(
                        if f < fuel {
                            f
                        } else {
                            (fuel - 1) as nat
                        },
                    )
                },
            }
        }
    }
}

impl SM83 {
    /// Carries out one decoded instruction; returns the system clocks it
    /// takes. PC must already point past the instruction.
    pub fn execute_opcode(&mut self, opcode: &SM83Opcode) -> (r: u8)
        requires
            old(self).wf(),
            spec_executable(*opcode),
        ensures
            final(self).wf(),
            (final(self)@, r) == old(self)@.spec_execute_opcode(*opcode),
            1 <= r <= 6,
    {
        match *opcode {
            SM83Opcode::ADD { oprand } => self.execute_add(oprand),
            SM83Opcode::SUB { oprand } => self.execute_sub_adc_sbc(ArithOp::Sub, oprand, false),
            SM83Opcode::ADC { oprand } => self.execute_sub_adc_sbc(ArithOp::Adc, oprand, false),
            SM83Opcode::SBC { oprand } => self.execute_sub_adc_sbc(ArithOp::Sbc, oprand, false),
            SM83Opcode::CP { oprand } => self.execute_sub_adc_sbc(ArithOp::Sub, oprand, true),
            SM83Opcode::DEC { oprand } => self.execute_inc_dec(oprand, false),
            SM83Opcode::INC { oprand } => self.execute_inc_dec(oprand, true),
            SM83Opcode::OR { oprand } => self.execute_logic(LogicOp::Or, oprand),
            SM83Opcode::AND { oprand } => self.execute_logic(LogicOp::And, oprand),
            SM83Opcode::XOR { oprand } => self.execute_logic(LogicOp::Xor, oprand),
            SM83Opcode::BIT { u3, oprand } => self.execute_bit(u3, oprand),
            SM83Opcode::RES { u3, oprand } => self.execute_res_set(u3, oprand, false),
            SM83Opcode::SET { u3, oprand } => self.execute_res_set(u3, oprand, true),
            SM83Opcode::SWAP { oprand } => self.execute_shift(ShiftOp::Swap, oprand),
            SM83Opcode::RLC { oprand } => self.execute_shift(ShiftOp::Rlc, oprand),
            SM83Opcode::RRC { oprand } => self.execute_shift(ShiftOp::Rrc, oprand),
            SM83Opcode::RL { oprand } => self.execute_shift(ShiftOp::Rl, oprand),
            SM83Opcode::RR { oprand } => self.execute_shift(ShiftOp::Rr, oprand),
            SM83Opcode::SLA { oprand } => self.execute_shift(ShiftOp::Sla, oprand),
            SM83Opcode::SRA { oprand } => self.execute_shift(ShiftOp::Sra, oprand),
            SM83Opcode::SRL { oprand } => self.execute_shift(ShiftOp::Srl, oprand),
            SM83Opcode::LD { oprand } => self.execute_ld(oprand),
            SM83Opcode::LDH { oprand } => self.execute_ldh(oprand),
            SM83Opcode::JP { oprand } => self.execute_jp(oprand),
            SM83Opcode::JR { oprand } => self.execute_jr(oprand),
            SM83Opcode::CALL { oprand } => self.execute_call(oprand),
            SM83Opcode::RETNooprand => {
                self.return_from_call();
                4
            },
            SM83Opcode::RET { oprand } => match oprand {
                SM83Oprand::CC { cc } => {
                    if self.test_condition_code(&cc) {
                        self.return_from_call();
                        5
                    } else {
                        2
                    }
                },
                _ => 0,
            },
            SM83Opcode::RETI => {
                self.return_from_call();
                self.ime_flag = true;
                4
            },
            SM83Opcode::RST { vec } => {
                let pc = self.regs.pc;
                self.push16(pc);
                self.regs.pc = vec as u16;
                4
            },
            SM83Opcode::PUSH { oprand } => match oprand {
                SM83Oprand::R16 { r16 } => {
                    let value = self.get_r16(&r16);
                    self.push16(value);
                    4
                },
                _ => 0,
            },
            SM83Opcode::POP { oprand } => match oprand {
                SM83Oprand::R16 { r16 } => {
                    let value = self.pop16();
                    self.set_r16(&r16, value);
                    3
                },
                _ => 0,
            },
            _ => self.execute_misc(*opcode),
        }
    }

    /// Decodes the instruction at PC, or says why it cannot be carried out.
    fn fetch(&self) -> (r: Result<(SM83Opcode, u16), StepError>)
        requires
            self.wf(),
        ensures
            r == self@.spec_fetch(),
    {
        let pc = self.regs.pc as usize;
        let op = self.mem[pc];
        if !is_opcode(op) {
            return Err(StepError::UndefinedOpcode);
        }
        if pc + bytes_read(op) > 0x10000 {
            return Err(StepError::EndOfMemory);
        }
        let code = slice_subrange(self.mem.as_slice(), pc, 0x10000);
        let (opcode, len) = parse_opcode(code);
        if pc + len as usize > 0xFFFF {
            Err(StepError::EndOfMemory)
        } else if !is_executable(&opcode) {
            Err(StepError::UnsupportedOperand)
        } else {
            Ok((opcode, len))
        }
    }

    /// Fetches, advances PC past, carries out and clocks one instruction.
    fn step_body(&mut self) -> (r: Result<(SM83Opcode, u8), StepError>)
        requires
            old(self).wf(),
        ensures
            final(self).wf(),
            (final(self)@, r) == old(self)@.spec_step_body(),
            r matches Ok((_, c)) ==> 1 <= c <= 6,
    {
        match self.fetch() {
            Err(e) => Err(e),
            Ok((opcode, len)) => {
                self.regs.pc = self.regs.pc + len;
                let cycle = self.execute_opcode(&opcode);
                self.system_clock_ticks(cycle);
                Ok((opcode, cycle))
            },
        }
    }

    /// Enters the handler of interrupt `i`.
    fn enter_interrupt(&mut self, i: u8)
        requires
            old(self).wf(),
            i < 5,
        ensures
            final(self).wf(),
            final(self)@ == old(self)@.spec_enter_interrupt(i),
    {
        self.ime_flag = false;
        self.mem[HWREG_IF_INTERRUPT_FLAG] = self.mem[HWREG_IF_INTERRUPT_FLAG] & !(1u8 << i);
        let pc = self.regs.pc;
        self.push16(pc);
        self.regs.pc = 0x0040 + 8 * (i as u16);
    }

    /// Runs one instruction after serving pending interrupts; interrupt
    /// handlers may run `budget` instructions in all. Returns the
    /// instruction and its clocks, or the error, and the budget left.
    pub fn execute_step_with_budget(&mut self, budget: u64) -> (r: (
        Result<(SM83Opcode, u8), StepError>,
        u64,
    ))
        requires
            old(self).wf(),
        ensures
            final(self).wf(),
            r.1 <= budget,
            (final(self)@, r.0, r.1 as nat) == old(self)@.spec_step(budget as nat),
            r.0 matches Ok((_, c)) ==> 1 <= c <= 6,
        decreases budget, 2nat, 0nat,
    {
        let (r, left) = self.handle_interrupt(budget);
        match r {
            Err(e) => (Err(e), left),
            Ok(_) => {
                let r2 = self.step_body();
                (r2, left)
            },
        }
    }

    /// Runs one instruction after serving pending interrupts, whose
    /// handlers may run `INTERRUPT_STEP_BUDGET` instructions in all.
    pub fn execute_step(&mut self) -> (r: Result<(SM83Opcode, u8), StepError>)
        requires
            old(self).wf(),
        ensures
            final(self).wf(),
            final(self)@ == old(self)@.spec_step(INTERRUPT_STEP_BUDGET as nat).0,
            r == old(self)@.spec_step(INTERRUPT_STEP_BUDGET as nat).1,
            r matches Ok((_, c)) ==> 1 <= c <= 6,
    {
        let (r, _) = self.execute_step_with_budget(INTERRUPT_STEP_BUDGET);
        r
    }

    /// Serves pending interrupts when interrupts are enabled.
    fn handle_interrupt(&mut self, fuel: u64) -> (r: (Result<(), StepError>, u64))
        requires
            old(self).wf(),
        ensures
            final(self).wf(),
            r.1 <= fuel,
            (final(self)@, r.0, r.1 as nat) == old(self)@.spec_handle_interrupts(fuel as nat),
        decreases fuel, 1nat, 6nat,
    {
        if !self.ime_flag {
            return (Ok(()), fuel);
        }
        // interrupts requested and enabled, served by priority (bit 0 first)
        let iflags = self.mem[HWREG_IF_INTERRUPT_FLAG] & self.mem[HWREG_IE_INTERRUPT_ENABLE];
        self.serve_interrupts(iflags, 0, fuel)
    }

    /// Serves the interrupts of `iflags` from bit `i` on.
    fn serve_interrupts(&mut self, iflags: u8, i: u8, fuel: u64) -> (r: (
        Result<(), StepError>,
        u64,
    ))
        requires
            old(self).wf(),
            i <= 5,
        ensures
            final(self).wf(),
            r.1 <= fuel,
            (final(self)@, r.0, r.1 as nat) == old(self)@.spec_serve_interrupts(
                iflags,
                i,
                fuel as nat,
            ),
        decreases fuel, 1nat, 5 - i,
    {
        if i >= 5 {
            return (Ok(()), fuel);
        }
        if iflags & (1u8 << i) == 0 {
            return self.serve_interrupts(iflags, i + 1, fuel);
        }
        self.enter_interrupt(i);
        let (r, left) = self.run_handler(fuel);
        match r {
            Err(e) => (Err(e), left),
            Ok(_) => self.serve_interrupts(iflags, i + 1, left),
        }
    }

    /// Runs an interrupt handler up to and including its `RETI`.
    fn run_handler(&mut self, fuel: u64) -> (r: (Result<(), StepError>, u64))
        requires
            old(self).wf(),
        ensures
            final(self).wf(),
            r.1 <= fuel,
            (final(self)@, r.0, r.1 as nat) == old(self)@.spec_run_handler(fuel as nat),
        decreases fuel, 0nat, 0nat,
    {
        // a loop rather than a call per instruction, so a long handler
        // does not deepen the stack
        let mut left = fuel;
        loop
            invariant
                self.wf(),
                left <= fuel,
                old(self)@.spec_run_handler(fuel as nat) == self@.spec_run_handler(left as nat),
            decreases left,
        {
            if left == 0 {
                return (Err(StepError::BudgetExhausted), 0);
            }
            let (r, rest) = self.execute_step_with_budget(left - 1);
            match r {
                Err(e) => {
                    return (Err(e), rest);
                },
                Ok((op, _)) => {
                    if matches!(op, SM83Opcode::RETI) {
                        return (Ok(()), rest);
                    }
                },
            }
            left = rest;
        }
    }
}

/// Every instruction the decoder produces is one the CPU carries out,
/// except `LD (a16), SP` with `a16` = 0xFFFF, whose second byte would fall
/// past the end of the address space; and the decoder never reads fewer
/// bytes than the instruction is long.
pub proof fn lemma_decoded_instructions_executable(op: u8, b1: u8, b2: u8)
    requires
        spec_is_opcode(op),
        !(op == 0x08 && spec_u16_le(b1, b2) == 0xFFFF),
    ensures
        spec_executable(spec_decode(op, b1, b2).0),
        1 <= spec_decode(op, b1, b2).1 <= spec_bytes_read(op) <= 3,
{
}

/// With interrupts disabled, or none of the five both requested and
/// enabled, a step serves no interrupt and uses none of the budget: it is
/// the fetch and execution of the instruction at PC.
pub proof fn lemma_step_without_interrupts(s: SM83State, fuel: nat)
    requires
        !s.ime_flag || (s.mem[HWREG_IF_INTERRUPT_FLAG as int] & s.mem[HWREG_IE_INTERRUPT_ENABLE as int])
            & 0x1F == 0,
    ensures
        s.spec_step(fuel) == (s.spec_step_body().0, s.spec_step_body().1, fuel),
{
    if s.ime_flag {
        let iflags = s.mem[HWREG_IF_INTERRUPT_FLAG as int] & s.mem[HWREG_IE_INTERRUPT_ENABLE as int];
        assert(iflags & 0x1F == 0 ==> iflags & (1u8 << 0u8) == 0 && iflags & (1u8 << 1u8) == 0
            && iflags & (1u8 << 2u8) == 0 && iflags & (1u8 << 3u8) == 0 && iflags & (1u8 << 4u8)
            == 0) by (bit_vector);
        assert(s.spec_serve_interrupts(iflags, 5, fuel) == (s, Ok::<(), StepError>(()), fuel));
        assert(s.spec_serve_interrupts(iflags, 4, fuel) == (s, Ok::<(), StepError>(()), fuel));
        assert(s.spec_serve_interrupts(iflags, 3, fuel) == (s, Ok::<(), StepError>(()), fuel));
        assert(s.spec_serve_interrupts(iflags, 2, fuel) == (s, Ok::<(), StepError>(()), fuel));
        assert(s.spec_serve_interrupts(iflags, 1, fuel) == (s, Ok::<(), StepError>(()), fuel));
        assert(s.spec_serve_interrupts(iflags, 0, fuel) == (s, Ok::<(), StepError>(()), fuel));
    }
}

/// Interrupts are served in priority order: with interrupts enabled, when
/// interrupt `i` is the lowest one both requested and enabled, the step
/// passes over the lower ones and first enters the handler of `i`.
pub proof fn lemma_interrupt_priority(s: SM83State, fuel: nat, i: u8)
    requires
        s.ime_flag,
        i < 5,
        (s.mem[HWREG_IF_INTERRUPT_FLAG as int] & s.mem[HWREG_IE_INTERRUPT_ENABLE as int]) & (1u8
            << i) != 0,
        (s.mem[HWREG_IF_INTERRUPT_FLAG as int] & s.mem[HWREG_IE_INTERRUPT_ENABLE as int]) & ((1u8
            << i) - 1) as u8 == 0,
    ensures
        ({
            let iflags = s.mem[HWREG_IF_INTERRUPT_FLAG as int]
                & s.mem[HWREG_IE_INTERRUPT_ENABLE as int];
            let (t, r, f) = s.spec_enter_interrupt(i).spec_run_handler(fuel);
            s.spec_handle_interrupts(fuel) == match r {
                Err(e) => (t, Err(e), f),
                Ok(_) => t.spec_serve_interrupts(
                    iflags,
                    (i + 1) as u8,
                    if f <= fuel {
                        f
                    } else {
                        fuel
                    },
                ),
            }
        }),
{
    let iflags = s.mem[HWREG_IF_INTERRUPT_FLAG as int] & s.mem[HWREG_IE_INTERRUPT_ENABLE as int];
    assert(forall|j: u8|
        j < i && i < 5 && iflags & ((1u8 << i) - 1) as u8 == 0 ==> #[trigger] (iflags & (1u8 << j))
            == 0) by (bit_vector);
    if i >= 4 {
        assert(iflags & (1u8 << 3u8) == 0);
        assert(s.spec_serve_interrupts(iflags, 3, fuel) == s.spec_serve_interrupts(iflags, 4, fuel));
    }
    if i >= 3 {
        assert(iflags & (1u8 << 2u8) == 0);
        assert(s.spec_serve_interrupts(iflags, 2, fuel) == s.spec_serve_interrupts(iflags, 3, fuel));
    }
    if i >= 2 {
        assert(iflags & (1u8 << 1u8) == 0);
        assert(s.spec_serve_interrupts(iflags, 1, fuel) == s.spec_serve_interrupts(iflags, 2, fuel));
    }
    if i >= 1 {
        assert(iflags & (1u8 << 0u8) == 0);
        assert(s.spec_serve_interrupts(iflags, 0, fuel) == s.spec_serve_interrupts(iflags, 1, fuel));
    }
}

/// `spec_fetch` spelled out, for proofs outside this module.
pub proof fn lemma_fetch_def(machine: SM83State)
    ensures
        ({
            let d: Result<(SM83Opcode, u16), StepError> = {
                let pc = machine.regs.pc as int;
                let op = machine.mem[pc];
                if !spec_is_opcode(op) {
                    Err(StepError::UndefinedOpcode)
                } else if pc + spec_bytes_read(op) > 0x10000 {
                    Err(StepError::EndOfMemory)
                } else {
                    let (opcode, len) = spec_parse_opcode(machine.mem.subrange(pc, 0x10000));
                    if pc + len > 0xFFFF {
                        Err(StepError::EndOfMemory)
                    } else if !spec_executable(opcode) {
                        Err(StepError::UnsupportedOperand)
                    } else {
                        Ok((opcode, len))
                    }
                }
            };
            machine.spec_fetch() == d
        }),
{
}

/// `spec_step_body` spelled out, for proofs outside this module.
pub proof fn lemma_step_body_def(machine: SM83State)
    ensures
        ({
            let d: (SM83State, Result<(SM83Opcode, u8), StepError>) = {
                match machine.spec_fetch() {
                    Err(e) => (machine, Err(e)),
                    Ok((opcode, len)) => {
                        let (s, cycle) = machine.with_pc((machine.regs.pc + len) as u16).spec_execute_opcode(
                            opcode,
                        );
                        (s.spec_system_clock_ticks(cycle as nat), Ok((opcode, cycle)))
                    },
                }
            };
            machine.spec_step_body() == d
        }),
{
}

/// `spec_enter_interrupt` spelled out, for proofs outside this module.
pub proof fn lemma_enter_interrupt_def(machine: SM83State, i: u8)
    ensures
        ({
            let d: SM83State = {
                let s = SM83State { ime_flag: false, ..machine }.with_mem(
                    HWREG_IF_INTERRUPT_FLAG as int,
                    machine.mem[HWREG_IF_INTERRUPT_FLAG as int] & !(1u8 << i),
                );
                s.spec_push16(machine.regs.pc).with_pc((0x40 + 8 * i) as u16)
            };
            machine.spec_enter_interrupt(i) == d
        }),
{
}

/// `spec_step` spelled out, for proofs outside this module.
pub proof fn lemma_step_def(machine: SM83State, fuel: nat)
    ensures
        ({
            let d: (SM83State, Result<(SM83Opcode, u8), StepError>, nat) = {
                let (s, r, f) = machine.spec_handle_interrupts(fuel);
                match r {
                    Err(e) => (s, Err(e), f),
                    Ok(_) => {
                        let (s2, r2) = s.spec_step_body();
                        (s2, r2, f)
                    },
                }
            };
            machine.spec_step(fuel) == d
        }),
{
}

/// `spec_handle_interrupts` spelled out, for proofs outside this module.
pub proof fn lemma_handle_interrupts_def(machine: SM83State, fuel: nat)
    ensures
        ({
            let d: (SM83State, Result<(), StepError>, nat) = {
                if !machine.ime_flag {
                    (machine, Ok(()), fuel)
                } else {
                    let iflags = machine.mem[HWREG_IF_INTERRUPT_FLAG as int]
                        & machine.mem[HWREG_IE_INTERRUPT_ENABLE as int];
                    machine.spec_serve_interrupts(iflags, 0, fuel)
                }
            };
            machine.spec_handle_interrupts(fuel) == d
        }),
{
}

/// `spec_serve_interrupts` spelled out, for proofs outside this module.
pub proof fn lemma_serve_interrupts_def(machine: SM83State, iflags: u8, i: u8, fuel: nat)
    ensures
        ({
            let d: (SM83State, Result<(), StepError>, nat) = {
                if i >= 5 {
                    (machine, Ok(()), fuel)
                } else if iflags & (1u8 << i) == 0 {
                    machine.spec_serve_interrupts(iflags, (i + 1) as u8, fuel)
                } else {
                    let (s, r, f) = machine.spec_enter_interrupt(i).spec_run_handler(fuel);
                    match r {
                        Err(e) => (s, Err(e), f),
                        Ok(_) => s.spec_serve_interrupts(
                            iflags,
                            (i + 1) as u8,
                            if f <= fuel {
                                f
                            } else {
                                fuel
                            },
                        ),
                    }
                }
            };
            machine.spec_serve_interrupts(iflags, i, fuel) == d
        }),
{
}

/// `spec_run_handler` spelled out, for proofs outside this module.
pub proof fn lemma_run_handler_def(machine: SM83State, fuel: nat)
    ensures
        ({
            let d: (SM83State, Result<(), StepError>, nat) = {
                if fuel == 0 {
                    (machine, Err(StepError::BudgetExhausted), 0)
                } else {
                    let (s, r, f) = machine.spec_step((fuel - 1) as nat);
                    match r {
                        Err(e) => (s, Err(e), f),
                        Ok((op, _)) => if op is RETI {
                            (s, Ok(()), f)
                        } else {
                            s.spec_run_handler(
                                if f < fuel {
                                    f
                                } else {
                                    (fuel - 1) as nat
                                },
                            )
                        },
                    }
                }
            };
            machine.spec_run_handler(fuel) == d
        }),
{
}

} // verus!
