use gbs_player::cpu::StepError;
use gbs_player::sm83::{SM83, FLAG_C, FLAG_H, FLAG_N, FLAG_Z, SM83_INTERRUPT_FLAG_TIMER};
use gbs_player::types::{
    SM83Opcode, SM83Oprand, SM83Register16, SM83Register8, HWREG_DIV_REGISTER,
    HWREG_IE_INTERRUPT_ENABLE, HWREG_IF_INTERRUPT_FLAG, HWREG_TAC_TIMER_CONTROL,
    HWREG_TIMA_TIMER_COUNTER, HWREG_TMA_TIMER_MODULO,
};

/// A machine with two empty ROM banks and `code` placed at 0xC000, PC there.
fn machine_with(code: &[u8]) -> SM83 {
    let mut cpu = SM83::new(vec![0u8; 0x8000]);
    for (i, b) in code.iter().enumerate() {
        cpu.mem[0xC000 + i] = *b;
    }
    cpu.regs.pc = 0xC000;
    cpu.regs.sp = 0xDFF0;
    cpu
}

#[test]
fn power_on_state() {
    let cpu = SM83::new(vec![0u8; 4 * 0x4000]);
    assert_eq!(cpu.regs.pc, 0);
    assert_eq!(cpu.regs.sp, 0);
    assert_eq!(cpu.ramg, 0xA);
    assert_eq!(cpu.mbc1_bank1, 1);
    assert_eq!(cpu.mbc1_bank_mask, 3);
    assert!(!cpu.ime_flag);
    assert_eq!(cpu.timer_increment_mcycle, 256);
}

#[test]
fn nop_advances_pc() {
    let mut cpu = machine_with(&[0x00]);
    assert_eq!(cpu.execute_step(), Ok((SM83Opcode::NOP, 1)));
    assert_eq!(cpu.regs.pc, 0xC001);
}

#[test]
fn add_sets_zero_half_and_carry() {
    // ADD A, B
    let mut cpu = machine_with(&[0x80]);
    cpu.regs.a = 0x3A;
    cpu.regs.b = 0xC6;
    let r = cpu.execute_step();
    assert_eq!(
        r,
        Ok((
            SM83Opcode::ADD {
                oprand: SM83Oprand::R8AndR8 { r1: SM83Register8::A, r2: SM83Register8::B }
            },
            1
        ))
    );
    assert_eq!(cpu.regs.a, 0x00);
    assert_eq!(cpu.regs.f, FLAG_Z | FLAG_H | FLAG_C);
}

#[test]
fn sub_immediate_to_zero() {
    // SUB 0x3E
    let mut cpu = machine_with(&[0xD6, 0x3E]);
    cpu.regs.a = 0x3E;
    assert_eq!(cpu.execute_step().unwrap().1, 2);
    assert_eq!(cpu.regs.a, 0);
    assert_eq!(cpu.regs.f, FLAG_Z | FLAG_N);
    assert_eq!(cpu.regs.pc, 0xC002);
}

#[test]
fn sbc_with_borrow() {
    // SBC A, 0x01 with carry set: 0x10 - 0x01 - 1 = 0x0E, half borrow
    let mut cpu = machine_with(&[0xDE, 0x01]);
    cpu.regs.a = 0x10;
    cpu.regs.f = FLAG_C;
    cpu.execute_step().unwrap();
    assert_eq!(cpu.regs.a, 0x0E);
    assert_eq!(cpu.regs.f, FLAG_N | FLAG_H);
}

#[test]
fn adc_with_carry() {
    // ADC A, 0x0F with carry set: 0xE1 + 0x0F + 1 = 0xF1, half carry
    let mut cpu = machine_with(&[0xCE, 0x0F]);
    cpu.regs.a = 0xE1;
    cpu.regs.f = FLAG_C;
    cpu.execute_step().unwrap();
    assert_eq!(cpu.regs.a, 0xF1);
    assert_eq!(cpu.regs.f, FLAG_H);
}

#[test]
fn cp_keeps_a() {
    // CP B
    let mut cpu = machine_with(&[0xB8]);
    cpu.regs.a = 0x20;
    cpu.regs.b = 0x30;
    cpu.execute_step().unwrap();
    assert_eq!(cpu.regs.a, 0x20);
    assert_eq!(cpu.regs.f, FLAG_N | FLAG_C);
}

#[test]
fn logic_flags() {
    // AND B; XOR A; OR C
    let mut cpu = machine_with(&[0xA0, 0xAF, 0xB1]);
    cpu.regs.a = 0xF0;
    cpu.regs.b = 0x0F;
    cpu.regs.c = 0x81;
    cpu.execute_step().unwrap();
    assert_eq!(cpu.regs.a, 0);
    assert_eq!(cpu.regs.f, FLAG_Z | FLAG_H);
    cpu.execute_step().unwrap();
    assert_eq!(cpu.regs.a, 0);
    assert_eq!(cpu.regs.f, FLAG_Z);
    cpu.execute_step().unwrap();
    assert_eq!(cpu.regs.a, 0x81);
    assert_eq!(cpu.regs.f, 0);
}

#[test]
fn daa_after_addition() {
    // ADD A, B then DAA; bit 7 of the result follows the carry flag held before DAA
    let mut cpu = machine_with(&[0x80, 0x27]);
    cpu.regs.a = 0x45;
    cpu.regs.b = 0x38;
    cpu.execute_step().unwrap();
    assert_eq!(cpu.regs.a, 0x7D);
    assert_eq!(cpu.execute_step(), Ok((SM83Opcode::DAA, 1)));
    assert_eq!(cpu.regs.a, 0x63);
    assert_eq!(cpu.regs.f, 0);
}

#[test]
fn inc_then_dec_restores_register() {
    // INC B; DEC B
    let mut cpu = machine_with(&[0x04, 0x05]);
    cpu.regs.b = 0xFF;
    cpu.execute_step().unwrap();
    assert_eq!(cpu.regs.b, 0x00);
    assert_eq!(cpu.regs.f, FLAG_Z | FLAG_H);
    cpu.execute_step().unwrap();
    assert_eq!(cpu.regs.b, 0xFF);
    assert_eq!(cpu.regs.f, FLAG_N | FLAG_H);
}

#[test]
fn inc_dec_16_bit() {
    // INC BC; DEC DE
    let mut cpu = machine_with(&[0x03, 0x1B]);
    cpu.regs.b = 0x00;
    cpu.regs.c = 0xFF;
    cpu.regs.d = 0x00;
    cpu.regs.e = 0x00;
    assert_eq!(cpu.execute_step().unwrap().1, 2);
    assert_eq!((cpu.regs.b, cpu.regs.c), (0x01, 0x00));
    cpu.execute_step().unwrap();
    assert_eq!((cpu.regs.d, cpu.regs.e), (0xFF, 0xFF));
    assert_eq!(cpu.regs.f, 0);
}

#[test]
fn rotate_a_and_swap() {
    // RLCA; SWAP B
    let mut cpu = machine_with(&[0x07, 0xCB, 0x30]);
    cpu.regs.a = 0x85;
    cpu.regs.b = 0xA5;
    cpu.execute_step().unwrap();
    assert_eq!(cpu.regs.a, 0x0B);
    assert_eq!(cpu.regs.f, FLAG_C);
    assert_eq!(cpu.execute_step().unwrap().1, 2);
    assert_eq!(cpu.regs.b, 0x5A);
    assert_eq!(cpu.regs.f, 0);
}

#[test]
fn bit_res_set_on_memory() {
    // BIT 7, (HL); SET 0, (HL); RES 7, (HL)
    let mut cpu = machine_with(&[0xCB, 0x7E, 0xCB, 0xC6, 0xCB, 0xBE]);
    cpu.regs.h = 0xC1;
    cpu.regs.l = 0x00;
    cpu.mem[0xC100] = 0x80;
    assert_eq!(cpu.execute_step().unwrap().1, 3);
    assert_eq!(cpu.regs.f, FLAG_H);
    assert_eq!(cpu.execute_step().unwrap().1, 4);
    assert_eq!(cpu.mem[0xC100], 0x81);
    cpu.execute_step().unwrap();
    assert_eq!(cpu.mem[0xC100], 0x01);
}

#[test]
fn push_then_pop() {
    // PUSH BC; POP DE
    let mut cpu = machine_with(&[0xC5, 0xD1]);
    cpu.regs.b = 0x12;
    cpu.regs.c = 0x34;
    assert_eq!(cpu.execute_step().unwrap().1, 4);
    assert_eq!(cpu.regs.sp, 0xDFEE);
    assert_eq!(cpu.mem[0xDFEF], 0x12);
    assert_eq!(cpu.mem[0xDFEE], 0x34);
    assert_eq!(cpu.execute_step().unwrap().1, 3);
    assert_eq!((cpu.regs.d, cpu.regs.e), (0x12, 0x34));
    assert_eq!(cpu.regs.sp, 0xDFF0);
}

#[test]
fn call_and_return() {
    // CALL 0xC010; at 0xC010: RET
    let mut code = vec![0u8; 0x11];
    code[0] = 0xCD;
    code[1] = 0x10;
    code[2] = 0xC0;
    code[0x10] = 0xC9;
    let mut cpu = machine_with(&code);
    assert_eq!(cpu.execute_step().unwrap().1, 6);
    assert_eq!(cpu.regs.pc, 0xC010);
    assert_eq!(cpu.regs.sp, 0xDFEE);
    assert_eq!(cpu.execute_step(), Ok((SM83Opcode::RETNooprand, 4)));
    assert_eq!(cpu.regs.pc, 0xC003);
    assert_eq!(cpu.regs.sp, 0xDFF0);
}

#[test]
fn relative_jumps() {
    // JR -2 jumps to itself; JR Z not taken
    let mut cpu = machine_with(&[0x18, 0xFE]);
    assert_eq!(cpu.execute_step().unwrap().1, 3);
    assert_eq!(cpu.regs.pc, 0xC000);
    let mut cpu = machine_with(&[0x28, 0x10]);
    assert_eq!(cpu.execute_step().unwrap().1, 2);
    assert_eq!(cpu.regs.pc, 0xC002);
}

#[test]
fn load_through_hl_increment() {
    // LD (HL+), A
    let mut cpu = machine_with(&[0x22]);
    cpu.regs.a = 0x99;
    cpu.regs.h = 0xC1;
    cpu.regs.l = 0xFF;
    cpu.execute_step().unwrap();
    assert_eq!(cpu.mem[0xC1FF], 0x99);
    assert_eq!((cpu.regs.h, cpu.regs.l), (0xC2, 0x00));
}

#[test]
fn load_hl_sp_offset_keeps_half_and_carry() {
    // LD HL, SP-1
    let mut cpu = machine_with(&[0xF8, 0xFF]);
    cpu.regs.f = FLAG_Z | FLAG_C;
    cpu.execute_step().unwrap();
    assert_eq!((cpu.regs.h, cpu.regs.l), (0xDF, 0xEF));
    assert_eq!(cpu.regs.f, FLAG_C);
}

#[test]
fn add_sp_negative_offset() {
    // ADD SP, -2
    let mut cpu = machine_with(&[0xE8, 0xFE]);
    cpu.execute_step().unwrap();
    assert_eq!(cpu.regs.sp, 0xDFEE);
    assert_eq!(cpu.regs.f, FLAG_C);
}

#[test]
fn ldh_round_trip() {
    // LDH (0x80), A; LD A, 0x00; LDH A, (0x80)
    let mut cpu = machine_with(&[0xE0, 0x80, 0x3E, 0x00, 0xF0, 0x80]);
    cpu.regs.a = 0x42;
    assert_eq!(cpu.execute_step().unwrap().1, 3);
    assert_eq!(cpu.mem[0xFF80], 0x42);
    cpu.execute_step().unwrap();
    cpu.execute_step().unwrap();
    assert_eq!(cpu.regs.a, 0x42);
}

#[test]
fn stop_resets_divider() {
    let mut cpu = machine_with(&[0x10]);
    cpu.mem[HWREG_DIV_REGISTER] = 0x55;
    assert_eq!(cpu.execute_step(), Ok((SM83Opcode::STOP, 1)));
    assert_eq!(cpu.mem[HWREG_DIV_REGISTER], 0);
}

#[test]
fn undefined_opcode_is_an_error() {
    let mut cpu = machine_with(&[0xD3]);
    assert_eq!(cpu.execute_step(), Err(StepError::UndefinedOpcode));
    assert_eq!(cpu.regs.pc, 0xC000);
}

#[test]
fn instruction_past_end_is_an_error() {
    let mut cpu = machine_with(&[]);
    cpu.regs.pc = 0xFFFF;
    cpu.mem[0xFFFF] = 0x01;
    assert_eq!(cpu.execute_step(), Err(StepError::EndOfMemory));
    // a one byte instruction at 0xFFFF would take PC past 0xFFFF
    cpu.mem[0xFFFF] = 0x00;
    assert_eq!(cpu.execute_step(), Err(StepError::EndOfMemory));
}

#[test]
fn store_of_sp_at_last_address_is_an_error() {
    // LD (0xFFFF), SP
    let mut cpu = machine_with(&[0x08, 0xFF, 0xFF]);
    assert_eq!(cpu.execute_step(), Err(StepError::UnsupportedOperand));
    assert_eq!(cpu.regs.pc, 0xC000);
}

#[test]
fn store_of_sp() {
    // LD (0xC100), SP
    let mut cpu = machine_with(&[0x08, 0x00, 0xC1]);
    assert_eq!(cpu.execute_step().unwrap().1, 5);
    assert_eq!(cpu.mem[0xC100], 0xF0);
    assert_eq!(cpu.mem[0xC101], 0xDF);
}

#[test]
fn interrupt_handler_runs_before_the_instruction() {
    let mut cpu = machine_with(&[0x00]);
    cpu.mem[0x50] = 0xD9; // RETI
    cpu.ime_flag = true;
    cpu.mem[HWREG_IE_INTERRUPT_ENABLE] = SM83_INTERRUPT_FLAG_TIMER;
    cpu.mem[HWREG_IF_INTERRUPT_FLAG] = SM83_INTERRUPT_FLAG_TIMER;
    assert_eq!(cpu.execute_step(), Ok((SM83Opcode::NOP, 1)));
    assert_eq!(cpu.regs.pc, 0xC001);
    assert_eq!(cpu.regs.sp, 0xDFF0);
    assert_eq!(cpu.mem[HWREG_IF_INTERRUPT_FLAG] & SM83_INTERRUPT_FLAG_TIMER, 0);
    assert!(cpu.ime_flag);
    // the return address was pushed
    assert_eq!(cpu.mem[0xDFEF], 0xC0);
    assert_eq!(cpu.mem[0xDFEE], 0x00);
}

#[test]
fn interrupts_disabled_are_not_served() {
    let mut cpu = machine_with(&[0x00]);
    cpu.mem[HWREG_IE_INTERRUPT_ENABLE] = SM83_INTERRUPT_FLAG_TIMER;
    cpu.mem[HWREG_IF_INTERRUPT_FLAG] = SM83_INTERRUPT_FLAG_TIMER;
    let (r, left) = cpu.execute_step_with_budget(7);
    assert_eq!(r, Ok((SM83Opcode::NOP, 1)));
    assert_eq!(left, 7);
    assert_eq!(cpu.mem[HWREG_IF_INTERRUPT_FLAG] & SM83_INTERRUPT_FLAG_TIMER, SM83_INTERRUPT_FLAG_TIMER);
}

#[test]
fn endless_handler_exhausts_the_budget() {
    let mut cpu = machine_with(&[0x00]);
    cpu.mem[0x40] = 0x18; // JR -2
    cpu.mem[0x41] = 0xFE;
    cpu.ime_flag = true;
    cpu.mem[HWREG_IE_INTERRUPT_ENABLE] = 0x01;
    cpu.mem[HWREG_IF_INTERRUPT_FLAG] = 0x01;
    let (r, left) = cpu.execute_step_with_budget(10);
    assert_eq!(r, Err(StepError::BudgetExhausted));
    assert_eq!(left, 0);
    assert_eq!(cpu.regs.pc, 0x40);
}

#[test]
fn ei_and_di() {
    let mut cpu = machine_with(&[0xFB, 0xF3]);
    cpu.execute_step().unwrap();
    assert!(cpu.ime_flag);
    cpu.execute_step().unwrap();
    assert!(!cpu.ime_flag);
}

#[test]
fn timer_overflow_requests_interrupt_and_reloads() {
    let mut cpu = machine_with(&[0x00, 0x00, 0x00, 0x00]);
    cpu.write_mem_u8(HWREG_TAC_TIMER_CONTROL, 0x05); // enabled, every 4 clocks
    cpu.write_mem_u8(HWREG_TMA_TIMER_MODULO, 0x10);
    cpu.write_mem_u8(HWREG_TIMA_TIMER_COUNTER, 0xFF);
    for _ in 0..3 {
        cpu.execute_step().unwrap();
    }
    assert_eq!(cpu.mem[HWREG_TIMA_TIMER_COUNTER], 0xFF);
    cpu.execute_step().unwrap();
    assert_eq!(cpu.mem[HWREG_TIMA_TIMER_COUNTER], 0x10);
    assert_eq!(cpu.mem[HWREG_IF_INTERRUPT_FLAG] & SM83_INTERRUPT_FLAG_TIMER, SM83_INTERRUPT_FLAG_TIMER);
}

#[test]
fn divider_counts_every_64_clocks() {
    // 16 PUSH BC (4 clocks each) = 64 clocks
    let mut cpu = machine_with(&[0xC5; 16]);
    for _ in 0..16 {
        cpu.execute_step().unwrap();
    }
    assert_eq!(cpu.mem[HWREG_DIV_REGISTER], 1);
    assert_eq!(cpu.div_mcycle_count, 0);
}

#[test]
fn reset_functions() {
    let mut cpu = machine_with(&[]);
    cpu.regs.a = 1;
    cpu.regs.f = 0x00;
    cpu.ime_flag = true;
    cpu.mem[0xA000] = 1;
    cpu.mem[0xDFFF] = 2;
    cpu.mem[0xE000] = 3;
    cpu.mem[HWREG_IF_INTERRUPT_FLAG] = 0x1F;
    cpu.mem[HWREG_DIV_REGISTER] = 9;
    cpu.reset_registers();
    assert_eq!(cpu.regs.a, 0);
    assert_eq!(cpu.regs.sp, 0xFFFE);
    assert_eq!(cpu.regs.pc, 0x0100);
    cpu.reset_flags();
    assert_eq!(cpu.regs.f, FLAG_Z | FLAG_H | FLAG_C);
    assert!(!cpu.ime_flag);
    cpu.clear_ram();
    assert_eq!(cpu.mem[0xA000], 0);
    assert_eq!(cpu.mem[0xDFFF], 0);
    assert_eq!(cpu.mem[0xE000], 3);
    cpu.reset_timers();
    assert_eq!(cpu.mem[HWREG_DIV_REGISTER], 0);
    assert_eq!(cpu.mem[HWREG_IF_INTERRUPT_FLAG], 0x1A);
}

#[test]
fn execute_opcode_directly() {
    let mut cpu = machine_with(&[]);
    cpu.regs.h = 0xC2;
    cpu.regs.l = 0x00;
    let op = SM83Opcode::LD { oprand: SM83Oprand::N8ToR16Indirect { dst: SM83Register16::HL, n8: 0x77 } };
    assert_eq!(cpu.execute_opcode(&op), 3);
    assert_eq!(cpu.mem[0xC200], 0x77);
}

#[test]
fn interrupts_are_served_by_priority() {
    let mut cpu = machine_with(&[0x00]);
    // VBlank handler: INC B; RETI
    cpu.mem[0x40] = 0x04;
    cpu.mem[0x41] = 0xD9;
    // timer handler: SLA B; RETI
    cpu.mem[0x50] = 0xCB;
    cpu.mem[0x51] = 0x20;
    cpu.mem[0x52] = 0xD9;
    cpu.regs.b = 1;
    cpu.ime_flag = true;
    cpu.mem[HWREG_IE_INTERRUPT_ENABLE] = 0x05;
    cpu.mem[HWREG_IF_INTERRUPT_FLAG] = 0x05;
    assert_eq!(cpu.execute_step(), Ok((SM83Opcode::NOP, 1)));
    assert_eq!(cpu.regs.b, 4);
    assert_eq!(cpu.mem[HWREG_IF_INTERRUPT_FLAG] & 0x05, 0);
}

#[test]
fn vblank_is_requested_once_a_frame() {
    // JR -2 takes 3 clocks; 5852 of them make one frame of 17556 clocks
    let mut cpu = machine_with(&[0x18, 0xFE]);
    for _ in 0..5851 {
        cpu.execute_step().unwrap();
    }
    assert_eq!(cpu.mem[HWREG_IF_INTERRUPT_FLAG] & 0x01, 0);
    cpu.execute_step().unwrap();
    assert_eq!(cpu.mem[HWREG_IF_INTERRUPT_FLAG] & 0x01, 0x01);
    assert_eq!(cpu.vblank_mcycle_count, 0);
}

#[test]
fn cp_is_sub_without_writing_a() {
    let operands = [
        SM83Oprand::R8AndR16Indirect { r8: SM83Register8::A, r16: SM83Register16::HL },
        SM83Oprand::R8AndN8 { r8: SM83Register8::A, n8: 0x3C },
        SM83Oprand::R8AndR8 { r1: SM83Register8::A, r2: SM83Register8::B },
    ];
    for x in operands {
        let mut c1 = machine_with(&[0x00]);
        c1.regs.a = 0x42;
        c1.regs.b = 0x50;
        c1.regs.h = 0xC1;
        c1.regs.l = 0x00;
        c1.mem[0xC100] = 0x12;
        let mut c2 = machine_with(&[0x00]);
        c2.regs = c1.regs;
        c2.mem[0xC100] = 0x12;
        let k1 = c1.execute_opcode(&SM83Opcode::CP { oprand: x });
        let k2 = c2.execute_opcode(&SM83Opcode::SUB { oprand: x });
        assert_eq!(k1, k2);
        assert_eq!(c1.regs.f, c2.regs.f);
        assert_eq!(c1.regs.a, 0x42);
        assert_eq!(c1.regs.b, c2.regs.b);
        assert_eq!(c1.regs.pc, c2.regs.pc);
        assert!(c1.mem[..] == c2.mem[..]);
    }
}
