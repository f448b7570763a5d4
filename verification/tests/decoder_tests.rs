use gbs_player::assembler::{bytes_read, is_opcode, parse_opcode, parse_prefixed_opcode};
use gbs_player::cpu::is_executable;
use gbs_player::types::{SM83ConditionCode, SM83Opcode, SM83Oprand, SM83Register16, SM83Register8};

#[test]
fn decode_nop() {
    assert_eq!(parse_opcode(&[0x00]), (SM83Opcode::NOP, 1));
}

#[test]
fn decode_load_immediate_16() {
    assert_eq!(
        parse_opcode(&[0x01, 0x34, 0x12]),
        (SM83Opcode::LD { oprand: SM83Oprand::N16ToR16 { dst: SM83Register16::BC, n16: 0x1234 } }, 3)
    );
}

#[test]
fn decode_load_immediate_8_reads_its_own_byte() {
    assert_eq!(
        parse_opcode(&[0x06, 0x11, 0x22]),
        (SM83Opcode::LD { oprand: SM83Oprand::N8ToR8 { dst: SM83Register8::B, n8: 0x11 } }, 2)
    );
    assert_eq!(
        parse_opcode(&[0x0E, 0x05]),
        (SM83Opcode::LD { oprand: SM83Oprand::N8ToR8 { dst: SM83Register8::C, n8: 0x05 } }, 2)
    );
    assert_eq!(
        parse_opcode(&[0x3E, 0x42, 0x99]),
        (SM83Opcode::LD { oprand: SM83Oprand::N8ToR8 { dst: SM83Register8::A, n8: 0x42 } }, 2)
    );
    assert_eq!(
        parse_opcode(&[0x36, 0x7F]),
        (SM83Opcode::LD { oprand: SM83Oprand::N8ToR16Indirect { dst: SM83Register16::HL, n8: 0x7F } }, 2)
    );
    // the bytes after the instruction do not matter
    assert_eq!(parse_opcode(&[0x3E, 1, 2]), parse_opcode(&[0x3E, 1, 3]));
}

#[test]
fn decode_conditional_jumps() {
    assert_eq!(
        parse_opcode(&[0x20, 0x05]),
        (SM83Opcode::JR { oprand: SM83Oprand::CCAndE8 { cc: SM83ConditionCode::NZ, e8: 5 } }, 2)
    );
    assert_eq!(
        parse_opcode(&[0x38, 0xFE]),
        (SM83Opcode::JR { oprand: SM83Oprand::CCAndE8 { cc: SM83ConditionCode::C, e8: -2 } }, 2)
    );
    assert_eq!(
        parse_opcode(&[0xCA, 0x00, 0x40]),
        (SM83Opcode::JP { oprand: SM83Oprand::CCAndA16 { cc: SM83ConditionCode::Z, a16: 0x4000 } }, 3)
    );
}

#[test]
fn decode_alu_and_stack() {
    assert_eq!(
        parse_opcode(&[0x96]),
        (
            SM83Opcode::SUB {
                oprand: SM83Oprand::R8AndR16Indirect { r8: SM83Register8::A, r16: SM83Register16::HL }
            },
            1
        )
    );
    assert_eq!(parse_opcode(&[0xF5]), (SM83Opcode::PUSH { oprand: SM83Oprand::R16 { r16: SM83Register16::AF } }, 1));
    assert_eq!(parse_opcode(&[0xEF]), (SM83Opcode::RST { vec: 0x28 }, 1));
    assert_eq!(parse_opcode(&[0xD9]), (SM83Opcode::RETI, 1));
}

#[test]
fn decode_prefixed() {
    assert_eq!(
        parse_opcode(&[0xCB, 0x7C]),
        (SM83Opcode::BIT { u3: 7, oprand: SM83Oprand::R8 { r8: SM83Register8::H } }, 2)
    );
    assert_eq!(
        parse_prefixed_opcode(&[0xCB, 0x1E]),
        (SM83Opcode::RR { oprand: SM83Oprand::R16Indirect { r16: SM83Register16::HL } }, 2)
    );
}

#[test]
fn undefined_first_bytes() {
    for op in [0xD3u8, 0xDB, 0xDD, 0xE3, 0xE4, 0xEB, 0xEC, 0xED, 0xF4, 0xFC, 0xFD] {
        assert!(!is_opcode(op));
    }
    assert!(is_opcode(0x00));
    assert!(is_opcode(0xCB));
}

#[test]
fn bytes_read_per_instruction() {
    assert_eq!(bytes_read(0x00), 1);
    assert_eq!(bytes_read(0x06), 2);
    assert_eq!(bytes_read(0x0E), 2);
    assert_eq!(bytes_read(0x20), 2);
    assert_eq!(bytes_read(0x18), 2);
    assert_eq!(bytes_read(0xCD), 3);
    assert_eq!(bytes_read(0xCB), 2);
}

#[test]
fn every_decoded_instruction_is_executable() {
    for op in 0..=255u8 {
        if is_opcode(op) {
            let (decoded, len) = parse_opcode(&[op, 0x12, 0x34]);
            assert!(is_executable(&decoded), "{:02X}", op);
            assert!(len >= 1 && (len as usize) <= bytes_read(op));
        }
    }
    // the one exception: a 16 bit store to the last address
    let (decoded, _) = parse_opcode(&[0x08, 0xFF, 0xFF]);
    assert!(!is_executable(&decoded));
}
