use nes_disasm::opcode::{lookup, Addressing, Mnemonic, Opcode};

fn official() -> Vec<(u8, &'static str, Addressing)> {
    vec![
        (0x00, "BRK", Addressing::Implied),
        (0x01, "ORA", Addressing::XIndirect),
        (0x05, "ORA", Addressing::ZeroPage),
        (0x06, "ASL", Addressing::ZeroPage),
        (0x08, "PHP", Addressing::Implied),
        (0x09, "ORA", Addressing::Immediate),
        (0x0A, "ASL", Addressing::Accumulator),
        (0x0D, "ORA", Addressing::Absolute),
        (0x0E, "ASL", Addressing::Absolute),
        (0x10, "BPL", Addressing::Relative),
        (0x11, "ORA", Addressing::IndirectY),
        (0x15, "ORA", Addressing::ZeroPageX),
        (0x16, "ASL", Addressing::ZeroPageX),
        (0x18, "CLC", Addressing::Implied),
        (0x19, "ORA", Addressing::AbsoluteY),
        (0x1D, "ORA", Addressing::AbsoluteX),
        (0x1E, "ASL", Addressing::AbsoluteX),
        (0x20, "JSR", Addressing::Absolute),
        (0x21, "AND", Addressing::XIndirect),
        (0x24, "BIT", Addressing::ZeroPage),
        (0x25, "AND", Addressing::ZeroPage),
        (0x26, "ROL", Addressing::ZeroPage),
        (0x28, "PLP", Addressing::Implied),
        (0x29, "AND", Addressing::Immediate),
        (0x2A, "ROL", Addressing::Accumulator),
        (0x2C, "BIT", Addressing::Absolute),
        (0x2D, "AND", Addressing::Absolute),
        (0x2E, "ROL", Addressing::Absolute),
        (0x30, "BMI", Addressing::Relative),
        (0x31, "AND", Addressing::IndirectY),
        (0x35, "AND", Addressing::ZeroPageX),
        (0x36, "ROL", Addressing::ZeroPageX),
        (0x38, "SEC", Addressing::Implied),
        (0x39, "AND", Addressing::AbsoluteY),
        (0x3D, "AND", Addressing::AbsoluteX),
        (0x3E, "ROL", Addressing::AbsoluteX),
        (0x40, "RTI", Addressing::Implied),
        (0x41, "EOR", Addressing::XIndirect),
        (0x45, "EOR", Addressing::ZeroPage),
        (0x46, "LSR", Addressing::ZeroPage),
        (0x48, "PHA", Addressing::Implied),
        (0x49, "EOR", Addressing::Immediate),
        (0x4A, "LSR", Addressing::Accumulator),
        (0x4C, "JMP", Addressing::Absolute),
        (0x4D, "EOR", Addressing::Absolute),
        (0x4E, "LSR", Addressing::Absolute),
        (0x50, "BVC", Addressing::Relative),
        (0x51, "EOR", Addressing::IndirectY),
        (0x55, "EOR", Addressing::ZeroPageX),
        (0x56, "LSR", Addressing::ZeroPageX),
        (0x58, "CLI", Addressing::Implied),
        (0x59, "EOR", Addressing::AbsoluteY),
        (0x5D, "EOR", Addressing::AbsoluteX),
        (0x5E, "LSR", Addressing::AbsoluteX),
        (0x60, "RTS", Addressing::Implied),
        (0x61, "ADC", Addressing::XIndirect),
        (0x65, "ADC", Addressing::ZeroPage),
        (0x66, "ROR", Addressing::ZeroPage),
        (0x68, "PLA", Addressing::Implied),
        (0x69, "ADC", Addressing::Immediate),
        (0x6A, "ROR", Addressing::Accumulator),
        (0x6C, "JMP", Addressing::Indirect),
        (0x6D, "ADC", Addressing::Absolute),
        (0x6E, "ROR", Addressing::Absolute),
        (0x70, "BVS", Addressing::Relative),
        (0x71, "ADC", Addressing::IndirectY),
        (0x75, "ADC", Addressing::ZeroPageX),
        (0x76, "ROR", Addressing::ZeroPageX),
        (0x78, "SEI", Addressing::Implied),
        (0x79, "ADC", Addressing::AbsoluteY),
        (0x7D, "ADC", Addressing::AbsoluteX),
        (0x7E, "ROR", Addressing::AbsoluteX),
        (0x81, "STA", Addressing::XIndirect),
        (0x84, "STY", Addressing::ZeroPage),
        (0x85, "STA", Addressing::ZeroPage),
        (0x86, "STX", Addressing::ZeroPage),
        (0x88, "DEY", Addressing::Implied),
        (0x8A, "TXA", Addressing::Implied),
        (0x8C, "STY", Addressing::Absolute),
        (0x8D, "STA", Addressing::Absolute),
        (0x8E, "STX", Addressing::Absolute),
        (0x90, "BCC", Addressing::Relative),
        (0x91, "STA", Addressing::IndirectY),
        (0x94, "STY", Addressing::ZeroPageX),
        (0x95, "STA", Addressing::ZeroPageX),
        (0x96, "STX", Addressing::ZeroPageY),
        (0x98, "TYA", Addressing::Implied),
        (0x99, "STA", Addressing::AbsoluteY),
        (0x9A, "TXS", Addressing::Implied),
        (0x9D, "STA", Addressing::AbsoluteX),
        (0xA0, "LDY", Addressing::Immediate),
        (0xA1, "LDA", Addressing::XIndirect),
        (0xA2, "LDX", Addressing::Immediate),
        (0xA4, "LDY", Addressing::ZeroPage),
        (0xA5, "LDA", Addressing::ZeroPage),
        (0xA6, "LDX", Addressing::ZeroPage),
        (0xA8, "TAY", Addressing::Implied),
        (0xA9, "LDA", Addressing::Immediate),
        (0xAA, "TAX", Addressing::Implied),
        (0xAC, "LDY", Addressing::Absolute),
        (0xAD, "LDA", Addressing::Absolute),
        (0xAE, "LDX", Addressing::Absolute),
        (0xB0, "BCS", Addressing::Relative),
        (0xB1, "LDA", Addressing::IndirectY),
        (0xB4, "LDY", Addressing::ZeroPageX),
        (0xB5, "LDA", Addressing::ZeroPageX),
        (0xB6, "LDX", Addressing::ZeroPageY),
        (0xB8, "CLV", Addressing::Implied),
        (0xB9, "LDA", Addressing::AbsoluteY),
        (0xBA, "TSX", Addressing::Implied),
        (0xBC, "LDY", Addressing::AbsoluteX),
        (0xBD, "LDA", Addressing::AbsoluteX),
        (0xBE, "LDX", Addressing::AbsoluteY),
        (0xC0, "CPY", Addressing::Immediate),
        (0xC1, "CMP", Addressing::XIndirect),
        (0xC4, "CPY", Addressing::ZeroPage),
        (0xC5, "CMP", Addressing::ZeroPage),
        (0xC6, "DEC", Addressing::ZeroPage),
        (0xC8, "INY", Addressing::Implied),
        (0xC9, "CMP", Addressing::Immediate),
        (0xCA, "DEX", Addressing::Implied),
        (0xCC, "CPY", Addressing::Absolute),
        (0xCD, "CMP", Addressing::Absolute),
        (0xCE, "DEC", Addressing::Absolute),
        (0xD0, "BNE", Addressing::Relative),
        (0xD1, "CMP", Addressing::IndirectY),
        (0xD5, "CMP", Addressing::ZeroPageX),
        (0xD6, "DEC", Addressing::ZeroPageX),
        (0xD8, "CLD", Addressing::Implied),
        (0xD9, "CMP", Addressing::AbsoluteY),
        (0xDD, "CMP", Addressing::AbsoluteX),
        (0xDE, "DEC", Addressing::AbsoluteX),
        (0xE0, "CPX", Addressing::Immediate),
        (0xE1, "SBC", Addressing::XIndirect),
        (0xE4, "CPX", Addressing::ZeroPage),
        (0xE5, "SBC", Addressing::ZeroPage),
        (0xE6, "INC", Addressing::ZeroPage),
        (0xE8, "INX", Addressing::Implied),
        (0xE9, "SBC", Addressing::Immediate),
        (0xEA, "NOP", Addressing::Implied),
        (0xEC, "CPX", Addressing::Absolute),
        (0xED, "SBC", Addressing::Absolute),
        (0xEE, "INC", Addressing::Absolute),
        (0xF0, "BEQ", Addressing::Relative),
        (0xF1, "SBC", Addressing::IndirectY),
        (0xF5, "SBC", Addressing::ZeroPageX),
        (0xF6, "INC", Addressing::ZeroPageX),
        (0xF8, "SED", Addressing::Implied),
        (0xF9, "SBC", Addressing::AbsoluteY),
        (0xFD, "SBC", Addressing::AbsoluteX),
        (0xFE, "INC", Addressing::AbsoluteX),
    ]
}

fn operand_bytes(addressing: Addressing) -> usize {
    match addressing {
        Addressing::Accumulator | Addressing::Implied => 0,
        Addressing::Immediate
        | Addressing::IndirectY
        | Addressing::Relative
        | Addressing::XIndirect
        | Addressing::ZeroPage
        | Addressing::ZeroPageX
        | Addressing::ZeroPageY => 1,
        Addressing::Absolute
        | Addressing::AbsoluteX
        | Addressing::AbsoluteY
        | Addressing::Indirect => 2,
    }
}

#[test]
fn every_official_opcode_decodes_to_its_instruction() {
    let table = official();
    assert_eq!(table.len(), 151);
    for (op, name, addressing) in table {
        let decoded = lookup(op);
        assert!(decoded.is_some(), "opcode {:02X}", op);
        let decoded = decoded.unwrap();
        assert_eq!(decoded.mnemonic.name(), name, "opcode {:02X}", op);
        assert_eq!(decoded.addressing, addressing, "opcode {:02X}", op);
    }
}

#[test]
fn every_other_byte_is_undefined() {
    let table = official();
    let mut undefined: usize = 0;
    for op in 0u8..=255 {
        if !table.iter().any(|entry| entry.0 == op) {
            assert_eq!(lookup(op), None, "opcode {:02X}", op);
            undefined += 1;
        }
    }
    assert_eq!(undefined, 105);
}

#[test]
fn decoded_instructions_have_the_length_of_their_mode() {
    for op in 0u8..=255 {
        if let Some(decoded) = lookup(op) {
            let size: usize = decoded.addressing.operand_size();
            assert_eq!(size, operand_bytes(decoded.addressing), "opcode {:02X}", op);
            assert!(size <= 2);
        }
    }
}

#[test]
fn operand_size_of_each_mode() {
    assert_eq!(Addressing::Absolute.operand_size(), 2);
    assert_eq!(Addressing::AbsoluteX.operand_size(), 2);
    assert_eq!(Addressing::AbsoluteY.operand_size(), 2);
    assert_eq!(Addressing::Indirect.operand_size(), 2);
    assert_eq!(Addressing::Immediate.operand_size(), 1);
    assert_eq!(Addressing::IndirectY.operand_size(), 1);
    assert_eq!(Addressing::Relative.operand_size(), 1);
    assert_eq!(Addressing::XIndirect.operand_size(), 1);
    assert_eq!(Addressing::ZeroPage.operand_size(), 1);
    assert_eq!(Addressing::ZeroPageX.operand_size(), 1);
    assert_eq!(Addressing::ZeroPageY.operand_size(), 1);
    assert_eq!(Addressing::Accumulator.operand_size(), 0);
    assert_eq!(Addressing::Implied.operand_size(), 0);
}

#[test]
fn well_known_opcodes() {
    assert_eq!(
        lookup(0xA9),
        Some(Opcode { mnemonic: Mnemonic::Lda, addressing: Addressing::Immediate })
    );
    assert_eq!(
        lookup(0x4C),
        Some(Opcode { mnemonic: Mnemonic::Jmp, addressing: Addressing::Absolute })
    );
    assert_eq!(
        lookup(0x6C),
        Some(Opcode { mnemonic: Mnemonic::Jmp, addressing: Addressing::Indirect })
    );
    assert_eq!(
        lookup(0x60),
        Some(Opcode { mnemonic: Mnemonic::Rts, addressing: Addressing::Implied })
    );
    assert_eq!(
        lookup(0x00),
        Some(Opcode { mnemonic: Mnemonic::Brk, addressing: Addressing::Implied })
    );
    assert_eq!(
        lookup(0xFE),
        Some(Opcode { mnemonic: Mnemonic::Inc, addressing: Addressing::AbsoluteX })
    );
    assert_eq!(lookup(0x02), None);
    assert_eq!(lookup(0x89), None);
    assert_eq!(lookup(0xFF), None);
}

#[test]
fn no_two_opcodes_decode_to_the_same_instruction() {
    let mut seen: Vec<Opcode> = Vec::new();
    for op in 0u8..=255 {
        if let Some(decoded) = lookup(op) {
            assert!(!seen.contains(&decoded), "opcode {:02X}", op);
            seen.push(decoded);
        }
    }
    assert_eq!(seen.len(), 151);
}

#[test]
fn only_returns_and_jumps_end_a_block() {
    for op in 0u8..=255 {
        if let Some(decoded) = lookup(op) {
            let name = decoded.mnemonic.name();
            assert_eq!(decoded.mnemonic.is_block_end(), name == "RTS" || name == "JMP");
        }
    }
    assert!(Mnemonic::Rts.is_block_end());
    assert!(Mnemonic::Jmp.is_block_end());
    assert!(!Mnemonic::Rti.is_block_end());
    assert!(!Mnemonic::Jsr.is_block_end());
}
