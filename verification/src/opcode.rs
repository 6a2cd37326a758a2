//! The instruction set of the 6502: mnemonics, addressing modes, and the
//! opcode byte of every official instruction.

use vstd::prelude::*;

verus! {

/// How an instruction finds its operand.
#[derive(Clone, Copy, Debug, PartialEq, Eq, Structural)]
pub enum Addressing {
    /// A 16-bit address.
    Absolute,
    /// A 16-bit address, indexed by X.
    AbsoluteX,
    /// A 16-bit address, indexed by Y.
    AbsoluteY,
    /// The accumulator; no operand bytes.
    Accumulator,
    /// An 8-bit constant.
    Immediate,
    /// No operand.
    Implied,
    /// The 16-bit address of a pointer.
    Indirect,
    /// A zero-page pointer, indexed by Y after the fetch.
    IndirectY,
    /// A signed 8-bit displacement from the next instruction.
    Relative,
    /// A zero-page pointer, indexed by X before the fetch.
    XIndirect,
    /// An 8-bit address in page zero.
    ZeroPage,
    /// An 8-bit address in page zero, indexed by X.
    ZeroPageX,
    /// An 8-bit address in page zero, indexed by Y.
    ZeroPageY,
}

/// The name of an instruction.
#[derive(Clone, Copy, Debug, PartialEq, Eq, Structural)]
pub enum Mnemonic {
    Adc,
    And,
    Asl,
    Bcc,
    Bcs,
    Beq,
    Bit,
    Bmi,
    Bne,
    Bpl,
    Brk,
    Bvc,
    Bvs,
    Clc,
    Cld,
    Cli,
    Clv,
    Cmp,
    Cpx,
    Cpy,
    Dec,
    Dex,
    Dey,
    Eor,
    Inc,
    Inx,
    Iny,
    Jmp,
    Jsr,
    Lda,
    Ldx,
    Ldy,
    Lsr,
    Nop,
    Ora,
    Pha,
    Php,
    Pla,
    Plp,
    Rol,
    Ror,
    Rti,
    Rts,
    Sbc,
    Sec,
    Sed,
    Sei,
    Sta,
    Stx,
    Sty,
    Tax,
    Tay,
    Tsx,
    Txa,
    Txs,
    Tya,
}

/// One instruction: what it does and how it is addressed.
#[derive(Clone, Copy, Debug, PartialEq, Eq, Structural)]
pub struct Opcode {
    pub mnemonic: Mnemonic,
    pub addressing: Addressing,
}

impl Addressing {
    /// The number of operand bytes that follow the opcode byte.
    pub open spec fn operand_len(self) -> nat {
        match self {
            Addressing::Absolute
            | Addressing::AbsoluteX
            | Addressing::AbsoluteY
            | Addressing::Indirect => 2,
            Addressing::Accumulator | Addressing::Implied => 0,
            Addressing::Immediate
            | Addressing::IndirectY
            | Addressing::Relative
            | Addressing::XIndirect
            | Addressing::ZeroPage
            | Addressing::ZeroPageX
            | Addressing::ZeroPageY => 1,
        }
    }

    /// The number of operand bytes that follow the opcode byte.
    pub fn operand_size(&self) -> (r: usize)
        ensures
            r == self.operand_len(),
    {
        match self {
            Addressing::Absolute
            | Addressing::AbsoluteX
            | Addressing::AbsoluteY
            | Addressing::Indirect => 2,
            Addressing::Accumulator | Addressing::Implied => 0,
            _ => 1,
        }
    }
}

impl Mnemonic {
    /// The three letters of the mnemonic, in upper case.
    pub open spec fn text(self) -> Seq<char> {
        match self {
            Mnemonic::Adc => "ADC"@,
            Mnemonic::And => "AND"@,
            Mnemonic::Asl => "ASL"@,
            Mnemonic::Bcc => "BCC"@,
            Mnemonic::Bcs => "BCS"@,
            Mnemonic::Beq => "BEQ"@,
            Mnemonic::Bit => "BIT"@,
            Mnemonic::Bmi => "BMI"@,
            Mnemonic::Bne => "BNE"@,
            Mnemonic::Bpl => "BPL"@,
            Mnemonic::Brk => "BRK"@,
            Mnemonic::Bvc => "BVC"@,
            Mnemonic::Bvs => "BVS"@,
            Mnemonic::Clc => "CLC"@,
            Mnemonic::Cld => "CLD"@,
            Mnemonic::Cli => "CLI"@,
            Mnemonic::Clv => "CLV"@,
            Mnemonic::Cmp => "CMP"@,
            Mnemonic::Cpx => "CPX"@,
            Mnemonic::Cpy => "CPY"@,
            Mnemonic::Dec => "DEC"@,
            Mnemonic::Dex => "DEX"@,
            Mnemonic::Dey => "DEY"@,
            Mnemonic::Eor => "EOR"@,
            Mnemonic::Inc => "INC"@,
            Mnemonic::Inx => "INX"@,
            Mnemonic::Iny => "INY"@,
            Mnemonic::Jmp => "JMP"@,
            Mnemonic::Jsr => "JSR"@,
            Mnemonic::Lda => "LDA"@,
            Mnemonic::Ldx => "LDX"@,
            Mnemonic::Ldy => "LDY"@,
            Mnemonic::Lsr => "LSR"@,
            Mnemonic::Nop => "NOP"@,
            Mnemonic::Ora => "ORA"@,
            Mnemonic::Pha => "PHA"@,
            Mnemonic::Php => "PHP"@,
            Mnemonic::Pla => "PLA"@,
            Mnemonic::Plp => "PLP"@,
            Mnemonic::Rol => "ROL"@,
            Mnemonic::Ror => "ROR"@,
            Mnemonic::Rti => "RTI"@,
            Mnemonic::Rts => "RTS"@,
            Mnemonic::Sbc => "SBC"@,
            Mnemonic::Sec => "SEC"@,
            Mnemonic::Sed => "SED"@,
            Mnemonic::Sei => "SEI"@,
            Mnemonic::Sta => "STA"@,
            Mnemonic::Stx => "STX"@,
            Mnemonic::Sty => "STY"@,
            Mnemonic::Tax => "TAX"@,
            Mnemonic::Tay => "TAY"@,
            Mnemonic::Tsx => "TSX"@,
            Mnemonic::Txa => "TXA"@,
            Mnemonic::Txs => "TXS"@,
            Mnemonic::Tya => "TYA"@,
        }
    }

    /// The three letters of the mnemonic, in upper case.
    pub fn name(&self) -> (r: &'static str)
        ensures
            r@ == self.text(),
    {
        match self {
            Mnemonic::Adc => "ADC",
            Mnemonic::And => "AND",
            Mnemonic::Asl => "ASL",
            Mnemonic::Bcc => "BCC",
            Mnemonic::Bcs => "BCS",
            Mnemonic::Beq => "BEQ",
            Mnemonic::Bit => "BIT",
            Mnemonic::Bmi => "BMI",
            Mnemonic::Bne => "BNE",
            Mnemonic::Bpl => "BPL",
            Mnemonic::Brk => "BRK",
            Mnemonic::Bvc => "BVC",
            Mnemonic::Bvs => "BVS",
            Mnemonic::Clc => "CLC",
            Mnemonic::Cld => "CLD",
            Mnemonic::Cli => "CLI",
            Mnemonic::Clv => "CLV",
            Mnemonic::Cmp => "CMP",
            Mnemonic::Cpx => "CPX",
            Mnemonic::Cpy => "CPY",
            Mnemonic::Dec => "DEC",
            Mnemonic::Dex => "DEX",
            Mnemonic::Dey => "DEY",
            Mnemonic::Eor => "EOR",
            Mnemonic::Inc => "INC",
            Mnemonic::Inx => "INX",
            Mnemonic::Iny => "INY",
            Mnemonic::Jmp => "JMP",
            Mnemonic::Jsr => "JSR",
            Mnemonic::Lda => "LDA",
            Mnemonic::Ldx => "LDX",
            Mnemonic::Ldy => "LDY",
            Mnemonic::Lsr => "LSR",
            Mnemonic::Nop => "NOP",
            Mnemonic::Ora => "ORA",
            Mnemonic::Pha => "PHA",
            Mnemonic::Php => "PHP",
            Mnemonic::Pla => "PLA",
            Mnemonic::Plp => "PLP",
            Mnemonic::Rol => "ROL",
            Mnemonic::Ror => "ROR",
            Mnemonic::Rti => "RTI",
            Mnemonic::Rts => "RTS",
            Mnemonic::Sbc => "SBC",
            Mnemonic::Sec => "SEC",
            Mnemonic::Sed => "SED",
            Mnemonic::Sei => "SEI",
            Mnemonic::Sta => "STA",
            Mnemonic::Stx => "STX",
            Mnemonic::Sty => "STY",
            Mnemonic::Tax => "TAX",
            Mnemonic::Tay => "TAY",
            Mnemonic::Tsx => "TSX",
            Mnemonic::Txa => "TXA",
            Mnemonic::Txs => "TXS",
            Mnemonic::Tya => "TYA",
        }
    }

    /// Whether control never falls through to the next instruction, so that
    /// what follows starts a block of its own: a return from subroutine or
    /// a jump.
    pub open spec fn ends_block(self) -> bool {
        self == Mnemonic::Rts || self == Mnemonic::Jmp
    }

    /// Whether control never falls through to the next instruction.
    pub fn is_block_end(&self) -> (r: bool)
        ensures
            r == self.ends_block(),
    {
        match self {
            Mnemonic::Rts | Mnemonic::Jmp => true,
            _ => false,
        }
    }
}

/// The opcode byte that the processor's reference assigns to a mnemonic in
/// an addressing mode, listed mnemonic by mnemonic. `None` where the
/// processor has no such instruction.
pub open spec fn encoding(mnemonic: Mnemonic, addressing: Addressing) -> Option<u8> {
    match (mnemonic, addressing) {
        (Mnemonic::Adc, Addressing::Immediate) => Some(0x69u8),
        (Mnemonic::Adc, Addressing::ZeroPage) => Some(0x65u8),
        (Mnemonic::Adc, Addressing::ZeroPageX) => Some(0x75u8),
        (Mnemonic::Adc, Addressing::Absolute) => Some(0x6Du8),
        (Mnemonic::Adc, Addressing::AbsoluteX) => Some(0x7Du8),
        (Mnemonic::Adc, Addressing::AbsoluteY) => Some(0x79u8),
        (Mnemonic::Adc, Addressing::XIndirect) => Some(0x61u8),
        (Mnemonic::Adc, Addressing::IndirectY) => Some(0x71u8),
        (Mnemonic::And, Addressing::Immediate) => Some(0x29u8),
        (Mnemonic::And, Addressing::ZeroPage) => Some(0x25u8),
        (Mnemonic::And, Addressing::ZeroPageX) => Some(0x35u8),
        (Mnemonic::And, Addressing::Absolute) => Some(0x2Du8),
        (Mnemonic::And, Addressing::AbsoluteX) => Some(0x3Du8),
        (Mnemonic::And, Addressing::AbsoluteY) => Some(0x39u8),
        (Mnemonic::And, Addressing::XIndirect) => Some(0x21u8),
        (Mnemonic::And, Addressing::IndirectY) => Some(0x31u8),
        (Mnemonic::Asl, Addressing::ZeroPage) => Some(0x06u8),
        (Mnemonic::Asl, Addressing::ZeroPageX) => Some(0x16u8),
        (Mnemonic::Asl, Addressing::Absolute) => Some(0x0Eu8),
        (Mnemonic::Asl, Addressing::AbsoluteX) => Some(0x1Eu8),
        (Mnemonic::Asl, Addressing::Accumulator) => Some(0x0Au8),
        (Mnemonic::Bcc, Addressing::Relative) => Some(0x90u8),
        (Mnemonic::Bcs, Addressing::Relative) => Some(0xB0u8),
        (Mnemonic::Beq, Addressing::Relative) => Some(0xF0u8),
        (Mnemonic::Bit, Addressing::ZeroPage) => Some(0x24u8),
        (Mnemonic::Bit, Addressing::Absolute) => Some(0x2Cu8),
        (Mnemonic::Bmi, Addressing::Relative) => Some(0x30u8),
        (Mnemonic::Bne, Addressing::Relative) => Some(0xD0u8),
        (Mnemonic::Bpl, Addressing::Relative) => Some(0x10u8),
        (Mnemonic::Brk, Addressing::Implied) => Some(0x00u8),
        (Mnemonic::Bvc, Addressing::Relative) => Some(0x50u8),
        (Mnemonic::Bvs, Addressing::Relative) => Some(0x70u8),
        (Mnemonic::Clc, Addressing::Implied) => Some(0x18u8),
        (Mnemonic::Cld, Addressing::Implied) => Some(0xD8u8),
        (Mnemonic::Cli, Addressing::Implied) => Some(0x58u8),
        (Mnemonic::Clv, Addressing::Implied) => Some(0xB8u8),
        (Mnemonic::Cmp, Addressing::Immediate) => Some(0xC9u8),
        (Mnemonic::Cmp, Addressing::ZeroPage) => Some(0xC5u8),
        (Mnemonic::Cmp, Addressing::ZeroPageX) => Some(0xD5u8),
        (Mnemonic::Cmp, Addressing::Absolute) => Some(0xCDu8),
        (Mnemonic::Cmp, Addressing::AbsoluteX) => Some(0xDDu8),
        (Mnemonic::Cmp, Addressing::AbsoluteY) => Some(0xD9u8),
        (Mnemonic::Cmp, Addressing::XIndirect) => Some(0xC1u8),
        (Mnemonic::Cmp, Addressing::IndirectY) => Some(0xD1u8),
        (Mnemonic::Cpx, Addressing::Immediate) => Some(0xE0u8),
        (Mnemonic::Cpx, Addressing::ZeroPage) => Some(0xE4u8),
        (Mnemonic::Cpx, Addressing::Absolute) => Some(0xECu8),
        (Mnemonic::Cpy, Addressing::Immediate) => Some(0xC0u8),
        (Mnemonic::Cpy, Addressing::ZeroPage) => Some(0xC4u8),
        (Mnemonic::Cpy, Addressing::Absolute) => Some(0xCCu8),
        (Mnemonic::Dec, Addressing::ZeroPage) => Some(0xC6u8),
        (Mnemonic::Dec, Addressing::ZeroPageX) => Some(0xD6u8),
        (Mnemonic::Dec, Addressing::Absolute) => Some(0xCEu8),
        (Mnemonic::Dec, Addressing::AbsoluteX) => Some(0xDEu8),
        (Mnemonic::Dex, Addressing::Implied) => Some(0xCAu8),
        (Mnemonic::Dey, Addressing::Implied) => Some(0x88u8),
        (Mnemonic::Eor, Addressing::Immediate) => Some(0x49u8),
        (Mnemonic::Eor, Addressing::ZeroPage) => Some(0x45u8),
        (Mnemonic::Eor, Addressing::ZeroPageX) => Some(0x55u8),
        (Mnemonic::Eor, Addressing::Absolute) => Some(0x4Du8),
        (Mnemonic::Eor, Addressing::AbsoluteX) => Some(0x5Du8),
        (Mnemonic::Eor, Addressing::AbsoluteY) => Some(0x59u8),
        (Mnemonic::Eor, Addressing::XIndirect) => Some(0x41u8),
        (Mnemonic::Eor, Addressing::IndirectY) => Some(0x51u8),
        (Mnemonic::Inc, Addressing::ZeroPage) => Some(0xE6u8),
        (Mnemonic::Inc, Addressing::ZeroPageX) => Some(0xF6u8),
        (Mnemonic::Inc, Addressing::Absolute) => Some(0xEEu8),
        (Mnemonic::Inc, Addressing::AbsoluteX) => Some(0xFEu8),
        (Mnemonic::Inx, Addressing::Implied) => Some(0xE8u8),
        (Mnemonic::Iny, Addressing::Implied) => Some(0xC8u8),
        (Mnemonic::Jmp, Addressing::Absolute) => Some(0x4Cu8),
        (Mnemonic::Jmp, Addressing::Indirect) => Some(0x6Cu8),
        (Mnemonic::Jsr, Addressing::Absolute) => Some(0x20u8),
        (Mnemonic::Lda, Addressing::Immediate) => Some(0xA9u8),
        (Mnemonic::Lda, Addressing::ZeroPage) => Some(0xA5u8),
        (Mnemonic::Lda, Addressing::ZeroPageX) => Some(0xB5u8),
        (Mnemonic::Lda, Addressing::Absolute) => Some(0xADu8),
        (Mnemonic::Lda, Addressing::AbsoluteX) => Some(0xBDu8),
        (Mnemonic::Lda, Addressing::AbsoluteY) => Some(0xB9u8),
        (Mnemonic::Lda, Addressing::XIndirect) => Some(0xA1u8),
        (Mnemonic::Lda, Addressing::IndirectY) => Some(0xB1u8),
        (Mnemonic::Ldx, Addressing::Immediate) => Some(0xA2u8),
        (Mnemonic::Ldx, Addressing::ZeroPage) => Some(0xA6u8),
        (Mnemonic::Ldx, Addressing::ZeroPageY) => Some(0xB6u8),
        (Mnemonic::Ldx, Addressing::Absolute) => Some(0xAEu8),
        (Mnemonic::Ldx, Addressing::AbsoluteY) => Some(0xBEu8),
        (Mnemonic::Ldy, Addressing::Immediate) => Some(0xA0u8),
        (Mnemonic::Ldy, Addressing::ZeroPage) => Some(0xA4u8),
        (Mnemonic::Ldy, Addressing::ZeroPageX) => Some(0xB4u8),
        (Mnemonic::Ldy, Addressing::Absolute) => Some(0xACu8),
        (Mnemonic::Ldy, Addressing::AbsoluteX) => Some(0xBCu8),
        (Mnemonic::Lsr, Addressing::ZeroPage) => Some(0x46u8),
        (Mnemonic::Lsr, Addressing::ZeroPageX) => Some(0x56u8),
        (Mnemonic::Lsr, Addressing::Absolute) => Some(0x4Eu8),
        (Mnemonic::Lsr, Addressing::AbsoluteX) => Some(0x5Eu8),
        (Mnemonic::Lsr, Addressing::Accumulator) => Some(0x4Au8),
        (Mnemonic::Nop, Addressing::Implied) => Some(0xEAu8),
        (Mnemonic::Ora, Addressing::Immediate) => Some(0x09u8),
        (Mnemonic::Ora, Addressing::ZeroPage) => Some(0x05u8),
        (Mnemonic::Ora, Addressing::ZeroPageX) => Some(0x15u8),
        (Mnemonic::Ora, Addressing::Absolute) => Some(0x0Du8),
        (Mnemonic::Ora, Addressing::AbsoluteX) => Some(0x1Du8),
        (Mnemonic::Ora, Addressing::AbsoluteY) => Some(0x19u8),
        (Mnemonic::Ora, Addressing::XIndirect) => Some(0x01u8),
        (Mnemonic::Ora, Addressing::IndirectY) => Some(0x11u8),
        (Mnemonic::Pha, Addressing::Implied) => Some(0x48u8),
        (Mnemonic::Php, Addressing::Implied) => Some(0x08u8),
        (Mnemonic::Pla, Addressing::Implied) => Some(0x68u8),
        (Mnemonic::Plp, Addressing::Implied) => Some(0x28u8),
        (Mnemonic::Rol, Addressing::ZeroPage) => Some(0x26u8),
        (Mnemonic::Rol, Addressing::ZeroPageX) => Some(0x36u8),
        (Mnemonic::Rol, Addressing::Absolute) => Some(0x2Eu8),
        (Mnemonic::Rol, Addressing::AbsoluteX) => Some(0x3Eu8),
        (Mnemonic::Rol, Addressing::Accumulator) => Some(0x2Au8),
        (Mnemonic::Ror, Addressing::ZeroPage) => Some(0x66u8),
        (Mnemonic::Ror, Addressing::ZeroPageX) => Some(0x76u8),
        (Mnemonic::Ror, Addressing::Absolute) => Some(0x6Eu8),
        (Mnemonic::Ror, Addressing::AbsoluteX) => Some(0x7Eu8),
        (Mnemonic::Ror, Addressing::Accumulator) => Some(0x6Au8),
        (Mnemonic::Rti, Addressing::Implied) => Some(0x40u8),
        (Mnemonic::Rts, Addressing::Implied) => Some(0x60u8),
        (Mnemonic::Sbc, Addressing::Immediate) => Some(0xE9u8),
        (Mnemonic::Sbc, Addressing::ZeroPage) => Some(0xE5u8),
        (Mnemonic::Sbc, Addressing::ZeroPageX) => Some(0xF5u8),
        (Mnemonic::Sbc, Addressing::Absolute) => Some(0xEDu8),
        (Mnemonic::Sbc, Addressing::AbsoluteX) => Some(0xFDu8),
        (Mnemonic::Sbc, Addressing::AbsoluteY) => Some(0xF9u8),
        (Mnemonic::Sbc, Addressing::XIndirect) => Some(0xE1u8),
        (Mnemonic::Sbc, Addressing::IndirectY) => Some(0xF1u8),
        (Mnemonic::Sec, Addressing::Implied) => Some(0x38u8),
        (Mnemonic::Sed, Addressing::Implied) => Some(0xF8u8),
        (Mnemonic::Sei, Addressing::Implied) => Some(0x78u8),
        (Mnemonic::Sta, Addressing::ZeroPage) => Some(0x85u8),
        (Mnemonic::Sta, Addressing::ZeroPageX) => Some(0x95u8),
        (Mnemonic::Sta, Addressing::Absolute) => Some(0x8Du8),
        (Mnemonic::Sta, Addressing::AbsoluteX) => Some(0x9Du8),
        (Mnemonic::Sta, Addressing::AbsoluteY) => Some(0x99u8),
        (Mnemonic::Sta, Addressing::XIndirect) => Some(0x81u8),
        (Mnemonic::Sta, Addressing::IndirectY) => Some(0x91u8),
        (Mnemonic::Stx, Addressing::ZeroPage) => Some(0x86u8),
        (Mnemonic::Stx, Addressing::ZeroPageY) => Some(0x96u8),
        (Mnemonic::Stx, Addressing::Absolute) => Some(0x8Eu8),
        (Mnemonic::Sty, Addressing::ZeroPage) => Some(0x84u8),
        (Mnemonic::Sty, Addressing::ZeroPageX) => Some(0x94u8),
        (Mnemonic::Sty, Addressing::Absolute) => Some(0x8Cu8),
        (Mnemonic::Tax, Addressing::Implied) => Some(0xAAu8),
        (Mnemonic::Tay, Addressing::Implied) => Some(0xA8u8),
        (Mnemonic::Tsx, Addressing::Implied) => Some(0xBAu8),
        (Mnemonic::Txa, Addressing::Implied) => Some(0x8Au8),
        (Mnemonic::Txs, Addressing::Implied) => Some(0x9Au8),
        (Mnemonic::Tya, Addressing::Implied) => Some(0x98u8),
        _ => None,
    }
}

impl Opcode {
    /// The opcode byte of this instruction, if the processor has it.
    pub open spec fn encoding(self) -> Option<u8> {
        encoding(self.mnemonic, self.addressing)
    }

    /// The length of the whole instruction in bytes: the opcode byte and its
    /// operand.
    pub open spec fn len(self) -> nat {
        1 + self.addressing.operand_len()
    }
}

/// The instruction that an opcode byte stands for: the one whose encoding
/// the byte is. `None` for a byte that encodes no official instruction.
#[verifier::opaque]
pub open spec fn opcode_of(op: u8) -> Option<Opcode> {
    if exists|o: Opcode| o.encoding() == Some(op) {
        Some(choose|o: Opcode| o.encoding() == Some(op))
    } else {
        None
    }
}

/// No two instructions share an opcode byte.
pub proof fn lemma_encoding_injective(a: Opcode, b: Opcode)
    requires
        a.encoding().is_some(),
        a.encoding() == b.encoding(),
    ensures
        a == b,
{
}

/// Decoding inverts encoding: a byte decodes to an instruction exactly if
/// it is that instruction's encoding.
pub proof fn lemma_opcode_of(op: u8, o: Opcode)
    ensures
        opcode_of(op) == Some(o) <==> o.encoding() == Some(op),
{
    reveal(opcode_of);
    if exists|x: Opcode| x.encoding() == Some(op) {
        let chosen = choose|x: Opcode| x.encoding() == Some(op);
        if o.encoding() == Some(op) {
            lemma_encoding_injective(chosen, o);
        }
    }
}

/// A byte that decodes to an instruction is the opcode of an instruction of
/// one, two or three bytes: the opcode byte and as many operand bytes as
/// the instruction's addressing mode takes.
pub proof fn lemma_decoded_len(op: u8)
    ensures
        match opcode_of(op) {
            Some(o) => o.encoding() == Some(op) && o.len() == 1 + o.addressing.operand_len() && 1
                <= o.len() <= 3,
            None => forall|o: Opcode| o.encoding() != Some(op),
        },
{
    reveal(opcode_of);
}

/// Decodes an opcode byte.
pub fn lookup(op: u8) -> (r: Option<Opcode>)
    ensures
        r == opcode_of(op),
{
    let r: Option<Opcode> = match op {
        0x00 => Some(Opcode { mnemonic: Mnemonic::Brk, addressing: Addressing::Implied }),
        0x01 => Some(Opcode { mnemonic: Mnemonic::Ora, addressing: Addressing::XIndirect }),
        0x05 => Some(Opcode { mnemonic: Mnemonic::Ora, addressing: Addressing::ZeroPage }),
        0x06 => Some(Opcode { mnemonic: Mnemonic::Asl, addressing: Addressing::ZeroPage }),
        0x08 => Some(Opcode { mnemonic: Mnemonic::Php, addressing: Addressing::Implied }),
        0x09 => Some(Opcode { mnemonic: Mnemonic::Ora, addressing: Addressing::Immediate }),
        0x0A => Some(Opcode { mnemonic: Mnemonic::Asl, addressing: Addressing::Accumulator }),
        0x0D => Some(Opcode { mnemonic: Mnemonic::Ora, addressing: Addressing::Absolute }),
        0x0E => Some(Opcode { mnemonic: Mnemonic::Asl, addressing: Addressing::Absolute }),
        0x10 => Some(Opcode { mnemonic: Mnemonic::Bpl, addressing: Addressing::Relative }),
        0x11 => Some(Opcode { mnemonic: Mnemonic::Ora, addressing: Addressing::IndirectY }),
        0x15 => Some(Opcode { mnemonic: Mnemonic::Ora, addressing: Addressing::ZeroPageX }),
        0x16 => Some(Opcode { mnemonic: Mnemonic::Asl, addressing: Addressing::ZeroPageX }),
        0x18 => Some(Opcode { mnemonic: Mnemonic::Clc, addressing: Addressing::Implied }),
        0x19 => Some(Opcode { mnemonic: Mnemonic::Ora, addressing: Addressing::AbsoluteY }),
        0x1D => Some(Opcode { mnemonic: Mnemonic::Ora, addressing: Addressing::AbsoluteX }),
        0x1E => Some(Opcode { mnemonic: Mnemonic::Asl, addressing: Addressing::AbsoluteX }),
        0x20 => Some(Opcode { mnemonic: Mnemonic::Jsr, addressing: Addressing::Absolute }),
        0x21 => Some(Opcode { mnemonic: Mnemonic::And, addressing: Addressing::XIndirect }),
        0x24 => Some(Opcode { mnemonic: Mnemonic::Bit, addressing: Addressing::ZeroPage }),
        0x25 => Some(Opcode { mnemonic: Mnemonic::And, addressing: Addressing::ZeroPage }),
        0x26 => Some(Opcode { mnemonic: Mnemonic::Rol, addressing: Addressing::ZeroPage }),
        0x28 => Some(Opcode { mnemonic: Mnemonic::Plp, addressing: Addressing::Implied }),
        0x29 => Some(Opcode { mnemonic: Mnemonic::And, addressing: Addressing::Immediate }),
        0x2A => Some(Opcode { mnemonic: Mnemonic::Rol, addressing: Addressing::Accumulator }),
        0x2C => Some(Opcode { mnemonic: Mnemonic::Bit, addressing: Addressing::Absolute }),
        0x2D => Some(Opcode { mnemonic: Mnemonic::And, addressing: Addressing::Absolute }),
        0x2E => Some(Opcode { mnemonic: Mnemonic::Rol, addressing: Addressing::Absolute }),
        0x30 => Some(Opcode { mnemonic: Mnemonic::Bmi, addressing: Addressing::Relative }),
        0x31 => Some(Opcode { mnemonic: Mnemonic::And, addressing: Addressing::IndirectY }),
        0x35 => Some(Opcode { mnemonic: Mnemonic::And, addressing: Addressing::ZeroPageX }),
        0x36 => Some(Opcode { mnemonic: Mnemonic::Rol, addressing: Addressing::ZeroPageX }),
        0x38 => Some(Opcode { mnemonic: Mnemonic::Sec, addressing: Addressing::Implied }),
        0x39 => Some(Opcode { mnemonic: Mnemonic::And, addressing: Addressing::AbsoluteY }),
        0x3D => Some(Opcode { mnemonic: Mnemonic::And, addressing: Addressing::AbsoluteX }),
        0x3E => Some(Opcode { mnemonic: Mnemonic::Rol, addressing: Addressing::AbsoluteX }),
        0x40 => Some(Opcode { mnemonic: Mnemonic::Rti, addressing: Addressing::Implied }),
        0x41 => Some(Opcode { mnemonic: Mnemonic::Eor, addressing: Addressing::XIndirect }),
        0x45 => Some(Opcode { mnemonic: Mnemonic::Eor, addressing: Addressing::ZeroPage }),
        0x46 => Some(Opcode { mnemonic: Mnemonic::Lsr, addressing: Addressing::ZeroPage }),
        0x48 => Some(Opcode { mnemonic: Mnemonic::Pha, addressing: Addressing::Implied }),
        0x49 => Some(Opcode { mnemonic: Mnemonic::Eor, addressing: Addressing::Immediate }),
        0x4A => Some(Opcode { mnemonic: Mnemonic::Lsr, addressing: Addressing::Accumulator }),
        0x4C => Some(Opcode { mnemonic: Mnemonic::Jmp, addressing: Addressing::Absolute }),
        0x4D => Some(Opcode { mnemonic: Mnemonic::Eor, addressing: Addressing::Absolute }),
        0x4E => Some(Opcode { mnemonic: Mnemonic::Lsr, addressing: Addressing::Absolute }),
        0x50 => Some(Opcode { mnemonic: Mnemonic::Bvc, addressing: Addressing::Relative }),
        0x51 => Some(Opcode { mnemonic: Mnemonic::Eor, addressing: Addressing::IndirectY }),
        0x55 => Some(Opcode { mnemonic: Mnemonic::Eor, addressing: Addressing::ZeroPageX }),
        0x56 => Some(Opcode { mnemonic: Mnemonic::Lsr, addressing: Addressing::ZeroPageX }),
        0x58 => Some(Opcode { mnemonic: Mnemonic::Cli, addressing: Addressing::Implied }),
        0x59 => Some(Opcode { mnemonic: Mnemonic::Eor, addressing: Addressing::AbsoluteY }),
        0x5D => Some(Opcode { mnemonic: Mnemonic::Eor, addressing: Addressing::AbsoluteX }),
        0x5E => Some(Opcode { mnemonic: Mnemonic::Lsr, addressing: Addressing::AbsoluteX }),
        0x60 => Some(Opcode { mnemonic: Mnemonic::Rts, addressing: Addressing::Implied }),
        0x61 => Some(Opcode { mnemonic: Mnemonic::Adc, addressing: Addressing::XIndirect }),
        0x65 => Some(Opcode { mnemonic: Mnemonic::Adc, addressing: Addressing::ZeroPage }),
        0x66 => Some(Opcode { mnemonic: Mnemonic::Ror, addressing: Addressing::ZeroPage }),
        0x68 => Some(Opcode { mnemonic: Mnemonic::Pla, addressing: Addressing::Implied }),
        0x69 => Some(Opcode { mnemonic: Mnemonic::Adc, addressing: Addressing::Immediate }),
        0x6A => Some(Opcode { mnemonic: Mnemonic::Ror, addressing: Addressing::Accumulator }),
        0x6C => Some(Opcode { mnemonic: Mnemonic::Jmp, addressing: Addressing::Indirect }),
        0x6D => Some(Opcode { mnemonic: Mnemonic::Adc, addressing: Addressing::Absolute }),
        0x6E => Some(Opcode { mnemonic: Mnemonic::Ror, addressing: Addressing::Absolute }),
        0x70 => Some(Opcode { mnemonic: Mnemonic::Bvs, addressing: Addressing::Relative }),
        0x71 => Some(Opcode { mnemonic: Mnemonic::Adc, addressing: Addressing::IndirectY }),
        0x75 => Some(Opcode { mnemonic: Mnemonic::Adc, addressing: Addressing::ZeroPageX }),
        0x76 => Some(Opcode { mnemonic: Mnemonic::Ror, addressing: Addressing::ZeroPageX }),
        0x78 => Some(Opcode { mnemonic: Mnemonic::Sei, addressing: Addressing::Implied }),
        0x79 => Some(Opcode { mnemonic: Mnemonic::Adc, addressing: Addressing::AbsoluteY }),
        0x7D => Some(Opcode { mnemonic: Mnemonic::Adc, addressing: Addressing::AbsoluteX }),
        0x7E => Some(Opcode { mnemonic: Mnemonic::Ror, addressing: Addressing::AbsoluteX }),
        0x81 => Some(Opcode { mnemonic: Mnemonic::Sta, addressing: Addressing::XIndirect }),
        0x84 => Some(Opcode { mnemonic: Mnemonic::Sty, addressing: Addressing::ZeroPage }),
        0x85 => Some(Opcode { mnemonic: Mnemonic::Sta, addressing: Addressing::ZeroPage }),
        0x86 => Some(Opcode { mnemonic: Mnemonic::Stx, addressing: Addressing::ZeroPage }),
        0x88 => Some(Opcode { mnemonic: Mnemonic::Dey, addressing: Addressing::Implied }),
        0x8A => Some(Opcode { mnemonic: Mnemonic::Txa, addressing: Addressing::Implied }),
        0x8C => Some(Opcode { mnemonic: Mnemonic::Sty, addressing: Addressing::Absolute }),
        0x8D => Some(Opcode { mnemonic: Mnemonic::Sta, addressing: Addressing::Absolute }),
        0x8E => Some(Opcode { mnemonic: Mnemonic::Stx, addressing: Addressing::Absolute }),
        0x90 => Some(Opcode { mnemonic: Mnemonic::Bcc, addressing: Addressing::Relative }),
        0x91 => Some(Opcode { mnemonic: Mnemonic::Sta, addressing: Addressing::IndirectY }),
        0x94 => Some(Opcode { mnemonic: Mnemonic::Sty, addressing: Addressing::ZeroPageX }),
        0x95 => Some(Opcode { mnemonic: Mnemonic::Sta, addressing: Addressing::ZeroPageX }),
        0x96 => Some(Opcode { mnemonic: Mnemonic::Stx, addressing: Addressing::ZeroPageY }),
        0x98 => Some(Opcode { mnemonic: Mnemonic::Tya, addressing: Addressing::Implied }),
        0x99 => Some(Opcode { mnemonic: Mnemonic::Sta, addressing: Addressing::AbsoluteY }),
        0x9A => Some(Opcode { mnemonic: Mnemonic::Txs, addressing: Addressing::Implied }),
        0x9D => Some(Opcode { mnemonic: Mnemonic::Sta, addressing: Addressing::AbsoluteX }),
        0xA0 => Some(Opcode { mnemonic: Mnemonic::Ldy, addressing: Addressing::Immediate }),
        0xA1 => Some(Opcode { mnemonic: Mnemonic::Lda, addressing: Addressing::XIndirect }),
        0xA2 => Some(Opcode { mnemonic: Mnemonic::Ldx, addressing: Addressing::Immediate }),
        0xA4 => Some(Opcode { mnemonic: Mnemonic::Ldy, addressing: Addressing::ZeroPage }),
        0xA5 => Some(Opcode { mnemonic: Mnemonic::Lda, addressing: Addressing::ZeroPage }),
        0xA6 => Some(Opcode { mnemonic: Mnemonic::Ldx, addressing: Addressing::ZeroPage }),
        0xA8 => Some(Opcode { mnemonic: Mnemonic::Tay, addressing: Addressing::Implied }),
        0xA9 => Some(Opcode { mnemonic: Mnemonic::Lda, addressing: Addressing::Immediate }),
        0xAA => Some(Opcode { mnemonic: Mnemonic::Tax, addressing: Addressing::Implied }),
        0xAC => Some(Opcode { mnemonic: Mnemonic::Ldy, addressing: Addressing::Absolute }),
        0xAD => Some(Opcode { mnemonic: Mnemonic::Lda, addressing: Addressing::Absolute }),
        0xAE => Some(Opcode { mnemonic: Mnemonic::Ldx, addressing: Addressing::Absolute }),
        0xB0 => Some(Opcode { mnemonic: Mnemonic::Bcs, addressing: Addressing::Relative }),
        0xB1 => Some(Opcode { mnemonic: Mnemonic::Lda, addressing: Addressing::IndirectY }),
        0xB4 => Some(Opcode { mnemonic: Mnemonic::Ldy, addressing: Addressing::ZeroPageX }),
        0xB5 => Some(Opcode { mnemonic: Mnemonic::Lda, addressing: Addressing::ZeroPageX }),
        0xB6 => Some(Opcode { mnemonic: Mnemonic::Ldx, addressing: Addressing::ZeroPageY }),
        0xB8 => Some(Opcode { mnemonic: Mnemonic::Clv, addressing: Addressing::Implied }),
        0xB9 => Some(Opcode { mnemonic: Mnemonic::Lda, addressing: Addressing::AbsoluteY }),
        0xBA => Some(Opcode { mnemonic: Mnemonic::Tsx, addressing: Addressing::Implied }),
        0xBC => Some(Opcode { mnemonic: Mnemonic::Ldy, addressing: Addressing::AbsoluteX }),
        0xBD => Some(Opcode { mnemonic: Mnemonic::Lda, addressing: Addressing::AbsoluteX }),
        0xBE => Some(Opcode { mnemonic: Mnemonic::Ldx, addressing: Addressing::AbsoluteY }),
        0xC0 => Some(Opcode { mnemonic: Mnemonic::Cpy, addressing: Addressing::Immediate }),
        0xC1 => Some(Opcode { mnemonic: Mnemonic::Cmp, addressing: Addressing::XIndirect }),
        0xC4 => Some(Opcode { mnemonic: Mnemonic::Cpy, addressing: Addressing::ZeroPage }),
        0xC5 => Some(Opcode { mnemonic: Mnemonic::Cmp, addressing: Addressing::ZeroPage }),
        0xC6 => Some(Opcode { mnemonic: Mnemonic::Dec, addressing: Addressing::ZeroPage }),
        0xC8 => Some(Opcode { mnemonic: Mnemonic::Iny, addressing: Addressing::Implied }),
        0xC9 => Some(Opcode { mnemonic: Mnemonic::Cmp, addressing: Addressing::Immediate }),
        0xCA => Some(Opcode { mnemonic: Mnemonic::Dex, addressing: Addressing::Implied }),
        0xCC => Some(Opcode { mnemonic: Mnemonic::Cpy, addressing: Addressing::Absolute }),
        0xCD => Some(Opcode { mnemonic: Mnemonic::Cmp, addressing: Addressing::Absolute }),
        0xCE => Some(Opcode { mnemonic: Mnemonic::Dec, addressing: Addressing::Absolute }),
        0xD0 => Some(Opcode { mnemonic: Mnemonic::Bne, addressing: Addressing::Relative }),
        0xD1 => Some(Opcode { mnemonic: Mnemonic::Cmp, addressing: Addressing::IndirectY }),
        0xD5 => Some(Opcode { mnemonic: Mnemonic::Cmp, addressing: Addressing::ZeroPageX }),
        0xD6 => Some(Opcode { mnemonic: Mnemonic::Dec, addressing: Addressing::ZeroPageX }),
        0xD8 => Some(Opcode { mnemonic: Mnemonic::Cld, addressing: Addressing::Implied }),
        0xD9 => Some(Opcode { mnemonic: Mnemonic::Cmp, addressing: Addressing::AbsoluteY }),
        0xDD => Some(Opcode { mnemonic: Mnemonic::Cmp, addressing: Addressing::AbsoluteX }),
        0xDE => Some(Opcode { mnemonic: Mnemonic::Dec, addressing: Addressing::AbsoluteX }),
        0xE0 => Some(Opcode { mnemonic: Mnemonic::Cpx, addressing: Addressing::Immediate }),
        0xE1 => Some(Opcode { mnemonic: Mnemonic::Sbc, addressing: Addressing::XIndirect }),
        0xE4 => Some(Opcode { mnemonic: Mnemonic::Cpx, addressing: Addressing::ZeroPage }),
        0xE5 => Some(Opcode { mnemonic: Mnemonic::Sbc, addressing: Addressing::ZeroPage }),
        0xE6 => Some(Opcode { mnemonic: Mnemonic::Inc, addressing: Addressing::ZeroPage }),
        0xE8 => Some(Opcode { mnemonic: Mnemonic::Inx, addressing: Addressing::Implied }),
        0xE9 => Some(Opcode { mnemonic: Mnemonic::Sbc, addressing: Addressing::Immediate }),
        0xEA => Some(Opcode { mnemonic: Mnemonic::Nop, addressing: Addressing::Implied }),
        0xEC => Some(Opcode { mnemonic: Mnemonic::Cpx, addressing: Addressing::Absolute }),
        0xED => Some(Opcode { mnemonic: Mnemonic::Sbc, addressing: Addressing::Absolute }),
        0xEE => Some(Opcode { mnemonic: Mnemonic::Inc, addressing: Addressing::Absolute }),
        0xF0 => Some(Opcode { mnemonic: Mnemonic::Beq, addressing: Addressing::Relative }),
        0xF1 => Some(Opcode { mnemonic: Mnemonic::Sbc, addressing: Addressing::IndirectY }),
        0xF5 => Some(Opcode { mnemonic: Mnemonic::Sbc, addressing: Addressing::ZeroPageX }),
        0xF6 => Some(Opcode { mnemonic: Mnemonic::Inc, addressing: Addressing::ZeroPageX }),
        0xF8 => Some(Opcode { mnemonic: Mnemonic::Sed, addressing: Addressing::Implied }),
        0xF9 => Some(Opcode { mnemonic: Mnemonic::Sbc, addressing: Addressing::AbsoluteY }),
        0xFD => Some(Opcode { mnemonic: Mnemonic::Sbc, addressing: Addressing::AbsoluteX }),
        0xFE => Some(Opcode { mnemonic: Mnemonic::Inc, addressing: Addressing::AbsoluteX }),
        _ => None,
    };
    assert forall|o: Opcode| o.encoding() == Some(op) <==> r == Some(o) by {}
    proof {
        reveal(opcode_of);
        if let Some(found) = r {
            assert(found.encoding() == Some(op));
            let chosen = choose|o: Opcode| o.encoding() == Some(op);
            assert(chosen.encoding() == Some(op));
        }
    }
    r
}

} // verus!
