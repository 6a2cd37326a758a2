//! Operands: how many bytes an addressing mode takes, how the operand is
//! written, and which global address it refers to.

use crate::address::{
    address_of, get_target, target_address, target_defined, target_label, RomData,
};
use crate::opcode::Addressing;
use crate::text::{dec, hex, push_dec, push_hex};
use vstd::prelude::*;
use vstd::string::StringExecFns;

verus! {

/// The signed displacement that the operand byte of a branch stands for.
pub open spec fn displacement(b: u8) -> int {
    if b < 0x80 {
        b as int
    } else {
        b - 0x100
    }
}

/// Where a branch at global address `position` with operand byte `b` goes:
/// the displacement counts from the instruction that follows the two bytes
/// of the branch.
pub open spec fn relative_target(position: int, b: u8) -> int {
    position + displacement(b) + 2
}

/// Whether an addressing mode refers to a 16-bit address that is resolved
/// through the banks.
pub open spec fn is_resolved(addressing: Addressing) -> bool {
    addressing == Addressing::Absolute || addressing == Addressing::AbsoluteX || addressing
        == Addressing::AbsoluteY
}

/// Whether the operand of an instruction at global address `position` can
/// be decoded from the bytes that follow its opcode: the bytes are all
/// there, a branch stays inside the address space, and a reference into
/// the fixed window has a bank to resolve into.
pub open spec fn operand_defined(
    addressing: Addressing,
    bytes: Seq<u8>,
    position: int,
    rom_data: RomData,
) -> bool {
    &&& bytes.len() >= addressing.operand_len()
    &&& addressing == Addressing::Relative ==> 0 <= relative_target(position, bytes[0])
        <= usize::MAX
    &&& is_resolved(addressing) ==> target_defined(address_of(bytes[0], bytes[1]), rom_data)
}

/// The operand as it is written after the mnemonic.
pub open spec fn operand_text(
    addressing: Addressing,
    bytes: Seq<u8>,
    id: u8,
    position: int,
    rom_data: RomData,
) -> Seq<char> {
    match addressing {
        Addressing::Absolute => target_label(id, address_of(bytes[0], bytes[1]), rom_data),
        Addressing::AbsoluteX => target_label(id, address_of(bytes[0], bytes[1]), rom_data)
            + ",X"@,
        Addressing::AbsoluteY => target_label(id, address_of(bytes[0], bytes[1]), rom_data)
            + ",Y"@,
        Addressing::Accumulator => Seq::empty(),
        Addressing::Immediate => "#"@ + dec(bytes[0] as nat, 1),
        Addressing::Implied => Seq::empty(),
        Addressing::Indirect => "($"@ + hex(bytes[1] as nat, 2) + hex(bytes[0] as nat, 2) + ")"@,
        Addressing::IndirectY => "($"@ + hex(bytes[0] as nat, 2) + "),Y"@,
        Addressing::Relative => "L"@ + hex(relative_target(position, bytes[0]) as nat, 6),
        Addressing::XIndirect => "($"@ + hex(bytes[0] as nat, 2) + ",X)"@,
        Addressing::ZeroPage => "$"@ + hex(bytes[0] as nat, 2),
        Addressing::ZeroPageX => "$"@ + hex(bytes[0] as nat, 2) + ",X"@,
        Addressing::ZeroPageY => "$"@ + hex(bytes[0] as nat, 2) + ",Y"@,
    }
}

/// The global address that the operand refers to, for the modes that refer
/// to one: the resolved address of an absolute operand, and the target of
/// a branch.
pub open spec fn operand_target(
    addressing: Addressing,
    bytes: Seq<u8>,
    id: u8,
    position: int,
    rom_data: RomData,
) -> Option<int> {
    if is_resolved(addressing) {
        Some(target_address(id, address_of(bytes[0], bytes[1]), rom_data))
    } else if addressing == Addressing::Relative {
        Some(relative_target(position, bytes[0]))
    } else {
        None
    }
}

/// Decodes the operand of an instruction in bank `id` at global address
/// `position` from the bytes that follow its opcode. Returns the number of
/// operand bytes, the operand's text, and the global address it refers to,
/// if any.
pub fn write_addressing(
    addressing: &Addressing,
    bank: &[u8],
    id: u8,
    position: usize,
    rom_data: RomData,
) -> (r: (usize, String, Option<usize>))
    requires
        operand_defined(*addressing, bank@, position as int, rom_data),
    ensures
        r.0 == addressing.operand_len(),
        r.1@ == operand_text(*addressing, bank@, id, position as int, rom_data),
        match r.2 {
            Some(t) => operand_target(*addressing, bank@, id, position as int, rom_data)
                == Some(t as int),
            None => operand_target(*addressing, bank@, id, position as int, rom_data).is_none(),
        },
{
    match addressing {
        Addressing::Absolute => {
            let (label, target) = get_target(id, bank[0], bank[1], rom_data);
            (2, label, Some(target))
        },
        Addressing::AbsoluteX => {
            let (mut label, target) = get_target(id, bank[0], bank[1], rom_data);
            label.append(",X");
            (2, label, Some(target))
        },
        Addressing::AbsoluteY => {
            let (mut label, target) = get_target(id, bank[0], bank[1], rom_data);
            label.append(",Y");
            (2, label, Some(target))
        },
        Addressing::Accumulator => (0, String::new(), None),
        Addressing::Immediate => {
            let mut text: String = String::from_str("#");
            push_dec(&mut text, bank[0] as usize, 1);
            (1, text, None)
        },
        Addressing::Implied => (0, String::new(), None),
        Addressing::Indirect => {
            let mut text: String = String::from_str("($");
            push_hex(&mut text, bank[1] as usize, 2);
            push_hex(&mut text, bank[0] as usize, 2);
            text.append(")");
            (2, text, None)
        },
        Addressing::IndirectY => {
            let mut text: String = String::from_str("($");
            push_hex(&mut text, bank[0] as usize, 2);
            text.append("),Y");
            (1, text, None)
        },
        Addressing::Relative => {
            let b: u8 = bank[0];
            let target: usize = if b < 0x80 {
                position + (b as usize + 2)
            } else if b >= 0xFE {
                position + (b as usize - 0xFE)
            } else {
                position - (0xFE - b as usize)
            };
            let mut text: String = String::from_str("L");
            push_hex(&mut text, target, 6);
            (1, text, Some(target))
        },
        Addressing::XIndirect => {
            let mut text: String = String::from_str("($");
            push_hex(&mut text, bank[0] as usize, 2);
            text.append(",X)");
            (1, text, None)
        },
        Addressing::ZeroPage => {
            let mut text: String = String::from_str("$");
            push_hex(&mut text, bank[0] as usize, 2);
            (1, text, None)
        },
        Addressing::ZeroPageX => {
            let mut text: String = String::from_str("$");
            push_hex(&mut text, bank[0] as usize, 2);
            text.append(",X");
            (1, text, None)
        },
        Addressing::ZeroPageY => {
            let mut text: String = String::from_str("$");
            push_hex(&mut text, bank[0] as usize, 2);
            text.append(",Y");
            (1, text, None)
        },
    }
}

} // verus!
