//! Bank-relative addresses: where a bank is loaded, and which global
//! address a 16-bit operand refers to.

use crate::text::{hex, push_hex};
use vstd::prelude::*;
use vstd::string::StringExecFns;

verus! {

/// The size of one program bank in bytes.
pub const BANK_SIZE: usize = 0x4000;

/// The size of one graphics bank in bytes.
pub const CHR_SIZE: usize = 0x2000;

/// The id of the one mapper whose bank layout is known here (MMC4): its
/// last program bank is fixed at `$C000`, and every other bank is switched
/// in at `$8000`.
pub const MMC4: u8 = 10;

/// What the bank address resolver needs to know of the cartridge.
#[derive(Clone, Copy, Debug, PartialEq, Eq, Structural)]
pub struct RomData {
    /// The number of program banks.
    pub banks_count: u8,
    /// The mapper id from the cartridge header.
    pub mapper: u8,
}

/// Whether a mapper's bank layout is known. For any other mapper the
/// resolver falls back to loading every bank at `$8000`, and the labels it
/// computes may be wrong.
pub open spec fn mapper_supported(mapper: u8) -> bool {
    mapper == MMC4
}

/// Whether a mapper's bank layout is known.
pub fn is_mapper_supported(mapper: u8) -> (r: bool)
    ensures
        r == mapper_supported(mapper),
{
    mapper == MMC4
}

/// The processor address at which a bank's first byte is seen: `$C000` for
/// the last bank of a supported mapper, `$8000` for every other bank and for
/// every bank of an unsupported mapper.
pub open spec fn bank_offset(bank: u8, banks_count: u8, mapper: u8) -> int {
    if mapper_supported(mapper) && bank + 1 == banks_count {
        0xC000
    } else {
        0x8000
    }
}

/// The processor address at which a bank's first byte is seen.
pub fn get_bank_offset(bank: u8, banks_count: u8, mapper: u8) -> (r: usize)
    ensures
        r == bank_offset(bank, banks_count, mapper),
{
    if mapper == MMC4 && banks_count >= 1 && bank == banks_count - 1 {
        0xC000
    } else {
        0x8000
    }
}

/// The 16-bit address whose low and high bytes are given.
pub open spec fn address_of(lo: u8, hi: u8) -> int {
    hi * 0x100 + lo
}

/// Whether a processor address lies in work RAM (`$0000..$0800`) or in
/// cartridge RAM (`$6000..$8000`). Such an address is no ROM location and
/// belongs to no bank.
pub open spec fn is_ram(addr: int) -> bool {
    addr < 0x0800 || 0x6000 <= addr < 0x8000
}

/// The bank that a reference from bank `id` to a processor address outside
/// RAM resolves into: the last bank for the fixed window from `$C000` up,
/// the referring bank itself below it.
pub open spec fn target_bank(id: u8, addr: int, rom_data: RomData) -> int {
    if addr >= 0xC000 {
        rom_data.banks_count - 1
    } else {
        id as int
    }
}

/// The global address that a reference from bank `id` to a processor
/// address resolves to: the address itself in RAM, and `bank * 0x10000 +
/// addr` in ROM.
pub open spec fn target_address(id: u8, addr: int, rom_data: RomData) -> int {
    if is_ram(addr) {
        addr
    } else {
        target_bank(id, addr, rom_data) * 0x10000 + addr
    }
}

/// How a reference from bank `id` to a processor address is written: four
/// hexadecimal digits after `$` in RAM; in ROM the label of the global
/// address, `L` and six hexadecimal digits, with the word-width suffix `.w`.
pub open spec fn target_label(id: u8, addr: int, rom_data: RomData) -> Seq<char> {
    if is_ram(addr) {
        "$"@ + hex(addr as nat, 4)
    } else {
        "L"@ + hex(target_address(id, addr, rom_data) as nat, 6) + ".w"@
    }
}

/// Whether a reference to a processor address can be resolved: one into the
/// fixed window needs a cartridge that has a last bank.
pub open spec fn target_defined(addr: int, rom_data: RomData) -> bool {
    addr >= 0xC000 ==> rom_data.banks_count >= 1
}

/// Resolves the 16-bit operand `hi:lo` of an instruction in bank `id` to
/// its text and to the global address it refers to.
pub fn get_target(id: u8, lo: u8, hi: u8, rom_data: RomData) -> (r: (String, usize))
    requires
        target_defined(address_of(lo, hi), rom_data),
    ensures
        r.0@ == target_label(id, address_of(lo, hi), rom_data),
        r.1 == target_address(id, address_of(lo, hi), rom_data),
        r.1 <= 0xFF_FFFF,
{
    let addr: usize = (hi as usize) * 0x100 + (lo as usize);
    if addr < 0x0800 || (addr >= 0x6000 && addr < 0x8000) {
        let mut label: String = String::from_str("$");
        push_hex(&mut label, addr, 4);
        return (label, addr);
    }
    let bank: usize = if addr >= 0xC000 {
        (rom_data.banks_count - 1) as usize
    } else {
        id as usize
    };
    let target: usize = bank * 0x10000 + addr;
    let mut label: String = String::from_str("L");
    push_hex(&mut label, target, 6);
    label.append(".w");
    (label, target)
}

} // verus!
