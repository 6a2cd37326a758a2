//! The cartridge as a whole: its header, the windows of its banks, and the
//! units that its disassembly consists of.

use crate::address::{is_mapper_supported, mapper_supported, RomData, BANK_SIZE, CHR_SIZE};
use crate::bank::{Bank, BankView};
use crate::error::DisasmError;
use crate::text::{dec, hex, push_dec, push_hex};
use byteorder::{BigEndian, ByteOrder};
use vstd::prelude::*;
use vstd::slice::slice_subrange;
use vstd::string::StringExecFns;

verus! {

/// The length of the header in bytes.
pub const HEADER_SIZE: usize = 16;

/// The number of reserved bytes at the end of the header.
pub const PADDING_SIZE: usize = 9;

/// The signature `"NES"`, `$1A` that every image begins with, read as one
/// big-endian number.
pub const INES_MAGIC: u32 = 0x4E45_531A;

/// The header of a cartridge image.
#[derive(Debug, PartialEq, Eq)]
pub struct Header {
    /// The number of program banks.
    pub prg_banks: u8,
    /// The number of graphics banks.
    pub chr_banks: u8,
    /// The flags; the mapper id is their high nibble.
    pub flags: u8,
    /// The reserved bytes that end the header.
    pub padding: Vec<u8>,
}

/// A header as a value.
pub struct HeaderView {
    pub prg_banks: u8,
    pub chr_banks: u8,
    pub flags: u8,
    pub padding: Seq<u8>,
}

impl View for Header {
    type V = HeaderView;

    open spec fn view(&self) -> HeaderView {
        HeaderView {
            prg_banks: self.prg_banks,
            chr_banks: self.chr_banks,
            flags: self.flags,
            padding: self.padding@,
        }
    }
}

impl HeaderView {
    /// The mapper id: the high nibble of the flags.
    pub open spec fn mapper(self) -> u8 {
        self.flags >> 4
    }

    /// What the bank address resolver needs to know of the cartridge.
    pub open spec fn rom_data(self) -> RomData {
        RomData { banks_count: self.prg_banks, mapper: self.mapper() }
    }
}

impl Header {
    /// The mapper id: the high nibble of the flags.
    pub fn mapper(&self) -> (r: u8)
        ensures
            r == self@.mapper(),
    {
        self.flags >> 4
    }

    /// What the bank address resolver needs to know of the cartridge.
    pub fn rom_data(&self) -> (r: RomData)
        ensures
            r == self@.rom_data(),
    {
        RomData { banks_count: self.prg_banks, mapper: self.mapper() }
    }
}

/// The number that four bytes stand for when the first is the most
/// significant.
pub open spec fn be_u32(bytes: Seq<u8>) -> int {
    bytes[0] * 0x100_0000 + bytes[1] * 0x1_0000 + bytes[2] * 0x100 + bytes[3]
}

/// Reads the first four bytes of `bytes` as one big-endian number.
///
/// This is `byteorder::BigEndian::read_u32`, which takes the first four
/// bytes of the slice, most significant first, and panics on a slice that
/// is shorter than that.
#[verifier::external_body]
fn read_u32_be(bytes: &[u8]) -> (r: u32)
    requires
        bytes@.len() >= 4,
    ensures
        r == be_u32(bytes@),
{
    BigEndian::read_u32(bytes)
}

/// Whether an image begins with the iNES signature: the letters `NES` and
/// the byte `$1A`.
pub open spec fn has_signature(rom: Seq<u8>) -> bool {
    rom.len() >= 4 && rom[0] == 0x4E && rom[1] == 0x45 && rom[2] == 0x53 && rom[3] == 0x1A
}

/// The byte of an image at position `i`, and zero past the image's end: an
/// image that ends early reads as if zeros followed it.
pub open spec fn byte_or_zero(rom: Seq<u8>, i: int) -> u8 {
    if 0 <= i < rom.len() {
        rom[i]
    } else {
        0
    }
}

/// The `len` bytes of an image from position `start`, with zeros for what
/// lies past the image's end.
pub open spec fn window(rom: Seq<u8>, start: int, len: nat) -> Seq<u8> {
    Seq::new(len, |k: int| byte_or_zero(rom, start + k))
}

/// The header that an image begins with. The signature and the three bytes
/// after it must be there; of the reserved bytes, those that are missing
/// count as zero.
pub open spec fn header_of(rom: Seq<u8>) -> Result<HeaderView, DisasmError> {
    if rom.len() < 4 {
        Err(DisasmError::UnexpectedEof)
    } else if !has_signature(rom) {
        Err(DisasmError::NotInes)
    } else if rom.len() < 7 {
        Err(DisasmError::UnexpectedEof)
    } else {
        Ok(
            HeaderView {
                prg_banks: rom[4],
                chr_banks: rom[5],
                flags: rom[6],
                padding: window(rom, 7, PADDING_SIZE as nat),
            },
        )
    }
}

/// Copies the `len` bytes of an image from position `start`, with zeros for
/// what lies past the image's end.
pub fn read_window(rom: &[u8], start: usize, len: usize) -> (r: Vec<u8>)
    requires
        start + len <= usize::MAX,
    ensures
        r@ == window(rom@, start as int, len as nat),
{
    let mut out: Vec<u8> = Vec::new();
    let mut k: usize = 0;
    while k < len
        invariant
            k <= len,
            start + len <= usize::MAX,
            out@ == window(rom@, start as int, k as nat),
        decreases len - k,
    {
        let b: u8 = if start + k < rom.len() {
            rom[start + k]
        } else {
            0
        };
        out.push(b);
        assert(out@ =~= window(rom@, start as int, (k + 1) as nat));
        k = k + 1;
    }
    out
}

/// Reads the header that an image begins with.
pub fn parse_header(rom: &[u8]) -> (r: Result<Header, DisasmError>)
    ensures
        match r {
            Ok(h) => header_of(rom@) == Ok::<HeaderView, DisasmError>(h@),
            Err(e) => header_of(rom@) == Err::<HeaderView, DisasmError>(e),
        },
{
    if rom.len() < 4 {
        return Err(DisasmError::UnexpectedEof);
    }
    if read_u32_be(rom) != INES_MAGIC {
        return Err(DisasmError::NotInes);
    }
    if rom.len() < 7 {
        return Err(DisasmError::UnexpectedEof);
    }
    Ok(
        Header {
            prg_banks: rom[4],
            chr_banks: rom[5],
            flags: rom[6],
            padding: read_window(rom, 7, PADDING_SIZE),
        },
    )
}

/// The declaration of the slots that the banks are mapped into: one for
/// the header, one for a program bank, one for a graphics bank and one for
/// work RAM.
pub open spec fn memory_map_text() -> Seq<char> {
    ".MEMORYMAP\n    DEFAULTSLOT 1\n    SLOTSIZE $0010\n    SLOT 0 $0000\n    SLOTSIZE $"@ + hex(
        BANK_SIZE as nat,
        1,
    ) + "\n    SLOT 1 $C000\n    SLOTSIZE $"@ + hex(CHR_SIZE as nat, 1)
        + "\n    SLOT 2 $0000\n    SLOTSIZE $800\n    SLOT 3 $0000\n.ENDME\n\n"@
}

/// The declaration of the banks: the header as bank zero, then the program
/// banks, then the graphics banks.
pub open spec fn bank_map_text(prg_banks: u8, chr_banks: u8) -> Seq<char> {
    ".ROMBANKMAP\n    BANKSTOTAL "@ + dec((prg_banks + chr_banks + 1) as nat, 1)
        + "\n    BANKSIZE $0010\n    BANKS 1\n    BANKSIZE $"@ + hex(BANK_SIZE as nat, 1)
        + "\n    BANKS "@ + dec(prg_banks as nat, 1) + "\n    BANKSIZE $"@ + hex(CHR_SIZE as nat, 1)
        + "\n    BANKS "@ + dec(chr_banks as nat, 1) + "\n.ENDRO\n\n"@
}

/// The reserved bytes of the header as operands of one `.db` directive that
/// has an operand before them.
pub open spec fn padding_text(padding: Seq<u8>) -> Seq<char>
    decreases padding.len(),
{
    if padding.len() == 0 {
        Seq::empty()
    } else {
        padding_text(padding.drop_last()) + " $"@ + hex(padding.last() as nat, 2)
    }
}

/// The name of the file that holds bank `id` of its kind.
pub open spec fn file_name(id: nat, extension: Seq<char>) -> Seq<char> {
    "bank"@ + dec(id, 3) + extension
}

/// The directives that include the units of the first `count` program
/// banks, in their order.
pub open spec fn includes_text(count: nat) -> Seq<char>
    decreases count,
{
    if count == 0 {
        Seq::empty()
    } else {
        includes_text((count - 1) as nat) + ".INCLUDE \""@ + file_name(
            (count - 1) as nat,
            ".asm"@,
        ) + "\"\n"@
    }
}

/// The directives that place graphics bank `id` after the header and the
/// `prg_banks` program banks, and include its bytes.
pub open spec fn chr_stub_text(prg_banks: nat, id: nat) -> Seq<char> {
    "\n.BANK "@ + dec(id + prg_banks + 1, 1) + " SLOT 2\n.ORG $0000\n.INCBIN \""@ + file_name(
        id,
        ".chr"@,
    ) + "\"\n"@
}

/// The directives for the first `count` graphics banks, in their order.
pub open spec fn chr_stubs_text(prg_banks: nat, count: nat) -> Seq<char>
    decreases count,
{
    if count == 0 {
        Seq::empty()
    } else {
        chr_stubs_text(prg_banks, (count - 1) as nat) + chr_stub_text(
            prg_banks,
            (count - 1) as nat,
        )
    }
}

impl HeaderView {
    /// The section that writes the header back out, byte for byte.
    pub open spec fn section_text(self) -> Seq<char> {
        ".BANK 0 SLOT 0\n.ORG $0000\n\n.SECTION \"Header\" FORCE\n\n.db \"NES\", $1A\n.db $"@
            + hex(self.prg_banks as nat, 2) + "\n.db $"@ + hex(self.chr_banks as nat, 2)
            + "\n.db $"@ + hex(self.flags as nat, 2) + padding_text(self.padding)
            + "\n\n.ENDS\n\n.RAMSECTION \"RAM\" SLOT 3\n.ENDS\n\n"@
    }

    /// The text of the top-level unit: the memory map, the bank map, the
    /// header, an empty section for RAM, and the directives that bring in
    /// each program bank and each graphics bank.
    pub open spec fn main_text(self) -> Seq<char> {
        memory_map_text() + bank_map_text(self.prg_banks, self.chr_banks) + self.section_text()
            + includes_text(self.prg_banks as nat) + chr_stubs_text(
            self.prg_banks as nat,
            self.chr_banks as nat,
        )
    }
}

/// Appends the name of the file that holds bank `id` of its kind.
fn push_file_name(out: &mut String, id: usize, extension: &str)
    ensures
        final(out)@ == old(out)@ + file_name(id as nat, extension@),
{
    out.append("bank");
    push_dec(out, id, 3);
    out.append(extension);
    assert(out@ =~= old(out)@ + file_name(id as nat, extension@));
}

/// The name of the file that holds the unit of program bank `id`.
pub fn prg_file_name(id: u8) -> (r: String)
    ensures
        r@ == file_name(id as nat, ".asm"@),
{
    let mut name: String = String::new();
    push_file_name(&mut name, id as usize, ".asm");
    assert(name@ =~= file_name(id as nat, ".asm"@));
    name
}

/// The name of the file that holds the bytes of graphics bank `id`.
pub fn chr_file_name(id: u8) -> (r: String)
    ensures
        r@ == file_name(id as nat, ".chr"@),
{
    let mut name: String = String::new();
    push_file_name(&mut name, id as usize, ".chr");
    assert(name@ =~= file_name(id as nat, ".chr"@));
    name
}

/// Appends the declaration of the slots.
fn push_memory_map(out: &mut String)
    ensures
        final(out)@ == old(out)@ + memory_map_text(),
{
    out.append(
        ".MEMORYMAP\n    DEFAULTSLOT 1\n    SLOTSIZE $0010\n    SLOT 0 $0000\n    SLOTSIZE $",
    );
    push_hex(out, BANK_SIZE, 1);
    out.append("\n    SLOT 1 $C000\n    SLOTSIZE $");
    push_hex(out, CHR_SIZE, 1);
    out.append("\n    SLOT 2 $0000\n    SLOTSIZE $800\n    SLOT 3 $0000\n.ENDME\n\n");
    assert(out@ =~= old(out)@ + memory_map_text());
}

/// Appends the declaration of the banks.
fn push_bank_map(out: &mut String, prg_banks: u8, chr_banks: u8)
    ensures
        final(out)@ == old(out)@ + bank_map_text(prg_banks, chr_banks),
{
    out.append(".ROMBANKMAP\n    BANKSTOTAL ");
    push_dec(out, prg_banks as usize + chr_banks as usize + 1, 1);
    out.append("\n    BANKSIZE $0010\n    BANKS 1\n    BANKSIZE $");
    push_hex(out, BANK_SIZE, 1);
    out.append("\n    BANKS ");
    push_dec(out, prg_banks as usize, 1);
    out.append("\n    BANKSIZE $");
    push_hex(out, CHR_SIZE, 1);
    out.append("\n    BANKS ");
    push_dec(out, chr_banks as usize, 1);
    out.append("\n.ENDRO\n\n");
    assert(out@ =~= old(out)@ + bank_map_text(prg_banks, chr_banks));
}

/// Appends the reserved bytes of the header as operands.
fn push_padding(out: &mut String, padding: &Vec<u8>)
    ensures
        final(out)@ == old(out)@ + padding_text(padding@),
{
    let mut k: usize = 0;
    assert(padding@.subrange(0, 0) =~= Seq::<u8>::empty());
    assert(out@ =~= old(out)@ + padding_text(padding@.subrange(0, 0)));
    while k < padding.len()
        invariant
            k <= padding@.len(),
            out@ == old(out)@ + padding_text(padding@.subrange(0, k as int)),
        decreases padding@.len() - k,
    {
        out.append(" $");
        push_hex(out, padding[k] as usize, 2);
        proof {
            let shorter = padding@.subrange(0, k as int);
            let longer = padding@.subrange(0, k + 1);
            assert(longer.drop_last() =~= shorter);
            assert(longer.last() == padding@[k as int]);
            assert(out@ =~= old(out)@ + (padding_text(shorter) + " $"@ + hex(
                padding@[k as int] as nat,
                2,
            )));
        }
        k = k + 1;
    }
    assert(padding@.subrange(0, k as int) =~= padding@);
}

/// Appends the directives that include the units of the first `count`
/// program banks.
fn push_includes(out: &mut String, count: usize)
    ensures
        final(out)@ == old(out)@ + includes_text(count as nat),
{
    let mut id: usize = 0;
    assert(out@ =~= old(out)@ + includes_text(0));
    while id < count
        invariant
            id <= count,
            out@ == old(out)@ + includes_text(id as nat),
        decreases count - id,
    {
        out.append(".INCLUDE \"");
        push_file_name(out, id, ".asm");
        out.append("\"\n");
        assert(out@ =~= old(out)@ + (includes_text(id as nat) + ".INCLUDE \""@ + file_name(
            id as nat,
            ".asm"@,
        ) + "\"\n"@));
        id = id + 1;
    }
}

/// Appends the directives for graphics bank `id`.
fn push_chr_stub(out: &mut String, prg_banks: usize, id: usize)
    requires
        prg_banks <= 0xFF,
        id <= 0xFF,
    ensures
        final(out)@ == old(out)@ + chr_stub_text(prg_banks as nat, id as nat),
{
    out.append("\n.BANK ");
    push_dec(out, id + prg_banks + 1, 1);
    out.append(" SLOT 2\n.ORG $0000\n.INCBIN \"");
    push_file_name(out, id, ".chr");
    out.append("\"\n");
    assert(out@ =~= old(out)@ + chr_stub_text(prg_banks as nat, id as nat));
}

/// Appends the directives for the first `count` graphics banks.
fn push_chr_stubs(out: &mut String, prg_banks: usize, count: usize)
    requires
        prg_banks <= 0xFF,
        count <= 0xFF,
    ensures
        final(out)@ == old(out)@ + chr_stubs_text(prg_banks as nat, count as nat),
{
    let mut id: usize = 0;
    assert(out@ =~= old(out)@ + chr_stubs_text(prg_banks as nat, 0));
    while id < count
        invariant
            id <= count <= 0xFF,
            prg_banks <= 0xFF,
            out@ == old(out)@ + chr_stubs_text(prg_banks as nat, id as nat),
        decreases count - id,
    {
        push_chr_stub(out, prg_banks, id);
        assert(out@ =~= old(out)@ + (chr_stubs_text(prg_banks as nat, id as nat) + chr_stub_text(
            prg_banks as nat,
            id as nat,
        )));
        id = id + 1;
    }
}

impl Header {
    /// Appends the section that writes the header back out.
    fn push_section(&self, out: &mut String)
        ensures
            final(out)@ == old(out)@ + self@.section_text(),
    {
        out.append(
            ".BANK 0 SLOT 0\n.ORG $0000\n\n.SECTION \"Header\" FORCE\n\n.db \"NES\", $1A\n.db $",
        );
        push_hex(out, self.prg_banks as usize, 2);
        out.append("\n.db $");
        push_hex(out, self.chr_banks as usize, 2);
        out.append("\n.db $");
        push_hex(out, self.flags as usize, 2);
        push_padding(out, &self.padding);
        out.append("\n\n.ENDS\n\n.RAMSECTION \"RAM\" SLOT 3\n.ENDS\n\n");
        assert(out@ =~= old(out)@ + self@.section_text());
    }

    /// Writes the top-level unit.
    pub fn main_text(&self) -> (r: String)
        ensures
            r@ == self@.main_text(),
    {
        let mut out: String = String::new();
        push_memory_map(&mut out);
        push_bank_map(&mut out, self.prg_banks, self.chr_banks);
        self.push_section(&mut out);
        push_includes(&mut out, self.prg_banks as usize);
        push_chr_stubs(&mut out, self.prg_banks as usize, self.chr_banks as usize);
        assert(out@ =~= self@.main_text());
        out
    }
}

/// Program bank `id` of an image whose header is `header`, with its part of
/// the code/data log: the banks follow the header one after another, and
/// the log has one byte for each of their bytes, in the same order.
pub open spec fn prg_bank(rom: Seq<u8>, cdl: Seq<u8>, header: HeaderView, id: int) -> BankView {
    BankView {
        id: id as u8,
        bytes: window(rom, HEADER_SIZE + id * BANK_SIZE, BANK_SIZE as nat),
        trace: cdl.subrange(id * BANK_SIZE, (id + 1) * BANK_SIZE),
        rom_data: header.rom_data(),
    }
}

/// The bytes of graphics bank `id` of an image whose header is `header`:
/// the graphics banks follow the program banks.
pub open spec fn chr_bank(rom: Seq<u8>, header: HeaderView, id: int) -> Seq<u8> {
    window(rom, HEADER_SIZE + header.prg_banks * BANK_SIZE + id * CHR_SIZE, CHR_SIZE as nat)
}

/// Why an image with its code/data log cannot be disassembled, if it
/// cannot: the header is at fault, or else the log's length is not that of
/// the program banks together.
pub open spec fn failure(rom: Seq<u8>, cdl: Seq<u8>) -> Option<DisasmError> {
    match header_of(rom) {
        Err(e) => Some(e),
        Ok(header) => if cdl.len() != header.prg_banks * BANK_SIZE {
            Some(DisasmError::TraceMismatch)
        } else {
            None
        },
    }
}

/// The disassembly of a cartridge: what each file of the output holds.
#[derive(Debug, PartialEq, Eq)]
pub struct Disassembly {
    /// The header of the image.
    pub header: Header,
    /// The text of the top-level unit.
    pub main: String,
    /// The text of the unit of each program bank, in the banks' order.
    pub prg_banks: Vec<String>,
    /// The bytes of each graphics bank, in the banks' order.
    pub chr_banks: Vec<Vec<u8>>,
}

impl Disassembly {
    /// Whether this is the disassembly of the image `rom` with the
    /// code/data log `cdl`.
    pub open spec fn is_disassembly_of(self, rom: Seq<u8>, cdl: Seq<u8>) -> bool {
        &&& failure(rom, cdl).is_none()
        &&& header_of(rom) == Ok::<HeaderView, DisasmError>(self.header@)
        &&& self.main@ == self.header@.main_text()
        &&& self.prg_banks@.len() == self.header.prg_banks
        &&& forall|id: int|
            0 <= id < self.prg_banks@.len() ==> (#[trigger] self.prg_banks@[id])@ == prg_bank(
                rom,
                cdl,
                self.header@,
                id,
            ).text()
        &&& self.chr_banks@.len() == self.header.chr_banks
        &&& forall|id: int|
            0 <= id < self.chr_banks@.len() ==> (#[trigger] self.chr_banks@[id])@ == chr_bank(
                rom,
                self.header@,
                id,
            )
    }
}

impl Disassembly {
    /// The mapper id of the cartridge, if its bank layout is not known
    /// here. The labels of such a cartridge were computed as if every bank
    /// were loaded at `$8000`, and may be wrong: whoever shows the
    /// disassembly to a user owes them that warning.
    pub fn unhandled_mapper(&self) -> (r: Option<u8>)
        ensures
            r == if mapper_supported(self.header@.mapper()) {
                None
            } else {
                Some(self.header@.mapper())
            },
    {
        let mapper: u8 = self.header.mapper();
        if is_mapper_supported(mapper) {
            None
        } else {
            Some(mapper)
        }
    }
}

/// Disassembles the cartridge image `rom` under the guidance of the
/// code/data log `cdl`. Fails, and produces nothing, if the image has no
/// iNES header or the log does not belong to it.
pub fn disassemble(rom: &[u8], cdl: &[u8]) -> (r: Result<Disassembly, DisasmError>)
    ensures
        match r {
            Ok(d) => d.is_disassembly_of(rom@, cdl@),
            Err(e) => failure(rom@, cdl@) == Some(e),
        },
{
    let header = match parse_header(rom) {
        Ok(header) => header,
        Err(e) => {
            return Err(e);
        },
    };
    let prg: usize = header.prg_banks as usize;
    let chr: usize = header.chr_banks as usize;
    if cdl.len() != prg * BANK_SIZE {
        return Err(DisasmError::TraceMismatch);
    }
    let main = header.main_text();
    let rom_data = header.rom_data();

    let mut prg_banks: Vec<String> = Vec::new();
    let mut id: usize = 0;
    while id < prg
        invariant
            id <= prg,
            prg == header.prg_banks,
            cdl@.len() == prg * BANK_SIZE,
            rom_data == header@.rom_data(),
            prg_banks@.len() == id,
            forall|k: int|
                0 <= k < id ==> (#[trigger] prg_banks@[k])@ == prg_bank(
                    rom@,
                    cdl@,
                    header@,
                    k,
                ).text(),
        decreases prg - id,
    {
        let bytes = read_window(rom, HEADER_SIZE + id * BANK_SIZE, BANK_SIZE);
        let trace = slice_subrange(cdl, id * BANK_SIZE, (id + 1) * BANK_SIZE);
        let bank = Bank { id: id as u8, bytes: bytes.as_slice(), trace, rom_data };
        assert(bank@ == prg_bank(rom@, cdl@, header@, id as int));
        let listing = bank.scan();
        prg_banks.push(listing.render(id as u8));
        id = id + 1;
    }

    let mut chr_banks: Vec<Vec<u8>> = Vec::new();
    let mut id: usize = 0;
    while id < chr
        invariant
            id <= chr,
            chr == header.chr_banks,
            prg == header.prg_banks,
            chr_banks@.len() == id,
            forall|k: int|
                0 <= k < id ==> (#[trigger] chr_banks@[k])@ == chr_bank(rom@, header@, k),
        decreases chr - id,
    {
        chr_banks.push(read_window(rom, HEADER_SIZE + prg * BANK_SIZE + id * CHR_SIZE, CHR_SIZE));
        id = id + 1;
    }
    Ok(Disassembly { header, main, prg_banks, chr_banks })
}

} // verus!
