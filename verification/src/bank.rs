//! The disassembly of one program bank: a single scan over its bytes that
//! the code/data log steers, and the text of the listing it yields.

use crate::address::{bank_offset, get_bank_offset, RomData};
use crate::error::DisasmError;
use crate::opcode::{lookup, opcode_of, Opcode};
use crate::operand::{operand_target, operand_text, write_addressing};
use crate::text::{dec, hex, push_dec, push_hex};
use std::collections::HashSet;
use vstd::prelude::*;
use vstd::slice::slice_subrange;
use vstd::string::StringExecFns;

verus! {

broadcast use vstd::std_specs::hash::group_hash_axioms;

/// What the code/data log says of one byte of program ROM.
#[derive(Clone, Copy, Debug, PartialEq, Eq, Structural)]
pub enum ByteClass {
    /// The byte was executed.
    Code,
    /// The byte was read as data and never executed.
    Data,
    /// The byte was never touched.
    Unclassified,
}

/// The class that a byte of the log stands for. Bit 0 marks code and wins
/// over bit 1, which marks data; the other bits say nothing.
pub open spec fn class_of(trace: u8) -> ByteClass {
    if trace & 1 == 1 {
        ByteClass::Code
    } else if trace & 2 == 2 {
        ByteClass::Data
    } else {
        ByteClass::Unclassified
    }
}

/// Reads one byte of the code/data log.
pub fn classify(trace: u8) -> (r: ByteClass)
    ensures
        r == class_of(trace),
{
    if trace & 1 == 1 {
        ByteClass::Code
    } else if trace & 2 == 2 {
        ByteClass::Data
    } else {
        ByteClass::Unclassified
    }
}

/// What the scan remembers from one byte to the next.
#[derive(Clone, Copy, Debug, PartialEq, Eq, Structural)]
pub struct ScanState {
    /// The previous byte belonged to a run of data whose closing marker is
    /// still owed.
    pub inside_data: bool,
    /// The next instruction starts a block and gets a label: nothing has
    /// been decoded yet, or the last instruction was a return or a jump, or
    /// an unclassified byte came since.
    pub pending_label: bool,
}

impl ScanState {
    /// The state in which a scan begins.
    pub open spec fn start() -> ScanState {
        ScanState { inside_data: false, pending_label: true }
    }

    /// The state in which a scan begins.
    pub fn initial() -> (r: ScanState)
        ensures
            r == ScanState::start(),
    {
        ScanState { inside_data: false, pending_label: true }
    }
}

/// One line of a listing.
#[derive(Debug, PartialEq, Eq)]
pub struct Line {
    /// The global address of the byte that the line starts at. Markers and
    /// separators stand at no address.
    pub addr: Option<usize>,
    /// The text of the line, without its line break.
    pub text: String,
}

/// A line of a listing as a value.
pub struct LineView {
    pub addr: Option<usize>,
    pub text: Seq<char>,
}

impl View for Line {
    type V = LineView;

    open spec fn view(&self) -> LineView {
        LineView { addr: self.addr, text: self.text@ }
    }
}

/// The lines of a listing as values.
pub open spec fn lines_view(lines: Seq<Line>) -> Seq<LineView> {
    Seq::new(lines.len(), |i: int| lines[i]@)
}

/// A line that stands at no address.
pub open spec fn marker(text: Seq<char>) -> LineView {
    LineView { addr: None, text }
}

/// A byte written as a data literal.
pub open spec fn literal_text(b: u8) -> Seq<char> {
    ".db $"@ + hex(b as nat, 2)
}

/// The line that holds the byte `b` at global address `addr` as a data
/// literal, with a remark after it.
pub open spec fn literal_line(addr: usize, b: u8, remark: Seq<char>) -> LineView {
    LineView { addr: Some(addr), text: literal_text(b) + remark }
}

/// The marker that opens a run of data before its first byte, or closes it
/// before the first byte that is no data: `inside_data` says whether a run
/// is open, `data` whether the byte at hand is data.
pub open spec fn boundary(inside_data: bool, data: bool) -> Seq<LineView> {
    if inside_data && !data {
        seq![marker("; end of data"@)]
    } else if !inside_data && data {
        seq![marker("; start of data"@)]
    } else {
        Seq::empty()
    }
}

/// What the scan finds at one position of a bank.
#[derive(Clone, Copy, Debug, PartialEq, Eq, Structural)]
pub enum Kind {
    /// A byte that was executed and is the opcode of an instruction whose
    /// operand lies inside the bank.
    Instruction(Opcode),
    /// A byte that was executed and is no official opcode.
    Invalid,
    /// A byte that was executed and is an opcode, but the bank ends before
    /// the operand does.
    Incomplete,
    /// A byte of data.
    Data,
    /// A byte that the log says nothing of.
    Unclassified,
}

/// A program bank together with its part of the code/data log.
pub struct BankView {
    /// The number of the bank among the program banks, from zero.
    pub id: u8,
    /// The bytes of the bank.
    pub bytes: Seq<u8>,
    /// The log, one byte for each byte of the bank.
    pub trace: Seq<u8>,
    /// The cartridge that the bank belongs to.
    pub rom_data: RomData,
}

impl BankView {
    /// What a scan asks of its input: one byte of log for each byte of the
    /// bank, a bank that a slice can hold, and a cartridge with at least
    /// this one bank.
    pub open spec fn wf(self) -> bool {
        &&& self.trace.len() == self.bytes.len()
        &&& self.bytes.len() <= isize::MAX
        &&& self.rom_data.banks_count >= 1
    }

    /// The global address of the bank's first byte.
    pub open spec fn base(self) -> int {
        self.id * 0x10000 + bank_offset(self.id, self.rom_data.banks_count, self.rom_data.mapper)
    }

    /// The global address of the byte at position `i`.
    pub open spec fn global(self, i: int) -> usize {
        (i + self.base()) as usize
    }

    /// The bytes that follow position `i`.
    pub open spec fn operand_bytes(self, i: int) -> Seq<u8> {
        self.bytes.subrange(i + 1, self.bytes.len() as int)
    }

    /// What the scan finds at position `i`.
    pub open spec fn kind_at(self, i: int) -> Kind {
        match class_of(self.trace[i]) {
            ByteClass::Code => match opcode_of(self.bytes[i]) {
                Some(o) => if i + o.len() <= self.bytes.len() {
                    Kind::Instruction(o)
                } else {
                    Kind::Incomplete
                },
                None => Kind::Invalid,
            },
            ByteClass::Data => Kind::Data,
            ByteClass::Unclassified => Kind::Unclassified,
        }
    }

    /// The number of bytes that the scan consumes at position `i`: a whole
    /// instruction, or one byte.
    pub open spec fn step_len(self, i: int) -> nat {
        match self.kind_at(i) {
            Kind::Instruction(o) => o.len(),
            _ => 1,
        }
    }

    /// The state after position `i`. Only data keeps a run of data open.
    /// An instruction leaves a label pending exactly if it is a return or
    /// a jump; an unclassified byte always does; anything else leaves that
    /// as it was.
    pub open spec fn next_state(self, i: int, state: ScanState) -> ScanState {
        match self.kind_at(i) {
            Kind::Instruction(o) => ScanState {
                inside_data: false,
                pending_label: o.mnemonic.ends_block(),
            },
            Kind::Invalid | Kind::Incomplete => ScanState {
                inside_data: false,
                pending_label: state.pending_label,
            },
            Kind::Data => ScanState { inside_data: true, pending_label: state.pending_label },
            Kind::Unclassified => ScanState { inside_data: false, pending_label: true },
        }
    }

    /// The marker that the scan owes before the byte at position `i`.
    pub open spec fn boundary_lines(self, i: int, state: ScanState) -> Seq<LineView> {
        boundary(state.inside_data, self.kind_at(i) == Kind::Data)
    }

    /// The text of the instruction `o` at position `i`.
    pub open spec fn instruction_text(self, i: int, o: Opcode) -> Seq<char> {
        "    "@ + o.mnemonic.text() + " "@ + operand_text(
            o.addressing,
            self.operand_bytes(i),
            self.id,
            self.global(i) as int,
            self.rom_data,
        )
    }

    /// The lines for what stands at position `i`: an instruction, with an
    /// empty line after a return or a jump, or the byte as a literal.
    pub open spec fn content_lines(self, i: int) -> Seq<LineView> {
        let b = self.bytes[i];
        match self.kind_at(i) {
            Kind::Instruction(o) => {
                let line = LineView {
                    addr: Some(self.global(i)),
                    text: self.instruction_text(i, o),
                };
                if o.mnemonic.ends_block() {
                    seq![line, marker(Seq::empty())]
                } else {
                    seq![line]
                }
            },
            Kind::Invalid => seq![literal_line(self.global(i), b, " ; invalid opcode?"@)],
            Kind::Incomplete => seq![
                literal_line(self.global(i), b, " ; incomplete instruction"@),
            ],
            Kind::Data | Kind::Unclassified => seq![literal_line(self.global(i), b, Seq::empty())],
        }
    }

    /// The lines that the scan emits at position `i`.
    pub open spec fn step_lines(self, i: int, state: ScanState) -> Seq<LineView> {
        self.boundary_lines(i, state) + self.content_lines(i)
    }

    /// The global address that the operand of the instruction `o` at
    /// position `i` refers to, if it refers to one.
    pub open spec fn reference(self, i: int, o: Opcode) -> Option<int> {
        operand_target(
            o.addressing,
            self.operand_bytes(i),
            self.id,
            self.global(i) as int,
            self.rom_data,
        )
    }

    /// The labels that the scan collects at position `i`: the address of an
    /// instruction that starts a block, and the address an instruction
    /// refers to.
    pub open spec fn step_labels(self, i: int, state: ScanState) -> Set<usize> {
        match self.kind_at(i) {
            Kind::Instruction(o) => {
                let own = if state.pending_label {
                    set![self.global(i)]
                } else {
                    Set::empty()
                };
                match self.reference(i, o) {
                    Some(t) => own.insert(t as usize),
                    None => own,
                }
            },
            _ => Set::empty(),
        }
    }

    /// The lines that the scan emits from position `i` to the end of the
    /// bank, in address order. A run of data that is still open at the end
    /// is closed there.
    pub open spec fn lines_from(self, i: int, state: ScanState) -> Seq<LineView>
        decreases self.bytes.len() - i,
    {
        if 0 <= i < self.bytes.len() {
            self.step_lines(i, state) + self.lines_from(
                i + self.step_len(i),
                self.next_state(i, state),
            )
        } else if state.inside_data {
            seq![marker("; end of data"@)]
        } else {
            Seq::empty()
        }
    }

    /// The labels that the scan collects from position `i` to the end of
    /// the bank.
    pub open spec fn labels_from(self, i: int, state: ScanState) -> Set<usize>
        decreases self.bytes.len() - i,
    {
        if 0 <= i < self.bytes.len() {
            self.step_labels(i, state).union(
                self.labels_from(i + self.step_len(i), self.next_state(i, state)),
            )
        } else {
            Set::empty()
        }
    }

    /// The lines of the bank's listing.
    pub open spec fn lines(self) -> Seq<LineView> {
        self.lines_from(0, ScanState::start())
    }

    /// The global addresses that get a label in the bank's listing.
    pub open spec fn labels(self) -> Set<usize> {
        self.labels_from(0, ScanState::start())
    }

    /// The text of the bank's unit.
    pub open spec fn text(self) -> Seq<char> {
        section_text(self.id, self.lines(), self.labels())
    }
}

/// The line that defines the label of a global address.
pub open spec fn label_line(addr: usize) -> Seq<char> {
    "L"@ + hex(addr as nat, 6) + ":\n"@
}

/// One line as it is written out: its label first, if it stands at an
/// address that has one.
pub open spec fn rendered_line(line: LineView, labels: Set<usize>) -> Seq<char> {
    let label = match line.addr {
        Some(a) => if labels.contains(a) {
            label_line(a)
        } else {
            Seq::empty()
        },
        None => Seq::empty(),
    };
    label + line.text + "\n"@
}

/// The lines of a listing as they are written out, in their order.
pub open spec fn rendered_lines(lines: Seq<LineView>, labels: Set<usize>) -> Seq<char>
    decreases lines.len(),
{
    if lines.len() == 0 {
        Seq::empty()
    } else {
        rendered_lines(lines.drop_last(), labels) + rendered_line(lines.last(), labels)
    }
}

/// The unit of program bank `id`: a section of its own in the bank after
/// the header's, which holds the listing.
pub open spec fn section_text(id: u8, lines: Seq<LineView>, labels: Set<usize>) -> Seq<char> {
    ".BANK "@ + dec((id + 1) as nat, 1) + "\n.ORG $0000\n\n.SECTION \"Bank"@ + dec(id as nat, 1)
        + "\" FORCE\n\n"@ + rendered_lines(lines, labels) + "\n.ENDS\n"@
}

/// A program bank together with its part of the code/data log.
pub struct Bank<'a> {
    /// The number of the bank among the program banks, from zero.
    pub id: u8,
    /// The bytes of the bank.
    pub bytes: &'a [u8],
    /// The log, one byte for each byte of the bank.
    pub trace: &'a [u8],
    /// The cartridge that the bank belongs to.
    pub rom_data: RomData,
}

impl<'a> View for Bank<'a> {
    type V = BankView;

    open spec fn view(&self) -> BankView {
        BankView { id: self.id, bytes: self.bytes@, trace: self.trace@, rom_data: self.rom_data }
    }
}

/// The result of scanning a bank.
#[derive(Debug, PartialEq, Eq)]
pub struct Listing {
    /// The lines, in address order.
    pub lines: Vec<Line>,
    /// The global addresses that get a label.
    pub labels: HashSet<usize>,
}

/// Adding a line to a listing adds its value to the listing's value.
pub proof fn lemma_lines_view_push(lines: Seq<Line>, line: Line)
    ensures
        lines_view(lines.push(line)) == lines_view(lines).push(line@),
{
    assert(lines_view(lines.push(line)) =~= lines_view(lines).push(line@));
}

/// Appends a line that stands at no address.
fn push_marker(lines: &mut Vec<Line>, text: &str)
    ensures
        lines_view(final(lines)@) == lines_view(old(lines)@).push(marker(text@)),
{
    let line = Line { addr: None, text: String::from_str(text) };
    proof {
        lemma_lines_view_push(lines@, line);
    }
    lines.push(line);
}

/// Appends the marker that is owed before a byte, if one is.
fn push_boundary(lines: &mut Vec<Line>, inside_data: bool, data: bool)
    ensures
        lines_view(final(lines)@) == lines_view(old(lines)@) + boundary(inside_data, data),
{
    if inside_data && !data {
        push_marker(lines, "; end of data");
    } else if !inside_data && data {
        push_marker(lines, "; start of data");
    }
    assert(lines_view(lines@) =~= lines_view(old(lines)@) + boundary(inside_data, data));
}

/// Appends the byte `b` at global address `addr` as a data literal, with a
/// remark after it.
fn push_literal(lines: &mut Vec<Line>, addr: usize, b: u8, remark: &str)
    ensures
        lines_view(final(lines)@) == lines_view(old(lines)@).push(literal_line(addr, b, remark@)),
{
    let mut text: String = String::from_str(".db $");
    push_hex(&mut text, b as usize, 2);
    text.append(remark);
    let line = Line { addr: Some(addr), text };
    proof {
        lemma_lines_view_push(lines@, line);
    }
    lines.push(line);
}

impl<'a> Bank<'a> {
    /// The global address of the bank's first byte.
    pub fn base(&self) -> (r: usize)
        ensures
            r == self@.base(),
            0x8000 <= r <= 0xFF_C000,
    {
        (self.id as usize) * 0x10000 + get_bank_offset(
            self.id,
            self.rom_data.banks_count,
            self.rom_data.mapper,
        )
    }

    /// What the scan finds at position `i`.
    pub fn kind(&self, i: usize) -> (r: Kind)
        requires
            self@.trace.len() == self@.bytes.len(),
            i < self.bytes@.len(),
        ensures
            r == self@.kind_at(i as int),
    {
        match classify(self.trace[i]) {
            ByteClass::Code => match lookup(self.bytes[i]) {
                Some(o) => if self.bytes.len() - i > o.addressing.operand_size() {
                    Kind::Instruction(o)
                } else {
                    Kind::Incomplete
                },
                None => Kind::Invalid,
            },
            ByteClass::Data => Kind::Data,
            ByteClass::Unclassified => Kind::Unclassified,
        }
    }

    /// Appends the line of the instruction `o` at position `i`, and the
    /// empty line after a return or a jump; collects the labels that the
    /// instruction gives rise to.
    fn push_instruction(
        &self,
        i: usize,
        o: Opcode,
        state: ScanState,
        lines: &mut Vec<Line>,
        labels: &mut HashSet<usize>,
    )
        requires
            self@.wf(),
            i < self.bytes@.len(),
            self@.kind_at(i as int) == Kind::Instruction(o),
        ensures
            lines_view(final(lines)@) == lines_view(old(lines)@) + self@.content_lines(i as int),
            final(labels)@ == old(labels)@.union(self@.step_labels(i as int, state)),
    {
        let addr: usize = self.base() + i;
        if state.pending_label {
            labels.insert(addr);
        }
        let rest = slice_subrange(self.bytes, i + 1, self.bytes.len());
        let (_, operand, target) = write_addressing(
            &o.addressing,
            rest,
            self.id,
            addr,
            self.rom_data,
        );
        if let Some(t) = target {
            labels.insert(t);
        }
        assert(labels@ =~= old(labels)@.union(self@.step_labels(i as int, state)));

        let mut text: String = String::from_str("    ");
        text.append(o.mnemonic.name());
        text.append(" ");
        text.append(operand.as_str());
        assert(text@ =~= self@.instruction_text(i as int, o));
        let line = Line { addr: Some(addr), text };
        proof {
            lemma_lines_view_push(lines@, line);
        }
        lines.push(line);
        if o.mnemonic.is_block_end() {
            push_marker(lines, "");
            proof {
                reveal_strlit("");
                assert(""@ =~= Seq::<char>::empty());
            }
        }
        assert(lines_view(lines@) =~= lines_view(old(lines)@) + self@.content_lines(i as int));
    }

    /// Takes one step of the scan at position `i`: appends the lines and
    /// the labels of that position, and returns the number of bytes
    /// consumed and the state for the position after them.
    pub fn step(
        &self,
        i: usize,
        state: ScanState,
        lines: &mut Vec<Line>,
        labels: &mut HashSet<usize>,
    ) -> (r: (usize, ScanState))
        requires
            self@.wf(),
            i < self.bytes@.len(),
        ensures
            r.0 == self@.step_len(i as int),
            r.1 == self@.next_state(i as int, state),
            lines_view(final(lines)@) == lines_view(old(lines)@) + self@.step_lines(
                i as int,
                state,
            ),
            final(labels)@ == old(labels)@.union(self@.step_labels(i as int, state)),
    {
        let addr: usize = self.base() + i;
        let b: u8 = self.bytes[i];
        let kind = self.kind(i);
        let data = match kind {
            Kind::Data => true,
            _ => false,
        };
        push_boundary(lines, state.inside_data, data);
        let ghost before = lines_view(lines@);
        let r = match kind {
            Kind::Instruction(o) => {
                self.push_instruction(i, o, state, lines, labels);
                (
                    1 + o.addressing.operand_size(),
                    ScanState { inside_data: false, pending_label: o.mnemonic.is_block_end() },
                )
            },
            Kind::Invalid => {
                push_literal(lines, addr, b, " ; invalid opcode?");
                (1, ScanState { inside_data: false, pending_label: state.pending_label })
            },
            Kind::Incomplete => {
                push_literal(lines, addr, b, " ; incomplete instruction");
                (1, ScanState { inside_data: false, pending_label: state.pending_label })
            },
            Kind::Data => {
                push_literal(lines, addr, b, "");
                (1, ScanState { inside_data: true, pending_label: state.pending_label })
            },
            Kind::Unclassified => {
                push_literal(lines, addr, b, "");
                (1, ScanState { inside_data: false, pending_label: true })
            },
        };
        proof {
            reveal_strlit("");
            assert(""@ =~= Seq::<char>::empty());
            assert(lines_view(lines@) == before + self@.content_lines(i as int));
            assert(lines_view(lines@) =~= lines_view(old(lines)@) + self@.step_lines(
                i as int,
                state,
            ));
            assert(labels@ =~= old(labels)@.union(self@.step_labels(i as int, state)));
        }
        r
    }

    /// Scans the bank from its first byte to its last.
    pub fn scan(&self) -> (r: Listing)
        requires
            self@.wf(),
        ensures
            lines_view(r.lines@) == self@.lines(),
            r.labels@ == self@.labels(),
    {
        let mut lines: Vec<Line> = Vec::new();
        let mut labels: HashSet<usize> = HashSet::new();
        let mut state = ScanState::initial();
        let mut i: usize = 0;
        assert(lines_view(lines@) + self@.lines_from(0, state) =~= self@.lines());
        assert(labels@.union(self@.labels_from(0, state)) =~= self@.labels());
        while i < self.bytes.len()
            invariant
                self@.wf(),
                i <= self.bytes@.len(),
                self@.lines() == lines_view(lines@) + self@.lines_from(i as int, state),
                self@.labels() == labels@.union(self@.labels_from(i as int, state)),
            decreases self.bytes@.len() - i,
        {
            let ghost before_lines = lines_view(lines@);
            let ghost before_labels = labels@;
            let (taken, next) = self.step(i, state, &mut lines, &mut labels);
            proof {
                let j = i as int;
                let rest_lines = self@.lines_from(j + taken, next);
                let rest_labels = self@.labels_from(j + taken, next);
                let step_lines = self@.step_lines(j, state);
                assert(lines_view(lines@) + rest_lines =~= before_lines + (step_lines
                    + rest_lines));
                assert(labels@.union(rest_labels) =~= before_labels.union(
                    self@.step_labels(j, state).union(rest_labels),
                ));
                if let Kind::Instruction(o) = self@.kind_at(j) {
                    assert(j + o.len() <= self.bytes@.len());
                }
            }
            i = i + taken;
            state = next;
        }
        if state.inside_data {
            push_marker(&mut lines, "; end of data");
        }
        assert(lines_view(lines@) =~= self@.lines());
        assert(labels@ =~= self@.labels());
        Listing { lines, labels }
    }
}

/// Taking one more line from the front of a listing writes that line out
/// after the ones taken before.
pub proof fn lemma_rendered_lines_step(lines: Seq<LineView>, labels: Set<usize>, n: int)
    requires
        0 <= n < lines.len(),
    ensures
        rendered_lines(lines.subrange(0, n + 1), labels) == rendered_lines(
            lines.subrange(0, n),
            labels,
        ) + rendered_line(lines[n], labels),
{
    let longer = lines.subrange(0, n + 1);
    assert(longer.drop_last() =~= lines.subrange(0, n));
    assert(longer.last() == lines[n]);
}

/// Appends one line as it is written out: its label first, if it stands at
/// an address that has one.
fn push_rendered_line(out: &mut String, line: &Line, labels: &HashSet<usize>)
    ensures
        final(out)@ == old(out)@ + rendered_line(line@, labels@),
{
    if let Some(a) = line.addr {
        if labels.contains(&a) {
            out.append("L");
            push_hex(out, a, 6);
            out.append(":\n");
        }
    }
    out.append(line.text.as_str());
    out.append("\n");
    assert(out@ =~= old(out)@ + rendered_line(line@, labels@));
}

impl Listing {
    /// Writes the listing out as the unit of program bank `id`. A line that
    /// stands at a labelled address has its label on a line before it.
    pub fn render(&self, id: u8) -> (r: String)
        ensures
            r@ == section_text(id, lines_view(self.lines@), self.labels@),
    {
        let ghost all = lines_view(self.lines@);
        let mut out: String = String::from_str(".BANK ");
        push_dec(&mut out, id as usize + 1, 1);
        out.append("\n.ORG $0000\n\n.SECTION \"Bank");
        push_dec(&mut out, id as usize, 1);
        out.append("\" FORCE\n\n");
        let ghost head = out@;
        let mut n: usize = 0;
        assert(out@ =~= head + rendered_lines(all.subrange(0, 0), self.labels@));
        while n < self.lines.len()
            invariant
                n <= self.lines@.len(),
                all == lines_view(self.lines@),
                out@ == head + rendered_lines(all.subrange(0, n as int), self.labels@),
            decreases self.lines@.len() - n,
        {
            push_rendered_line(&mut out, &self.lines[n], &self.labels);
            proof {
                lemma_rendered_lines_step(all, self.labels@, n as int);
            }
            assert(out@ =~= head + (rendered_lines(all.subrange(0, n as int), self.labels@)
                + rendered_line(all[n as int], self.labels@)));
            n = n + 1;
        }
        assert(all.subrange(0, n as int) =~= all);
        out.append("\n.ENDS\n");
        out
    }
}

/// Disassembles program bank `id`, whose bytes are `bank` and whose part of
/// the code/data log is `cdl`, into the text of its unit. Fails, and
/// produces nothing, if the log does not have one byte for each byte of
/// the bank.
pub fn disassemble_prg_bank(id: u8, bank: &[u8], rom_data: RomData, cdl: &[u8]) -> (r: Result<
    String,
    DisasmError,
>)
    requires
        bank@.len() <= isize::MAX,
        rom_data.banks_count >= 1,
    ensures
        match r {
            Ok(text) => cdl@.len() == bank@.len() && text@ == (BankView {
                id,
                bytes: bank@,
                trace: cdl@,
                rom_data,
            }).text(),
            Err(e) => cdl@.len() != bank@.len() && e == DisasmError::TraceMismatch,
        },
{
    if cdl.len() != bank.len() {
        return Err(DisasmError::TraceMismatch);
    }
    let input = Bank { id, bytes: bank, trace: cdl, rom_data };
    let listing = input.scan();
    Ok(listing.render(id))
}

} // verus!
