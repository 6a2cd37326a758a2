//! What holds of every listing: which addresses are sure to be labelled,
//! and what a listing does and does not depend on.

use crate::bank::{class_of, BankView, ByteClass, Kind, LineView, ScanState};
use crate::error::DisasmError;
use crate::opcode::{Addressing, Opcode};
use crate::operand::displacement;
use crate::rom::{failure, Disassembly};
use vstd::prelude::*;

verus! {

/// The state in which a scan that stands at position `from` in state
/// `state` arrives at position `i`, if it stops there at all: a scan steps
/// over the operand bytes of the instructions it decodes.
pub open spec fn state_at(bank: BankView, from: int, state: ScanState, i: int) -> Option<
    ScanState,
>
    decreases i - from,
{
    if from == i {
        Some(state)
    } else if 0 <= from < bank.bytes.len() && from + bank.step_len(from) <= i {
        state_at(bank, from + bank.step_len(from), bank.next_state(from, state), i)
    } else {
        None
    }
}

/// Whether the scan of a bank stops at position `i`, and is in state
/// `state` when it does.
pub open spec fn visits(bank: BankView, i: int, state: ScanState) -> bool {
    state_at(bank, 0, ScanState::start(), i) == Some(state)
}

/// A scan that arrives at `i` and goes on from there to `j` arrives at `j`.
pub proof fn lemma_state_at_transitive(
    bank: BankView,
    from: int,
    state: ScanState,
    i: int,
    j: int,
)
    requires
        state_at(bank, from, state, i).is_some(),
        state_at(bank, i, state_at(bank, from, state, i).unwrap(), j).is_some(),
    ensures
        state_at(bank, from, state, j) == state_at(
            bank,
            i,
            state_at(bank, from, state, i).unwrap(),
            j,
        ),
    decreases i - from,
{
    if from != i {
        lemma_state_at_later(bank, i, state_at(bank, from, state, i).unwrap(), j);
        lemma_state_at_transitive(
            bank,
            from + bank.step_len(from),
            bank.next_state(from, state),
            i,
            j,
        );
    }
}

/// A scan only moves forward.
pub proof fn lemma_state_at_later(bank: BankView, from: int, state: ScanState, i: int)
    requires
        state_at(bank, from, state, i).is_some(),
    ensures
        from <= i,
    decreases i - from,
{
    if from != i {
        lemma_state_at_later(bank, from + bank.step_len(from), bank.next_state(from, state), i);
    }
}

/// What the scan collects at a position it stops at is among the labels
/// of the part of the bank it was scanning.
pub proof fn lemma_step_labels_collected(bank: BankView, from: int, state: ScanState, i: int)
    requires
        0 <= i < bank.bytes.len(),
        state_at(bank, from, state, i).is_some(),
    ensures
        bank.step_labels(i, state_at(bank, from, state, i).unwrap()).subset_of(
            bank.labels_from(from, state),
        ),
    decreases i - from,
{
    if from != i {
        lemma_step_labels_collected(
            bank,
            from + bank.step_len(from),
            bank.next_state(from, state),
            i,
        );
    }
}

/// The address that an instruction refers to is labelled: wherever the
/// scan decodes an instruction whose operand refers to a global address,
/// that address is one that the machine can hold, and the listing's labels
/// hold it.
pub proof fn lemma_reference_labelled(bank: BankView, i: int, state: ScanState, o: Opcode)
    requires
        bank.wf(),
        0 <= i < bank.bytes.len(),
        visits(bank, i, state),
        bank.kind_at(i) == Kind::Instruction(o),
        bank.reference(i, o).is_some(),
    ensures
        0 <= bank.reference(i, o).unwrap() <= usize::MAX,
        bank.labels().contains(bank.reference(i, o).unwrap() as usize),
{
    lemma_step_labels_collected(bank, 0, ScanState::start(), i);
}

/// The target of a branch is labelled: a branch that the scan decodes at
/// global address `A` with the displacement `d` refers to `A + d + 2`, and
/// the listing's labels hold that address.
pub proof fn lemma_branch_target_labelled(bank: BankView, i: int, state: ScanState, o: Opcode)
    requires
        bank.wf(),
        0 <= i < bank.bytes.len(),
        visits(bank, i, state),
        bank.kind_at(i) == Kind::Instruction(o),
        o.addressing == Addressing::Relative,
    ensures
        bank.reference(i, o) == Some(bank.global(i) + displacement(bank.bytes[i + 1]) + 2),
        0 <= bank.global(i) + displacement(bank.bytes[i + 1]) + 2 <= usize::MAX,
        bank.labels().contains((bank.global(i) + displacement(bank.bytes[i + 1]) + 2) as usize),
{
    lemma_reference_labelled(bank, i, state, o);
}

/// An instruction that the scan decodes while a label is pending is
/// labelled.
pub proof fn lemma_block_start_labelled(bank: BankView, i: int, state: ScanState)
    requires
        0 <= i < bank.bytes.len(),
        visits(bank, i, state),
        bank.kind_at(i) is Instruction,
        state.pending_label,
    ensures
        bank.labels().contains(bank.global(i)),
{
    lemma_step_labels_collected(bank, 0, ScanState::start(), i);
}

/// Through a stretch of the bank in which no instruction is decoded the
/// scan stops at every byte, and a label that is pending stays pending.
pub proof fn lemma_pending_label_kept(bank: BankView, i: int, state: ScanState, j: int)
    requires
        0 <= i <= j <= bank.bytes.len(),
        state.pending_label,
        forall|k: int| i <= k < j ==> !(#[trigger] bank.kind_at(k) is Instruction),
    ensures
        state_at(bank, i, state, j).is_some(),
        state_at(bank, i, state, j).unwrap().pending_label,
    decreases j - i,
{
    if i != j {
        assert(!(bank.kind_at(i) is Instruction));
        lemma_pending_label_kept(bank, i + 1, bank.next_state(i, state), j);
    }
}

/// After an unclassified byte the next instruction is labelled: if the
/// scan stops at an unclassified byte at `i`, and the first instruction
/// that it decodes after `i` stands at `j`, whatever lies between them,
/// then the listing's labels hold the address of `j`.
pub proof fn lemma_label_after_unclassified(bank: BankView, i: int, state: ScanState, j: int)
    requires
        0 <= i < j < bank.bytes.len(),
        visits(bank, i, state),
        bank.kind_at(i) == Kind::Unclassified,
        bank.kind_at(j) is Instruction,
        forall|k: int| i < k < j ==> !(#[trigger] bank.kind_at(k) is Instruction),
    ensures
        bank.labels().contains(bank.global(j)),
{
    let after = bank.next_state(i, state);
    lemma_pending_label_kept(bank, i + 1, after, j);
    assert(state_at(bank, i, state, j) == state_at(bank, i + 1, after, j));
    lemma_state_at_transitive(bank, 0, ScanState::start(), i, j);
    lemma_block_start_labelled(bank, j, state_at(bank, i, state, j).unwrap());
}

/// Whether the lines that stand at an address stand at addresses from `lo`
/// up, each at a higher one than those before it.
pub open spec fn ascending_from(lines: Seq<LineView>, lo: int) -> bool {
    &&& forall|k: int|
        0 <= k < lines.len() && (#[trigger] lines[k]).addr.is_some() ==> lines[k].addr.unwrap()
            >= lo
    &&& forall|a: int, b: int|
        0 <= a < b < lines.len() && (#[trigger] lines[a]).addr.is_some() && (
        #[trigger] lines[b]).addr.is_some() ==> lines[a].addr.unwrap() < lines[b].addr.unwrap()
}

/// From any position on, the scan emits its lines in the order of their
/// addresses, and none below the address of that position.
pub proof fn lemma_lines_from_ascending(bank: BankView, i: int, state: ScanState)
    requires
        bank.wf(),
        0 <= i <= bank.bytes.len(),
    ensures
        ascending_from(bank.lines_from(i, state), i + bank.base()),
    decreases bank.bytes.len() - i,
{
    if i < bank.bytes.len() {
        let head = bank.step_lines(i, state);
        let next = i + bank.step_len(i);
        let tail = bank.lines_from(next, bank.next_state(i, state));
        if let Kind::Instruction(o) = bank.kind_at(i) {
            assert(next <= bank.bytes.len());
        }
        lemma_lines_from_ascending(bank, next, bank.next_state(i, state));
        let all = bank.lines_from(i, state);
        assert(all == head + tail);
        assert forall|k: int| 0 <= k < head.len() && (#[trigger] head[k]).addr.is_some() implies
            head[k].addr.unwrap() == i + bank.base() by {}
        assert forall|k: int|
            0 <= k < all.len() && (#[trigger] all[k]).addr.is_some() implies all[k].addr.unwrap()
            >= i + bank.base() && (k >= head.len() ==> all[k].addr.unwrap() >= next
            + bank.base()) && (k < head.len() ==> all[k].addr.unwrap() == i + bank.base()) by {
            if k >= head.len() {
                assert(all[k] == tail[k - head.len()]);
            } else {
                assert(all[k] == head[k]);
            }
        }
        assert forall|a: int, b: int|
            0 <= a < b < all.len() && (#[trigger] all[a]).addr.is_some() && (
            #[trigger] all[b]).addr.is_some() implies all[a].addr.unwrap()
            < all[b].addr.unwrap() by {
            if a >= head.len() {
                assert(all[a] == tail[a - head.len()]);
                assert(all[b] == tail[b - head.len()]);
            } else if b >= head.len() {
                assert(all[a] == head[a]);
                assert(all[b] == tail[b - head.len()]);
            } else {
                lemma_one_address_per_step(bank, i, state, a, b);
            }
        }
    }
}

/// Of the lines that the scan emits at one position, one stands at an
/// address.
proof fn lemma_one_address_per_step(bank: BankView, i: int, state: ScanState, a: int, b: int)
    requires
        0 <= a < b < bank.step_lines(i, state).len(),
    ensures
        bank.step_lines(i, state)[a].addr.is_none() || bank.step_lines(i, state)[b].addr.is_none(),
{
}

/// A listing is in the order of its addresses: of two lines that stand at
/// an address, the later one stands at the higher address.
pub proof fn lemma_lines_ascending(bank: BankView, a: int, b: int)
    requires
        bank.wf(),
        0 <= a < b < bank.lines().len(),
        bank.lines()[a].addr.is_some(),
        bank.lines()[b].addr.is_some(),
    ensures
        bank.lines()[a].addr.unwrap() < bank.lines()[b].addr.unwrap(),
{
    lemma_lines_from_ascending(bank, 0, ScanState::start());
}

/// A byte of the log with both the code bit and the data bit set counts as
/// code, like one with the code bit alone.
pub proof fn lemma_code_wins_over_data()
    ensures
        class_of(0x03) == ByteClass::Code,
        class_of(0x01) == ByteClass::Code,
{
    assert(0x03u8 & 1 == 1) by (bit_vector);
    assert(0x01u8 & 1 == 1) by (bit_vector);
}

/// Whether two logs say the same of every byte.
pub open spec fn same_classes(a: Seq<u8>, b: Seq<u8>) -> bool {
    &&& a.len() == b.len()
    &&& forall|i: int| 0 <= i < a.len() ==> class_of(#[trigger] a[i]) == class_of(b[i])
}

/// From any position on, a scan depends on the log only through the class
/// of each byte.
pub proof fn lemma_scan_depends_on_classes(a: BankView, b: BankView, i: int, state: ScanState)
    requires
        a.id == b.id,
        a.bytes == b.bytes,
        a.rom_data == b.rom_data,
        a.trace.len() == a.bytes.len(),
        same_classes(a.trace, b.trace),
    ensures
        a.lines_from(i, state) == b.lines_from(i, state),
        a.labels_from(i, state) == b.labels_from(i, state),
    decreases a.bytes.len() - i,
{
    if 0 <= i < a.bytes.len() {
        assert(class_of(a.trace[i]) == class_of(b.trace[i]));
        assert(a.kind_at(i) == b.kind_at(i)) by {
            lemma_same_kind(a, b, i);
        }
        lemma_scan_depends_on_classes(a, b, i + a.step_len(i), a.next_state(i, state));
    }
}

/// Two banks that differ only in logs that say the same of every byte hold
/// the same thing at every position.
proof fn lemma_same_kind(a: BankView, b: BankView, i: int)
    requires
        a.id == b.id,
        a.bytes == b.bytes,
        a.rom_data == b.rom_data,
        a.trace.len() == b.trace.len(),
        class_of(a.trace[i]) == class_of(b.trace[i]),
    ensures
        a.kind_at(i) == b.kind_at(i),
{
}

/// A listing depends on the log only through the class of each byte: two
/// logs that say the same of every byte give the same lines, the same
/// labels and the same text. So a log byte with both bits set gives what
/// one with the code bit alone gives.
pub proof fn lemma_listing_depends_on_classes(a: BankView, b: BankView)
    requires
        a.id == b.id,
        a.bytes == b.bytes,
        a.rom_data == b.rom_data,
        a.trace.len() == a.bytes.len(),
        same_classes(a.trace, b.trace),
    ensures
        a.lines() == b.lines(),
        a.labels() == b.labels(),
        a.text() == b.text(),
{
    lemma_scan_depends_on_classes(a, b, 0, ScanState::start());
}

/// Disassembling is a function of the image and the log: two
/// disassemblies of the same input hold the same header, the same
/// top-level unit, the same unit for each program bank and the same bytes
/// for each graphics bank.
pub proof fn lemma_disassembly_unique(rom: Seq<u8>, cdl: Seq<u8>, a: Disassembly, b: Disassembly)
    requires
        a.is_disassembly_of(rom, cdl),
        b.is_disassembly_of(rom, cdl),
    ensures
        a.header@ == b.header@,
        a.main@ == b.main@,
        a.prg_banks@.len() == b.prg_banks@.len(),
        forall|id: int|
            0 <= id < a.prg_banks@.len() ==> (#[trigger] a.prg_banks@[id])@ == b.prg_banks@[id]@,
        a.chr_banks@.len() == b.chr_banks@.len(),
        forall|id: int|
            0 <= id < a.chr_banks@.len() ==> (#[trigger] a.chr_banks@[id])@ == b.chr_banks@[id]@,
{
    assert forall|id: int| 0 <= id < a.prg_banks@.len() implies (#[trigger] a.prg_banks@[id])@
        == b.prg_banks@[id]@ by {
        assert(b.prg_banks@[id]@ == crate::rom::prg_bank(rom, cdl, b.header@, id).text());
    }
    assert forall|id: int| 0 <= id < a.chr_banks@.len() implies (#[trigger] a.chr_banks@[id])@
        == b.chr_banks@[id]@ by {
        assert(b.chr_banks@[id]@ == crate::rom::chr_bank(rom, b.header@, id));
    }
}

/// An input is either disassembled or refused, never both: a disassembly
/// exists only of an input that has no fault.
pub proof fn lemma_disassembly_excludes_failure(
    rom: Seq<u8>,
    cdl: Seq<u8>,
    d: Disassembly,
    e: DisasmError,
)
    requires
        d.is_disassembly_of(rom, cdl),
    ensures
        failure(rom, cdl) != Some(e),
{
}

} // verus!
