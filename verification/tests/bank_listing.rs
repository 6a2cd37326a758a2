use nes_disasm::address::RomData;
use nes_disasm::bank::{
    classify, disassemble_prg_bank, Bank, ByteClass, Line, Listing, ScanState,
};
use nes_disasm::error::DisasmError;
use std::collections::HashSet;

fn single() -> RomData {
    RomData { banks_count: 1, mapper: 10 }
}

fn scan(id: u8, bytes: &[u8], trace: &[u8], rom_data: RomData) -> Listing {
    assert_eq!(bytes.len(), trace.len());
    assert!(rom_data.banks_count >= 1);
    Bank { id, bytes, trace, rom_data }.scan()
}

fn texts(listing: &Listing) -> Vec<&str> {
    listing.lines.iter().map(|line| line.text.as_str()).collect()
}

fn labels(listing: &Listing) -> Vec<usize> {
    let mut all: Vec<usize> = listing.labels.iter().copied().collect();
    all.sort();
    all
}

#[test]
fn classes_of_log_bytes() {
    assert_eq!(classify(0x00), ByteClass::Unclassified);
    assert_eq!(classify(0x01), ByteClass::Code);
    assert_eq!(classify(0x02), ByteClass::Data);
    assert_eq!(classify(0x03), ByteClass::Code);
}

#[test]
fn only_the_two_low_bits_of_a_log_byte_count() {
    for t in 0u8..=255 {
        assert_eq!(classify(t), classify(t & 3));
    }
    assert_eq!(classify(0xFC), ByteClass::Unclassified);
    assert_eq!(classify(0xFE), ByteClass::Data);
    assert_eq!(classify(0xFD), ByteClass::Code);
}

#[test]
fn a_scan_begins_with_a_label_pending() {
    assert_eq!(ScanState::initial(), ScanState { inside_data: false, pending_label: true });
}

#[test]
fn listing_of_a_small_bank() {
    let bytes = [0xA9, 0x05, 0x4C, 0x00, 0xC0, 0x00, 0x02, 0xEA, 0x60, 0xFF];
    let trace = [0x01, 0x01, 0x01, 0x00, 0x00, 0x00, 0x02, 0x01, 0x01, 0x03];
    let text = disassemble_prg_bank(0, &bytes, single(), &trace).unwrap();
    let expected = "\
.BANK 1
.ORG $0000

.SECTION \"Bank0\" FORCE

L00C000:
    LDA #5
    JMP L00C000.w

.db $00
; start of data
.db $02
; end of data
L00C007:
    NOP 
    RTS 

.db $FF ; invalid opcode?

.ENDS
";
    assert_eq!(text, expected);
}

#[test]
fn lines_carry_the_address_they_start_at() {
    let bytes = [0xA9, 0x05, 0x60, 0x02];
    let trace = [0x01, 0x01, 0x01, 0x02];
    let listing = scan(0, &bytes, &trace, single());
    let expected = vec![
        Line { addr: Some(0xC000), text: "    LDA #5".to_string() },
        Line { addr: Some(0xC002), text: "    RTS ".to_string() },
        Line { addr: None, text: String::new() },
        Line { addr: None, text: "; start of data".to_string() },
        Line { addr: Some(0xC003), text: ".db $02".to_string() },
        Line { addr: None, text: "; end of data".to_string() },
    ];
    assert_eq!(listing.lines, expected);
    assert_eq!(labels(&listing), vec![0xC000]);
}

#[test]
fn global_addresses_count_from_the_banks_load_address() {
    let rom_data = RomData { banks_count: 4, mapper: 10 };
    let bytes = [0xEA];
    let trace = [0x01];
    assert_eq!(scan(0, &bytes, &trace, rom_data).lines[0].addr, Some(0x00_8000));
    assert_eq!(scan(2, &bytes, &trace, rom_data).lines[0].addr, Some(0x02_8000));
    assert_eq!(scan(3, &bytes, &trace, rom_data).lines[0].addr, Some(0x03_C000));
    let other = RomData { banks_count: 4, mapper: 1 };
    assert_eq!(scan(3, &bytes, &trace, other).lines[0].addr, Some(0x03_8000));
}

#[test]
fn both_bits_set_is_treated_as_code() {
    let bytes = [0xA9, 0x05, 0x4C, 0x00, 0x80, 0xEA, 0x02];
    let code = [0x01, 0x01, 0x01, 0x01, 0x01, 0x01, 0x01];
    let both = [0x03, 0x03, 0x03, 0x03, 0x03, 0x03, 0x03];
    let mixed = [0x03, 0x00, 0x01, 0x02, 0x03, 0x03, 0x01];
    let expected = scan(0, &bytes, &code, single());
    assert_eq!(scan(0, &bytes, &both, single()), expected);
    assert_eq!(scan(0, &bytes, &mixed, single()), expected);
    assert!(!texts(&expected).contains(&"; start of data"));
    assert_eq!(
        disassemble_prg_bank(0, &bytes, single(), &both),
        disassemble_prg_bank(0, &bytes, single(), &code)
    );
}

#[test]
fn unclassified_byte_forces_a_label_on_the_next_instruction() {
    let bytes = [0xEA, 0xEA, 0x00, 0x12, 0x34, 0x00, 0xEA, 0xEA];
    let trace = [0x01, 0x01, 0x00, 0x02, 0x02, 0x00, 0x01, 0x01];
    let listing = scan(0, &bytes, &trace, single());
    assert_eq!(labels(&listing), vec![0xC000, 0xC006]);
    let text = listing.render(0);
    assert!(text.contains(".db $00\nL00C006:\n    NOP \n    NOP \n"));
    assert!(!text.contains("L00C001:"));
    assert!(!text.contains("L00C007:"));
}

#[test]
fn data_alone_does_not_force_a_label() {
    let bytes = [0xEA, 0x12, 0xEA];
    let trace = [0x01, 0x02, 0x01];
    let listing = scan(0, &bytes, &trace, single());
    assert_eq!(labels(&listing), vec![0xC000]);
    assert_eq!(
        texts(&listing),
        vec!["    NOP ", "; start of data", ".db $12", "; end of data", "    NOP "]
    );
}

#[test]
fn a_return_or_a_jump_forces_a_label_and_a_separator() {
    let bytes = [0x60, 0xEA, 0x6C, 0x34, 0x12, 0xEA, 0x40, 0xEA];
    let trace = [0x01; 8];
    let listing = scan(0, &bytes, &trace, single());
    assert_eq!(
        texts(&listing),
        vec!["    RTS ", "", "    NOP ", "    JMP ($1234)", "", "    NOP ", "    RTI ", "    NOP "]
    );
    assert_eq!(labels(&listing), vec![0xC000, 0xC001, 0xC005]);
}

#[test]
fn branch_targets_are_labelled() {
    let bytes = [0xEA, 0xD0, 0xFD, 0xF0, 0x02, 0xEA, 0xEA, 0xEA];
    let trace = [0x01; 8];
    let listing = scan(0, &bytes, &trace, single());
    assert_eq!(
        texts(&listing),
        vec!["    NOP ", "    BNE L00C000", "    BEQ L00C007", "    NOP ", "    NOP ", "    NOP "]
    );
    assert_eq!(labels(&listing), vec![0xC000, 0xC007]);
    let text = listing.render(0);
    assert!(text.contains("    NOP \nL00C007:\n    NOP \n"));
}

#[test]
fn jump_into_the_fixed_window_resolves_into_the_last_bank() {
    let rom_data = RomData { banks_count: 2, mapper: 10 };
    let bytes = [0x4C, 0x00, 0xC0];
    let trace = [0x01, 0x01, 0x01];
    let last = scan(1, &bytes, &trace, rom_data);
    assert_eq!(texts(&last), vec!["    JMP L01C000.w", ""]);
    assert_eq!(labels(&last), vec![0x01_C000]);
    let first = scan(0, &bytes, &trace, rom_data);
    assert_eq!(texts(&first), vec!["    JMP L01C000.w", ""]);
    assert_eq!(labels(&first), vec![0x00_8000, 0x01_C000]);
    assert!(!first.labels.contains(&0x00_C000));
    assert!(last.render(1).starts_with(
        ".BANK 2\n.ORG $0000\n\n.SECTION \"Bank1\" FORCE\n\nL01C000:\n    JMP L01C000.w\n"
    ));
}

#[test]
fn referenced_ram_addresses_label_no_line() {
    let bytes = [0xAD, 0x00, 0x00, 0x12, 0x60];
    let trace = [0x01, 0x01, 0x01, 0x02, 0x01];
    let listing = scan(0, &bytes, &trace, single());
    assert!(listing.labels.contains(&0));
    let text = listing.render(0);
    assert!(text.contains("    LDA $0000\n; start of data\n.db $12\n; end of data\n    RTS \n\n"));
    assert!(!text.contains("L000000:"));
}

#[test]
fn undefined_opcode_is_a_literal_and_keeps_the_scan_going() {
    let bytes = [0x02, 0xA9, 0x07];
    let trace = [0x01, 0x01, 0x01];
    let listing = scan(0, &bytes, &trace, single());
    assert_eq!(texts(&listing), vec![".db $02 ; invalid opcode?", "    LDA #7"]);
    assert_eq!(labels(&listing), vec![0xC001]);
}

#[test]
fn instruction_cut_off_by_the_end_of_the_bank_is_a_literal() {
    let bytes = [0xEA, 0x4C, 0x00];
    let trace = [0x01, 0x01, 0x01];
    let listing = scan(0, &bytes, &trace, single());
    assert_eq!(
        texts(&listing),
        vec!["    NOP ", ".db $4C ; incomplete instruction", "    BRK "]
    );
    let tail = [0xA9];
    let listing = scan(0, &tail, &[0x01], single());
    assert_eq!(texts(&listing), vec![".db $A9 ; incomplete instruction"]);
    assert!(listing.labels.is_empty());
}

#[test]
fn instruction_that_ends_with_the_bank_is_decoded() {
    let bytes = [0x4C, 0x00, 0x80];
    let trace = [0x01, 0x00, 0x00];
    let listing = scan(0, &bytes, &trace, RomData { banks_count: 2, mapper: 10 });
    assert_eq!(texts(&listing), vec!["    JMP L008000.w", ""]);
}

#[test]
fn operand_bytes_are_not_classified() {
    let bytes = [0xAD, 0x34, 0x92, 0xEA];
    let trace = [0x01, 0x02, 0x00, 0x01];
    let listing = scan(0, &bytes, &trace, RomData { banks_count: 2, mapper: 10 });
    assert_eq!(texts(&listing), vec!["    LDA L009234.w", "    NOP "]);
    assert_eq!(labels(&listing), vec![0x00_8000, 0x00_9234]);
}

#[test]
fn open_data_run_is_closed_at_the_end() {
    let bytes = [0x01, 0x02];
    let trace = [0x02, 0x02];
    let text = disassemble_prg_bank(0, &bytes, single(), &trace).unwrap();
    assert!(text.ends_with("\n; start of data\n.db $01\n.db $02\n; end of data\n\n.ENDS\n"));
}

#[test]
fn empty_bank_has_an_empty_section() {
    let text = disassemble_prg_bank(4, &[], RomData { banks_count: 8, mapper: 10 }, &[]).unwrap();
    assert_eq!(text, ".BANK 5\n.ORG $0000\n\n.SECTION \"Bank4\" FORCE\n\n\n.ENDS\n");
}

#[test]
fn log_of_another_length_is_refused() {
    let bytes = [0xEA, 0xEA];
    assert_eq!(
        disassemble_prg_bank(0, &bytes, single(), &[0x01]),
        Err(DisasmError::TraceMismatch)
    );
    assert_eq!(
        disassemble_prg_bank(0, &bytes, single(), &[0x01, 0x01, 0x01]),
        Err(DisasmError::TraceMismatch)
    );
    assert_eq!(disassemble_prg_bank(0, &bytes, single(), &[]), Err(DisasmError::TraceMismatch));
}

#[test]
fn steps_report_what_they_consume() {
    let bytes = [0x4C, 0x00, 0xC0, 0x12, 0x00];
    let trace = [0x01, 0x01, 0x01, 0x02, 0x00];
    let bank = Bank { id: 0, bytes: &bytes, trace: &trace, rom_data: single() };
    let mut lines: Vec<Line> = Vec::new();
    let mut labels: HashSet<usize> = HashSet::new();
    let (taken, state) = bank.step(0, ScanState::initial(), &mut lines, &mut labels);
    assert_eq!(taken, 3);
    assert_eq!(state, ScanState { inside_data: false, pending_label: true });
    assert_eq!(lines.len(), 2);
    let (taken, state) = bank.step(3, state, &mut lines, &mut labels);
    assert_eq!(taken, 1);
    assert_eq!(state, ScanState { inside_data: true, pending_label: true });
    assert_eq!(lines.len(), 4);
    let (taken, state) = bank.step(4, state, &mut lines, &mut labels);
    assert_eq!(taken, 1);
    assert_eq!(state, ScanState { inside_data: false, pending_label: true });
    assert_eq!(lines.len(), 6);
    assert_eq!(lines[4], Line { addr: None, text: "; end of data".to_string() });
    assert_eq!(lines[5], Line { addr: Some(0xC004), text: ".db $00".to_string() });
    assert_eq!(labels.len(), 1);
    assert!(labels.contains(&0xC000));
}

#[test]
fn last_bank_number_does_not_overflow() {
    let text =
        disassemble_prg_bank(255, &[0xEA], RomData { banks_count: 1, mapper: 0 }, &[0x01]).unwrap();
    assert_eq!(
        text,
        ".BANK 256\n.ORG $0000\n\n.SECTION \"Bank255\" FORCE\n\nLFF8000:\n    NOP \n\n.ENDS\n"
    );
}
