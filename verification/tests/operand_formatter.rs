use nes_disasm::address::RomData;
use nes_disasm::opcode::Addressing;
use nes_disasm::operand::write_addressing;

fn rom() -> RomData {
    RomData { banks_count: 4, mapper: 10 }
}

fn decode(mode: Addressing, bytes: &[u8]) -> (usize, String, Option<usize>) {
    write_addressing(&mode, bytes, 1, 0x01_8000, rom())
}

#[test]
fn absolute_modes_resolve_their_address() {
    assert_eq!(
        decode(Addressing::Absolute, &[0x34, 0x92]),
        (2, "L019234.w".to_string(), Some(0x01_9234))
    );
    assert_eq!(
        decode(Addressing::AbsoluteX, &[0x34, 0x92]),
        (2, "L019234.w,X".to_string(), Some(0x01_9234))
    );
    assert_eq!(
        decode(Addressing::AbsoluteY, &[0x00, 0xC0]),
        (2, "L03C000.w,Y".to_string(), Some(0x03_C000))
    );
}

#[test]
fn absolute_modes_write_ram_addresses_raw() {
    assert_eq!(decode(Addressing::Absolute, &[0x00, 0x02]), (2, "$0200".to_string(), Some(0x0200)));
    assert_eq!(
        decode(Addressing::AbsoluteX, &[0x00, 0x60]),
        (2, "$6000,X".to_string(), Some(0x6000))
    );
    assert_eq!(
        decode(Addressing::AbsoluteY, &[0xFF, 0x07]),
        (2, "$07FF,Y".to_string(), Some(0x07FF))
    );
}

#[test]
fn modes_without_operand() {
    assert_eq!(decode(Addressing::Accumulator, &[]), (0, String::new(), None));
    assert_eq!(decode(Addressing::Implied, &[]), (0, String::new(), None));
    assert_eq!(decode(Addressing::Implied, &[0x12, 0x34]), (0, String::new(), None));
}

#[test]
fn immediate_is_decimal() {
    assert_eq!(decode(Addressing::Immediate, &[5]), (1, "#5".to_string(), None));
    assert_eq!(decode(Addressing::Immediate, &[0]), (1, "#0".to_string(), None));
    assert_eq!(decode(Addressing::Immediate, &[255, 9]), (1, "#255".to_string(), None));
    assert_eq!(decode(Addressing::Immediate, &[100]), (1, "#100".to_string(), None));
}

#[test]
fn indirect_modes_are_raw_hex() {
    assert_eq!(decode(Addressing::Indirect, &[0x34, 0x12]), (2, "($1234)".to_string(), None));
    assert_eq!(decode(Addressing::Indirect, &[0x00, 0xC0]), (2, "($C000)".to_string(), None));
    assert_eq!(decode(Addressing::IndirectY, &[0x0A]), (1, "($0A),Y".to_string(), None));
    assert_eq!(decode(Addressing::XIndirect, &[0xFE]), (1, "($FE,X)".to_string(), None));
}

#[test]
fn zero_page_modes_are_raw_hex() {
    assert_eq!(decode(Addressing::ZeroPage, &[0x00]), (1, "$00".to_string(), None));
    assert_eq!(decode(Addressing::ZeroPage, &[0xAB]), (1, "$AB".to_string(), None));
    assert_eq!(decode(Addressing::ZeroPageX, &[0x10]), (1, "$10,X".to_string(), None));
    assert_eq!(decode(Addressing::ZeroPageY, &[0x7F]), (1, "$7F,Y".to_string(), None));
}

#[test]
fn branch_forward() {
    assert_eq!(
        write_addressing(&Addressing::Relative, &[0x10], 1, 0x01_8000, rom()),
        (1, "L018012".to_string(), Some(0x01_8012))
    );
    assert_eq!(
        write_addressing(&Addressing::Relative, &[0x00], 1, 0x01_8000, rom()),
        (1, "L018002".to_string(), Some(0x01_8002))
    );
    assert_eq!(
        write_addressing(&Addressing::Relative, &[0x7F], 1, 0x01_8000, rom()),
        (1, "L018081".to_string(), Some(0x01_8081))
    );
}

#[test]
fn branch_backward() {
    assert_eq!(
        write_addressing(&Addressing::Relative, &[0xFE], 1, 0x01_8000, rom()),
        (1, "L018000".to_string(), Some(0x01_8000))
    );
    assert_eq!(
        write_addressing(&Addressing::Relative, &[0xFF], 1, 0x01_8000, rom()),
        (1, "L018001".to_string(), Some(0x01_8001))
    );
    assert_eq!(
        write_addressing(&Addressing::Relative, &[0xFD], 1, 0x01_8000, rom()),
        (1, "L017FFF".to_string(), Some(0x01_7FFF))
    );
    assert_eq!(
        write_addressing(&Addressing::Relative, &[0x80], 1, 0x01_8000, rom()),
        (1, "L017F82".to_string(), Some(0x01_7F82))
    );
}

#[test]
fn branch_target_is_position_plus_displacement_plus_two() {
    for b in 0u8..=255 {
        let position: usize = 0x02_C123;
        let (size, text, target) =
            write_addressing(&Addressing::Relative, &[b], 2, position, rom());
        let expected = (position as i64 + (b as i8) as i64 + 2) as usize;
        assert_eq!(size, 1);
        assert_eq!(target, Some(expected));
        assert_eq!(text, format!("L{:06X}", expected));
    }
}

#[test]
fn branch_target_is_a_label_even_in_the_ram_range() {
    assert_eq!(
        write_addressing(&Addressing::Relative, &[0x10], 0, 0x0200, rom()),
        (1, "L000212".to_string(), Some(0x0212))
    );
    assert_eq!(
        write_addressing(&Addressing::Relative, &[0x80], 0, 126, rom()),
        (1, "L000000".to_string(), Some(0))
    );
}

#[test]
fn only_the_operand_bytes_are_read() {
    assert_eq!(
        decode(Addressing::ZeroPage, &[0x12, 0x34, 0x56]),
        (1, "$12".to_string(), None)
    );
    assert_eq!(
        decode(Addressing::Absolute, &[0x00, 0x90, 0xFF]),
        (2, "L019000.w".to_string(), Some(0x01_9000))
    );
}
