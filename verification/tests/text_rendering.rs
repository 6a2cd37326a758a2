use nes_disasm::text::{digit_count, digit_str, push_dec, push_digits, push_hex, push_padded};

fn hex(n: usize, width: usize) -> String {
    let mut out = String::new();
    push_hex(&mut out, n, width);
    out
}

fn dec(n: usize, width: usize) -> String {
    let mut out = String::new();
    push_dec(&mut out, n, width);
    out
}

#[test]
fn digits_are_upper_case() {
    let expected = [
        "0", "1", "2", "3", "4", "5", "6", "7", "8", "9", "A", "B", "C", "D", "E", "F",
    ];
    for d in 0usize..16 {
        assert_eq!(digit_str(d), expected[d]);
    }
}

#[test]
fn hex_pads_with_zeros_to_the_width() {
    assert_eq!(hex(0, 2), "00");
    assert_eq!(hex(0x0A, 2), "0A");
    assert_eq!(hex(0xFF, 2), "FF");
    assert_eq!(hex(0x7FF, 4), "07FF");
    assert_eq!(hex(0x1C000, 6), "01C000");
    assert_eq!(hex(0xFFFFFF, 6), "FFFFFF");
}

#[test]
fn hex_never_cuts_a_number_that_is_wider() {
    assert_eq!(hex(0x4000, 1), "4000");
    assert_eq!(hex(0x1234567, 6), "1234567");
    assert_eq!(hex(0x100, 2), "100");
    assert_eq!(hex(0, 0), "0");
}

#[test]
fn hex_agrees_with_the_standard_formatter() {
    for n in [0usize, 1, 9, 10, 15, 16, 255, 256, 0x8000, 0xC000, 0xFF_FFFF, 0x100_0000] {
        assert_eq!(hex(n, 6), format!("{:06X}", n));
        assert_eq!(hex(n, 2), format!("{:02X}", n));
        assert_eq!(hex(n, 1), format!("{:X}", n));
    }
    assert_eq!(hex(usize::MAX, 6), format!("{:06X}", usize::MAX));
}

#[test]
fn dec_pads_with_zeros_to_the_width() {
    assert_eq!(dec(0, 1), "0");
    assert_eq!(dec(5, 1), "5");
    assert_eq!(dec(5, 3), "005");
    assert_eq!(dec(42, 3), "042");
    assert_eq!(dec(255, 3), "255");
    assert_eq!(dec(256, 1), "256");
    assert_eq!(dec(1000, 3), "1000");
}

#[test]
fn dec_agrees_with_the_standard_formatter() {
    for n in 0usize..=511 {
        assert_eq!(dec(n, 1), format!("{}", n));
        assert_eq!(dec(n, 3), format!("{:03}", n));
    }
    assert_eq!(dec(usize::MAX, 1), format!("{}", usize::MAX));
}

#[test]
fn digits_are_appended_to_what_is_there() {
    let mut out = String::from("$");
    push_digits(&mut out, 0xBEEF, 16);
    assert_eq!(out, "$BEEF");
    push_padded(&mut out, 5, 2, 8);
    assert_eq!(out, "$BEEF00000101");
}

#[test]
fn digit_count_is_the_length_of_the_number() {
    assert_eq!(digit_count(0, 16), 1);
    assert_eq!(digit_count(15, 16), 1);
    assert_eq!(digit_count(16, 16), 2);
    assert_eq!(digit_count(0xFFFFFF, 16), 6);
    assert_eq!(digit_count(9, 10), 1);
    assert_eq!(digit_count(10, 10), 2);
    assert_eq!(digit_count(255, 10), 3);
    assert_eq!(digit_count(255, 2), 8);
}
