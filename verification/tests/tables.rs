use disasm8086::tables::{ea_base, reg_name};
use disasm8086::text::{digit_str, push_decimal};

#[test]
fn byte_registers_by_selector() {
    let names: Vec<&str> = (0..8u8).map(|index| reg_name(0, index)).collect();
    assert_eq!(names, vec!["al", "cl", "dl", "bl", "ah", "ch", "dh", "bh"]);
}

#[test]
fn word_registers_by_selector() {
    let names: Vec<&str> = (0..8u8).map(|index| reg_name(1, index)).collect();
    assert_eq!(names, vec!["ax", "cx", "dx", "bx", "sp", "bp", "si", "di"]);
}

#[test]
fn address_bases_by_memory_field() {
    let bases: Vec<&str> = (0..8u8).map(ea_base).collect();
    assert_eq!(
        bases,
        vec!["bx + si", "bx + di", "bp + si", "bp + di", "si", "di", "bp", "bx"]
    );
}

#[test]
fn digits_are_single_characters() {
    let digits: Vec<&str> = (0..10u8).map(digit_str).collect();
    assert_eq!(digits, vec!["0", "1", "2", "3", "4", "5", "6", "7", "8", "9"]);
}

fn numeral(n: u64) -> String {
    let mut out = String::new();
    push_decimal(&mut out, n);
    out
}

#[test]
fn numerals_have_no_leading_zeros() {
    assert_eq!(numeral(0), "0");
    assert_eq!(numeral(7), "7");
    assert_eq!(numeral(9), "9");
    assert_eq!(numeral(10), "10");
    assert_eq!(numeral(100), "100");
    assert_eq!(numeral(255), "255");
    assert_eq!(numeral(256), "256");
    assert_eq!(numeral(1000), "1000");
    assert_eq!(numeral(65535), "65535");
    assert_eq!(numeral(u64::MAX), "18446744073709551615");
}

#[test]
fn numerals_agree_with_the_standard_rendering() {
    for n in 0..=65535u64 {
        assert_eq!(numeral(n), n.to_string());
    }
}

#[test]
fn numerals_are_appended_to_what_is_there() {
    let mut out = String::from("bx + ");
    push_decimal(&mut out, 42);
    assert_eq!(out, "bx + 42");
}
