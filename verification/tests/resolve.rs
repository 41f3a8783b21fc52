use disasm8086::{to_asm, OpCode, Truncated};
use std::collections::HashMap;

fn decode(bytes: &[u8]) -> Result<(usize, String), Truncated> {
    let contents = bytes.to_vec();
    to_asm(OpCode::build(contents[0]), 0, &contents)
}

fn line(bytes: &[u8]) -> (usize, String) {
    decode(bytes).unwrap()
}

fn ok(consumed: usize, text: &str) -> (usize, String) {
    (consumed, text.to_string())
}

#[test]
fn register_to_register_word() {
    assert_eq!(line(&[0x89, 0xD9]), ok(1, "mov cx, bx"));
}

#[test]
fn register_to_register_byte() {
    assert_eq!(line(&[0x88, 0xE5]), ok(1, "mov ch, ah"));
    assert_eq!(line(&[0x88, 0xC1]), ok(1, "mov cl, al"));
}

#[test]
fn register_to_register_with_the_register_field_as_destination() {
    // d = 1: the register field (011 = bx) is the destination.
    assert_eq!(line(&[0x8B, 0xD9]), ok(1, "mov bx, cx"));
    assert_eq!(line(&[0x8A, 0xC1]), ok(1, "mov al, cl"));
}

#[test]
fn every_register_pair_in_mode_three() {
    let word = ["ax", "cx", "dx", "bx", "sp", "bp", "si", "di"];
    let byte = ["al", "cl", "dl", "bl", "ah", "ch", "dh", "bh"];
    for reg in 0..8usize {
        for rm in 0..8usize {
            let modrm = 0xC0 | (reg as u8) << 3 | rm as u8;
            assert_eq!(line(&[0x89, modrm]), ok(1, &format!("mov {}, {}", word[rm], word[reg])));
            assert_eq!(line(&[0x8B, modrm]), ok(1, &format!("mov {}, {}", word[reg], word[rm])));
            assert_eq!(line(&[0x88, modrm]), ok(1, &format!("mov {}, {}", byte[rm], byte[reg])));
            assert_eq!(line(&[0x8A, modrm]), ok(1, &format!("mov {}, {}", byte[reg], byte[rm])));
        }
    }
}

#[test]
fn immediate_to_register_word() {
    assert_eq!(line(&[0xB8, 0x01, 0x00]), ok(2, "mov ax, 1"));
}

#[test]
fn immediate_to_register_byte() {
    assert_eq!(line(&[0xB1, 0x0C]), ok(1, "mov cl, 12"));
    assert_eq!(line(&[0xB5, 0xF4]), ok(1, "mov ch, 244"));
}

#[test]
fn immediates_are_little_endian_and_unsigned() {
    assert_eq!(line(&[0xB9, 0x0C, 0x00]), ok(2, "mov cx, 12"));
    assert_eq!(line(&[0xBA, 0x6C, 0x0F]), ok(2, "mov dx, 3948"));
    assert_eq!(line(&[0xBA, 0x94, 0xF0]), ok(2, "mov dx, 61588"));
    assert_eq!(line(&[0xBF, 0xFF, 0xFF]), ok(2, "mov di, 65535"));
    assert_eq!(line(&[0xBB, 0x00, 0x01]), ok(2, "mov bx, 256"));
}

#[test]
fn no_displacement_memory_source() {
    assert_eq!(line(&[0x8A, 0x00]), ok(1, "mov al, [bx + si]"));
    assert_eq!(line(&[0x8B, 0x1B]), ok(1, "mov bx, [bp + di]"));
    assert_eq!(line(&[0x8B, 0x0F]), ok(1, "mov cx, [bx]"));
}

#[test]
fn no_displacement_memory_destination() {
    assert_eq!(line(&[0x89, 0x09]), ok(1, "mov [bx + di], cx"));
    assert_eq!(line(&[0x88, 0x0A]), ok(1, "mov [bp + si], cl"));
    assert_eq!(line(&[0x88, 0x2C]), ok(1, "mov [si], ch"));
}

#[test]
fn mode_one_with_zero_displacement_omits_the_term() {
    assert_eq!(line(&[0x8B, 0x40, 0x00]), ok(2, "mov ax, [bx + si]"));
    assert_eq!(line(&[0x88, 0x6E, 0x00]), ok(2, "mov [bp], ch"));
}

#[test]
fn mode_one_with_displacement_five_renders_it() {
    assert_eq!(line(&[0x8B, 0x40, 0x05]), ok(2, "mov ax, [bx + si + 5]"));
    assert_eq!(line(&[0x8A, 0x60, 0x04]), ok(2, "mov ah, [bx + si + 4]"));
    assert_eq!(line(&[0x89, 0x4F, 0x05]), ok(2, "mov [bx + 5], cx"));
}

#[test]
fn mode_two_with_zero_displacement_still_renders_it() {
    assert_eq!(line(&[0x8B, 0x80, 0x00, 0x00]), ok(3, "mov ax, [bx + si + 0]"));
    assert_eq!(line(&[0x89, 0x87, 0x00, 0x00]), ok(3, "mov [bx + 0], ax"));
}

#[test]
fn mode_two_displacement_is_little_endian() {
    assert_eq!(line(&[0x8A, 0x80, 0x87, 0x13]), ok(3, "mov al, [bx + si + 4999]"));
    assert_eq!(line(&[0x8B, 0x96, 0x01, 0x00]), ok(3, "mov dx, [bp + 1]"));
    assert_eq!(line(&[0x8B, 0x96, 0x00, 0x01]), ok(3, "mov dx, [bp + 256]"));
}

#[test]
fn displacements_are_not_sign_extended() {
    assert_eq!(line(&[0x8B, 0x41, 0xDB]), ok(2, "mov ax, [bx + di + 219]"));
    assert_eq!(line(&[0x8B, 0x57, 0xFF]), ok(2, "mov dx, [bx + 255]"));
    assert_eq!(line(&[0x89, 0x8C, 0xD4, 0xFE]), ok(3, "mov [si + 65236], cx"));
}

#[test]
fn direct_address_takes_two_bytes_and_renders_a_literal() {
    assert_eq!(line(&[0x8B, 0x2E, 0x05, 0x00]), ok(3, "mov bp, [5]"));
    assert_eq!(line(&[0x8B, 0x1E, 0x82, 0x0D]), ok(3, "mov bx, [3458]"));
    assert_eq!(line(&[0x89, 0x0E, 0x00, 0x00]), ok(3, "mov [0], cx"));
    assert_eq!(line(&[0x88, 0x26, 0xFF, 0xFF]), ok(3, "mov [65535], ah"));
}

#[test]
fn direct_address_never_names_the_base_of_field_six() {
    for modrm in [0x06u8, 0x0E, 0x16, 0x1E, 0x26, 0x2E, 0x36, 0x3E] {
        for opcode in 0x88u8..=0x8B {
            let (consumed, text) = line(&[opcode, modrm, 0x34, 0x12]);
            assert_eq!(consumed, 3);
            assert!(text.contains("[4660]"), "{text}");
            assert!(!text.contains("bp]"), "{text}");
        }
    }
}

#[test]
fn field_six_with_a_displacement_is_based_on_bp() {
    assert_eq!(line(&[0x8B, 0x46, 0x02]), ok(2, "mov ax, [bp + 2]"));
    assert_eq!(line(&[0x8B, 0x86, 0x02, 0x00]), ok(3, "mov ax, [bp + 2]"));
}

#[test]
fn consumption_follows_mode_and_width() {
    for modrm in 0..=255u8 {
        let mode = modrm >> 6;
        let rm = modrm & 7;
        let expected = match mode {
            0 if rm == 6 => 3,
            0 | 3 => 1,
            1 => 2,
            _ => 3,
        };
        for opcode in 0x88u8..=0x8B {
            let (consumed, _) = line(&[opcode, modrm, 0x11, 0x22, 0x33]);
            assert_eq!(consumed, expected, "opcode {opcode:#04x} mode byte {modrm:#04x}");
        }
    }
    for opcode in 0xB0u8..=0xB7 {
        assert_eq!(line(&[opcode, 0x11, 0x22]).0, 1);
    }
    for opcode in 0xB8u8..=0xBF {
        assert_eq!(line(&[opcode, 0x11, 0x22]).0, 2);
    }
}

#[test]
fn operands_are_resolved_at_the_cursor() {
    let contents = vec![0x00, 0xFF, 0x89, 0xD9, 0xB8, 0x01, 0x00];
    assert_eq!(to_asm(OpCode::build(0x89), 2, &contents), Ok(ok(1, "mov cx, bx")));
    assert_eq!(to_asm(OpCode::build(0xB8), 4, &contents), Ok(ok(2, "mov ax, 1")));
}

#[test]
fn unresolved_families_yield_a_diagnostic() {
    assert_eq!(
        line(&[0xC6, 0x03, 0x07]),
        ok(1, "Not implemented: OpCode { displacement: 1, op_type: MovImmToRegmem, d: 0, w: 0, reg: 0 }")
    );
    assert_eq!(
        line(&[0xA1, 0xFB, 0x09]),
        ok(1, "Not implemented: OpCode { displacement: 1, op_type: MovMemToAcc, d: 0, w: 1, reg: 0 }")
    );
    assert_eq!(
        line(&[0xA2, 0x0F, 0x00]),
        ok(1, "Not implemented: OpCode { displacement: 1, op_type: MovAccToMem, d: 0, w: 0, reg: 0 }")
    );
}

#[test]
fn an_unclassified_byte_consumes_and_renders_nothing() {
    assert_eq!(line(&[0x90]), ok(0, ""));
    assert_eq!(line(&[0x8C, 0xD9]), ok(0, ""));
}

#[test]
fn missing_mode_byte_is_truncation() {
    assert_eq!(decode(&[0x89]), Err(Truncated { offset: 0 }));
}

#[test]
fn missing_displacement_is_truncation() {
    assert_eq!(decode(&[0x8B, 0x40]), Err(Truncated { offset: 0 }));
    assert_eq!(decode(&[0x8B, 0x80]), Err(Truncated { offset: 0 }));
    assert_eq!(decode(&[0x8B, 0x80, 0x01]), Err(Truncated { offset: 0 }));
}

#[test]
fn missing_direct_address_is_truncation() {
    assert_eq!(decode(&[0x8B, 0x2E]), Err(Truncated { offset: 0 }));
    assert_eq!(decode(&[0x8B, 0x2E, 0x05]), Err(Truncated { offset: 0 }));
}

#[test]
fn missing_immediate_is_truncation() {
    assert_eq!(decode(&[0xB0]), Err(Truncated { offset: 0 }));
    assert_eq!(decode(&[0xB8]), Err(Truncated { offset: 0 }));
    assert_eq!(decode(&[0xB8, 0x01]), Err(Truncated { offset: 0 }));
}

#[test]
fn missing_byte_of_an_unresolved_family_is_truncation() {
    assert_eq!(decode(&[0xC6]), Err(Truncated { offset: 0 }));
    assert_eq!(decode(&[0xA0]), Err(Truncated { offset: 0 }));
    assert_eq!(decode(&[0xA3]), Err(Truncated { offset: 0 }));
}

#[test]
fn truncation_reports_the_cursor() {
    let contents = vec![0x89, 0xD9, 0xB8, 0x01];
    assert_eq!(to_asm(OpCode::build(0xB8), 2, &contents), Err(Truncated { offset: 2 }));
}

#[test]
fn a_cursor_past_the_end_is_truncation() {
    let contents = vec![0x89, 0xD9];
    assert_eq!(to_asm(OpCode::build(0x89), 2, &contents), Err(Truncated { offset: 2 }));
    assert_eq!(to_asm(OpCode::build(0x89), usize::MAX, &contents), Err(Truncated { offset: usize::MAX }));
}

#[test]
fn resolving_twice_gives_the_same_line() {
    let contents = vec![0x8B, 0x41, 0xDB];
    let op = OpCode::build(contents[0]);
    assert_eq!(to_asm(op, 0, &contents), to_asm(op, 0, &contents));
}

#[test]
fn moves_share_a_line_only_where_they_share_their_operands() {
    let mut seen: HashMap<String, (String, String)> = HashMap::new();
    let word = ["ax", "cx", "dx", "bx", "sp", "bp", "si", "di"];
    let byte = ["al", "cl", "dl", "bl", "ah", "ch", "dh", "bh"];
    let bases = ["bx + si", "bx + di", "bp + si", "bp + di", "si", "di", "bp", "bx"];
    for opcode in 0x88u8..=0x8B {
        let names = if opcode & 1 == 1 { word } else { byte };
        for modrm in 0..=255u8 {
            for tail in [[0x00u8, 0x00], [0x05, 0x00], [0x34, 0x12]] {
                let (mode, reg, rm) = (modrm >> 6, (modrm >> 3) & 7, modrm & 7);
                let value = u16::from_le_bytes(tail);
                let other = match (mode, rm) {
                    (3, _) => format!("register {}", names[rm as usize]),
                    (0, 6) => format!("memory at {value}"),
                    (0, _) => format!("memory at {}", bases[rm as usize]),
                    (1, _) if tail[0] == 0 => format!("memory at {}", bases[rm as usize]),
                    (1, _) => format!("memory at {} plus {}", bases[rm as usize], tail[0]),
                    _ => format!("memory at {} plus {value}", bases[rm as usize]),
                };
                let register = format!("register {}", names[reg as usize]);
                let operands =
                    if opcode & 2 == 0 { (other, register) } else { (register, other) };
                let (_, text) = line(&[opcode, modrm, tail[0], tail[1]]);
                if let Some(before) = seen.get(&text) {
                    assert_eq!(before, &operands, "{text}");
                } else {
                    seen.insert(text, operands);
                }
            }
        }
    }
    assert!(seen.len() > 256);
}
