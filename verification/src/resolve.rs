//! Resolution of the operands that follow a classified leading byte, and
//! their rendering as one line of assembly.

use crate::opcode::{OpCode, OpType};
use crate::tables::{ea_base, ea_text, reg_name, reg_text};
use crate::text::{decimal, push_decimal};
use vstd::prelude::*;
use vstd::string::*;

verus! {

/// The buffer ends before the last byte of the instruction that starts at
/// `offset`.
#[derive(Clone, Copy, Debug, PartialEq, Eq)]
pub struct Truncated {
    pub offset: usize,
}

/// The addressing mode in the top two bits of a mode byte.
pub open spec fn mode_of(byte: u8) -> u8 {
    byte >> 6
}

/// The register field in the middle three bits of a mode byte.
pub open spec fn reg_of(byte: u8) -> u8 {
    (byte >> 3) & 0b111
}

/// The register/memory field in the low three bits of a mode byte.
pub open spec fn rm_of(byte: u8) -> u8 {
    byte & 0b111
}

/// Bytes that follow a mode byte: none for two registers or a bare base,
/// one or two of displacement, two of a direct address.
pub open spec fn displacement_bytes(mode: u8, rm: u8) -> nat {
    if mode == 1 {
        1
    } else if mode == 2 || (mode == 0 && rm == 6) {
        2
    } else {
        0
    }
}

/// The 16-bit value of two bytes, low byte first.
pub open spec fn word(lo: u8, hi: u8) -> nat {
    (lo + 256 * hi) as nat
}

/// Bytes after the leading byte that the instruction at `pos` takes up. A
/// register/memory move whose mode byte is missing counts that byte alone.
pub open spec fn consumed(op: OpCode, buf: Seq<u8>, pos: int) -> nat {
    match op.op_type {
        OpType::MovRegmemTofromReg => if pos + 1 < buf.len() {
            1 + displacement_bytes(mode_of(buf[pos + 1]), rm_of(buf[pos + 1]))
        } else {
            1
        },
        _ => op.displacement as nat,
    }
}

/// Whether the buffer ends before the last byte of the instruction at `pos`.
pub open spec fn truncated(op: OpCode, buf: Seq<u8>, pos: int) -> bool {
    consumed(op, buf, pos) > 0 && pos + consumed(op, buf, pos) >= buf.len()
}

/// The immediate value after the leading byte: one byte, or two with the low
/// byte first.
pub open spec fn immediate(w: u8, buf: Seq<u8>, pos: int) -> nat {
    if w == 1 {
        word(buf[pos + 1], buf[pos + 2])
    } else {
        buf[pos + 1] as nat
    }
}

/// An operand as a statement writes it. Values are the unsigned magnitudes
/// read from the buffer.
pub enum Operand {
    /// A register, by width and selector.
    Register { w: u8, index: u8 },
    /// The memory at a literal address.
    Direct { address: nat },
    /// The memory at the base that a memory field selects, with the
    /// displacement that is written out, if one is.
    Based { rm: u8, displacement: Option<nat> },
    /// A literal value.
    Immediate { value: nat },
}

impl Operand {
    /// The width is a single bit; selector and memory field have three.
    pub open spec fn wf(self) -> bool {
        match self {
            Operand::Register { w, index } => w <= 1 && index <= 7,
            Operand::Based { rm, .. } => rm <= 7,
            _ => true,
        }
    }

    /// The operand as text: a register by name, memory between brackets, a
    /// value as a numeral.
    pub open spec fn text(self) -> Seq<char> {
        match self {
            Operand::Register { w, index } => reg_text(w, index),
            Operand::Direct { address } => "["@ + decimal(address) + "]"@,
            Operand::Based { rm, displacement: None } => "["@ + ea_text(rm) + "]"@,
            Operand::Based { rm, displacement: Some(d) } => "["@ + ea_text(rm) + " + "@ + decimal(
                d,
            ) + "]"@,
            Operand::Immediate { value } => decimal(value),
        }
    }
}

/// The operand that the register/memory field of the mode byte at `pos + 1`
/// denotes. Mode 3 is a register. Mode 0 is a bare base, but for memory field
/// 6, where the next two bytes are a direct address. Mode 1 has one byte of
/// displacement, which is not written where it is zero; mode 2 has two, low
/// byte first, which are always written.
pub open spec fn rm_operand(w: u8, buf: Seq<u8>, pos: int) -> Operand {
    let mode = mode_of(buf[pos + 1]);
    let rm = rm_of(buf[pos + 1]);
    if mode == 3 {
        Operand::Register { w, index: rm }
    } else if mode == 0 && rm == 6 {
        Operand::Direct { address: word(buf[pos + 2], buf[pos + 3]) }
    } else if mode == 0 || (mode == 1 && buf[pos + 2] == 0) {
        Operand::Based { rm, displacement: None }
    } else if mode == 1 {
        Operand::Based { rm, displacement: Some(buf[pos + 2] as nat) }
    } else {
        Operand::Based { rm, displacement: Some(word(buf[pos + 2], buf[pos + 3])) }
    }
}

/// Destination and source of the move at `pos`, in this order.
///
/// An immediate goes to the register that the leading byte selects. Of a
/// register/memory move the direction flag tells which way it goes: with 0 the
/// register field of the mode byte is the source and the register/memory field
/// the destination, with 1 the other way round.
pub open spec fn operands(op: OpCode, buf: Seq<u8>, pos: int) -> (Operand, Operand)
    recommends
        op.op_type is MovRegmemTofromReg || op.op_type is MovImmToReg,
{
    if op.op_type is MovImmToReg {
        (
            Operand::Register { w: op.w, index: op.reg },
            Operand::Immediate { value: immediate(op.w, buf, pos) },
        )
    } else {
        let register = Operand::Register { w: op.w, index: reg_of(buf[pos + 1]) };
        if op.d == 0 {
            (rm_operand(op.w, buf, pos), register)
        } else {
            (register, rm_operand(op.w, buf, pos))
        }
    }
}

/// An instruction with two operands, destination first.
pub open spec fn statement(mnemonic: Seq<char>, dest: Seq<char>, src: Seq<char>) -> Seq<char> {
    mnemonic + " "@ + dest + ", "@ + src
}

/// The line of a family that is classified but whose operands are left
/// unresolved.
pub open spec fn unresolved_text(op: OpCode) -> Seq<char> {
    "Not implemented: "@ + op.debug_text()
}

/// The line for the instruction at `pos`, all of whose bytes are in `buf`: the
/// statement of a move whose operands are resolved, a diagnostic for the other
/// families, nothing for an unclassified byte.
pub open spec fn asm_text(op: OpCode, buf: Seq<u8>, pos: int) -> Seq<char> {
    match op.op_type {
        OpType::NOP => Seq::empty(),
        OpType::MovRegmemTofromReg | OpType::MovImmToReg => statement(
            op.op_type.mnemonic(),
            operands(op, buf, pos).0.text(),
            operands(op, buf, pos).1.text(),
        ),
        _ => unresolved_text(op),
    }
}

/// Joins a mnemonic and two operands into a statement.
fn render(mnemonic: &str, dest: &str, src: &str) -> (line: String)
    ensures
        line@ == statement(mnemonic@, dest@, src@),
{
    let mut line = String::from_str(mnemonic);
    line.append(" ");
    line.append(dest);
    line.append(", ");
    line.append(src);
    assert(line@ =~= statement(mnemonic@, dest@, src@));
    line
}

/// Reads two bytes at `at` as a 16-bit value, low byte first.
fn read_word(contents: &Vec<u8>, at: usize) -> (value: u16)
    requires
        at + 1 < contents.len(),
    ensures
        value == word(contents@[at as int], contents@[at + 1]),
{
    let lo: u16 = contents[at] as u16;
    let hi: u16 = contents[at + 1] as u16;
    hi * 256 + lo
}

/// Renders the operand of the register/memory field of the mode byte at
/// `count + 1`.
fn render_rm(w: u8, count: usize, contents: &Vec<u8>) -> (operand: String)
    requires
        w <= 1,
        count + 1 + displacement_bytes(
            mode_of(contents@[count + 1]),
            rm_of(contents@[count + 1]),
        ) < contents.len(),
    ensures
        operand@ == rm_operand(w, contents@, count as int).text(),
{
    let byte2: u8 = contents[count + 1];
    let mode: u8 = byte2 >> 6;
    let rm: u8 = byte2 & 0b111;
    assert(byte2 >> 6 <= 3) by (bit_vector);
    assert(byte2 & 0b111 <= 7) by (bit_vector);
    if mode == 3 {
        String::from_str(reg_name(w, rm))
    } else {
        let mut operand = String::from_str("[");
        if mode == 0 && rm == 6 {
            push_decimal(&mut operand, read_word(contents, count + 2) as u64);
        } else {
            operand.append(ea_base(rm));
            if mode == 1 {
                let disp: u8 = contents[count + 2];
                if disp != 0 {
                    operand.append(" + ");
                    push_decimal(&mut operand, disp as u64);
                }
            } else if mode == 2 {
                operand.append(" + ");
                push_decimal(&mut operand, read_word(contents, count + 2) as u64);
            }
        }
        operand.append("]");
        assert(operand@ =~= rm_operand(w, contents@, count as int).text());
        operand
    }
}

/// Resolves the operands of the instruction whose leading byte is at `count`
/// and was classified as `op_code`, and renders it.
///
/// Returns the number of bytes that the instruction takes up after its leading
/// byte, and its line: a statement with the destination first; a diagnostic
/// for a family whose operands are left unresolved; nothing for an
/// unclassified byte. Fails when the buffer ends before the instruction does.
pub fn to_asm(op_code: OpCode, count: usize, contents: &Vec<u8>) -> (r: Result<
    (usize, String),
    Truncated,
>)
    requires
        op_code.wf(),
    ensures
        r is Err <==> truncated(op_code, contents@, count as int),
        r matches Err(e) ==> e.offset == count,
        r matches Ok((n, text)) ==> n == consumed(op_code, contents@, count as int) && text@
            == asm_text(op_code, contents@, count as int),
{
    if op_code.displacement == 0 {
        return Ok((0, String::new()));
    }
    if count >= contents.len() {
        return Err(Truncated { offset: count });
    }
    let remaining: usize = contents.len() - count - 1;
    match op_code.op_type {
        OpType::MovRegmemTofromReg => {
            if remaining < 1 {
                return Err(Truncated { offset: count });
            }
            let byte2: u8 = contents[count + 1];
            let mode: u8 = byte2 >> 6;
            let reg: u8 = (byte2 >> 3) & 0b111;
            let rm: u8 = byte2 & 0b111;
            assert((byte2 >> 3) & 0b111 <= 7) by (bit_vector);
            let extra: usize = if mode == 1 {
                1
            } else if mode == 2 || (mode == 0 && rm == 6) {
                2
            } else {
                0
            };
            if remaining - 1 < extra {
                return Err(Truncated { offset: count });
            }
            let register = reg_name(op_code.w, reg);
            let operand = render_rm(op_code.w, count, contents);
            let mnemonic = op_code.op_type.to_string();
            let line = if op_code.d == 0 {
                render(mnemonic, operand.as_str(), register)
            } else {
                render(mnemonic, register, operand.as_str())
            };
            Ok((1 + extra, line))
        },
        OpType::MovImmToReg => {
            if remaining < op_code.displacement {
                return Err(Truncated { offset: count });
            }
            let data: u16 = if op_code.w == 1 {
                read_word(contents, count + 1)
            } else {
                contents[count + 1] as u16
            };
            let mut value = String::new();
            push_decimal(&mut value, data as u64);
            assert(value@ =~= decimal(immediate(op_code.w, contents@, count as int)));
            let line = render(
                op_code.op_type.to_string(),
                reg_name(op_code.w, op_code.reg),
                value.as_str(),
            );
            Ok((op_code.displacement, line))
        },
        _ => {
            if remaining < op_code.displacement {
                return Err(Truncated { offset: count });
            }
            let mut line = String::from_str("Not implemented: ");
            line.append(op_code.describe().as_str());
            Ok((op_code.displacement, line))
        },
    }
}

} // verus!
