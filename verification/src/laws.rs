//! What holds of the decoder as a whole, proved from the definitions that the
//! contracts of its functions are stated over.

use crate::legible::{lemma_statement_names_operands, lemma_text_names_operand};
use crate::listing::{decode_from, header, listing, outcome, stride};
use crate::opcode::{classify, family, has_prefix, OpCode};
use crate::resolve::{
    asm_text, consumed, displacement_bytes, mode_of, operands, reg_of, rm_of, rm_operand,
    truncated, word, Operand, Truncated,
};
use crate::tables::ea_text;
use crate::text::decimal;
use vstd::prelude::*;

verus! {

/// Every byte has a classification whose flags are single bits, whose
/// selector has three bits, and whose declared byte count is 0, 1 or 2.
pub proof fn lemma_classification_is_well_formed(code: u8)
    ensures
        classify(code).wf(),
        classify(code).op_type == family(code),
        classify(code).displacement <= 2,
        classify(code).displacement == 0 <==> family(code) is NOP,
{
    assert(code & 1 <= 1) by (bit_vector);
    assert((code >> 1) & 1 <= 1) by (bit_vector);
    assert((code >> 3) & 1 <= 1) by (bit_vector);
    assert(code & 0b111 <= 7) by (bit_vector);
}

/// A byte belongs to a family exactly when it matches that family's own
/// pattern at full length: a byte that agrees with a pattern only on a shorter
/// prefix is not taken for it, and the six-bit pattern claims every byte that
/// matches it, whatever shorter prefix the byte shares with another family.
pub proof fn lemma_most_specific_pattern_decides(code: u8)
    ensures
        family(code) is MovRegmemTofromReg <==> has_prefix(code, 0b1111_1100, 0b1000_1000),
        family(code) is MovImmToRegmem <==> has_prefix(code, 0b1111_1110, 0b1100_0110),
        family(code) is MovImmToReg <==> has_prefix(code, 0b1111_0000, 0b1011_0000),
        family(code) is MovMemToAcc <==> has_prefix(code, 0b1111_1110, 0b1010_0000),
        family(code) is MovAccToMem <==> has_prefix(code, 0b1111_1110, 0b1010_0010),
{
    assert(code & 0b1111_1100 == 0b1000_1000 ==> code & 0b1111_1110 != 0b1100_0110 && code
        & 0b1111_0000 != 0b1011_0000 && code & 0b1111_1110 != 0b1010_0000 && code & 0b1111_1110
        != 0b1010_0010) by (bit_vector);
    assert(code & 0b1111_1110 == 0b1100_0110 ==> code & 0b1111_0000 != 0b1011_0000 && code
        & 0b1111_1110 != 0b1010_0000 && code & 0b1111_1110 != 0b1010_0010) by (bit_vector);
    assert(code & 0b1111_0000 == 0b1011_0000 ==> code & 0b1111_1110 != 0b1010_0000 && code
        & 0b1111_1110 != 0b1010_0010) by (bit_vector);
    assert(code & 0b1111_1110 == 0b1010_0000 ==> code & 0b1111_1110 != 0b1010_0010)
        by (bit_vector);
}

/// The families are ranges of byte values, and every other byte is
/// unclassified.
pub proof fn lemma_family_by_value(code: u8)
    ensures
        family(code) is MovRegmemTofromReg <==> 0x88 <= code <= 0x8B,
        family(code) is MovImmToRegmem <==> 0xC6 <= code <= 0xC7,
        family(code) is MovImmToReg <==> 0xB0 <= code <= 0xBF,
        family(code) is MovMemToAcc <==> 0xA0 <= code <= 0xA1,
        family(code) is MovAccToMem <==> 0xA2 <= code <= 0xA3,
{
    lemma_most_specific_pattern_decides(code);
    assert(code & 0b1111_1100 == 0b1000_1000 <==> 0x88 <= code <= 0x8B) by (bit_vector);
    assert(code & 0b1111_1110 == 0b1100_0110 <==> 0xC6 <= code <= 0xC7) by (bit_vector);
    assert(code & 0b1111_0000 == 0b1011_0000 <==> 0xB0 <= code <= 0xBF) by (bit_vector);
    assert(code & 0b1111_1110 == 0b1010_0000 <==> 0xA0 <= code <= 0xA1) by (bit_vector);
    assert(code & 0b1111_1110 == 0b1010_0010 <==> 0xA2 <= code <= 0xA3) by (bit_vector);
}

/// The three fields of a mode byte are in range and make up the byte.
pub proof fn lemma_mode_byte_fields(byte: u8)
    ensures
        mode_of(byte) <= 3,
        reg_of(byte) <= 7,
        rm_of(byte) <= 7,
        byte == 64 * mode_of(byte) + 8 * reg_of(byte) + rm_of(byte),
{
    assert(byte >> 6 <= 3) by (bit_vector);
    assert((byte >> 3) & 0b111 <= 7) by (bit_vector);
    assert(byte & 0b111 <= 7) by (bit_vector);
    assert(byte == 64 * (byte >> 6) + 8 * ((byte >> 3) & 0b111) + (byte & 0b111)) by (bit_vector);
}

/// A register/memory move takes up its mode byte and what the addressing mode
/// asks for: nothing more between two registers or with a bare base, one byte
/// of displacement in mode 1, two in mode 2, two of address where mode 0 has
/// memory field 6.
pub proof fn lemma_register_memory_move_length(op: OpCode, buf: Seq<u8>, pos: int)
    requires
        op.op_type is MovRegmemTofromReg,
        0 <= pos,
        pos + 1 < buf.len(),
    ensures
        mode_of(buf[pos + 1]) == 3 ==> consumed(op, buf, pos) == 1,
        mode_of(buf[pos + 1]) == 0 && rm_of(buf[pos + 1]) != 6 ==> consumed(op, buf, pos) == 1,
        mode_of(buf[pos + 1]) == 0 && rm_of(buf[pos + 1]) == 6 ==> consumed(op, buf, pos) == 3,
        mode_of(buf[pos + 1]) == 1 ==> consumed(op, buf, pos) == 2,
        mode_of(buf[pos + 1]) == 2 ==> consumed(op, buf, pos) == 3,
        1 <= consumed(op, buf, pos) <= 3,
{
    lemma_mode_byte_fields(buf[pos + 1]);
}

/// An immediate-to-register move takes up one byte of data at byte width and
/// two at word width, wherever it stands.
pub proof fn lemma_immediate_move_length(op: OpCode, buf: Seq<u8>, pos: int)
    requires
        op.wf(),
        op.op_type is MovImmToReg,
    ensures
        consumed(op, buf, pos) == 1 + op.w,
{
}

/// An instruction that is not cut short lies inside the buffer with all the
/// bytes that it takes up.
pub proof fn lemma_resolved_within_buffer(op: OpCode, buf: Seq<u8>, pos: int)
    requires
        op.wf(),
        0 <= pos < buf.len(),
        !truncated(op, buf, pos),
    ensures
        pos + 1 + consumed(op, buf, pos) <= buf.len(),
        consumed(op, buf, pos) <= 3,
{
    if op.op_type is MovRegmemTofromReg {
        if pos + 1 < buf.len() {
            lemma_mode_byte_fields(buf[pos + 1]);
        }
    }
}

/// The operands of a move are well formed: widths are single bits, selectors
/// and memory fields have three.
pub proof fn lemma_operands_are_well_formed(op: OpCode, buf: Seq<u8>, pos: int)
    requires
        op.wf(),
        op.op_type is MovRegmemTofromReg || op.op_type is MovImmToReg,
    ensures
        operands(op, buf, pos).0.wf(),
        operands(op, buf, pos).1.wf(),
{
    lemma_mode_byte_fields(buf[pos + 1]);
}

/// In mode 1 a displacement of zero is not written and any other is; in mode 2
/// the displacement is always written, a zero too.
pub proof fn lemma_displacement_rendering(w: u8, buf: Seq<u8>, pos: int)
    requires
        mode_of(buf[pos + 1]) == 1 || mode_of(buf[pos + 1]) == 2,
    ensures
        mode_of(buf[pos + 1]) == 1 && buf[pos + 2] == 0 ==> rm_operand(w, buf, pos).text() == "["@
            + ea_text(rm_of(buf[pos + 1])) + "]"@,
        mode_of(buf[pos + 1]) == 1 && buf[pos + 2] != 0 ==> rm_operand(w, buf, pos).text() == "["@
            + ea_text(rm_of(buf[pos + 1])) + " + "@ + decimal(buf[pos + 2] as nat) + "]"@,
        mode_of(buf[pos + 1]) == 2 ==> rm_operand(w, buf, pos).text() == "["@ + ea_text(
            rm_of(buf[pos + 1]),
        ) + " + "@ + decimal(word(buf[pos + 2], buf[pos + 3])) + "]"@,
{
}

/// With mode 0 and memory field 6 the two bytes after the mode byte are a
/// direct address: they are taken up, and the operand is the memory at that
/// address, written as a numeral between brackets. It is never written as the
/// base that the table holds for field 6, nor as any other base.
pub proof fn lemma_direct_address(w: u8, buf: Seq<u8>, pos: int)
    requires
        mode_of(buf[pos + 1]) == 0,
        rm_of(buf[pos + 1]) == 6,
    ensures
        displacement_bytes(mode_of(buf[pos + 1]), rm_of(buf[pos + 1])) == 2,
        rm_operand(w, buf, pos) == (Operand::Direct {
            address: word(buf[pos + 2], buf[pos + 3]),
        }),
        rm_operand(w, buf, pos).text() == "["@ + decimal(word(buf[pos + 2], buf[pos + 3])) + "]"@,
        forall|based: Operand|
            based is Based && based.wf() ==> rm_operand(w, buf, pos).text()
                != #[trigger] based.text(),
{
    let direct = rm_operand(w, buf, pos);
    assert forall|based: Operand| based is Based && based.wf() implies direct.text()
        != #[trigger] based.text() by {
        if direct.text() == based.text() {
            lemma_text_names_operand(direct, based);
        }
    }
}

/// Two moves that are rendered as the same line have the same destination and
/// the same source, wherever they stand and however they are encoded: the line
/// keeps what the operands mean.
pub proof fn lemma_line_names_operands(
    op1: OpCode,
    buf1: Seq<u8>,
    pos1: int,
    op2: OpCode,
    buf2: Seq<u8>,
    pos2: int,
)
    requires
        op1.wf(),
        op2.wf(),
        op1.op_type is MovRegmemTofromReg || op1.op_type is MovImmToReg,
        op2.op_type is MovRegmemTofromReg || op2.op_type is MovImmToReg,
        asm_text(op1, buf1, pos1) == asm_text(op2, buf2, pos2),
    ensures
        operands(op1, buf1, pos1) == operands(op2, buf2, pos2),
{
    lemma_operands_are_well_formed(op1, buf1, pos1);
    lemma_operands_are_well_formed(op2, buf2, pos2);
    lemma_statement_names_operands(
        op1.op_type.mnemonic(),
        operands(op1, buf1, pos1).0,
        operands(op1, buf1, pos1).1,
        operands(op2, buf2, pos2).0,
        operands(op2, buf2, pos2).1,
    );
}

/// Each decode cycle moves the cursor by at least one byte and at most four.
pub proof fn lemma_cursor_advances(buf: Seq<u8>, pos: int)
    requires
        0 <= pos < buf.len(),
    ensures
        1 <= stride(buf, pos) <= 4,
{
    lemma_classification_is_well_formed(buf[pos]);
    if pos + 1 < buf.len() {
        lemma_mode_byte_fields(buf[pos + 1]);
    }
}

/// The cursor at which the run from `pos` stops.
pub open spec fn end_of_run(buf: Seq<u8>, pos: int) -> int
    decreases
        (if pos < buf.len() {
            buf.len() - pos
        } else {
            0
        }),
{
    if pos < 0 || pos >= buf.len() {
        pos
    } else {
        end_of_run(buf, pos + stride(buf, pos))
    }
}

/// A run that succeeds takes up the buffer exactly: its last cycle ends on the
/// last byte, and it emits at most one line for each byte.
pub proof fn lemma_run_covers_buffer(buf: Seq<u8>, pos: int)
    requires
        0 <= pos <= buf.len(),
        decode_from(buf, pos) is Ok,
    ensures
        end_of_run(buf, pos) == buf.len(),
        decode_from(buf, pos)->Ok_0.len() <= buf.len() - pos,
    decreases buf.len() - pos,
{
    if pos < buf.len() {
        let op = classify(buf[pos]);
        lemma_classification_is_well_formed(buf[pos]);
        lemma_resolved_within_buffer(op, buf, pos);
        lemma_run_covers_buffer(buf, pos + stride(buf, pos));
    }
}

/// A run that fails does so at the leading byte of an instruction that the end
/// of the buffer cuts short, at or after the cursor it started from.
pub proof fn lemma_failure_is_truncation(buf: Seq<u8>, pos: int)
    requires
        0 <= pos,
        decode_from(buf, pos) is Err,
    ensures
        pos <= decode_from(buf, pos)->Err_0 < buf.len(),
        truncated(
            classify(buf[decode_from(buf, pos)->Err_0]),
            buf,
            decode_from(buf, pos)->Err_0,
        ),
    decreases buf.len() - pos,
{
    if pos < buf.len() && !truncated(classify(buf[pos]), buf, pos) {
        lemma_failure_is_truncation(buf, pos + stride(buf, pos));
    }
}

/// The listing is a function of the bytes alone: buffers that agree byte for
/// byte have the same listing or fail at the same position, so a second run
/// over a buffer repeats the first.
pub proof fn lemma_same_bytes_same_listing(first: Seq<u8>, second: Seq<u8>)
    requires
        first.len() == second.len(),
        forall|i: int| 0 <= i < first.len() ==> first[i] == second[i],
    ensures
        listing(first) == listing(second),
{
    assert(first =~= second);
}

/// Two runs over one buffer come out the same: both give a listing, and then
/// the same lines character for character, or both fail at the same position.
pub proof fn lemma_second_run_repeats_first(
    buf: Seq<u8>,
    first: Result<Vec<String>, Truncated>,
    second: Result<Vec<String>, Truncated>,
)
    requires
        outcome(first) == listing(buf),
        outcome(second) == listing(buf),
    ensures
        first is Ok <==> second is Ok,
        first is Ok ==> first->Ok_0.deep_view() == second->Ok_0.deep_view(),
        first is Err ==> first->Err_0 == second->Err_0,
{
}

/// Every listing starts with the header and has at most one line more than
/// the buffer has bytes.
pub proof fn lemma_listing_starts_with_header(buf: Seq<u8>)
    requires
        listing(buf) is Ok,
    ensures
        1 <= listing(buf)->Ok_0.len() <= buf.len() + 1,
        listing(buf)->Ok_0[0] == header(),
{
    lemma_run_covers_buffer(buf, 0);
}

} // verus!
