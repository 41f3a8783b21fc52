//! Decoding of a whole buffer into the lines of a listing.

use crate::opcode::{classify, OpCode, OpType};
use crate::resolve::{asm_text, consumed, to_asm, truncated, unresolved_text, Truncated};
use crate::text::{decimal, push_decimal};
use vstd::prelude::*;
use vstd::string::*;

verus! {

/// The directive that opens every listing.
pub open spec fn header() -> Seq<char> {
    "bits 16"@
}

/// The line for a leading byte that no family claims: the empty
/// classification written out, then the byte.
pub open spec fn unclassified_text(code: u8) -> Seq<char> {
    unresolved_text(classify(code)) + ", code: "@ + decimal(code as nat)
}

/// The line that the decode cycle at `pos` emits.
pub open spec fn line_at(buf: Seq<u8>, pos: int) -> Seq<char> {
    let op = classify(buf[pos]);
    if op.op_type is NOP {
        unclassified_text(buf[pos])
    } else {
        asm_text(op, buf, pos)
    }
}

/// The distance from `pos` to the next leading byte. An unclassified byte is
/// taken to stand alone.
pub open spec fn stride(buf: Seq<u8>, pos: int) -> nat {
    1 + consumed(classify(buf[pos]), buf, pos)
}

/// The lines of the decode cycles from `pos` to the end of the buffer, or the
/// position of the first instruction that the end of the buffer cuts short.
pub open spec fn decode_from(buf: Seq<u8>, pos: int) -> Result<Seq<Seq<char>>, int>
    decreases buf.len() - pos,
{
    if pos < 0 || pos >= buf.len() {
        Ok(Seq::empty())
    } else if truncated(classify(buf[pos]), buf, pos) {
        Err(pos)
    } else {
        after(seq![line_at(buf, pos)], decode_from(buf, pos + stride(buf, pos)))
    }
}

/// The outcome `rest` of a run, after the lines `done` that came before it.
pub open spec fn after(done: Seq<Seq<char>>, rest: Result<Seq<Seq<char>>, int>) -> Result<
    Seq<Seq<char>>,
    int,
> {
    match rest {
        Ok(lines) => Ok(done + lines),
        Err(at) => Err(at),
    }
}

/// The listing of a buffer: the header, then one line for each decode cycle.
pub open spec fn listing(buf: Seq<u8>) -> Result<Seq<Seq<char>>, int> {
    after(seq![header()], decode_from(buf, 0))
}

/// What a run returned, as lines of characters or the position of its failure.
pub open spec fn outcome(r: Result<Vec<String>, Truncated>) -> Result<Seq<Seq<char>>, int> {
    match r {
        Ok(lines) => Ok(lines.deep_view()),
        Err(e) => Err(e.offset as int),
    }
}

/// Renders the diagnostic for a leading byte that no family claims.
fn unclassified(code: u8, op: &OpCode) -> (line: String)
    requires
        *op == classify(code),
    ensures
        line@ == unclassified_text(code),
{
    let mut line = String::from_str("Not implemented: ");
    line.append(op.describe().as_str());
    line.append(", code: ");
    push_decimal(&mut line, code as u64);
    line
}

/// Decodes a program image into its listing.
///
/// The first line is the `bits 16` directive. Each decode cycle then adds one
/// line: the statement of the instruction at the cursor, or a diagnostic where
/// the byte is unclassified or its family unresolved. The cursor moves past
/// the instruction, or past the one byte where it is unclassified. When the
/// buffer ends inside an instruction, the run fails with the position of that
/// instruction's leading byte.
pub fn disassemble(contents: &Vec<u8>) -> (r: Result<Vec<String>, Truncated>)
    ensures
        outcome(r) == listing(contents@),
{
    let mut lines: Vec<String> = Vec::new();
    lines.push(String::from_str("bits 16"));
    assert(lines.deep_view() =~= seq![header()]);
    let mut count: usize = 0;
    while count < contents.len()
        invariant
            count <= contents.len(),
            after(lines.deep_view(), decode_from(contents@, count as int)) == listing(contents@),
        decreases contents.len() - count,
    {
        let code: u8 = contents[count];
        let op_code = OpCode::build(code);
        let ghost done = lines.deep_view();
        let (displacement, line) = match op_code.op_type {
            OpType::NOP => (0, unclassified(code, &op_code)),
            _ => match to_asm(op_code, count, contents) {
                Ok(resolved) => resolved,
                Err(e) => {
                    return Err(e);
                },
            },
        };
        lines.push(line);
        proof {
            let rest = decode_from(contents@, count + stride(contents@, count as int));
            assert(lines.deep_view() =~= done + seq![line_at(contents@, count as int)]);
            assert(after(lines.deep_view(), rest) == after(
                done,
                after(seq![line_at(contents@, count as int)], rest),
            )) by {
                if let Ok(tail) = rest {
                    assert((done + seq![line_at(contents@, count as int)]) + tail =~= done + (
                    seq![line_at(contents@, count as int)] + tail));
                }
            }
        }
        count += displacement + 1;
    }
    proof {
        assert(lines.deep_view() + Seq::<Seq<char>>::empty() =~= lines.deep_view());
    }
    Ok(lines)
}

} // verus!
