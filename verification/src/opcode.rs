//! Classification of a leading instruction byte.

use crate::text::{decimal, push_decimal};
use vstd::prelude::*;
use vstd::string::*;

verus! {

/// The instruction families that a leading byte can select.
#[derive(Clone, Copy, Debug, PartialEq, Eq)]
pub enum OpType {
    /// `100010dw`: register/memory to or from register.
    MovRegmemTofromReg,
    /// `1100011w`: immediate to register/memory.
    MovImmToRegmem,
    /// `1011wreg`: immediate to register.
    MovImmToReg,
    /// `1010000w`: memory to accumulator.
    MovMemToAcc,
    /// `1010001w`: accumulator to memory.
    MovAccToMem,
    /// No family matches the byte.
    NOP,
}

impl OpType {
    /// The mnemonic under which the instructions of a family are written.
    pub open spec fn mnemonic(self) -> Seq<char>
        recommends
            !(self is NOP),
    {
        "mov"@
    }

    /// The name of the family, as diagnostics print it.
    pub open spec fn label(self) -> Seq<char> {
        match self {
            OpType::MovRegmemTofromReg => "MovRegmemTofromReg"@,
            OpType::MovImmToRegmem => "MovImmToRegmem"@,
            OpType::MovImmToReg => "MovImmToReg"@,
            OpType::MovMemToAcc => "MovMemToAcc"@,
            OpType::MovAccToMem => "MovAccToMem"@,
            OpType::NOP => "NOP"@,
        }
    }

    /// The mnemonic of a family. An unclassified byte has none.
    pub fn to_string(&self) -> (s: &'static str)
        requires
            !(self is NOP),
        ensures
            s@ == self.mnemonic(),
    {
        "mov"
    }

    /// The name of the family.
    pub fn name(&self) -> (s: &'static str)
        ensures
            s@ == self.label(),
    {
        match self {
            OpType::MovRegmemTofromReg => "MovRegmemTofromReg",
            OpType::MovImmToRegmem => "MovImmToRegmem",
            OpType::MovImmToReg => "MovImmToReg",
            OpType::MovMemToAcc => "MovMemToAcc",
            OpType::MovAccToMem => "MovAccToMem",
            OpType::NOP => "NOP",
        }
    }
}

/// Whether the bits of `code` selected by `mask` equal `pattern`.
pub open spec fn has_prefix(code: u8, mask: u8, pattern: u8) -> bool {
    code & mask == pattern
}

/// The family of a leading byte: the first pattern that matches, tried in
/// this order of precedence.
pub open spec fn family(code: u8) -> OpType {
    if has_prefix(code, 0b1111_1100, 0b1000_1000) {
        OpType::MovRegmemTofromReg
    } else if has_prefix(code, 0b1111_1110, 0b1100_0110) {
        OpType::MovImmToRegmem
    } else if has_prefix(code, 0b1111_0000, 0b1011_0000) {
        OpType::MovImmToReg
    } else if has_prefix(code, 0b1111_1110, 0b1010_0000) {
        OpType::MovMemToAcc
    } else if has_prefix(code, 0b1111_1110, 0b1010_0010) {
        OpType::MovAccToMem
    } else {
        OpType::NOP
    }
}

/// Bytes that a family declares to follow its leading byte before its
/// operands can be resolved.
pub open spec fn declared_bytes(op_type: OpType, w: u8) -> nat {
    match op_type {
        OpType::NOP => 0,
        OpType::MovImmToReg => if w == 1 { 2 } else { 1 },
        _ => 1,
    }
}

/// A classified leading byte.
///
/// `d`: 0 = the register field is the source, 1 = it is the destination.
/// `w`: 0 = byte, 1 = word.
#[derive(Clone, Copy, Debug, PartialEq, Eq)]
pub struct OpCode {
    pub displacement: usize,
    pub op_type: OpType,
    pub d: u8,
    pub w: u8,
    pub reg: u8,
}

/// The fields that a leading byte carries, by family.
pub open spec fn classify(code: u8) -> OpCode {
    match family(code) {
        OpType::MovRegmemTofromReg => OpCode {
            displacement: 1,
            op_type: OpType::MovRegmemTofromReg,
            d: (code >> 1) & 1,
            w: code & 1,
            reg: 0,
        },
        OpType::MovImmToReg => OpCode {
            displacement: if (code >> 3) & 1 == 1 { 2 } else { 1 },
            op_type: OpType::MovImmToReg,
            d: 0,
            w: (code >> 3) & 1,
            reg: code & 0b111,
        },
        OpType::NOP => OpCode { displacement: 0, op_type: OpType::NOP, d: 0, w: 0, reg: 0 },
        other => OpCode { displacement: 1, op_type: other, d: 0, w: code & 1, reg: 0 },
    }
}

impl OpCode {
    /// The flags are single bits, the selector has three, and the declared
    /// byte count is the one of the family.
    pub open spec fn wf(&self) -> bool {
        &&& self.d <= 1
        &&& self.w <= 1
        &&& self.reg <= 7
        &&& self.displacement == declared_bytes(self.op_type, self.w)
    }

    /// The fields of a classification written out, family by name and
    /// numbers in decimal.
    pub open spec fn debug_text(self) -> Seq<char> {
        "OpCode { displacement: "@ + decimal(self.displacement as nat) + ", op_type: "@
            + self.op_type.label() + ", d: "@ + decimal(self.d as nat) + ", w: "@ + decimal(
            self.w as nat,
        ) + ", reg: "@ + decimal(self.reg as nat) + " }"@
    }

    /// Writes the fields out for a diagnostic.
    pub fn describe(&self) -> (s: String)
        ensures
            s@ == self.debug_text(),
    {
        let mut s = String::from_str("OpCode { displacement: ");
        push_decimal(&mut s, self.displacement as u64);
        s.append(", op_type: ");
        s.append(self.op_type.name());
        s.append(", d: ");
        push_decimal(&mut s, self.d as u64);
        s.append(", w: ");
        push_decimal(&mut s, self.w as u64);
        s.append(", reg: ");
        push_decimal(&mut s, self.reg as u64);
        s.append(" }");
        assert(s@ =~= self.debug_text());
        s
    }

    /// Classifies a leading byte. Every byte has a classification; one that
    /// no family claims is `NOP` with all fields zero.
    pub fn build(code: u8) -> (op: OpCode)
        ensures
            op == classify(code),
            op.wf(),
    {
        let low: u8 = code & 1;
        assert(code & 1 <= 1) by (bit_vector);
        assert((code >> 1) & 1 <= 1) by (bit_vector);
        assert((code >> 3) & 1 <= 1) by (bit_vector);
        assert(code & 0b111 <= 7) by (bit_vector);
        if code & 0b1111_1100 == 0b1000_1000 {
            OpCode {
                displacement: 1,
                op_type: OpType::MovRegmemTofromReg,
                d: (code >> 1) & 1,
                w: low,
                reg: 0,
            }
        } else if code & 0b1111_1110 == 0b1100_0110 {
            OpCode { displacement: 1, op_type: OpType::MovImmToRegmem, d: 0, w: low, reg: 0 }
        } else if code & 0b1111_0000 == 0b1011_0000 {
            let w: u8 = (code >> 3) & 1;
            let displacement: usize = if w == 1 { 2 } else { 1 };
            OpCode { displacement, op_type: OpType::MovImmToReg, d: 0, w, reg: code & 0b111 }
        } else if code & 0b1111_1110 == 0b1010_0000 {
            OpCode { displacement: 1, op_type: OpType::MovMemToAcc, d: 0, w: low, reg: 0 }
        } else if code & 0b1111_1110 == 0b1010_0010 {
            OpCode { displacement: 1, op_type: OpType::MovAccToMem, d: 0, w: low, reg: 0 }
        } else {
            OpCode { displacement: 0, op_type: OpType::NOP, d: 0, w: 0, reg: 0 }
        }
    }
}

} // verus!
