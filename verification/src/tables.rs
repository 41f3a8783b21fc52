//! The two fixed tables of the instruction set: register names by operand
//! width, and the base expressions of the effective-address encodings.

use vstd::prelude::*;

verus! {

/// Names of the eight byte registers, by selector.
pub open spec fn byte_registers() -> Seq<Seq<char>> {
    seq!["al"@, "cl"@, "dl"@, "bl"@, "ah"@, "ch"@, "dh"@, "bh"@]
}

/// Names of the eight word registers, by selector.
pub open spec fn word_registers() -> Seq<Seq<char>> {
    seq!["ax"@, "cx"@, "dx"@, "bx"@, "sp"@, "bp"@, "si"@, "di"@]
}

/// Base expressions of the effective address, by memory field. Entry 6 is
/// `bp`; without a displacement that encoding is a direct address instead
/// and this table is not consulted for it.
pub open spec fn address_bases() -> Seq<Seq<char>> {
    seq!["bx + si"@, "bx + di"@, "bp + si"@, "bp + di"@, "si"@, "di"@, "bp"@, "bx"@]
}

/// The name of register `index` at width `w` (0 = byte, 1 = word).
pub open spec fn reg_text(w: u8, index: u8) -> Seq<char>
    recommends
        w <= 1,
        index <= 7,
{
    if w == 0 {
        byte_registers()[index as int]
    } else {
        word_registers()[index as int]
    }
}

/// The base expression that memory field `rm` selects.
pub open spec fn ea_text(rm: u8) -> Seq<char>
    recommends
        rm <= 7,
{
    address_bases()[rm as int]
}

/// Looks up a register name.
pub fn reg_name(w: u8, index: u8) -> (name: &'static str)
    requires
        w <= 1,
        index <= 7,
    ensures
        name@ == reg_text(w, index),
{
    if w == 0 {
        match index {
            0 => "al",
            1 => "cl",
            2 => "dl",
            3 => "bl",
            4 => "ah",
            5 => "ch",
            6 => "dh",
            _ => "bh",
        }
    } else {
        match index {
            0 => "ax",
            1 => "cx",
            2 => "dx",
            3 => "bx",
            4 => "sp",
            5 => "bp",
            6 => "si",
            _ => "di",
        }
    }
}

/// Looks up the base expression of an effective address.
pub fn ea_base(rm: u8) -> (base: &'static str)
    requires
        rm <= 7,
    ensures
        base@ == ea_text(rm),
{
    match rm {
        0 => "bx + si",
        1 => "bx + di",
        2 => "bp + si",
        3 => "bp + di",
        4 => "si",
        5 => "di",
        6 => "bp",
        _ => "bx",
    }
}

} // verus!
