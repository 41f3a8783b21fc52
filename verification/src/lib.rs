//! Decoder for the register/memory move family of the 8086 instruction set.
//!
//! A leading byte is classified into an [`OpCode`] ([`opcode`]); the operands
//! that follow it are resolved against the byte buffer and rendered as one
//! line of assembly ([`resolve`]), with the names that [`tables`] holds and the
//! numerals of [`text`]; [`listing`] decodes a whole buffer this way. What holds
//! of the decoder as a whole is proved in [`laws`], and that a line can be read
//! back in [`legible`].

pub mod laws;
pub mod legible;
pub mod listing;
pub mod opcode;
pub mod resolve;
pub mod tables;
pub mod text;

pub use listing::disassemble;
pub use opcode::{OpCode, OpType};
pub use resolve::{to_asm, Truncated};
