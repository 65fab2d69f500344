//! Disassembler for the classic 16-bit processor's register-to-register move
//! instruction family.
//!
//! A machine-code stream is consumed in fixed two-byte units. Each unit is an
//! encoded instruction whose bit fields (opcode, direction, width, addressing
//! mode, register selectors) are extracted, decoded into a typed instruction
//! value, and rendered as one line of assembly text of the form
//! `mov <dst>, <src>`.

pub mod encoding;
pub mod instruction;
pub mod registers;
pub mod stream;
