//! The raw two-byte encoded instruction and its bit-sliced field views.

use vstd::prelude::*;

use crate::registers::reg_half_of;
use crate::registers::reg_of;
use crate::registers::Reg;
use crate::registers::RegHalf;

verus! {

/// The opcode of the single instruction family this decoder dispatches:
/// the register/memory-to/from-register move.
pub const MOV_OPCODE: u8 = 0b100010;

/// The four addressing modes named by the 2-bit mod field. Only
/// register-direct has a decode path; the three memory forms are recognized
/// values with no interpretation yet.
#[derive(Clone, Copy, PartialEq, Eq, Debug)]
pub enum RegMemMode {
    MemNoDisp,
    Mem8bitDisp,
    Mem16bitDisp,
    RegNoDisp,
}

/// One encoded instruction: exactly two raw bytes, uninterpreted until a
/// field accessor slices them.
#[derive(Clone, Copy, PartialEq, Eq, Debug)]
pub struct EncInstruction {
    /// Byte 0: opcode in the top 6 bits, direction flag at bit 1, width flag
    /// at bit 0.
    pub opcode_dw: u8,
    /// Byte 1: addressing mode in the top 2 bits, reg selector in the middle
    /// 3 bits, rm selector in the low 3 bits.
    pub mod_reg_rm: u8,
}

impl EncInstruction {
    /// The instruction-family tag: the top 6 bits of byte 0.
    pub open spec fn spec_opcode(self) -> u8 {
        self.opcode_dw >> 2
    }

    /// The width flag: bit 0 of byte 0. Set selects full 16-bit registers,
    /// clear selects 8-bit half registers.
    pub open spec fn spec_w(self) -> bool {
        self.opcode_dw & 0b01 > 0
    }

    /// The direction flag: bit 1 of byte 0. Set makes the reg field the
    /// destination, clear makes it the source.
    pub open spec fn spec_d(self) -> bool {
        self.opcode_dw & 0b10 > 0
    }

    /// The addressing mode named by the top 2 bits of byte 1.
    pub open spec fn spec_rmmod(self) -> RegMemMode {
        let v = (self.mod_reg_rm >> 6) & 0b11;
        if v == 0b00 {
            RegMemMode::MemNoDisp
        } else if v == 0b01 {
            RegMemMode::Mem8bitDisp
        } else if v == 0b10 {
            RegMemMode::Mem16bitDisp
        } else {
            RegMemMode::RegNoDisp
        }
    }

    /// The full register selected by the reg field (bits 3..=5 of byte 1).
    pub open spec fn spec_reg(self) -> Reg {
        reg_of((self.mod_reg_rm >> 3) & 0b111)
    }

    /// The half register selected by the reg field.
    pub open spec fn spec_reg_half(self) -> RegHalf {
        reg_half_of((self.mod_reg_rm >> 3) & 0b111)
    }

    /// The full register selected by the rm field (bits 0..=2 of byte 1).
    pub open spec fn spec_rm(self) -> Reg {
        reg_of(self.mod_reg_rm & 0b111)
    }

    /// The half register selected by the rm field.
    pub open spec fn spec_rm_half(self) -> RegHalf {
        reg_half_of(self.mod_reg_rm & 0b111)
    }

    pub fn opcode(&self) -> (r: u8)
        ensures
            r == self.spec_opcode(),
    {
        self.opcode_dw >> 2
    }

    pub fn w(&self) -> (r: bool)
        ensures
            r == self.spec_w(),
    {
        self.opcode_dw & 0b01 > 0
    }

    pub fn d(&self) -> (r: bool)
        ensures
            r == self.spec_d(),
    {
        self.opcode_dw & 0b10 > 0
    }

    pub fn rmmod(&self) -> (r: RegMemMode)
        ensures
            r == self.spec_rmmod(),
    {
        let v: u8 = (self.mod_reg_rm >> 6) & 0b11;
        match v {
            0b00 => RegMemMode::MemNoDisp,
            0b01 => RegMemMode::Mem8bitDisp,
            0b10 => RegMemMode::Mem16bitDisp,
            0b11 => RegMemMode::RegNoDisp,
            _ => {
                // A 2-bit field covers exactly the four modes above; this arm
                // is unreachable by construction.
                proof {
                    let m = self.mod_reg_rm;
                    assert((m >> 6) & 0b11 < 4) by (bit_vector);
                }
                RegMemMode::RegNoDisp
            },
        }
    }

    pub fn reg(&self) -> (r: Reg)
        ensures
            r == self.spec_reg(),
    {
        Self::decode_reg(self.mod_reg_rm >> 3)
    }

    pub fn reg_half(&self) -> (r: RegHalf)
        ensures
            r == self.spec_reg_half(),
    {
        Self::decode_reg_half(self.mod_reg_rm >> 3)
    }

    pub fn rm(&self) -> (r: Reg)
        ensures
            r == self.spec_rm(),
    {
        Self::decode_reg(self.mod_reg_rm)
    }

    pub fn rm_half(&self) -> (r: RegHalf)
        ensures
            r == self.spec_rm_half(),
    {
        Self::decode_reg_half(self.mod_reg_rm)
    }

    /// Maps the low 3 bits of a byte through the full-register table.
    pub fn decode_reg(byte: u8) -> (r: Reg)
        ensures
            r == reg_of(byte & 0b111),
    {
        match byte & 0b111 {
            0b000 => Reg::Ax,
            0b001 => Reg::Cx,
            0b010 => Reg::Dx,
            0b011 => Reg::Bx,
            0b100 => Reg::Sp,
            0b101 => Reg::Bp,
            0b110 => Reg::Si,
            0b111 => Reg::Di,
            _ => {
                // A 3-bit selector covers exactly the eight registers above;
                // this arm is unreachable by construction.
                proof {
                    assert(byte & 0b111 < 8) by (bit_vector);
                }
                Reg::Di
            },
        }
    }

    /// Maps the low 3 bits of a byte through the half-register table.
    pub fn decode_reg_half(byte: u8) -> (r: RegHalf)
        ensures
            r == reg_half_of(byte & 0b111),
    {
        match byte & 0b111 {
            0b000 => RegHalf::Al,
            0b001 => RegHalf::Cl,
            0b010 => RegHalf::Dl,
            0b011 => RegHalf::Bl,
            0b100 => RegHalf::Ah,
            0b101 => RegHalf::Ch,
            0b110 => RegHalf::Dh,
            0b111 => RegHalf::Bh,
            _ => {
                // A 3-bit selector covers exactly the eight registers above;
                // this arm is unreachable by construction.
                proof {
                    assert(byte & 0b111 < 8) by (bit_vector);
                }
                RegHalf::Bh
            },
        }
    }
}

} // verus!
