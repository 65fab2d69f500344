//! The decoded typed instruction, the decode dispatch, and the mnemonic
//! renderer.

use vstd::prelude::*;

use crate::encoding::EncInstruction;
use crate::encoding::MOV_OPCODE;

verus! {

/// One fully interpreted operation: a move between two full registers or
/// between two half registers, holding (destination, source) in that order.
/// Both operands always come from the same width class.
#[derive(Clone, Copy, PartialEq, Eq, Debug)]
pub enum Instruction {
    Mov(crate::registers::Reg, crate::registers::Reg),
    MovHalf(crate::registers::RegHalf, crate::registers::RegHalf),
}

/// The text line a decoded instruction renders to: `mov <dst>, <src>`, each
/// register under its canonical two-letter lowercase name.
pub open spec fn spec_render(i: Instruction) -> Seq<char> {
    match i {
        Instruction::Mov(dst, src) => "mov "@ + dst.spec_name() + ", "@ + src.spec_name(),
        Instruction::MovHalf(dst, src) => "mov "@ + dst.spec_name() + ", "@ + src.spec_name(),
    }
}

/// The interpretation of an encoded instruction of the move family: the
/// width flag picks the register set, and the direction flag decides whether
/// the reg field is the destination (set) or the source (clear).
pub open spec fn spec_decode(i: EncInstruction) -> Instruction {
    if i.spec_w() {
        if i.spec_d() {
            Instruction::Mov(i.spec_reg(), i.spec_rm())
        } else {
            Instruction::Mov(i.spec_rm(), i.spec_reg())
        }
    } else {
        if i.spec_d() {
            Instruction::MovHalf(i.spec_reg_half(), i.spec_rm_half())
        } else {
            Instruction::MovHalf(i.spec_rm_half(), i.spec_reg_half())
        }
    }
}

/// Decodes one encoded instruction of the single supported opcode family.
///
/// Any other opcode is outside this decoder's encoding table and must end
/// the whole run, so the caller checks the opcode first; no input admitted
/// here can fail.
pub fn decode(inst: EncInstruction) -> (r: Instruction)
    requires
        inst.spec_opcode() == MOV_OPCODE,
    ensures
        r == spec_decode(inst),
{
    // mov reg <- reg
    if inst.w() {
        // full registers
        let reg_dst;
        let reg_src;
        if inst.d() {
            reg_dst = inst.reg();
            reg_src = inst.rm();
        } else {
            reg_src = inst.reg();
            reg_dst = inst.rm();
        }
        Instruction::Mov(reg_dst, reg_src)
    } else {
        // half registers
        let reg_dst;
        let reg_src;
        if inst.d() {
            reg_dst = inst.reg_half();
            reg_src = inst.rm_half();
        } else {
            reg_src = inst.reg_half();
            reg_dst = inst.rm_half();
        }
        Instruction::MovHalf(reg_dst, reg_src)
    }
}

impl Instruction {
    /// Renders the canonical text line for this instruction.
    pub fn render(&self) -> (r: String)
        ensures
            r@ == spec_render(*self),
    {
        match *self {
            Instruction::Mov(dst, src) => {
                let mut s = String::from_str("mov ");
                s.append(dst.name());
                s.append(", ");
                s.append(src.name());
                s
            },
            Instruction::MovHalf(dst, src) => {
                let mut s = String::from_str("mov ");
                s.append(dst.name());
                s.append(", ");
                s.append(src.name());
                s
            },
        }
    }
}

/// Rendering is deterministic: any two renderings of the same decoded
/// instruction value are identical text.
pub proof fn lemma_render_deterministic(i: Instruction, s1: Seq<char>, s2: Seq<char>)
    requires
        s1 == spec_render(i),
        s2 == spec_render(i),
    ensures
        s1 == s2,
{
}

} // verus!
