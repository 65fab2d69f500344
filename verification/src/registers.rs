//! The two closed register sets and the 3-bit selector tables over them.

use vstd::prelude::*;

verus! {

/// The eight full 16-bit general-purpose registers.
#[derive(Clone, Copy, PartialEq, Eq, Debug)]
pub enum Reg {
    Ax,
    Cx,
    Dx,
    Bx,
    Sp,
    Bp,
    Si,
    Di,
}

/// The eight 8-bit half registers: the low and high bytes of ax, cx, dx, bx.
#[derive(Clone, Copy, PartialEq, Eq, Debug)]
pub enum RegHalf {
    Al,
    Cl,
    Dl,
    Bl,
    Ah,
    Ch,
    Dh,
    Bh,
}

/// The full register selected by a 3-bit selector value, in the processor's
/// fixed index order.
pub open spec fn reg_of(sel: u8) -> Reg {
    if sel == 0 {
        Reg::Ax
    } else if sel == 1 {
        Reg::Cx
    } else if sel == 2 {
        Reg::Dx
    } else if sel == 3 {
        Reg::Bx
    } else if sel == 4 {
        Reg::Sp
    } else if sel == 5 {
        Reg::Bp
    } else if sel == 6 {
        Reg::Si
    } else {
        Reg::Di
    }
}

/// The half register selected by a 3-bit selector value. The index order
/// pairs ax..bx with their own low bytes and sp..di with the high bytes of
/// ax..bx, as the processor's encoding defines.
pub open spec fn reg_half_of(sel: u8) -> RegHalf {
    if sel == 0 {
        RegHalf::Al
    } else if sel == 1 {
        RegHalf::Cl
    } else if sel == 2 {
        RegHalf::Dl
    } else if sel == 3 {
        RegHalf::Bl
    } else if sel == 4 {
        RegHalf::Ah
    } else if sel == 5 {
        RegHalf::Ch
    } else if sel == 6 {
        RegHalf::Dh
    } else {
        RegHalf::Bh
    }
}

impl Reg {
    /// The canonical two-letter lowercase name of the register.
    pub open spec fn spec_name(self) -> Seq<char> {
        match self {
            Reg::Ax => "ax"@,
            Reg::Cx => "cx"@,
            Reg::Dx => "dx"@,
            Reg::Bx => "bx"@,
            Reg::Sp => "sp"@,
            Reg::Bp => "bp"@,
            Reg::Si => "si"@,
            Reg::Di => "di"@,
        }
    }

    /// The canonical two-letter lowercase name of the register.
    pub fn name(&self) -> (r: &'static str)
        ensures
            r@ == self.spec_name(),
    {
        match self {
            Reg::Ax => "ax",
            Reg::Cx => "cx",
            Reg::Dx => "dx",
            Reg::Bx => "bx",
            Reg::Sp => "sp",
            Reg::Bp => "bp",
            Reg::Si => "si",
            Reg::Di => "di",
        }
    }
}

impl RegHalf {
    /// The canonical two-letter lowercase name of the half register.
    pub open spec fn spec_name(self) -> Seq<char> {
        match self {
            RegHalf::Al => "al"@,
            RegHalf::Cl => "cl"@,
            RegHalf::Dl => "dl"@,
            RegHalf::Bl => "bl"@,
            RegHalf::Ah => "ah"@,
            RegHalf::Ch => "ch"@,
            RegHalf::Dh => "dh"@,
            RegHalf::Bh => "bh"@,
        }
    }

    /// The canonical two-letter lowercase name of the half register.
    pub fn name(&self) -> (r: &'static str)
        ensures
            r@ == self.spec_name(),
    {
        match self {
            RegHalf::Al => "al",
            RegHalf::Cl => "cl",
            RegHalf::Dl => "dl",
            RegHalf::Bl => "bl",
            RegHalf::Ah => "ah",
            RegHalf::Ch => "ch",
            RegHalf::Dh => "dh",
            RegHalf::Bh => "bh",
        }
    }
}

/// For all eight values of the 3-bit register selector, the full-width table
/// yields ax, cx, dx, bx, sp, bp, si, di in index order, and the half-width
/// table yields al, cl, dl, bl, ah, ch, dh, bh in the same index order.
pub proof fn lemma_selector_tables()
    ensures
        reg_of(0) == Reg::Ax,
        reg_of(1) == Reg::Cx,
        reg_of(2) == Reg::Dx,
        reg_of(3) == Reg::Bx,
        reg_of(4) == Reg::Sp,
        reg_of(5) == Reg::Bp,
        reg_of(6) == Reg::Si,
        reg_of(7) == Reg::Di,
        reg_half_of(0) == RegHalf::Al,
        reg_half_of(1) == RegHalf::Cl,
        reg_half_of(2) == RegHalf::Dl,
        reg_half_of(3) == RegHalf::Bl,
        reg_half_of(4) == RegHalf::Ah,
        reg_half_of(5) == RegHalf::Ch,
        reg_half_of(6) == RegHalf::Dh,
        reg_half_of(7) == RegHalf::Bh,
{
}

} // verus!
