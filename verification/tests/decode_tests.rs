use mov_disasm::encoding::EncInstruction;
use mov_disasm::encoding::RegMemMode;
use mov_disasm::encoding::MOV_OPCODE;
use mov_disasm::instruction::decode;
use mov_disasm::instruction::Instruction;
use mov_disasm::registers::Reg;
use mov_disasm::registers::RegHalf;

#[test]
fn full_register_selector_table_in_index_order() {
    let expected = [
        Reg::Ax,
        Reg::Cx,
        Reg::Dx,
        Reg::Bx,
        Reg::Sp,
        Reg::Bp,
        Reg::Si,
        Reg::Di,
    ];
    for sel in 0u8..8 {
        assert_eq!(EncInstruction::decode_reg(sel), expected[sel as usize]);
    }
}

#[test]
fn half_register_selector_table_in_index_order() {
    let expected = [
        RegHalf::Al,
        RegHalf::Cl,
        RegHalf::Dl,
        RegHalf::Bl,
        RegHalf::Ah,
        RegHalf::Ch,
        RegHalf::Dh,
        RegHalf::Bh,
    ];
    for sel in 0u8..8 {
        assert_eq!(EncInstruction::decode_reg_half(sel), expected[sel as usize]);
    }
}

#[test]
fn reg_and_rm_accessors_follow_the_selector_tables() {
    let expected_full = [
        Reg::Ax,
        Reg::Cx,
        Reg::Dx,
        Reg::Bx,
        Reg::Sp,
        Reg::Bp,
        Reg::Si,
        Reg::Di,
    ];
    let expected_half = [
        RegHalf::Al,
        RegHalf::Cl,
        RegHalf::Dl,
        RegHalf::Bl,
        RegHalf::Ah,
        RegHalf::Ch,
        RegHalf::Dh,
        RegHalf::Bh,
    ];
    for sel in 0u8..8 {
        let in_reg = EncInstruction {
            opcode_dw: 0b10001011,
            mod_reg_rm: 0b11000000 | (sel << 3),
        };
        assert_eq!(in_reg.reg(), expected_full[sel as usize]);
        assert_eq!(in_reg.reg_half(), expected_half[sel as usize]);
        let in_rm = EncInstruction {
            opcode_dw: 0b10001011,
            mod_reg_rm: 0b11000000 | sel,
        };
        assert_eq!(in_rm.rm(), expected_full[sel as usize]);
        assert_eq!(in_rm.rm_half(), expected_half[sel as usize]);
    }
}

#[test]
fn opcode_is_the_top_six_bits_of_byte_zero() {
    let inst = EncInstruction {
        opcode_dw: 0b10001011,
        mod_reg_rm: 0,
    };
    assert_eq!(inst.opcode(), 0b100010);
    assert_eq!(inst.opcode(), MOV_OPCODE);
    let other = EncInstruction {
        opcode_dw: 0b11111100,
        mod_reg_rm: 0,
    };
    assert_eq!(other.opcode(), 0b111111);
}

#[test]
fn width_and_direction_are_the_low_two_bits_of_byte_zero() {
    let both = EncInstruction {
        opcode_dw: 0b10001011,
        mod_reg_rm: 0,
    };
    assert!(both.w());
    assert!(both.d());
    let neither = EncInstruction {
        opcode_dw: 0b10001000,
        mod_reg_rm: 0,
    };
    assert!(!neither.w());
    assert!(!neither.d());
}

#[test]
fn addressing_mode_covers_all_four_values() {
    for (bits, mode) in [
        (0b00u8, RegMemMode::MemNoDisp),
        (0b01, RegMemMode::Mem8bitDisp),
        (0b10, RegMemMode::Mem16bitDisp),
        (0b11, RegMemMode::RegNoDisp),
    ] {
        let inst = EncInstruction {
            opcode_dw: 0b10001011,
            mod_reg_rm: bits << 6,
        };
        assert_eq!(inst.rmmod(), mode);
    }
}

#[test]
fn full_width_direction_set_moves_rm_into_reg() {
    let inst = EncInstruction {
        opcode_dw: 0b10001011,
        mod_reg_rm: 0b11000011,
    };
    let decoded = decode(inst);
    assert_eq!(decoded, Instruction::Mov(Reg::Ax, Reg::Bx));
    assert_eq!(decoded.render(), "mov ax, bx");
}

#[test]
fn full_width_direction_clear_swaps_the_roles() {
    let inst = EncInstruction {
        opcode_dw: 0b10001001,
        mod_reg_rm: 0b11000011,
    };
    let decoded = decode(inst);
    assert_eq!(decoded, Instruction::Mov(Reg::Bx, Reg::Ax));
    assert_eq!(decoded.render(), "mov bx, ax");
}

#[test]
fn half_width_move_uses_the_half_register_table() {
    let inst = EncInstruction {
        opcode_dw: 0b10001010,
        mod_reg_rm: 0b11100000,
    };
    let decoded = decode(inst);
    assert_eq!(decoded, Instruction::MovHalf(RegHalf::Ah, RegHalf::Al));
    assert_eq!(decoded.render(), "mov ah, al");
}

#[test]
fn rendering_the_same_instruction_twice_is_identical() {
    let decoded = Instruction::Mov(Reg::Sp, Reg::Di);
    let first = decoded.render();
    let second = decoded.render();
    assert_eq!(first, second);
    assert_eq!(first, "mov sp, di");
}

#[test]
fn register_names_render_lowercase_two_letter_forms() {
    assert_eq!(Reg::Ax.name(), "ax");
    assert_eq!(Reg::Sp.name(), "sp");
    assert_eq!(RegHalf::Al.name(), "al");
    assert_eq!(RegHalf::Bh.name(), "bh");
}
