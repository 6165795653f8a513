use unarm_marshal::codec::{ArgumentKind, CArgument, KIND_COUNT};
use unarm_marshal::member::{
    CCpsrFlags, CCpsrMode, COffsetImm, COffsetReg, CReg, CRegList, CShiftImm, CShiftReg,
    CStatusMask,
};
use unarm_marshal::operand::{
    Argument, CoReg, CpsrFlags, CpsrMode, Endian, OffsetImm, OffsetReg, Reg, RegList, Register,
    Shift, ShiftImm, ShiftReg, StatusMask, StatusReg,
};
use unarm_marshal::value::ArgumentValue;

fn assert_marshals(arg: Argument, kind: ArgumentKind, payload: [u8; 8]) {
    let c = CArgument::from(arg);
    assert_eq!(c.kind(), kind);
    assert_eq!(c.value().bytes, payload);
    assert_eq!(c.to_argument(), arg);
}

#[test]
fn register_operand_keeps_both_flags() {
    let arg = Argument::Reg(Reg { deref: true, reg: Register::R3, writeback: true });
    let c = CArgument::from(arg);
    assert_eq!(c.kind(), ArgumentKind::Reg);
    let member = CReg::from_value(&c.value());
    assert!(member.deref);
    assert!(member.writeback);
    assert_eq!(member.reg, Register::R3);
    assert_eq!(c.value().bytes, [1, 3, 1, 0, 0, 0, 0, 0]);
    assert_eq!(c.to_argument(), arg);
}

#[test]
fn register_operand_with_flags_clear() {
    assert_marshals(
        Argument::Reg(Reg { deref: false, reg: Register::Pc, writeback: false }),
        ArgumentKind::Reg,
        [0, 15, 0, 0, 0, 0, 0, 0],
    );
}

#[test]
fn register_flags_are_not_swapped() {
    assert_marshals(
        Argument::Reg(Reg { deref: true, reg: Register::R0, writeback: false }),
        ArgumentKind::Reg,
        [1, 0, 0, 0, 0, 0, 0, 0],
    );
    assert_marshals(
        Argument::Reg(Reg { deref: false, reg: Register::R0, writeback: true }),
        ArgumentKind::Reg,
        [0, 0, 1, 0, 0, 0, 0, 0],
    );
}

#[test]
fn absent_operand_has_the_default_register_payload() {
    assert_marshals(Argument::Absent, ArgumentKind::Absent, [0, 255, 0, 0, 0, 0, 0, 0]);
    assert_eq!(CArgument::from(Argument::Absent).value(), CReg::default().to_value());
}

#[test]
fn register_list_round_trip() {
    assert_marshals(
        Argument::RegList(RegList { regs: 0x0000_80f1, user_mode: true }),
        ArgumentKind::RegList,
        [0xf1, 0x80, 0, 0, 1, 0, 0, 0],
    );
    assert_marshals(
        Argument::RegList(RegList { regs: 0xdead_beef, user_mode: false }),
        ArgumentKind::RegList,
        [0xef, 0xbe, 0xad, 0xde, 0, 0, 0, 0],
    );
}

#[test]
fn coprocessor_register_round_trip() {
    assert_marshals(Argument::CoReg(CoReg::C7), ArgumentKind::CoReg, [7, 0, 0, 0, 0, 0, 0, 0]);
    assert_marshals(
        Argument::CoReg(CoReg::Illegal),
        ArgumentKind::CoReg,
        [255, 0, 0, 0, 0, 0, 0, 0],
    );
}

#[test]
fn status_register_round_trip() {
    assert_marshals(
        Argument::StatusReg(StatusReg::Cpsr),
        ArgumentKind::StatusReg,
        [0, 0, 0, 0, 0, 0, 0, 0],
    );
    assert_marshals(
        Argument::StatusReg(StatusReg::Spsr),
        ArgumentKind::StatusReg,
        [1, 0, 0, 0, 0, 0, 0, 0],
    );
}

#[test]
fn status_mask_round_trip() {
    assert_marshals(
        Argument::StatusMask(StatusMask {
            control: true,
            extension: false,
            flags: true,
            reg: StatusReg::Spsr,
            status: true,
        }),
        ArgumentKind::StatusMask,
        [1, 0, 1, 1, 1, 0, 0, 0],
    );
    assert_marshals(
        Argument::StatusMask(StatusMask {
            control: false,
            extension: true,
            flags: false,
            reg: StatusReg::Cpsr,
            status: false,
        }),
        ArgumentKind::StatusMask,
        [0, 1, 0, 0, 0, 0, 0, 0],
    );
}

#[test]
fn shift_round_trip() {
    assert_marshals(Argument::Shift(Shift::Lsl), ArgumentKind::Shift, [0, 0, 0, 0, 0, 0, 0, 0]);
    assert_marshals(Argument::Shift(Shift::Rrx), ArgumentKind::Shift, [4, 0, 0, 0, 0, 0, 0, 0]);
}

#[test]
fn shift_by_immediate_round_trip() {
    assert_marshals(
        Argument::ShiftImm(ShiftImm { imm: 0x20, op: Shift::Lsr }),
        ArgumentKind::ShiftImm,
        [0x20, 0, 0, 0, 1, 0, 0, 0],
    );
}

#[test]
fn shift_by_register_round_trip() {
    assert_marshals(
        Argument::ShiftReg(ShiftReg { op: Shift::Asr, reg: Register::R1 }),
        ArgumentKind::ShiftReg,
        [2, 1, 0, 0, 0, 0, 0, 0],
    );
}

#[test]
fn unsigned_immediate_round_trip() {
    assert_marshals(
        Argument::UImm(0x1234_5678),
        ArgumentKind::UImm,
        [0x78, 0x56, 0x34, 0x12, 0, 0, 0, 0],
    );
    assert_marshals(Argument::UImm(0), ArgumentKind::UImm, [0, 0, 0, 0, 0, 0, 0, 0]);
    assert_marshals(Argument::UImm(u32::MAX), ArgumentKind::UImm, [255, 255, 255, 255, 0, 0, 0, 0]);
}

#[test]
fn saturating_immediate_round_trip() {
    assert_marshals(Argument::SatImm(31), ArgumentKind::SatImm, [31, 0, 0, 0, 0, 0, 0, 0]);
}

#[test]
fn signed_immediate_round_trip() {
    assert_marshals(Argument::SImm(-1), ArgumentKind::SImm, [255, 255, 255, 255, 0, 0, 0, 0]);
    assert_marshals(Argument::SImm(1), ArgumentKind::SImm, [1, 0, 0, 0, 0, 0, 0, 0]);
    assert_marshals(Argument::SImm(i32::MIN), ArgumentKind::SImm, [0, 0, 0, 0x80, 0, 0, 0, 0]);
    assert_marshals(
        Argument::SImm(i32::MAX),
        ArgumentKind::SImm,
        [255, 255, 255, 0x7f, 0, 0, 0, 0],
    );
}

#[test]
fn immediate_offset_round_trip() {
    assert_marshals(
        Argument::OffsetImm(OffsetImm { post_indexed: true, value: 0xfff }),
        ArgumentKind::OffsetImm,
        [1, 0, 0, 0, 0xff, 0x0f, 0, 0],
    );
    assert_marshals(
        Argument::OffsetImm(OffsetImm { post_indexed: false, value: -4 }),
        ArgumentKind::OffsetImm,
        [0, 0, 0, 0, 0xfc, 0xff, 0xff, 0xff],
    );
}

#[test]
fn register_offset_round_trip() {
    assert_marshals(
        Argument::OffsetReg(OffsetReg { add: true, post_indexed: false, reg: Register::R3 }),
        ArgumentKind::OffsetReg,
        [1, 0, 3, 0, 0, 0, 0, 0],
    );
    assert_marshals(
        Argument::OffsetReg(OffsetReg { add: false, post_indexed: true, reg: Register::Lr }),
        ArgumentKind::OffsetReg,
        [0, 1, 14, 0, 0, 0, 0, 0],
    );
}

#[test]
fn branch_destination_round_trip() {
    assert_marshals(
        Argument::BranchDest(0x48d1c),
        ArgumentKind::BranchDest,
        [0x1c, 0x8d, 0x04, 0, 0, 0, 0, 0],
    );
    assert_marshals(
        Argument::BranchDest(-0x420),
        ArgumentKind::BranchDest,
        [0xe0, 0xfb, 0xff, 0xff, 0, 0, 0, 0],
    );
}

#[test]
fn coprocessor_numbers_round_trip() {
    assert_marshals(Argument::CoOption(0xab), ArgumentKind::CoOption, [0xab, 0, 0, 0, 0, 0, 0, 0]);
    assert_marshals(Argument::CoOpcode(5), ArgumentKind::CoOpcode, [5, 0, 0, 0, 0, 0, 0, 0]);
    assert_marshals(Argument::CoprocNum(15), ArgumentKind::CoprocNum, [15, 0, 0, 0, 0, 0, 0, 0]);
}

#[test]
fn same_number_under_different_kinds_stays_apart() {
    let a = CArgument::from(Argument::UImm(7));
    let b = CArgument::from(Argument::SatImm(7));
    let c = CArgument::from(Argument::CoOpcode(7));
    assert_eq!(a.value(), b.value());
    assert_ne!(a, b);
    assert_ne!(b, c);
    assert_eq!(a.to_argument(), Argument::UImm(7));
    assert_eq!(b.to_argument(), Argument::SatImm(7));
    assert_eq!(c.to_argument(), Argument::CoOpcode(7));
}

#[test]
fn mode_switch_round_trip() {
    assert_marshals(
        Argument::CpsrMode(CpsrMode { mode: 0x13, writeback: true }),
        ArgumentKind::CpsrMode,
        [0x13, 0, 0, 0, 1, 0, 0, 0],
    );
}

#[test]
fn interrupt_flags_round_trip() {
    assert_marshals(
        Argument::CpsrFlags(CpsrFlags { a: true, enable: false, f: true, i: false }),
        ArgumentKind::CpsrFlags,
        [1, 0, 1, 0, 0, 0, 0, 0],
    );
    assert_marshals(
        Argument::CpsrFlags(CpsrFlags { a: false, enable: true, f: false, i: true }),
        ArgumentKind::CpsrFlags,
        [0, 1, 0, 1, 0, 0, 0, 0],
    );
}

#[test]
fn endianness_round_trip() {
    assert_marshals(Argument::Endian(Endian::Le), ArgumentKind::Endian, [0, 0, 0, 0, 0, 0, 0, 0]);
    assert_marshals(Argument::Endian(Endian::Be), ArgumentKind::Endian, [1, 0, 0, 0, 0, 0, 0, 0]);
    assert_marshals(
        Argument::Endian(Endian::Illegal),
        ArgumentKind::Endian,
        [255, 0, 0, 0, 0, 0, 0, 0],
    );
}

#[test]
fn every_register_round_trips_through_its_code() {
    let all = [
        Register::R0,
        Register::R1,
        Register::R2,
        Register::R3,
        Register::R4,
        Register::R5,
        Register::R6,
        Register::R7,
        Register::R8,
        Register::R9,
        Register::R10,
        Register::R11,
        Register::R12,
        Register::Sp,
        Register::Lr,
        Register::Pc,
    ];
    for (number, reg) in all.iter().enumerate() {
        assert_eq!(reg.code() as usize, number);
        assert_eq!(Register::from_code(number as u8), *reg);
        assert_marshals(
            Argument::Reg(Reg { deref: false, reg: *reg, writeback: false }),
            ArgumentKind::Reg,
            [0, number as u8, 0, 0, 0, 0, 0, 0],
        );
    }
    assert_eq!(Register::Illegal.code(), 255);
    assert_eq!(Register::from_code(255), Register::Illegal);
}

#[test]
fn a_byte_that_is_no_code_reads_as_illegal() {
    assert_eq!(Register::from_code(16), Register::Illegal);
    assert_eq!(CoReg::from_code(16), CoReg::Illegal);
    assert_eq!(StatusReg::from_code(2), StatusReg::Illegal);
    assert_eq!(Shift::from_code(5), Shift::Illegal);
    assert_eq!(Endian::from_code(2), Endian::Illegal);
    assert_eq!(CoReg::from_code(15), CoReg::C15);
    assert_eq!(Shift::from_code(3), Shift::Ror);
}

#[test]
fn kinds_have_the_discriminants_zero_to_twenty() {
    let all = [
        ArgumentKind::Absent,
        ArgumentKind::Reg,
        ArgumentKind::RegList,
        ArgumentKind::CoReg,
        ArgumentKind::StatusReg,
        ArgumentKind::StatusMask,
        ArgumentKind::Shift,
        ArgumentKind::ShiftImm,
        ArgumentKind::ShiftReg,
        ArgumentKind::UImm,
        ArgumentKind::SatImm,
        ArgumentKind::SImm,
        ArgumentKind::OffsetImm,
        ArgumentKind::OffsetReg,
        ArgumentKind::BranchDest,
        ArgumentKind::CoOption,
        ArgumentKind::CoOpcode,
        ArgumentKind::CoprocNum,
        ArgumentKind::CpsrMode,
        ArgumentKind::CpsrFlags,
        ArgumentKind::Endian,
    ];
    assert_eq!(all.len(), KIND_COUNT as usize);
    for (number, kind) in all.iter().enumerate() {
        assert_eq!(kind.code() as usize, number);
        assert_eq!(ArgumentKind::from_code(number as u8), Some(*kind));
    }
    assert_eq!(ArgumentKind::from_code(21), None);
    assert_eq!(ArgumentKind::from_code(255), None);
}

#[test]
fn members_read_back_from_their_payload() {
    let list = CRegList { regs: 0x8001, user_mode: true };
    assert_eq!(CRegList::from_value(&list.to_value()), list);
    let mask = CStatusMask {
        control: true,
        extension: true,
        flags: false,
        reg: StatusReg::Cpsr,
        status: false,
    };
    assert_eq!(CStatusMask::from_value(&mask.to_value()), mask);
    let shift_imm = CShiftImm { imm: 0xffff_ffff, op: Shift::Ror };
    assert_eq!(CShiftImm::from_value(&shift_imm.to_value()), shift_imm);
    let shift_reg = CShiftReg { op: Shift::Lsl, reg: Register::R12 };
    assert_eq!(CShiftReg::from_value(&shift_reg.to_value()), shift_reg);
    let offset_imm = COffsetImm { post_indexed: true, value: -1 };
    assert_eq!(COffsetImm::from_value(&offset_imm.to_value()), offset_imm);
    let offset_reg = COffsetReg { add: true, post_indexed: true, reg: Register::Sp };
    assert_eq!(COffsetReg::from_value(&offset_reg.to_value()), offset_reg);
    let mode = CCpsrMode { mode: 0x1f, writeback: false };
    assert_eq!(CCpsrMode::from_value(&mode.to_value()), mode);
    let flags = CCpsrFlags { a: true, enable: true, f: true, i: true };
    assert_eq!(CCpsrFlags::from_value(&flags.to_value()), flags);
}

#[test]
fn a_nonzero_flag_byte_reads_as_true() {
    let value = ArgumentValue { bytes: [2, 3, 0, 0, 0, 0, 0, 0] };
    let member = CReg::from_value(&value);
    assert!(member.deref);
    assert!(!member.writeback);
    assert_eq!(member.reg, Register::R3);
}

#[test]
fn member_defaults() {
    assert_eq!(CReg::default(), CReg { deref: false, reg: Register::Illegal, writeback: false });
    assert_eq!(CRegList::default(), CRegList { regs: 0, user_mode: false });
    assert_eq!(CShiftImm::default(), CShiftImm { imm: 0, op: Shift::Illegal });
    assert_eq!(CShiftReg::default(), CShiftReg { op: Shift::Illegal, reg: Register::Illegal });
    assert_eq!(COffsetImm::default(), COffsetImm { post_indexed: false, value: 0 });
    assert_eq!(
        COffsetReg::default(),
        COffsetReg { add: false, post_indexed: false, reg: Register::Illegal }
    );
    assert_eq!(CCpsrMode::default(), CCpsrMode { mode: 0, writeback: false });
    assert_eq!(CCpsrFlags::default(), CCpsrFlags { a: false, enable: false, f: false, i: false });
    assert_eq!(CStatusMask::default().reg, StatusReg::Illegal);
    assert_eq!(Argument::default(), Argument::Absent);
    assert_eq!(Register::default(), Register::Illegal);
}

#[test]
fn payload_words_are_little_endian() {
    assert_eq!(ArgumentValue::from_word(0x0102_0304).bytes, [4, 3, 2, 1, 0, 0, 0, 0]);
    assert_eq!(ArgumentValue::from_word(0x0102_0304).word(), 0x0102_0304);
    assert_eq!(ArgumentValue::from_signed(-2).bytes, [0xfe, 0xff, 0xff, 0xff, 0, 0, 0, 0]);
    assert_eq!(ArgumentValue::from_signed(-2).signed(), -2);
    assert_eq!(ArgumentValue::from_byte(9).bytes, [9, 0, 0, 0, 0, 0, 0, 0]);
    assert_eq!(ArgumentValue::from_word_and_byte(1, 2).bytes, [1, 0, 0, 0, 2, 0, 0, 0]);
}
