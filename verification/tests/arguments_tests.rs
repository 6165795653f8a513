use unarm_marshal::codec::ArgumentKind;
use unarm_marshal::decoder::OPERAND_PLACES;
use unarm_marshal::instruction::Instruction;
use unarm_marshal::layout::{array_image, ARGUMENT_STRIDE};
use unarm_marshal::operand::{
    Argument, CoReg, Endian, OffsetImm, OffsetReg, Reg, RegList, Register, Shift, ShiftImm,
    ShiftReg, StatusReg,
};
use unarm_marshal::profile::Profile;

fn reg(reg: Register) -> Argument {
    Argument::Reg(Reg { deref: false, reg, writeback: false })
}

fn theirs(ins: &Instruction) -> [unarm::args::Argument; 6] {
    let version = match ins.profile() {
        Profile::Arm9 => unarm::ArmVersion::V5Te,
        Profile::Arm7 => unarm::ArmVersion::V4T,
    };
    let flags = unarm::ParseFlags { ual: false, version };
    match ins.set() {
        unarm_marshal::InstructionSet::Arm => {
            unarm::arm::Ins::new(ins.code(), &flags).parse(&flags).args
        }
        unarm_marshal::InstructionSet::Thumb => {
            unarm::thumb::Ins::new(ins.code(), &flags).parse(&flags).args
        }
    }
}

#[test]
fn a_load_has_three_operands_and_three_absent_places() {
    let ins = Instruction::new_arm(Profile::Arm9, 0xe5312fff);
    assert_eq!(
        ins.operands(),
        [
            reg(Register::R2),
            Argument::Reg(Reg { deref: true, reg: Register::R1, writeback: true }),
            Argument::OffsetImm(OffsetImm { post_indexed: false, value: -0xfff }),
            Argument::Absent,
            Argument::Absent,
            Argument::Absent,
        ]
    );
}

#[test]
fn a_load_marshals_one_for_one() {
    let ins = Instruction::new_arm(Profile::Arm9, 0xe5312fff);
    let marshalled = ins.arguments();
    assert_eq!(marshalled.len(), 6);
    let kinds: Vec<ArgumentKind> = marshalled.iter().map(|c| c.kind()).collect();
    assert_eq!(
        kinds,
        [
            ArgumentKind::Reg,
            ArgumentKind::Reg,
            ArgumentKind::OffsetImm,
            ArgumentKind::Absent,
            ArgumentKind::Absent,
            ArgumentKind::Absent,
        ]
    );
    assert_eq!(marshalled[1].value().bytes, [1, 1, 1, 0, 0, 0, 0, 0]);
    assert_eq!(marshalled[2].value().bytes, [0, 0, 0, 0, 0x01, 0xf0, 0xff, 0xff]);
    let back: Vec<Argument> = marshalled.iter().map(|c| c.to_argument()).collect();
    assert_eq!(back, ins.operands());
    let bytes = array_image(&marshalled);
    assert_eq!(bytes.len(), 6 * ARGUMENT_STRIDE);
    assert_eq!(&bytes[..12], &[1, 0, 0, 0, 0, 2, 0, 0, 0, 0, 0, 0]);
    assert_eq!(&bytes[36..48], &[0, 0, 0, 0, 0, 255, 0, 0, 0, 0, 0, 0]);
}

#[test]
fn operands_of_known_instructions() {
    let add = Instruction::new_arm(Profile::Arm7, 0xe0812003);
    assert_eq!(add.operands()[..3], [reg(Register::R2), reg(Register::R1), reg(Register::R3)]);
    let shifted = Instruction::new_arm(Profile::Arm9, 0x108b960a);
    assert_eq!(
        shifted.operands()[..4],
        [
            reg(Register::R9),
            reg(Register::R11),
            reg(Register::R10),
            Argument::ShiftImm(ShiftImm { imm: 0xc, op: Shift::Lsl }),
        ]
    );
    let by_register = Instruction::new_arm(Profile::Arm9, 0x4085f238);
    assert_eq!(
        by_register.operands()[3],
        Argument::ShiftReg(ShiftReg { op: Shift::Lsr, reg: Register::R2 })
    );
    let rotated = Instruction::new_arm(Profile::Arm9, 0xb0887060);
    assert_eq!(rotated.operands()[3], Argument::Shift(Shift::Rrx));
    let branch = Instruction::new_arm(Profile::Arm9, 0x0a012345);
    assert_eq!(branch.operands()[0], Argument::BranchDest(0x48d1c));
    let back = Instruction::new_thumb(Profile::Arm7, 0xe5ee);
    assert_eq!(back.operands()[0], Argument::BranchDest(-0x420));
    let pop = Instruction::new_arm(Profile::Arm9, 0xe8bd0505);
    assert_eq!(
        pop.operands()[..2],
        [
            Argument::Reg(Reg { deref: false, reg: Register::Sp, writeback: true }),
            Argument::RegList(RegList { regs: 0x0505, user_mode: false }),
        ]
    );
    let offset = Instruction::new_arm(Profile::Arm9, 0xe7112003);
    assert_eq!(
        offset.operands()[2],
        Argument::OffsetReg(OffsetReg { add: false, post_indexed: false, reg: Register::R3 })
    );
    let immediate = Instruction::new_thumb(Profile::Arm9, 0x1cca);
    assert_eq!(immediate.operands()[2], Argument::UImm(3));
}

#[test]
fn every_instruction_has_six_places() {
    for code in [0u32, 0xffff_ffff, 0xe0812003, 0xea000000, 0xe16f5f1f, 0xd042] {
        for ins in [
            Instruction::new_arm(Profile::Arm9, code),
            Instruction::new_arm(Profile::Arm7, code),
            Instruction::new_thumb(Profile::Arm9, code),
            Instruction::new_thumb(Profile::Arm7, code),
        ] {
            assert_eq!(ins.operands().len(), OPERAND_PLACES);
            assert_eq!(ins.arguments().len(), theirs(&ins).len());
            assert_eq!(array_image(&ins.arguments()).len(), 6 * ARGUMENT_STRIDE);
        }
    }
}

#[test]
fn operands_reflect_the_profile_of_the_instruction() {
    let newer = Instruction::new_arm(Profile::Arm9, 0xe16f5f1f);
    let older = Instruction::new_arm(Profile::Arm7, 0xe16f5f1f);
    assert_eq!(
        newer.operands()[..3],
        [reg(Register::R5), reg(Register::Pc), Argument::Absent]
    );
    assert_eq!(older.operands(), [Argument::Absent; 6]);
    assert_eq!(newer.arguments()[0].kind(), ArgumentKind::Reg);
    assert_eq!(older.arguments()[0].kind(), ArgumentKind::Absent);
    let newer = Instruction::new_arm(Profile::Arm9, 0xfa000000);
    let older = Instruction::new_arm(Profile::Arm7, 0xfa000000);
    assert_eq!(newer.operands()[0], Argument::BranchDest(8));
    assert_eq!(older.operands()[0], Argument::Absent);
}

#[test]
fn operands_are_the_same_twice() {
    let ins = Instruction::new_arm(Profile::Arm9, 0xe5312fff);
    assert_eq!(ins.operands(), ins.operands());
    assert_eq!(ins.arguments(), ins.arguments());
}

#[test]
fn operands_agree_with_the_decoder_on_many_codes() {
    let mut kinds = [false; 21];
    for i in 0..40_000u32 {
        let code = i.wrapping_mul(0x9e37_79b1) ^ (i << 7);
        for ins in [
            Instruction::new_arm(Profile::Arm9, code),
            Instruction::new_arm(Profile::Arm7, code),
            Instruction::new_thumb(Profile::Arm9, code),
            Instruction::new_thumb(Profile::Arm7, code),
        ] {
            let ours = ins.operands();
            let written = format!("{:?}", theirs(&ins)).replace("None", "Absent");
            assert_eq!(format!("{:?}", ours), written);
            let marshalled = ins.arguments();
            assert_eq!(marshalled.len(), ours.len());
            for (c, arg) in marshalled.iter().zip(ours.iter()) {
                assert_eq!(c.to_argument(), *arg);
                kinds[c.kind().code() as usize] = true;
            }
        }
    }
    for kind in [
        ArgumentKind::Absent,
        ArgumentKind::Reg,
        ArgumentKind::RegList,
        ArgumentKind::ShiftImm,
        ArgumentKind::ShiftReg,
        ArgumentKind::UImm,
        ArgumentKind::OffsetImm,
        ArgumentKind::OffsetReg,
        ArgumentKind::BranchDest,
    ] {
        assert!(kinds[kind.code() as usize]);
    }
}

#[test]
fn coprocessor_and_status_operands_agree_with_the_decoder() {
    let codes: [u32; 10] = [
        0xee010f10, 0xee123456, 0xed912345, 0xec812345, 0xe10f0000, 0xe14f1000, 0xe129f000,
        0xe169f001, 0xe328f0ff, 0xee1f2f32,
    ];
    let mut seen = Vec::new();
    for code in codes {
        let ins = Instruction::new_arm(Profile::Arm9, code);
        let ours = ins.operands();
        let written = format!("{:?}", theirs(&ins)).replace("None", "Absent");
        assert_eq!(format!("{:?}", ours), written);
        seen.extend(ours);
    }
    assert!(seen.iter().any(|arg| matches!(arg, Argument::CoReg(reg) if *reg != CoReg::Illegal)));
    assert!(seen.iter().any(|arg| matches!(arg, Argument::CoprocNum(_))));
    assert!(seen.iter().any(|arg| matches!(arg, Argument::CoOpcode(_))));
    assert!(seen
        .iter()
        .any(|arg| matches!(arg, Argument::StatusReg(reg) if *reg != StatusReg::Illegal)
            || matches!(arg, Argument::StatusMask(_))));
    assert!(!seen.iter().any(|arg| matches!(arg, Argument::Endian(Endian::Be))));
}
