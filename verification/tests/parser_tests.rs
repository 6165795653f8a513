use unarm_marshal::instruction::{Instruction, InstructionSet};
use unarm_marshal::decoder::CursorStep;
use unarm_marshal::parser::{new_parser, parse_mode_from_u32, Fetched, ParseMode, Parser, Unit};
use unarm_marshal::operand::Argument;
use unarm_marshal::profile::Profile;

fn unit_at(address: u32, size: u32, unit: Unit) -> Fetched {
    let operands = match unit {
        Unit::Instruction(ins) => ins.operands(),
        Unit::Data(word) => {
            let mut operands = vec![Argument::Absent; 6];
            operands[0] = Argument::UImm(word);
            operands
        }
    };
    Fetched { address, size, unit, operands }
}

#[test]
fn mode_numbers() {
    assert_eq!(parse_mode_from_u32(0), Some(ParseMode::Arm));
    assert_eq!(parse_mode_from_u32(1), Some(ParseMode::Thumb));
    assert_eq!(parse_mode_from_u32(2), Some(ParseMode::Data));
}

#[test]
fn other_numbers_are_no_mode() {
    assert_eq!(parse_mode_from_u32(3), None);
    assert_eq!(parse_mode_from_u32(4), None);
    assert_eq!(parse_mode_from_u32(u32::MAX), None);
}

#[test]
fn a_parser_is_made_from_a_mode_number() {
    let data = [0u8; 4];
    for (number, mode) in [(0, ParseMode::Arm), (1, ParseMode::Thumb), (2, ParseMode::Data)] {
        let parser = new_parser(Profile::Arm7, number, 0x0800_0000, &data);
        assert_eq!(parser.mode(), mode);
        assert_eq!(parser.address(), 0x0800_0000);
        assert_eq!(parser.profile(), Profile::Arm7);
        assert_eq!(parser.remaining(), &data);
    }
}

#[test]
fn four_arm_instructions_then_the_end() {
    let data: [u8; 16] = [
        0x03, 0x20, 0x81, 0xe0, 0xff, 0x2f, 0x91, 0xe5, 0x00, 0x00, 0x00, 0xea, 0x03, 0x00, 0x51,
        0xe1,
    ];
    let mut parser = Parser::new(Profile::Arm9, ParseMode::Arm, 0x1000, &data);
    let mut addresses = Vec::new();
    let mut texts = Vec::new();
    for _ in 0..4 {
        let fetched = parser.advance().unwrap();
        assert_eq!(fetched.size, 4);
        addresses.push(fetched.address);
        match fetched.unit {
            Unit::Instruction(ins) => {
                assert_eq!(ins.set(), InstructionSet::Arm);
                assert_eq!(ins.profile(), Profile::Arm9);
                texts.push(ins.to_text());
            }
            Unit::Data(_) => panic!("data in ARM mode"),
        }
    }
    assert_eq!(addresses, [0x1000, 0x1004, 0x1008, 0x100c]);
    assert_eq!(texts, ["add r2, r1, r3", "ldr r2, [r1, #0xfff]", "b #0x8", "cmp r1, r3"]);
    assert_eq!(parser.advance(), None);
    assert_eq!(parser.address(), 0x1010);
    assert!(parser.remaining().is_empty());
    assert_eq!(parser.advance(), None);
}

#[test]
fn arm_code_is_read_least_significant_byte_first() {
    let data = [0x78, 0x56, 0x34, 0x12];
    let mut parser = Parser::new(Profile::Arm7, ParseMode::Arm, 0, &data);
    let fetched = parser.advance().unwrap();
    assert_eq!(
        fetched,
        unit_at(0, 4, Unit::Instruction(Instruction::new_arm(Profile::Arm7, 0x12345678)))
    );
}

#[test]
fn a_short_buffer_yields_nothing_and_moves_nothing() {
    let data = [0x03, 0x20, 0x81];
    let mut parser = Parser::new(Profile::Arm9, ParseMode::Arm, 0x1000, &data);
    assert_eq!(parser.advance(), None);
    assert_eq!(parser.address(), 0x1000);
    assert_eq!(parser.remaining(), &data);
    let mut parser = Parser::new(Profile::Arm9, ParseMode::Thumb, 0x1000, &data[..1]);
    assert_eq!(parser.advance(), None);
    assert_eq!(parser.address(), 0x1000);
    let mut parser = Parser::new(Profile::Arm9, ParseMode::Data, 0x1000, &data);
    assert_eq!(parser.advance(), None);
    let mut parser = Parser::new(Profile::Arm9, ParseMode::Arm, 0x1000, &[]);
    assert_eq!(parser.advance(), None);
}

#[test]
fn trailing_bytes_are_left_unread() {
    let data = [0x03, 0x20, 0x81, 0xe0, 0xaa, 0xbb];
    let mut parser = Parser::new(Profile::Arm9, ParseMode::Arm, 0x2000, &data);
    assert!(parser.advance().is_some());
    assert_eq!(parser.advance(), None);
    assert_eq!(parser.address(), 0x2004);
    assert_eq!(parser.remaining(), &[0xaa, 0xbb]);
}

#[test]
fn thumb_instructions_take_two_bytes() {
    let data = [0xca, 0x1c, 0x42, 0xd0, 0x42, 0xbe];
    let mut parser = Parser::new(Profile::Arm9, ParseMode::Thumb, 0x0200_0000, &data);
    let first = parser.advance().unwrap();
    let second = parser.advance().unwrap();
    let third = parser.advance().unwrap();
    assert_eq!(
        first,
        unit_at(0x0200_0000, 2, Unit::Instruction(Instruction::new_thumb(Profile::Arm9, 0x1cca)))
    );
    assert_eq!(
        second,
        unit_at(0x0200_0002, 2, Unit::Instruction(Instruction::new_thumb(Profile::Arm9, 0xd042)))
    );
    assert_eq!(third.address, 0x0200_0004);
    assert_eq!(third.size, 2);
    assert_eq!(parser.advance(), None);
    assert_eq!(parser.address(), 0x0200_0006);
}

#[test]
fn a_long_thumb_branch_takes_four_bytes() {
    let data = [0x99, 0xf0, 0x66, 0xf8, 0xca, 0x1c];
    let mut parser = Parser::new(Profile::Arm9, ParseMode::Thumb, 0x100, &data);
    let branch = parser.advance().unwrap();
    assert_eq!(branch.address, 0x100);
    assert_eq!(branch.size, 4);
    assert_eq!(branch.unit, Unit::Instruction(Instruction::new_thumb(Profile::Arm9, 0xf866)));
    assert_eq!(branch.operands[0], Argument::BranchDest(0x990d0));
    assert_eq!(branch.operands[1..], [Argument::Absent; 5]);
    assert_eq!(parser.address(), 0x104);
    let next = parser.advance().unwrap();
    assert_eq!(next.address, 0x104);
    assert_eq!(next.size, 2);
    assert_eq!(next.unit, Unit::Instruction(Instruction::new_thumb(Profile::Arm9, 0x1cca)));
    assert_eq!(parser.advance(), None);
}

#[test]
fn half_a_long_thumb_branch_yields_nothing() {
    let data = [0x99, 0xf0];
    let mut parser = Parser::new(Profile::Arm9, ParseMode::Thumb, 0x100, &data);
    assert_eq!(Instruction::new_thumb(Profile::Arm9, 0xf099).opcode_id(), 19);
    assert_eq!(parser.advance(), None);
    assert_eq!(parser.address(), 0x100);
    assert_eq!(parser.remaining(), &data);
    let data = [0x99, 0xf0, 0x66];
    let mut parser = Parser::new(Profile::Arm9, ParseMode::Thumb, 0x100, &data);
    assert_eq!(parser.advance(), None);
    assert_eq!(parser.address(), 0x100);
}

#[test]
fn data_is_handed_out_in_words() {
    let data = [1, 2, 3, 4, 5, 6, 7, 8, 9];
    let mut parser = Parser::new(Profile::Arm7, ParseMode::Data, 0x1000, &data);
    assert_eq!(
        parser.advance(),
        Some(unit_at(0x1000, 4, Unit::Data(0x04030201)))
    );
    assert_eq!(
        parser.advance(),
        Some(unit_at(0x1004, 4, Unit::Data(0x08070605)))
    );
    assert_eq!(parser.advance(), None);
    assert_eq!(parser.remaining(), &[9]);
}

#[test]
fn data_begins_with_a_half_word_where_the_address_asks_for_it() {
    let data = [1, 2, 3, 4, 5, 6, 7, 8];
    let mut parser = Parser::new(Profile::Arm7, ParseMode::Data, 0x1002, &data);
    assert_eq!(
        parser.advance(),
        Some(unit_at(0x1002, 2, Unit::Data(0x0201)))
    );
    assert_eq!(
        parser.advance(),
        Some(unit_at(0x1004, 4, Unit::Data(0x06050403)))
    );
    assert_eq!(parser.advance(), None);
    assert_eq!(parser.address(), 0x1008);
    assert_eq!(parser.remaining(), &[7, 8]);
    let mut parser = Parser::new(Profile::Arm7, ParseMode::Data, 0x1003, &data);
    assert_eq!(parser.advance().unwrap().size, 2);
    let mut parser = Parser::new(Profile::Arm7, ParseMode::Data, 0x1001, &data);
    assert_eq!(parser.advance().unwrap().size, 4);
}

#[test]
fn addresses_follow_each_other_without_gap() {
    let data = [0x99, 0xf0, 0x66, 0xf8, 0xca, 0x1c, 0x42, 0xd0, 0x99, 0xf0, 0x66, 0xf8];
    let mut parser = Parser::new(Profile::Arm7, ParseMode::Thumb, 0x8000, &data);
    let mut expected = 0x8000;
    let mut read = 0;
    while let Some(fetched) = parser.advance() {
        assert_eq!(fetched.address, expected);
        expected += fetched.size;
        read += fetched.size as usize;
        assert_eq!(parser.address(), expected);
        assert_eq!(parser.remaining(), &data[read..]);
    }
    assert_eq!(read, data.len());
    assert_eq!(expected, 0x800c);
}

#[test]
fn the_cursor_stops_below_the_top_of_the_address_space() {
    let data = [0x03, 0x20, 0x81, 0xe0, 0x03, 0x20, 0x81, 0xe0];
    let mut parser = Parser::new(Profile::Arm9, ParseMode::Arm, 0xffff_fff8, &data);
    assert_eq!(parser.advance().unwrap().address, 0xffff_fff8);
    assert_eq!(parser.address(), 0xffff_fffc);
    assert_eq!(parser.advance(), None);
    assert_eq!(parser.address(), 0xffff_fffc);
    assert_eq!(parser.remaining().len(), 4);
    let mut parser = Parser::new(Profile::Arm9, ParseMode::Arm, 0xffff_fffb, &data);
    assert_eq!(parser.advance().unwrap().address, 0xffff_fffb);
    assert_eq!(parser.advance(), None);
}

#[test]
fn a_parser_hands_out_instructions_of_its_own_profile() {
    let data = [0x00, 0x00, 0x00, 0xfa];
    let mut newer = Parser::new(Profile::Arm9, ParseMode::Arm, 0, &data);
    let mut older = Parser::new(Profile::Arm7, ParseMode::Arm, 0, &data);
    match (newer.advance().unwrap().unit, older.advance().unwrap().unit) {
        (Unit::Instruction(a), Unit::Instruction(b)) => {
            assert_eq!(a.profile(), Profile::Arm9);
            assert_eq!(b.profile(), Profile::Arm7);
            assert_eq!(a.to_text(), "blx #0x8");
            assert_eq!(b.to_text(), "<illegal>");
        }
        _ => panic!("data in ARM mode"),
    }
}

#[test]
fn the_parser_steps_as_the_decoder_does() {
    let data: Vec<u8> = (0..64u32).map(|i| (i * 37 + 11) as u8).collect();
    let flags = unarm::ParseFlags { ual: false, version: unarm::ArmVersion::V5Te };
    for (mode, theirs) in [
        (ParseMode::Arm, unarm::ParseMode::Arm),
        (ParseMode::Thumb, unarm::ParseMode::Thumb),
        (ParseMode::Data, unarm::ParseMode::Data),
    ] {
        for start in [0x1000u32, 0x1002] {
            let mut parser = Parser::new(Profile::Arm9, mode, start, &data);
            let mut cursor =
                unarm::Parser::new(theirs, start, unarm::Endian::Little, flags, &data);
            loop {
                let ours = parser.advance();
                let item = cursor.next();
                assert_eq!(ours.is_some(), item.is_some());
                let (Some(fetched), Some((address, ins, parsed))) = (ours, item) else {
                    break;
                };
                assert_eq!(fetched.address, address);
                assert_eq!(parser.address(), cursor.address);
                assert_eq!(
                    format!("{:?}", fetched.operands),
                    format!("{:?}", parsed.args).replace("None", "Absent")
                );
                match fetched.unit {
                    Unit::Instruction(i) => {
                        assert_eq!(i.code(), ins.code());
                        assert_eq!(i.opcode_id(), ins.opcode_id());
                    }
                    Unit::Data(word) => {
                        assert_eq!(ins, unarm::Ins::Data);
                        assert_eq!(parsed.args[0], unarm::args::Argument::UImm(word));
                    }
                }
            }
        }
    }
}

#[test]
fn stepping_over_a_unit_moves_the_parser_to_its_end() {
    let data = [0x99, 0xf0, 0x66, 0xf8, 0xca, 0x1c];
    let mut parser = Parser::new(Profile::Arm7, ParseMode::Thumb, 0x100, &data);
    let fetched = parser.step_over(
        CursorStep { address: 0x100, end: 0x104, code: 0xf866 },
        vec![Argument::BranchDest(0x990d0)],
    );
    assert_eq!(fetched.address, 0x100);
    assert_eq!(fetched.size, 4);
    assert_eq!(fetched.unit, Unit::Instruction(Instruction::new_thumb(Profile::Arm7, 0xf866)));
    assert_eq!(fetched.operands, [Argument::BranchDest(0x990d0)]);
    assert_eq!(parser.address(), 0x104);
    assert_eq!(parser.remaining(), &[0xca, 0x1c]);
    assert_eq!(parser.mode(), ParseMode::Thumb);
    assert_eq!(parser.profile(), Profile::Arm7);
    let fetched =
        parser.step_over(CursorStep { address: 0x104, end: 0x106, code: 0x1cca }, Vec::new());
    assert_eq!(fetched.size, 2);
    assert!(parser.remaining().is_empty());
}

#[test]
fn stepping_over_data_hands_out_the_bytes_stepped_over() {
    let data = [0x0d, 0x0c, 0x0b, 0x0a, 0xff];
    let mut parser = Parser::new(Profile::Arm9, ParseMode::Data, 0x2002, &data);
    let fetched = parser.step_over(
        CursorStep { address: 0x2002, end: 0x2004, code: 0 },
        unit_at(0, 0, Unit::Data(0x0c0d)).operands,
    );
    assert_eq!(fetched, unit_at(0x2002, 2, Unit::Data(0x0c0d)));
    let mut parser = Parser::new(Profile::Arm9, ParseMode::Data, 0x2000, &data);
    let fetched = parser.step_over(
        CursorStep { address: 0x2000, end: 0x2004, code: 0 },
        unit_at(0, 0, Unit::Data(0x0a0b0c0d)).operands,
    );
    assert_eq!(fetched, unit_at(0x2000, 4, Unit::Data(0x0a0b0c0d)));
    assert_eq!(parser.remaining(), &[0xff]);
}

#[test]
fn a_half_word_is_read_up_to_the_top_of_the_address_space() {
    let data = [0xca, 0x1c, 0xca, 0x1c, 0xca, 0x1c];
    let mut parser = Parser::new(Profile::Arm9, ParseMode::Thumb, 0xffff_fffa, &data);
    assert_eq!(parser.advance().unwrap().address, 0xffff_fffa);
    assert_eq!(parser.advance().unwrap().address, 0xffff_fffc);
    assert_eq!(parser.address(), 0xffff_fffe);
    assert_eq!(parser.advance(), None);
    assert_eq!(parser.address(), 0xffff_fffe);
    assert_eq!(parser.remaining().len(), 2);
    let mut parser = Parser::new(Profile::Arm9, ParseMode::Data, 0xffff_fffa, &data);
    assert_eq!(parser.advance().unwrap().size, 2);
    assert_eq!(parser.address(), 0xffff_fffc);
    assert_eq!(parser.advance(), None);
    let branch = [0x99, 0xf0, 0x66, 0xf8];
    let mut parser = Parser::new(Profile::Arm9, ParseMode::Thumb, 0xffff_fffc, &branch);
    assert_eq!(parser.advance(), None);
    let mut parser = Parser::new(Profile::Arm9, ParseMode::Thumb, 0xffff_fffb, &branch);
    assert_eq!(parser.advance().unwrap().size, 4);
    assert_eq!(parser.address(), 0xffff_ffff);
}

#[test]
fn a_long_branch_back_has_a_negative_destination() {
    let data = [0x99, 0xf7, 0x66, 0xf8];
    let mut parser = Parser::new(Profile::Arm7, ParseMode::Thumb, 0x0800_0000, &data);
    let branch = parser.advance().unwrap();
    assert_eq!(branch.size, 4);
    assert_eq!(branch.operands[0], Argument::BranchDest(-0x66f30));
    assert_eq!(branch.operands.len(), 6);
}

#[test]
fn the_operands_of_a_step_are_those_of_its_instruction() {
    let data = [0xff, 0x2f, 0x31, 0xe5, 0xca, 0x1c];
    let mut parser = Parser::new(Profile::Arm9, ParseMode::Arm, 0, &data);
    let load = parser.advance().unwrap();
    assert_eq!(load.operands, Instruction::new_arm(Profile::Arm9, 0xe5312fff).operands());
    let mut parser = Parser::new(Profile::Arm7, ParseMode::Thumb, 0, &data[4..]);
    let add = parser.advance().unwrap();
    assert_eq!(add.operands, Instruction::new_thumb(Profile::Arm7, 0x1cca).operands());
    assert_eq!(add.operands[2], Argument::UImm(3));
}
