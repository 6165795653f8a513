//! Reading the operands out of what the decoder made of an instruction:
//! one place at a time, each kind by its own fields.

use vstd::prelude::*;
use crate::decoder::{
    branch_dest_at, co_opcode_at, co_option_at, co_reg_at, coproc_num_at, cpsr_flags_at,
    cpsr_mode_at, endian_at, offset_imm_at, offset_reg_at, parsed_operands, reg_at, reg_list_at,
    s_imm_at, sat_imm_at, shift_at, shift_imm_at, shift_reg_at, status_mask_at, status_reg_at,
    u_imm_at,
};
use crate::operand::{
    Argument, CoReg, CpsrFlags, CpsrMode, Endian, OffsetImm, OffsetReg, Reg, RegList, Register,
    Shift, ShiftImm, ShiftReg, StatusMask, StatusReg,
};

verus! {

/// Every code in an operand reads back as the value it is the code of.
proof fn lemma_codes_read_back(arg: Argument)
    ensures
        arg matches Argument::Reg(r) ==> Register::spec_from_code(r.reg.spec_code()) == r.reg,
        arg matches Argument::CoReg(c) ==> CoReg::spec_from_code(c.spec_code()) == c,
        arg matches Argument::StatusReg(s) ==> StatusReg::spec_from_code(s.spec_code()) == s,
        arg matches Argument::StatusMask(m) ==> StatusReg::spec_from_code(m.reg.spec_code())
            == m.reg,
        arg matches Argument::Shift(s) ==> Shift::spec_from_code(s.spec_code()) == s,
        arg matches Argument::ShiftImm(s) ==> Shift::spec_from_code(s.op.spec_code()) == s.op,
        arg matches Argument::ShiftReg(s) ==> Shift::spec_from_code(s.op.spec_code()) == s.op
            && Register::spec_from_code(s.reg.spec_code()) == s.reg,
        arg matches Argument::OffsetReg(o) ==> Register::spec_from_code(o.reg.spec_code())
            == o.reg,
        arg matches Argument::Endian(e) ==> Endian::spec_from_code(e.spec_code()) == e,
{
    match arg {
        Argument::Reg(r) => r.reg.lemma_code_round_trip(),
        Argument::CoReg(c) => c.lemma_code_round_trip(),
        Argument::StatusReg(s) => s.lemma_code_round_trip(),
        Argument::StatusMask(m) => m.reg.lemma_code_round_trip(),
        Argument::Shift(s) => s.lemma_code_round_trip(),
        Argument::ShiftImm(s) => s.op.lemma_code_round_trip(),
        Argument::ShiftReg(s) => {
            s.op.lemma_code_round_trip();
            s.reg.lemma_code_round_trip();
        },
        Argument::OffsetReg(o) => o.reg.lemma_code_round_trip(),
        Argument::Endian(e) => e.lemma_code_round_trip(),
        _ => {},
    }
}

/// The operand at a place of a decoded instruction.
pub(crate) fn operand_at(parsed: &unarm::ParsedIns, place: usize) -> (arg: Argument)
    requires
        place < parsed_operands(*parsed).len(),
    ensures
        arg == parsed_operands(*parsed)[place as int],
{
    proof {
        lemma_codes_read_back(parsed_operands(*parsed)[place as int]);
    }
    match reg_at(parsed, place) {
        Some((deref, reg, writeback)) => {
            return Argument::Reg(Reg { deref, reg: Register::from_code(reg), writeback });
        },
        None => {},
    }
    match reg_list_at(parsed, place) {
        Some((regs, user_mode)) => {
            return Argument::RegList(RegList { regs, user_mode });
        },
        None => {},
    }
    match co_reg_at(parsed, place) {
        Some(code) => {
            return Argument::CoReg(CoReg::from_code(code));
        },
        None => {},
    }
    match status_reg_at(parsed, place) {
        Some(code) => {
            return Argument::StatusReg(StatusReg::from_code(code));
        },
        None => {},
    }
    match status_mask_at(parsed, place) {
        Some((control, extension, flags, reg, status)) => {
            return Argument::StatusMask(
                StatusMask { control, extension, flags, reg: StatusReg::from_code(reg), status },
            );
        },
        None => {},
    }
    match shift_at(parsed, place) {
        Some(code) => {
            return Argument::Shift(Shift::from_code(code));
        },
        None => {},
    }
    match shift_imm_at(parsed, place) {
        Some((imm, op)) => {
            return Argument::ShiftImm(ShiftImm { imm, op: Shift::from_code(op) });
        },
        None => {},
    }
    match shift_reg_at(parsed, place) {
        Some((op, reg)) => {
            return Argument::ShiftReg(
                ShiftReg { op: Shift::from_code(op), reg: Register::from_code(reg) },
            );
        },
        None => {},
    }
    match u_imm_at(parsed, place) {
        Some(value) => {
            return Argument::UImm(value);
        },
        None => {},
    }
    match sat_imm_at(parsed, place) {
        Some(value) => {
            return Argument::SatImm(value);
        },
        None => {},
    }
    match s_imm_at(parsed, place) {
        Some(value) => {
            return Argument::SImm(value);
        },
        None => {},
    }
    match offset_imm_at(parsed, place) {
        Some((post_indexed, value)) => {
            return Argument::OffsetImm(OffsetImm { post_indexed, value });
        },
        None => {},
    }
    match offset_reg_at(parsed, place) {
        Some((add, post_indexed, reg)) => {
            return Argument::OffsetReg(
                OffsetReg { add, post_indexed, reg: Register::from_code(reg) },
            );
        },
        None => {},
    }
    match branch_dest_at(parsed, place) {
        Some(displacement) => {
            return Argument::BranchDest(displacement);
        },
        None => {},
    }
    match co_option_at(parsed, place) {
        Some(value) => {
            return Argument::CoOption(value);
        },
        None => {},
    }
    match co_opcode_at(parsed, place) {
        Some(value) => {
            return Argument::CoOpcode(value);
        },
        None => {},
    }
    match coproc_num_at(parsed, place) {
        Some(value) => {
            return Argument::CoprocNum(value);
        },
        None => {},
    }
    match cpsr_mode_at(parsed, place) {
        Some((mode, writeback)) => {
            return Argument::CpsrMode(CpsrMode { mode, writeback });
        },
        None => {},
    }
    match cpsr_flags_at(parsed, place) {
        Some((a, enable, f, i)) => {
            return Argument::CpsrFlags(CpsrFlags { a, enable, f, i });
        },
        None => {},
    }
    match endian_at(parsed, place) {
        Some(code) => {
            return Argument::Endian(Endian::from_code(code));
        },
        None => {},
    }
    Argument::Absent
}

/// The operands of a decoded instruction, one for each place and in the
/// decoder's order.
pub(crate) fn operands_of_parsed(parsed: &unarm::ParsedIns, places: usize) -> (operands: Vec<
    Argument,
>)
    requires
        places == parsed_operands(*parsed).len(),
    ensures
        operands@ == parsed_operands(*parsed),
{
    let mut operands: Vec<Argument> = Vec::new();
    let mut place: usize = 0;
    while place < places
        invariant
            0 <= place <= places,
            places == parsed_operands(*parsed).len(),
            operands@ == parsed_operands(*parsed).take(place as int),
        decreases places - place,
    {
        operands.push(operand_at(parsed, place));
        place += 1;
        assert(operands@ =~= parsed_operands(*parsed).take(place as int));
    }
    assert(parsed_operands(*parsed).take(places as int) =~= parsed_operands(*parsed));
    operands
}

} // verus!
