//! The calls into the `unarm` decoder. No function in this file is proved:
//! each states what the decoder's source shows of the call it makes.
//!
//! The decoder finds an opcode by searching fixed tables with the code and
//! the flags, and everything it reports of an instruction follows from the
//! code, the opcode and the flags. So what it reports is a function of the
//! code and the flags, and the text it writes with symbols a function of
//! those, the table's entries, the program counter and the load offset.
//! Each has a name under which contracts speak of it.
//!
//! The decoder hands its operands out as an enum of its own. The functions
//! ending in `_at` read one kind of operand each, field by field.

use vstd::prelude::*;
use crate::operand::Argument;
use crate::parser::ParseMode;
use crate::profile::{ArmVersion, ParseFlags};
use crate::symbols::SymbolSlice;
use crate::target::{misses, sums_fit};
use crate::value::{bytes_half_word, bytes_word};

verus! {

/// Number of the opcode that `unarm::arm::Ins::new` finds.
pub uninterp spec fn arm_opcode(code: u32, flags: ParseFlags) -> u16;

/// Number of the opcode that `unarm::thumb::Ins::new` finds.
pub uninterp spec fn thumb_opcode(code: u32, flags: ParseFlags) -> u16;

/// What `unarm::arm::Ins::is_conditional` reports.
pub uninterp spec fn arm_conditional(code: u32, flags: ParseFlags) -> bool;

/// What `unarm::thumb::Ins::is_conditional` reports.
pub uninterp spec fn thumb_conditional(code: u32, flags: ParseFlags) -> bool;

/// What `unarm::arm::Ins::updates_condition_flags` reports.
pub uninterp spec fn arm_updates_flags(code: u32, flags: ParseFlags) -> bool;

/// What `unarm::thumb::Ins::updates_condition_flags` reports.
pub uninterp spec fn thumb_updates_flags(code: u32, flags: ParseFlags) -> bool;

/// The text that `unarm::ParsedIns::display` writes for an ARM instruction.
pub uninterp spec fn arm_text(code: u32, flags: ParseFlags) -> Seq<char>;

/// The text that `unarm::ParsedIns::display` writes for a Thumb instruction.
pub uninterp spec fn thumb_text(code: u32, flags: ParseFlags) -> Seq<char>;

/// The text that `unarm::ParsedIns::display_with_symbols` writes for an ARM
/// instruction, given the entries of the symbol table, the program counter
/// and the offset of loads that are relative to it.
pub uninterp spec fn arm_symbol_text(
    code: u32,
    flags: ParseFlags,
    table: Seq<(Seq<u8>, u32)>,
    pc: u32,
    pc_load_offset: i32,
) -> Seq<char>;

/// The text that `unarm::ParsedIns::display_with_symbols` writes for a
/// Thumb instruction.
pub uninterp spec fn thumb_symbol_text(
    code: u32,
    flags: ParseFlags,
    table: Seq<(Seq<u8>, u32)>,
    pc: u32,
    pc_load_offset: i32,
) -> Seq<char>;

/// The operands that `unarm::arm::Ins::parse` reports, each as the
/// library's operand of the same kind with the same fields.
pub uninterp spec fn arm_operands(code: u32, flags: ParseFlags) -> Seq<Argument>;

/// The operands that `unarm::thumb::Ins::parse` reports.
pub uninterp spec fn thumb_operands(code: u32, flags: ParseFlags) -> Seq<Argument>;

/// Number of operand places that the decoder reports for every instruction.
pub const OPERAND_PLACES: usize = 6;

/// Number of the opcode that the decoder finds for bits that encode no
/// instruction, in either instruction set.
pub const ILLEGAL_OPCODE: u16 = 0;

/// Number of the Thumb opcode that is the first half of a long branch with
/// link. The decoder's cursor reads the next half-word along with it.
pub const THUMB_BL_HIGH: u16 = 19;

/// The text that the decoder writes for the illegal opcode.
pub open spec fn illegal_text() -> Seq<char> {
    "<illegal>"@
}

/// Calls `unarm::arm::Ins::new` and reads the opcode it found.
#[verifier::external_body]
pub(crate) fn arm_opcode_id(code: u32, flags: ParseFlags) -> (id: u16)
    ensures
        id == arm_opcode(code, flags),
{
    let version = match flags.version {
        ArmVersion::V4T => unarm::ArmVersion::V4T,
        ArmVersion::V5Te => unarm::ArmVersion::V5Te,
        ArmVersion::V6K => unarm::ArmVersion::V6K,
    };
    unarm::arm::Ins::new(code, &unarm::ParseFlags { ual: flags.ual, version }).op as u16
}

/// Calls `unarm::thumb::Ins::new` and reads the opcode it found.
#[verifier::external_body]
pub(crate) fn thumb_opcode_id(code: u32, flags: ParseFlags) -> (id: u16)
    ensures
        id == thumb_opcode(code, flags),
{
    let version = match flags.version {
        ArmVersion::V4T => unarm::ArmVersion::V4T,
        ArmVersion::V5Te => unarm::ArmVersion::V5Te,
        ArmVersion::V6K => unarm::ArmVersion::V6K,
    };
    unarm::thumb::Ins::new(code, &unarm::ParseFlags { ual: flags.ual, version }).op as u16
}

/// Calls `unarm::arm::Ins::is_conditional` on the instruction that
/// `unarm::arm::Ins::new` makes of the code.
#[verifier::external_body]
pub(crate) fn arm_is_conditional(code: u32, flags: ParseFlags) -> (conditional: bool)
    ensures
        conditional == arm_conditional(code, flags),
{
    let version = match flags.version {
        ArmVersion::V4T => unarm::ArmVersion::V4T,
        ArmVersion::V5Te => unarm::ArmVersion::V5Te,
        ArmVersion::V6K => unarm::ArmVersion::V6K,
    };
    unarm::arm::Ins::new(code, &unarm::ParseFlags { ual: flags.ual, version }).is_conditional()
}

/// Calls `unarm::thumb::Ins::is_conditional` on the instruction that
/// `unarm::thumb::Ins::new` makes of the code.
#[verifier::external_body]
pub(crate) fn thumb_is_conditional(code: u32, flags: ParseFlags) -> (conditional: bool)
    ensures
        conditional == thumb_conditional(code, flags),
{
    let version = match flags.version {
        ArmVersion::V4T => unarm::ArmVersion::V4T,
        ArmVersion::V5Te => unarm::ArmVersion::V5Te,
        ArmVersion::V6K => unarm::ArmVersion::V6K,
    };
    unarm::thumb::Ins::new(code, &unarm::ParseFlags { ual: flags.ual, version }).is_conditional()
}

/// Calls `unarm::arm::Ins::updates_condition_flags` on the instruction that
/// `unarm::arm::Ins::new` makes of the code.
#[verifier::external_body]
pub(crate) fn arm_updates_condition_flags(code: u32, flags: ParseFlags) -> (updates: bool)
    ensures
        updates == arm_updates_flags(code, flags),
{
    let version = match flags.version {
        ArmVersion::V4T => unarm::ArmVersion::V4T,
        ArmVersion::V5Te => unarm::ArmVersion::V5Te,
        ArmVersion::V6K => unarm::ArmVersion::V6K,
    };
    let flags = unarm::ParseFlags { ual: flags.ual, version };
    unarm::arm::Ins::new(code, &flags).updates_condition_flags()
}

/// Calls `unarm::thumb::Ins::updates_condition_flags` on the instruction
/// that `unarm::thumb::Ins::new` makes of the code.
#[verifier::external_body]
pub(crate) fn thumb_updates_condition_flags(code: u32, flags: ParseFlags) -> (updates: bool)
    ensures
        updates == thumb_updates_flags(code, flags),
{
    let version = match flags.version {
        ArmVersion::V4T => unarm::ArmVersion::V4T,
        ArmVersion::V5Te => unarm::ArmVersion::V5Te,
        ArmVersion::V6K => unarm::ArmVersion::V6K,
    };
    let flags = unarm::ParseFlags { ual: flags.ual, version };
    unarm::thumb::Ins::new(code, &flags).updates_condition_flags()
}

/// Decodes the code with `unarm::arm::Ins::new` and `parse`, and writes the
/// result with `unarm::ParsedIns::display` under the default options. For
/// the illegal opcode `parse` gives the mnemonic `<illegal>` and no
/// operands, so that is the whole text.
#[verifier::external_body]
pub(crate) fn arm_render(code: u32, flags: ParseFlags) -> (text: String)
    ensures
        text@ == arm_text(code, flags),
        arm_opcode(code, flags) == ILLEGAL_OPCODE ==> text@ == illegal_text(),
{
    let version = match flags.version {
        ArmVersion::V4T => unarm::ArmVersion::V4T,
        ArmVersion::V5Te => unarm::ArmVersion::V5Te,
        ArmVersion::V6K => unarm::ArmVersion::V6K,
    };
    let flags = unarm::ParseFlags { ual: flags.ual, version };
    let parsed = unarm::arm::Ins::new(code, &flags).parse(&flags);
    parsed.display(Default::default()).to_string()
}

/// Decodes the code with `unarm::thumb::Ins::new` and `parse`, and writes
/// the result with `unarm::ParsedIns::display` under the default options.
/// For the illegal opcode `parse` gives the mnemonic `<illegal>` and no
/// operands, so that is the whole text.
#[verifier::external_body]
pub(crate) fn thumb_render(code: u32, flags: ParseFlags) -> (text: String)
    ensures
        text@ == thumb_text(code, flags),
        thumb_opcode(code, flags) == ILLEGAL_OPCODE ==> text@ == illegal_text(),
{
    let version = match flags.version {
        ArmVersion::V4T => unarm::ArmVersion::V4T,
        ArmVersion::V5Te => unarm::ArmVersion::V5Te,
        ArmVersion::V6K => unarm::ArmVersion::V6K,
    };
    let flags = unarm::ParseFlags { ual: flags.ual, version };
    let parsed = unarm::thumb::Ins::new(code, &flags).parse(&flags);
    parsed.display(Default::default()).to_string()
}

/// What the decoder makes of an instruction. Nothing is read from it but
/// through the functions below.
#[verifier::external_type_specification]
#[verifier::external_body]
pub struct ExParsedIns(unarm::ParsedIns);

/// The operands that a decoded instruction holds in its field `args`, each
/// as the library's operand of the same kind with the same fields. A
/// register, a shift operation and a byte order stand in the decoder as
/// enums whose values are the codes that the library gives them.
pub uninterp spec fn parsed_operands(parsed: unarm::ParsedIns) -> Seq<Argument>;

/// Decodes the code with `unarm::arm::Ins::new` and `parse`. The decoder
/// reports six places for every instruction and fills those it does not
/// use with its empty operand.
#[verifier::external_body]
pub(crate) fn arm_parse(code: u32, flags: ParseFlags) -> (parsed: unarm::ParsedIns)
    ensures
        parsed_operands(parsed) == arm_operands(code, flags),
        parsed_operands(parsed).len() == OPERAND_PLACES,
{
    let version = match flags.version {
        ArmVersion::V4T => unarm::ArmVersion::V4T,
        ArmVersion::V5Te => unarm::ArmVersion::V5Te,
        ArmVersion::V6K => unarm::ArmVersion::V6K,
    };
    let flags = unarm::ParseFlags { ual: flags.ual, version };
    unarm::arm::Ins::new(code, &flags).parse(&flags)
}

/// Decodes the code with `unarm::thumb::Ins::new` and `parse`, as for an
/// ARM instruction.
#[verifier::external_body]
pub(crate) fn thumb_parse(code: u32, flags: ParseFlags) -> (parsed: unarm::ParsedIns)
    ensures
        parsed_operands(parsed) == thumb_operands(code, flags),
        parsed_operands(parsed).len() == OPERAND_PLACES,
{
    let version = match flags.version {
        ArmVersion::V4T => unarm::ArmVersion::V4T,
        ArmVersion::V5Te => unarm::ArmVersion::V5Te,
        ArmVersion::V6K => unarm::ArmVersion::V6K,
    };
    let flags = unarm::ParseFlags { ual: flags.ual, version };
    unarm::thumb::Ins::new(code, &flags).parse(&flags)
}

/// The fields of the register operand at a place, the register by its
/// code; nothing where the operand there is of another kind.
#[verifier::external_body]
pub(crate) fn reg_at(parsed: &unarm::ParsedIns, place: usize) -> (parts: Option<(bool, u8, bool)>)
    requires
        place < parsed_operands(*parsed).len(),
    ensures
        parts == match parsed_operands(*parsed)[place as int] {
            Argument::Reg(r) => Some((r.deref, r.reg.spec_code(), r.writeback)),
            _ => None,
        },
{
    match parsed.args[place] {
        unarm::args::Argument::Reg(r) => Some((r.deref, r.reg as u8, r.writeback)),
        _ => None,
    }
}

/// The fields of the register list at a place; nothing where the operand
/// there is of another kind.
#[verifier::external_body]
pub(crate) fn reg_list_at(parsed: &unarm::ParsedIns, place: usize) -> (parts: Option<(u32, bool)>)
    requires
        place < parsed_operands(*parsed).len(),
    ensures
        parts == match parsed_operands(*parsed)[place as int] {
            Argument::RegList(l) => Some((l.regs, l.user_mode)),
            _ => None,
        },
{
    match parsed.args[place] {
        unarm::args::Argument::RegList(l) => Some((l.regs, l.user_mode)),
        _ => None,
    }
}

/// The code of the coprocessor register at a place; nothing where the operand
/// there is of another kind.
#[verifier::external_body]
pub(crate) fn co_reg_at(parsed: &unarm::ParsedIns, place: usize) -> (parts: Option<u8>)
    requires
        place < parsed_operands(*parsed).len(),
    ensures
        parts == match parsed_operands(*parsed)[place as int] {
            Argument::CoReg(c) => Some(c.spec_code()),
            _ => None,
        },
{
    match parsed.args[place] {
        unarm::args::Argument::CoReg(c) => Some(c as u8),
        _ => None,
    }
}

/// The code of the status register at a place; nothing where the operand
/// there is of another kind.
#[verifier::external_body]
pub(crate) fn status_reg_at(parsed: &unarm::ParsedIns, place: usize) -> (parts: Option<u8>)
    requires
        place < parsed_operands(*parsed).len(),
    ensures
        parts == match parsed_operands(*parsed)[place as int] {
            Argument::StatusReg(s) => Some(s.spec_code()),
            _ => None,
        },
{
    match parsed.args[place] {
        unarm::args::Argument::StatusReg(s) => Some(s as u8),
        _ => None,
    }
}

/// The fields of the status-field mask at a place, the status register by its
/// code; nothing where the operand
/// there is of another kind.
#[verifier::external_body]
pub(crate) fn status_mask_at(parsed: &unarm::ParsedIns, place: usize) -> (parts: Option<
    (bool, bool, bool, u8, bool),
>)
    requires
        place < parsed_operands(*parsed).len(),
    ensures
        parts == match parsed_operands(*parsed)[place as int] {
            Argument::StatusMask(m) => Some(
                (m.control, m.extension, m.flags, m.reg.spec_code(), m.status),
            ),
            _ => None,
        },
{
    match parsed.args[place] {
        unarm::args::Argument::StatusMask(m) => {
            Some((m.control, m.extension, m.flags, m.reg as u8, m.status))
        },
        _ => None,
    }
}

/// The code of the shift operation at a place; nothing where the operand
/// there is of another kind.
#[verifier::external_body]
pub(crate) fn shift_at(parsed: &unarm::ParsedIns, place: usize) -> (parts: Option<u8>)
    requires
        place < parsed_operands(*parsed).len(),
    ensures
        parts == match parsed_operands(*parsed)[place as int] {
            Argument::Shift(s) => Some(s.spec_code()),
            _ => None,
        },
{
    match parsed.args[place] {
        unarm::args::Argument::Shift(s) => Some(s as u8),
        _ => None,
    }
}

/// The fields of the shift by an immediate at a place, the operation by its
/// code; nothing where the operand
/// there is of another kind.
#[verifier::external_body]
pub(crate) fn shift_imm_at(parsed: &unarm::ParsedIns, place: usize) -> (parts: Option<(u32, u8)>)
    requires
        place < parsed_operands(*parsed).len(),
    ensures
        parts == match parsed_operands(*parsed)[place as int] {
            Argument::ShiftImm(s) => Some((s.imm, s.op.spec_code())),
            _ => None,
        },
{
    match parsed.args[place] {
        unarm::args::Argument::ShiftImm(s) => Some((s.imm, s.op as u8)),
        _ => None,
    }
}

/// The fields of the shift by a register at a place, both by their codes; nothing where the operand
/// there is of another kind.
#[verifier::external_body]
pub(crate) fn shift_reg_at(parsed: &unarm::ParsedIns, place: usize) -> (parts: Option<(u8, u8)>)
    requires
        place < parsed_operands(*parsed).len(),
    ensures
        parts == match parsed_operands(*parsed)[place as int] {
            Argument::ShiftReg(s) => Some((s.op.spec_code(), s.reg.spec_code())),
            _ => None,
        },
{
    match parsed.args[place] {
        unarm::args::Argument::ShiftReg(s) => Some((s.op as u8, s.reg as u8)),
        _ => None,
    }
}

/// The unsigned immediate at a place; nothing where the operand
/// there is of another kind.
#[verifier::external_body]
pub(crate) fn u_imm_at(parsed: &unarm::ParsedIns, place: usize) -> (parts: Option<u32>)
    requires
        place < parsed_operands(*parsed).len(),
    ensures
        parts == match parsed_operands(*parsed)[place as int] {
            Argument::UImm(u) => Some(u),
            _ => None,
        },
{
    match parsed.args[place] {
        unarm::args::Argument::UImm(u) => Some(u),
        _ => None,
    }
}

/// The saturating immediate at a place; nothing where the operand
/// there is of another kind.
#[verifier::external_body]
pub(crate) fn sat_imm_at(parsed: &unarm::ParsedIns, place: usize) -> (parts: Option<u32>)
    requires
        place < parsed_operands(*parsed).len(),
    ensures
        parts == match parsed_operands(*parsed)[place as int] {
            Argument::SatImm(u) => Some(u),
            _ => None,
        },
{
    match parsed.args[place] {
        unarm::args::Argument::SatImm(u) => Some(u),
        _ => None,
    }
}

/// The signed immediate at a place; nothing where the operand
/// there is of another kind.
#[verifier::external_body]
pub(crate) fn s_imm_at(parsed: &unarm::ParsedIns, place: usize) -> (parts: Option<i32>)
    requires
        place < parsed_operands(*parsed).len(),
    ensures
        parts == match parsed_operands(*parsed)[place as int] {
            Argument::SImm(i) => Some(i),
            _ => None,
        },
{
    match parsed.args[place] {
        unarm::args::Argument::SImm(i) => Some(i),
        _ => None,
    }
}

/// The fields of the immediate offset at a place; nothing where the operand
/// there is of another kind.
#[verifier::external_body]
pub(crate) fn offset_imm_at(parsed: &unarm::ParsedIns, place: usize) -> (parts: Option<(bool, i32)>)
    requires
        place < parsed_operands(*parsed).len(),
    ensures
        parts == match parsed_operands(*parsed)[place as int] {
            Argument::OffsetImm(o) => Some((o.post_indexed, o.value)),
            _ => None,
        },
{
    match parsed.args[place] {
        unarm::args::Argument::OffsetImm(o) => Some((o.post_indexed, o.value)),
        _ => None,
    }
}

/// The fields of the register offset at a place, the register by its
/// code; nothing where the operand there is of another kind.
#[verifier::external_body]
pub(crate) fn offset_reg_at(parsed: &unarm::ParsedIns, place: usize) -> (parts: Option<
    (bool, bool, u8),
>)
    requires
        place < parsed_operands(*parsed).len(),
    ensures
        parts == match parsed_operands(*parsed)[place as int] {
            Argument::OffsetReg(o) => Some((o.add, o.post_indexed, o.reg.spec_code())),
            _ => None,
        },
{
    match parsed.args[place] {
        unarm::args::Argument::OffsetReg(o) => Some((o.add, o.post_indexed, o.reg as u8)),
        _ => None,
    }
}

/// The displacement of the branch destination at a place; nothing where the operand
/// there is of another kind.
#[verifier::external_body]
pub(crate) fn branch_dest_at(parsed: &unarm::ParsedIns, place: usize) -> (parts: Option<i32>)
    requires
        place < parsed_operands(*parsed).len(),
    ensures
        parts == match parsed_operands(*parsed)[place as int] {
            Argument::BranchDest(d) => Some(d),
            _ => None,
        },
{
    match parsed.args[place] {
        unarm::args::Argument::BranchDest(d) => Some(d),
        _ => None,
    }
}

/// The coprocessor option at a place; nothing where the operand
/// there is of another kind.
#[verifier::external_body]
pub(crate) fn co_option_at(parsed: &unarm::ParsedIns, place: usize) -> (parts: Option<u32>)
    requires
        place < parsed_operands(*parsed).len(),
    ensures
        parts == match parsed_operands(*parsed)[place as int] {
            Argument::CoOption(c) => Some(c),
            _ => None,
        },
{
    match parsed.args[place] {
        unarm::args::Argument::CoOption(c) => Some(c),
        _ => None,
    }
}

/// The coprocessor opcode at a place; nothing where the operand
/// there is of another kind.
#[verifier::external_body]
pub(crate) fn co_opcode_at(parsed: &unarm::ParsedIns, place: usize) -> (parts: Option<u32>)
    requires
        place < parsed_operands(*parsed).len(),
    ensures
        parts == match parsed_operands(*parsed)[place as int] {
            Argument::CoOpcode(c) => Some(c),
            _ => None,
        },
{
    match parsed.args[place] {
        unarm::args::Argument::CoOpcode(c) => Some(c),
        _ => None,
    }
}

/// The coprocessor number at a place; nothing where the operand
/// there is of another kind.
#[verifier::external_body]
pub(crate) fn coproc_num_at(parsed: &unarm::ParsedIns, place: usize) -> (parts: Option<u32>)
    requires
        place < parsed_operands(*parsed).len(),
    ensures
        parts == match parsed_operands(*parsed)[place as int] {
            Argument::CoprocNum(c) => Some(c),
            _ => None,
        },
{
    match parsed.args[place] {
        unarm::args::Argument::CoprocNum(c) => Some(c),
        _ => None,
    }
}

/// The fields of the mode switch at a place; nothing where the operand
/// there is of another kind.
#[verifier::external_body]
pub(crate) fn cpsr_mode_at(parsed: &unarm::ParsedIns, place: usize) -> (parts: Option<(u32, bool)>)
    requires
        place < parsed_operands(*parsed).len(),
    ensures
        parts == match parsed_operands(*parsed)[place as int] {
            Argument::CpsrMode(m) => Some((m.mode, m.writeback)),
            _ => None,
        },
{
    match parsed.args[place] {
        unarm::args::Argument::CpsrMode(m) => Some((m.mode, m.writeback)),
        _ => None,
    }
}

/// The fields of the interrupt flags at a place; nothing where the operand
/// there is of another kind.
#[verifier::external_body]
pub(crate) fn cpsr_flags_at(parsed: &unarm::ParsedIns, place: usize) -> (parts: Option<
    (bool, bool, bool, bool),
>)
    requires
        place < parsed_operands(*parsed).len(),
    ensures
        parts == match parsed_operands(*parsed)[place as int] {
            Argument::CpsrFlags(f) => Some((f.a, f.enable, f.f, f.i)),
            _ => None,
        },
{
    match parsed.args[place] {
        unarm::args::Argument::CpsrFlags(f) => Some((f.a, f.enable, f.f, f.i)),
        _ => None,
    }
}

/// The code of the byte order at a place; nothing where the operand
/// there is of another kind.
#[verifier::external_body]
pub(crate) fn endian_at(parsed: &unarm::ParsedIns, place: usize) -> (parts: Option<u8>)
    requires
        place < parsed_operands(*parsed).len(),
    ensures
        parts == match parsed_operands(*parsed)[place as int] {
            Argument::Endian(e) => Some(e.spec_code()),
            _ => None,
        },
{
    match parsed.args[place] {
        unarm::args::Argument::Endian(e) => Some(e as u8),
        _ => None,
    }
}

/// Decodes the code with `unarm::arm::Ins::new` and `parse`, and writes the
/// result with `unarm::ParsedIns::display_with_symbols` under the default
/// options. The renderer asks the table for each address that the
/// operands refer to and writes the name it gets in place of the number;
/// where it gets none it writes what `display` writes. It works the
/// addresses out as the module `target` says, and its sums must fit.
#[verifier::external_body]
pub(crate) fn arm_render_with_symbols(
    code: u32,
    flags: ParseFlags,
    table: &SymbolSlice,
    pc: u32,
    pc_load_offset: i32,
) -> (text: String)
    requires
        sums_fit(arm_operands(code, flags), pc, pc_load_offset),
    ensures
        text@ == arm_symbol_text(code, flags, table@, pc, pc_load_offset),
        misses(table@, arm_operands(code, flags), pc, pc_load_offset) ==> text@ == arm_text(
            code,
            flags,
        ),
{
    let version = match flags.version {
        ArmVersion::V4T => unarm::ArmVersion::V4T,
        ArmVersion::V5Te => unarm::ArmVersion::V5Te,
        ArmVersion::V6K => unarm::ArmVersion::V6K,
    };
    let flags = unarm::ParseFlags { ual: flags.ual, version };
    let parsed = unarm::arm::Ins::new(code, &flags).parse(&flags);
    let symbols = unarm::Symbols { lookup: table, program_counter: pc, pc_load_offset };
    parsed.display_with_symbols(Default::default(), symbols).to_string()
}

/// Decodes the code with `unarm::thumb::Ins::new` and `parse`, and writes
/// the result with `unarm::ParsedIns::display_with_symbols` under the
/// default options, as for an ARM instruction.
#[verifier::external_body]
pub(crate) fn thumb_render_with_symbols(
    code: u32,
    flags: ParseFlags,
    table: &SymbolSlice,
    pc: u32,
    pc_load_offset: i32,
) -> (text: String)
    requires
        sums_fit(thumb_operands(code, flags), pc, pc_load_offset),
    ensures
        text@ == thumb_symbol_text(code, flags, table@, pc, pc_load_offset),
        misses(table@, thumb_operands(code, flags), pc, pc_load_offset) ==> text@ == thumb_text(
            code,
            flags,
        ),
{
    let version = match flags.version {
        ArmVersion::V4T => unarm::ArmVersion::V4T,
        ArmVersion::V5Te => unarm::ArmVersion::V5Te,
        ArmVersion::V6K => unarm::ArmVersion::V6K,
    };
    let flags = unarm::ParseFlags { ual: flags.ual, version };
    let parsed = unarm::thumb::Ins::new(code, &flags).parse(&flags);
    let symbols = unarm::Symbols { lookup: table, program_counter: pc, pc_load_offset };
    parsed.display_with_symbols(Default::default(), symbols).to_string()
}

/// One step of the decoder's cursor: where the unit it read begins, where
/// the next one begins, and the bits of the instruction that the cursor
/// reports, which are 0 for data.
#[derive(Clone, Copy, Debug, PartialEq, Eq, Structural)]
pub struct CursorStep {
    pub address: u32,
    pub end: u32,
    pub code: u32,
}

/// Number of bytes that the cursor reads at once: four in ARM mode, two in
/// Thumb mode; in data mode four, or two where bit 1 of the address is set.
pub open spec fn unit_size(mode: ParseMode, address: u32) -> int {
    match mode {
        ParseMode::Arm => 4,
        ParseMode::Thumb => 2,
        ParseMode::Data => if address % 4 >= 2 {
            2
        } else {
            4
        },
    }
}

/// What `unarm::Parser::next` yields on a little-endian buffer that holds
/// `data` and begins at `address`: nothing if the buffer is shorter than
/// the unit to read; else the unit at `address`. In Thumb mode, where the
/// first half-word decodes as the first half of a long branch with link,
/// the cursor reads the second half-word too, reports that one, and yields
/// nothing if it is missing.
pub open spec fn cursor_step(mode: ParseMode, address: u32, flags: ParseFlags, data: Seq<u8>)
    -> Option<CursorStep> {
    if data.len() < unit_size(mode, address) {
        None
    } else {
        match mode {
            ParseMode::Arm => Some(
                CursorStep { address, end: (address + 4) as u32, code: bytes_word(data, 0) },
            ),
            ParseMode::Thumb => {
                let first = bytes_half_word(data, 0);
                if thumb_opcode(first, flags) != THUMB_BL_HIGH {
                    Some(CursorStep { address, end: (address + 2) as u32, code: first })
                } else if data.len() < 4 {
                    None
                } else {
                    Some(
                        CursorStep {
                            address,
                            end: (address + 4) as u32,
                            code: bytes_half_word(data, 2),
                        },
                    )
                }
            },
            ParseMode::Data => Some(
                CursorStep { address, end: (address + unit_size(mode, address)) as u32, code: 0 },
            ),
        }
    }
}

/// The operands that `unarm::ParsedIns::combine_thumb_bl` gives to a long
/// Thumb branch with link, made of the two half-words that the cursor read.
pub uninterp spec fn thumb_long_operands(
    first: u32,
    second: u32,
    flags: ParseFlags,
) -> Seq<Argument>;

/// The operands that the cursor reports for data: the data as an unsigned
/// immediate, and five absent places.
pub open spec fn data_operands(word: u32) -> Seq<Argument> {
    seq![
        Argument::UImm(word),
        Argument::Absent,
        Argument::Absent,
        Argument::Absent,
        Argument::Absent,
        Argument::Absent,
    ]
}

/// The operands that `unarm::Parser::next` reports with the unit it yields:
/// those of the instruction it decoded; for a long Thumb branch those of
/// the two halves together; for data the data itself.
pub open spec fn cursor_operands(mode: ParseMode, address: u32, flags: ParseFlags, data: Seq<u8>)
    -> Seq<Argument> {
    match mode {
        ParseMode::Arm => arm_operands(bytes_word(data, 0), flags),
        ParseMode::Thumb => {
            let first = bytes_half_word(data, 0);
            if thumb_opcode(first, flags) != THUMB_BL_HIGH {
                thumb_operands(first, flags)
            } else {
                thumb_long_operands(first, bytes_half_word(data, 2), flags)
            }
        },
        ParseMode::Data => data_operands(
            if unit_size(mode, address) == 4 {
                bytes_word(data, 0)
            } else {
                bytes_half_word(data, 0)
            },
        ),
    }
}

/// Number of bytes that the cursor adds to its address in one call of
/// `next`: those of each unit it reads. That is nothing where the buffer is
/// shorter than the first unit. In Thumb mode it is two bytes, also where
/// the first half of a long branch stands alone, and four where the second
/// half-word is read too.
pub open spec fn cursor_span(mode: ParseMode, address: u32, flags: ParseFlags, data: Seq<u8>)
    -> int {
    if data.len() < unit_size(mode, address) {
        0
    } else {
        match mode {
            ParseMode::Thumb => if thumb_opcode(bytes_half_word(data, 0), flags) == THUMB_BL_HIGH
                && data.len() >= 4 {
                4
            } else {
                2
            },
            _ => unit_size(mode, address),
        }
    }
}

/// Makes a `unarm::Parser` over `data` at `address`, little-endian, and
/// calls its `next` once. The cursor adds the bytes it read to its address,
/// so the address must leave room for them. With the step comes what the
/// cursor made of the unit.
#[verifier::external_body]
pub(crate) fn cursor_next(mode: ParseMode, address: u32, flags: ParseFlags, data: &[u8]) -> (step:
    Option<(CursorStep, unarm::ParsedIns)>)
    requires
        address + cursor_span(mode, address, flags, data@) <= u32::MAX,
    ensures
        match step {
            Some((taken, parsed)) => {
                &&& cursor_step(mode, address, flags, data@) == Some(taken)
                &&& parsed_operands(parsed) == cursor_operands(mode, address, flags, data@)
                &&& parsed_operands(parsed).len() == OPERAND_PLACES
                &&& taken.end - taken.address == 4 && mode == ParseMode::Thumb ==> parsed_operands(
                    parsed,
                ) == thumb_long_operands(
                    bytes_half_word(data@, 0),
                    bytes_half_word(data@, 2),
                    flags,
                )
            },
            None => cursor_step(mode, address, flags, data@) is None,
        },
{
    let mode = match mode {
        ParseMode::Arm => unarm::ParseMode::Arm,
        ParseMode::Thumb => unarm::ParseMode::Thumb,
        ParseMode::Data => unarm::ParseMode::Data,
    };
    let version = match flags.version {
        ArmVersion::V4T => unarm::ArmVersion::V4T,
        ArmVersion::V5Te => unarm::ArmVersion::V5Te,
        ArmVersion::V6K => unarm::ArmVersion::V6K,
    };
    let flags = unarm::ParseFlags { ual: flags.ual, version };
    let mut cursor = unarm::Parser::new(mode, address, unarm::Endian::Little, flags, data);
    let (address, ins, parsed) = cursor.next()?;
    Some((CursorStep { address, end: cursor.address, code: ins.code() }, parsed))
}

} // verus!
