//! Decoded instructions. An instruction keeps its raw bits, its instruction
//! set and the profile it was made under; whatever is asked of it is worked
//! out from those three on every call.

use vstd::prelude::*;
use crate::codec::CArgument;
use crate::decoder::{
    arm_conditional, arm_is_conditional, arm_opcode, arm_opcode_id, arm_operands, arm_parse,
    arm_render, arm_render_with_symbols, arm_symbol_text, arm_text, arm_updates_condition_flags,
    arm_updates_flags, illegal_text, thumb_conditional, thumb_is_conditional, thumb_opcode,
    thumb_opcode_id, thumb_operands, thumb_parse, thumb_render, thumb_render_with_symbols,
    thumb_symbol_text, thumb_text, thumb_updates_condition_flags, thumb_updates_flags,
    ILLEGAL_OPCODE, OPERAND_PLACES,
};
use crate::extract::operands_of_parsed;
use crate::layout::{marshal_arguments, operands_of};
use crate::operand::Argument;
use crate::profile::Profile;
use crate::symbols::{names_nothing, SymbolSlice};
use crate::target::{check_sums, lemma_nothing_named_misses, misses, sums_fit};

verus! {

/// The two instruction sets: ARM, with instructions of 32 bits, and Thumb,
/// with instructions of 16.
#[derive(Clone, Copy, Debug, PartialEq, Eq, Structural)]
pub enum InstructionSet {
    Arm,
    Thumb,
}

/// One instruction. Any 32 bits make one: bits that encode nothing decode
/// as the decoder's illegal instruction.
#[derive(Clone, Copy, Debug, PartialEq, Eq, Structural)]
pub struct Instruction {
    set: InstructionSet,
    code: u32,
    profile: Profile,
}

impl Instruction {
    /// An ARM instruction with the given bits, decoded under `profile`.
    pub fn new_arm(profile: Profile, code: u32) -> (ins: Instruction)
        ensures
            ins.set() == InstructionSet::Arm,
            ins.code() == code,
            ins.profile() == profile,
    {
        Instruction { set: InstructionSet::Arm, code, profile }
    }

    /// A Thumb instruction with the given bits, decoded under `profile`.
    pub fn new_thumb(profile: Profile, code: u32) -> (ins: Instruction)
        ensures
            ins.set() == InstructionSet::Thumb,
            ins.code() == code,
            ins.profile() == profile,
    {
        Instruction { set: InstructionSet::Thumb, code, profile }
    }

    /// The instruction set.
    pub closed spec fn spec_set(&self) -> InstructionSet {
        self.set
    }

    /// The raw bits.
    pub closed spec fn spec_code(&self) -> u32 {
        self.code
    }

    /// The profile that the instruction was made under.
    pub closed spec fn spec_profile(&self) -> Profile {
        self.profile
    }

    /// The instruction set.
    #[verifier::when_used_as_spec(spec_set)]
    pub fn set(&self) -> (set: InstructionSet)
        ensures
            set == self.spec_set(),
    {
        self.set
    }

    /// The raw bits.
    #[verifier::when_used_as_spec(spec_code)]
    pub fn code(&self) -> (code: u32)
        ensures
            code == self.spec_code(),
    {
        self.code
    }

    /// The profile that the instruction was made under.
    #[verifier::when_used_as_spec(spec_profile)]
    pub fn profile(&self) -> (profile: Profile)
        ensures
            profile == self.spec_profile(),
    {
        self.profile
    }

    /// The opcode number that the decoder gives these bits under the
    /// instruction's own profile.
    pub open spec fn spec_opcode_id(self) -> u16 {
        match self.set() {
            InstructionSet::Arm => arm_opcode(self.code(), self.profile().spec_flags()),
            InstructionSet::Thumb => thumb_opcode(self.code(), self.profile().spec_flags()),
        }
    }

    /// Whether the decoder reports the instruction as conditional, under
    /// the instruction's own profile.
    pub open spec fn spec_is_conditional(self) -> bool {
        match self.set() {
            InstructionSet::Arm => arm_conditional(self.code(), self.profile().spec_flags()),
            InstructionSet::Thumb => thumb_conditional(self.code(), self.profile().spec_flags()),
        }
    }

    /// Whether the decoder reports the instruction as one that updates the
    /// condition flags, under the instruction's own profile.
    pub open spec fn spec_updates_condition_flags(self) -> bool {
        match self.set() {
            InstructionSet::Arm => arm_updates_flags(self.code(), self.profile().spec_flags()),
            InstructionSet::Thumb => thumb_updates_flags(self.code(), self.profile().spec_flags()),
        }
    }

    /// The text that the decoder writes for the instruction, under the
    /// instruction's own profile.
    pub open spec fn spec_text(self) -> Seq<char> {
        match self.set() {
            InstructionSet::Arm => arm_text(self.code(), self.profile().spec_flags()),
            InstructionSet::Thumb => thumb_text(self.code(), self.profile().spec_flags()),
        }
    }

    /// The number of the instruction's opcode.
    pub fn opcode_id(&self) -> (id: u16)
        ensures
            id == self.spec_opcode_id(),
    {
        match self.set {
            InstructionSet::Arm => arm_opcode_id(self.code, self.profile.flags()),
            InstructionSet::Thumb => thumb_opcode_id(self.code, self.profile.flags()),
        }
    }

    /// Whether the instruction runs only under a condition.
    pub fn is_conditional(&self) -> (conditional: bool)
        ensures
            conditional == self.spec_is_conditional(),
    {
        match self.set {
            InstructionSet::Arm => arm_is_conditional(self.code, self.profile.flags()),
            InstructionSet::Thumb => thumb_is_conditional(self.code, self.profile.flags()),
        }
    }

    /// Whether the instruction updates the condition flags.
    pub fn updates_condition_flags(&self) -> (updates: bool)
        ensures
            updates == self.spec_updates_condition_flags(),
    {
        match self.set {
            InstructionSet::Arm => arm_updates_condition_flags(self.code, self.profile.flags()),
            InstructionSet::Thumb => thumb_updates_condition_flags(self.code, self.profile.flags()),
        }
    }

    /// The instruction as assembly text. Bits that encode no instruction
    /// are written as `<illegal>`.
    pub fn to_text(&self) -> (text: String)
        ensures
            text@ == self.spec_text(),
            self.spec_opcode_id() == ILLEGAL_OPCODE ==> text@ == illegal_text(),
    {
        match self.set {
            InstructionSet::Arm => arm_render(self.code, self.profile.flags()),
            InstructionSet::Thumb => thumb_render(self.code, self.profile.flags()),
        }
    }

    /// The text that the decoder writes for the instruction when it may ask
    /// a symbol table, under the instruction's own profile.
    pub open spec fn spec_text_with_symbols(
        self,
        table: Seq<(Seq<u8>, u32)>,
        pc: u32,
        pc_load_offset: i32,
    ) -> Seq<char> {
        match self.set() {
            InstructionSet::Arm => arm_symbol_text(
                self.code(),
                self.profile().spec_flags(),
                table,
                pc,
                pc_load_offset,
            ),
            InstructionSet::Thumb => thumb_symbol_text(
                self.code(),
                self.profile().spec_flags(),
                table,
                pc,
                pc_load_offset,
            ),
        }
    }

    /// The operands that the decoder reports for the instruction, under the
    /// instruction's own profile.
    pub open spec fn spec_operands(self) -> Seq<Argument> {
        match self.set() {
            InstructionSet::Arm => arm_operands(self.code(), self.profile().spec_flags()),
            InstructionSet::Thumb => thumb_operands(self.code(), self.profile().spec_flags()),
        }
    }

    /// The operands of the instruction, one for each place that the decoder
    /// reports and in the decoder's order. The decoder reports six places
    /// and leaves those that an instruction does not use absent.
    pub fn operands(&self) -> (operands: Vec<Argument>)
        ensures
            operands@ == self.spec_operands(),
            operands.len() == OPERAND_PLACES,
    {
        let parsed = match self.set {
            InstructionSet::Arm => arm_parse(self.code, self.profile.flags()),
            InstructionSet::Thumb => thumb_parse(self.code, self.profile.flags()),
        };
        operands_of_parsed(&parsed, OPERAND_PLACES)
    }

    /// The operands of the instruction, marshalled one for one and in
    /// their order.
    pub fn arguments(&self) -> (marshalled: Vec<CArgument>)
        ensures
            marshalled.len() == self.spec_operands().len(),
            marshalled.len() == OPERAND_PLACES,
            operands_of(marshalled@) == self.spec_operands(),
    {
        let operands = self.operands();
        marshal_arguments(operands.as_slice())
    }

    /// The instruction as assembly text, with the name of a symbol in place
    /// of each address that the table names. `pc` is the address that the
    /// instruction's branches count from, and `pc_load_offset` is added to
    /// the addresses of loads through the program counter; both reach the
    /// renderer as they are given. Where the table names none of the
    /// addresses that the operands refer to, the text is that without
    /// symbols. The sums that lead to those addresses must be signed 32-bit
    /// numbers; an instruction that refers to no address asks nothing of
    /// `pc` and `pc_load_offset`.
    pub fn to_text_with_symbols(&self, table: &SymbolSlice, pc: u32, pc_load_offset: i32) -> (text:
        String)
        requires
            sums_fit(self.spec_operands(), pc, pc_load_offset),
        ensures
            text@ == self.spec_text_with_symbols(table@, pc, pc_load_offset),
            misses(table@, self.spec_operands(), pc, pc_load_offset) ==> text@ == self.spec_text(),
            names_nothing(table@) ==> text@ == self.spec_text(),
    {
        proof {
            if names_nothing(table@) {
                lemma_nothing_named_misses(table@, self.spec_operands(), pc, pc_load_offset);
            }
        }
        let flags = self.profile.flags();
        match self.set {
            InstructionSet::Arm => arm_render_with_symbols(
                self.code,
                flags,
                table,
                pc,
                pc_load_offset,
            ),
            InstructionSet::Thumb => thumb_render_with_symbols(
                self.code,
                flags,
                table,
                pc,
                pc_load_offset,
            ),
        }
    }

    /// The text with symbols where the renderer's sums are signed 32-bit
    /// numbers, and nothing where one of them is not.
    pub fn try_to_text_with_symbols(
        &self,
        table: &SymbolSlice,
        pc: u32,
        pc_load_offset: i32,
    ) -> (text: Option<String>)
        ensures
            text is Some <==> sums_fit(self.spec_operands(), pc, pc_load_offset),
            text matches Some(written) ==> {
                &&& written@ == self.spec_text_with_symbols(table@, pc, pc_load_offset)
                &&& misses(table@, self.spec_operands(), pc, pc_load_offset) ==> written@
                    == self.spec_text()
            },
    {
        let operands = self.operands();
        if check_sums(operands.as_slice(), pc, pc_load_offset) {
            Some(self.to_text_with_symbols(table, pc, pc_load_offset))
        } else {
            None
        }
    }

    /// What is asked of an instruction depends on its bits, its instruction
    /// set and its profile, and on nothing else: two instructions that agree
    /// in the three are the same instruction and give the same answers,
    /// whenever they are asked.
    pub proof fn lemma_answers_follow_from_state(self, other: Instruction)
        requires
            self.set() == other.set(),
            self.code() == other.code(),
            self.profile() == other.profile(),
        ensures
            self == other,
            self.spec_opcode_id() == other.spec_opcode_id(),
            self.spec_is_conditional() == other.spec_is_conditional(),
            self.spec_updates_condition_flags() == other.spec_updates_condition_flags(),
            self.spec_text() == other.spec_text(),
            self.spec_operands() == other.spec_operands(),
    {
    }
}

} // verus!
