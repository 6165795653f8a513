//! The streaming parser: a cursor that walks a borrowed buffer from a start
//! address on and hands out one unit at each step. The decoder's own cursor
//! does the reading; this module keeps the place and says what each step
//! does to it.

use vstd::prelude::*;
use vstd::slice::slice_subrange;
use crate::decoder::{
    cursor_next, cursor_operands, cursor_span, cursor_step, thumb_opcode_id, CursorStep,
    OPERAND_PLACES, THUMB_BL_HIGH,
};
use crate::extract::operands_of_parsed;
use crate::instruction::{Instruction, InstructionSet};
use crate::operand::Argument;
use crate::profile::Profile;
use crate::value::{bytes_half_word, bytes_word};

verus! {

/// How the cursor reads the buffer. The mode is chosen when the parser is
/// made and does not change.
#[derive(Clone, Copy, Debug, PartialEq, Eq, Structural)]
pub enum ParseMode {
    /// ARM instructions, four bytes each
    Arm,
    /// Thumb instructions, two bytes each, or four for a long branch with
    /// link
    Thumb,
    /// Data that is not decoded: words of four bytes, after a first
    /// half-word where bit 1 of the address is set
    Data,
}

/// The mode that a number stands for: 0 for ARM, 1 for Thumb, 2 for data,
/// and none for any other number.
pub open spec fn spec_parse_mode_from_u32(v: u32) -> Option<ParseMode> {
    if v == 0 {
        Some(ParseMode::Arm)
    } else if v == 1 {
        Some(ParseMode::Thumb)
    } else if v == 2 {
        Some(ParseMode::Data)
    } else {
        None
    }
}

/// Reads a mode from the number that stands for it.
#[verifier::when_used_as_spec(spec_parse_mode_from_u32)]
pub fn parse_mode_from_u32(v: u32) -> (mode: Option<ParseMode>)
    ensures
        mode == spec_parse_mode_from_u32(v),
        mode is Some <==> v <= 2,
{
    match v {
        0 => Some(ParseMode::Arm),
        1 => Some(ParseMode::Thumb),
        2 => Some(ParseMode::Data),
        _ => None,
    }
}

/// What one step of the parser hands out.
#[derive(Clone, Copy, Debug, PartialEq, Eq, Structural)]
pub enum Unit {
    /// An instruction. For a long Thumb branch with link, which takes two
    /// half-words, this is the second one, as the decoder's cursor reports;
    /// the branch's destination stands among the operands of the step.
    Instruction(Instruction),
    /// A word or half-word of data, not decoded.
    Data(u32),
}

/// One unit with its place, the address where it begins and the number of
/// bytes it takes, and with the operands that the decoder's cursor reports
/// for it.
#[derive(Debug, PartialEq, Eq)]
pub struct Fetched {
    pub address: u32,
    pub size: u32,
    pub unit: Unit,
    pub operands: Vec<Argument>,
}

/// The data in the first `size` bytes, least significant byte first.
pub open spec fn data_word(data: Seq<u8>, size: int) -> u32 {
    if size == 4 {
        bytes_word(data, 0)
    } else {
        bytes_half_word(data, 0)
    }
}

/// Whether `unit` is what a step of the cursor hands out in the given mode:
/// in the two instruction modes the instruction with the bits that the
/// cursor reports, of the mode's instruction set and under the parser's
/// profile; in data mode the data that the cursor stepped over.
pub open spec fn is_unit_of(
    unit: Unit,
    step: CursorStep,
    mode: ParseMode,
    profile: Profile,
    data: Seq<u8>,
) -> bool {
    match mode {
        ParseMode::Arm => {
            &&& unit matches Unit::Instruction(ins)
            &&& ins.set() == InstructionSet::Arm
            &&& ins.code() == step.code
            &&& ins.profile() == profile
        },
        ParseMode::Thumb => {
            &&& unit matches Unit::Instruction(ins)
            &&& ins.set() == InstructionSet::Thumb
            &&& ins.code() == step.code
            &&& ins.profile() == profile
        },
        ParseMode::Data => unit == Unit::Data(data_word(data, step.end - step.address)),
    }
}

/// A cursor over a borrowed buffer. The buffer is not copied and must
/// outlive the parser.
#[derive(Clone, Copy, Debug)]
pub struct Parser<'a> {
    mode: ParseMode,
    address: u32,
    profile: Profile,
    data: &'a [u8],
}

impl<'a> Parser<'a> {
    /// The mode.
    pub closed spec fn spec_mode(&self) -> ParseMode {
        self.mode
    }

    /// The address of the next unit.
    pub closed spec fn spec_address(&self) -> u32 {
        self.address
    }

    /// The profile that the parser was made under.
    pub closed spec fn spec_profile(&self) -> Profile {
        self.profile
    }

    /// The bytes that the cursor has not read yet.
    pub closed spec fn spec_remaining(&self) -> Seq<u8> {
        self.data@
    }

    /// A parser in the given mode over `data`, whose first byte has the
    /// address `address`.
    pub fn new(profile: Profile, mode: ParseMode, address: u32, data: &'a [u8]) -> (parser: Parser<
        'a,
    >)
        ensures
            parser.mode() == mode,
            parser.address() == address,
            parser.profile() == profile,
            parser.spec_remaining() == data@,
    {
        Parser { mode, address, profile, data }
    }

    /// The mode.
    #[verifier::when_used_as_spec(spec_mode)]
    pub fn mode(&self) -> (mode: ParseMode)
        ensures
            mode == self.spec_mode(),
    {
        self.mode
    }

    /// The address of the next unit.
    #[verifier::when_used_as_spec(spec_address)]
    pub fn address(&self) -> (address: u32)
        ensures
            address == self.spec_address(),
    {
        self.address
    }

    /// The profile that the parser was made under.
    #[verifier::when_used_as_spec(spec_profile)]
    pub fn profile(&self) -> (profile: Profile)
        ensures
            profile == self.spec_profile(),
    {
        self.profile
    }

    /// The bytes that the cursor has not read yet.
    pub fn remaining(&self) -> (data: &'a [u8])
        ensures
            data@ == self.spec_remaining(),
    {
        self.data
    }

    /// Number of bytes that the decoder's cursor would add to its address
    /// from here.
    pub open spec fn spec_span(&self) -> int {
        cursor_span(
            self.spec_mode(),
            self.spec_address(),
            self.spec_profile().spec_flags(),
            self.spec_remaining(),
        )
    }

    /// The step that the decoder's cursor takes from here, if it takes one.
    /// It takes none where the address behind the unit would pass the
    /// largest 32-bit number.
    pub open spec fn spec_step(&self) -> Option<CursorStep> {
        if self.spec_address() + self.spec_span() > u32::MAX {
            None
        } else {
            cursor_step(
                self.spec_mode(),
                self.spec_address(),
                self.spec_profile().spec_flags(),
                self.spec_remaining(),
            )
        }
    }

    /// The operands that the decoder's cursor reports for the unit at the
    /// parser's address, where it takes a step from here.
    pub open spec fn spec_operands(&self) -> Seq<Argument> {
        cursor_operands(
            self.spec_mode(),
            self.spec_address(),
            self.spec_profile().spec_flags(),
            self.spec_remaining(),
        )
    }

    /// Number of bytes that the decoder's cursor would add to its address
    /// from here.
    fn span(&self) -> (span: u32)
        ensures
            span == self.spec_span(),
    {
        let unit: usize = match self.mode {
            ParseMode::Arm => 4,
            ParseMode::Thumb => 2,
            ParseMode::Data => if self.address % 4 >= 2 {
                2
            } else {
                4
            },
        };
        if self.data.len() < unit {
            return 0;
        }
        match self.mode {
            ParseMode::Arm => 4,
            ParseMode::Thumb => {
                let first = read_half_word(self.data);
                if self.data.len() >= 4 && thumb_opcode_id(first, self.profile.flags())
                    == THUMB_BL_HIGH {
                    4
                } else {
                    2
                }
            },
            ParseMode::Data => if unit == 4 {
                4
            } else {
                2
            },
        }
    }

    /// Hands out the unit that a step of the cursor read, with the operands
    /// that came with the step, and moves past it: the parser's address
    /// becomes the step's end, and the bytes of the unit leave the bytes
    /// that remain.
    pub fn step_over(&mut self, step: CursorStep, operands: Vec<Argument>) -> (fetched: Fetched)
        requires
            step.address == old(self).address(),
            step.end - step.address == 2 || step.end - step.address == 4,
            step.end - step.address <= old(self).spec_remaining().len(),
        ensures
            fetched.address == step.address,
            fetched.size == step.end - step.address,
            fetched.operands == operands,
            is_unit_of(
                fetched.unit,
                step,
                old(self).mode(),
                old(self).profile(),
                old(self).spec_remaining(),
            ),
            final(self).mode() == old(self).mode(),
            final(self).profile() == old(self).profile(),
            final(self).address() == step.end,
            final(self).spec_remaining() == old(self).spec_remaining().skip(fetched.size as int),
    {
        let size = step.end - step.address;
        let unit = match self.mode {
            ParseMode::Arm => Unit::Instruction(Instruction::new_arm(self.profile, step.code)),
            ParseMode::Thumb => Unit::Instruction(Instruction::new_thumb(self.profile, step.code)),
            ParseMode::Data => if size == 4 {
                Unit::Data(read_word(self.data))
            } else {
                Unit::Data(read_half_word(self.data))
            },
        };
        self.data = slice_subrange(self.data, size as usize, self.data.len());
        self.address = step.end;
        Fetched { address: step.address, size, unit, operands }
    }

    /// Reads one unit and moves past it. The unit begins at the parser's
    /// address, and the parser's address grows by the unit's size, so the
    /// units follow each other without gap or overlap. Where there is no
    /// unit left to read, nothing is handed out and the parser stays as it
    /// is.
    pub fn advance(&mut self) -> (item: Option<Fetched>)
        ensures
            final(self).mode() == old(self).mode(),
            final(self).profile() == old(self).profile(),
            match item {
                Some(fetched) => {
                    &&& old(self).spec_step() matches Some(step)
                    &&& fetched.address == old(self).address()
                    &&& fetched.size == step.end - step.address
                    &&& fetched.size == 2 || fetched.size == 4
                    &&& fetched.size <= old(self).spec_remaining().len()
                    &&& fetched.operands@ == old(self).spec_operands()
                    &&& fetched.operands.len() == OPERAND_PLACES
                    &&& is_unit_of(
                        fetched.unit,
                        step,
                        old(self).mode(),
                        old(self).profile(),
                        old(self).spec_remaining(),
                    )
                    &&& final(self).address() == old(self).address() + fetched.size
                    &&& final(self).spec_remaining() == old(self).spec_remaining().skip(
                        fetched.size as int,
                    )
                },
                None => {
                    &&& old(self).spec_step() is None
                    &&& final(self).address() == old(self).address()
                    &&& final(self).spec_remaining() == old(self).spec_remaining()
                },
            },
    {
        if self.address > u32::MAX - self.span() {
            return None;
        }
        match cursor_next(self.mode, self.address, self.profile.flags(), self.data) {
            Some((step, parsed)) => {
                let operands = operands_of_parsed(&parsed, OPERAND_PLACES);
                Some(self.step_over(step, operands))
            },
            None => None,
        }
    }
}

/// The 32-bit number in the first four bytes, least significant first.
fn read_word(data: &[u8]) -> (word: u32)
    requires
        data.len() >= 4,
    ensures
        word == bytes_word(data@, 0),
{
    let b0: u32 = data[0] as u32;
    let b1: u32 = data[1] as u32;
    let b2: u32 = data[2] as u32;
    let b3: u32 = data[3] as u32;
    b0 + 256 * b1 + 65536 * b2 + 16777216 * b3
}

/// The 16-bit number in the first two bytes, least significant first.
fn read_half_word(data: &[u8]) -> (word: u32)
    requires
        data.len() >= 2,
    ensures
        word == bytes_half_word(data@, 0),
{
    let b0: u32 = data[0] as u32;
    let b1: u32 = data[1] as u32;
    b0 + 256 * b1
}

/// Makes a parser from the number that stands for its mode. A number that
/// stands for no mode is a fault of the caller.
pub fn new_parser<'a>(profile: Profile, mode: u32, address: u32, data: &'a [u8]) -> (parser:
    Parser<'a>)
    requires
        mode <= 2,
    ensures
        Some(parser.mode()) == spec_parse_mode_from_u32(mode),
        parser.address() == address,
        parser.profile() == profile,
        parser.spec_remaining() == data@,
{
    Parser::new(profile, parse_mode_from_u32(mode).unwrap(), address, data)
}

} // verus!
