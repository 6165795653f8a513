//! Marshalling of decoded ARM and Thumb instructions into values of a fixed
//! layout, for a caller in another language runtime that reads them through
//! plain memory.
//!
//! The `unarm` crate decodes and renders. This crate shapes what goes into
//! it and what comes out: the two CPU profiles ([`profile`]), instructions
//! that keep their profile ([`instruction`]), a streaming parser over a
//! borrowed buffer ([`parser`]), the codec that turns every operand into a
//! kind and eight payload bytes ([`operand`], [`member`], [`value`],
//! [`codec`]), the bytes of a run of operands ([`layout`]), the symbol
//! table that a caller lends for a rendering ([`symbols`]), and the
//! addresses that the renderer asks the table for ([`target`]). Every call
//! into the decoder stands in [`decoder`].

pub mod codec;
pub mod decoder;
mod extract;
pub mod instruction;
pub mod layout;
pub mod member;
pub mod operand;
pub mod parser;
pub mod profile;
pub mod symbols;
pub mod target;
pub mod value;

pub use codec::{ArgumentKind, CArgument};
pub use instruction::{Instruction, InstructionSet};
pub use layout::{array_image, marshal_arguments, ARGUMENT_STRIDE};
pub use member::{
    CCpsrFlags, CCpsrMode, COffsetImm, COffsetReg, CReg, CRegList, CShiftImm, CShiftReg,
    CStatusMask,
};
pub use operand::Argument;
pub use parser::{new_parser, parse_mode_from_u32, Fetched, ParseMode, Parser, Unit};
pub use profile::{ArmVersion, ParseFlags, Profile};
pub use symbols::{Symbol, SymbolSlice};
pub use value::ArgumentValue;
