//! The compound members of a marshalled operand's payload: one struct for
//! each operand kind that has more than one field, with the place of each
//! field among the eight payload bytes.

use vstd::prelude::*;
use crate::operand::{Register, Shift, StatusReg};
use crate::value::{
    bool_byte, bool_to_byte, byte_bool, bytes_word, signed_to_word, signed_word, word_bytes,
    word_signed, word_to_signed, ArgumentValue,
};

verus! {

/// Register operand: the two flags and the register, one byte each.
#[derive(Clone, Copy, Debug, PartialEq, Eq, Structural)]
pub struct CReg {
    pub deref: bool,
    pub reg: Register,
    pub writeback: bool,
}

impl CReg {
    /// The eight payload bytes that hold the member.
    pub open spec fn spec_bytes(self) -> Seq<u8> {
        seq![
            bool_byte(self.deref),
            self.reg.spec_code(),
            bool_byte(self.writeback),
            0u8,
            0u8,
            0u8,
            0u8,
            0u8,
        ]
    }

    /// The member that eight payload bytes hold.
    pub open spec fn spec_read(bytes: Seq<u8>) -> CReg {
        CReg {
            deref: byte_bool(bytes[0]),
            reg: Register::spec_from_code(bytes[1]),
            writeback: byte_bool(bytes[2]),
        }
    }

    /// The payload that holds this member.
    pub fn to_value(self) -> (value: ArgumentValue)
        ensures
            value@ == self.spec_bytes(),
    {
        ArgumentValue {
            bytes: [
                bool_to_byte(self.deref),
                self.reg.code(),
                bool_to_byte(self.writeback),
                0,
                0,
                0,
                0,
                0,
            ],
        }
    }

    /// Eight bytes hold the member, and reading them gives it back.
    pub proof fn lemma_round_trip(self)
        ensures
            self.spec_bytes().len() == 8,
            CReg::spec_read(self.spec_bytes()) == self,
    {
        self.reg.lemma_code_round_trip();
    }

    /// The member that a payload holds.
    pub fn from_value(value: &ArgumentValue) -> (member: CReg)
        ensures
            member == CReg::spec_read(value@),
    {
        CReg {
            deref: value.bytes[0] != 0,
            reg: Register::from_code(value.bytes[1]),
            writeback: value.bytes[2] != 0,
        }
    }
}

impl Default for CReg {
    fn default() -> (member: CReg)
        ensures
            member == (CReg { deref: false, reg: Register::Illegal, writeback: false }),
    {
        CReg { deref: false, reg: Register::Illegal, writeback: false }
    }
}

/// Register list: the 32-bit mask, then the user-mode flag.
#[derive(Clone, Copy, Debug, PartialEq, Eq, Structural)]
pub struct CRegList {
    pub regs: u32,
    pub user_mode: bool,
}

impl CRegList {
    /// The eight payload bytes that hold the member.
    pub open spec fn spec_bytes(self) -> Seq<u8> {
        word_bytes(self.regs) + seq![bool_byte(self.user_mode), 0u8, 0u8, 0u8]
    }

    /// The member that eight payload bytes hold.
    pub open spec fn spec_read(bytes: Seq<u8>) -> CRegList {
        CRegList { regs: bytes_word(bytes, 0), user_mode: byte_bool(bytes[4]) }
    }

    /// The payload that holds this member.
    pub fn to_value(self) -> (value: ArgumentValue)
        ensures
            value@ == self.spec_bytes(),
    {
        ArgumentValue::from_word_and_byte(self.regs, bool_to_byte(self.user_mode))
    }

    /// Eight bytes hold the member, and reading them gives it back.
    pub proof fn lemma_round_trip(self)
        ensures
            self.spec_bytes().len() == 8,
            CRegList::spec_read(self.spec_bytes()) == self,
    {
    }

    /// The member that a payload holds.
    pub fn from_value(value: &ArgumentValue) -> (member: CRegList)
        ensures
            member == CRegList::spec_read(value@),
    {
        CRegList { regs: value.word_at(0), user_mode: value.bytes[4] != 0 }
    }
}

impl Default for CRegList {
    fn default() -> (member: CRegList)
        ensures
            member == (CRegList { regs: 0, user_mode: false }),
    {
        CRegList { regs: 0, user_mode: false }
    }
}

/// Status-field mask: three flags, the status register, a fourth flag, one
/// byte each.
#[derive(Clone, Copy, Debug, PartialEq, Eq, Structural)]
pub struct CStatusMask {
    pub control: bool,
    pub extension: bool,
    pub flags: bool,
    pub reg: StatusReg,
    pub status: bool,
}

impl CStatusMask {
    /// The eight payload bytes that hold the member.
    pub open spec fn spec_bytes(self) -> Seq<u8> {
        seq![
            bool_byte(self.control),
            bool_byte(self.extension),
            bool_byte(self.flags),
            self.reg.spec_code(),
            bool_byte(self.status),
            0u8,
            0u8,
            0u8,
        ]
    }

    /// The member that eight payload bytes hold.
    pub open spec fn spec_read(bytes: Seq<u8>) -> CStatusMask {
        CStatusMask {
            control: byte_bool(bytes[0]),
            extension: byte_bool(bytes[1]),
            flags: byte_bool(bytes[2]),
            reg: StatusReg::spec_from_code(bytes[3]),
            status: byte_bool(bytes[4]),
        }
    }

    /// The payload that holds this member.
    pub fn to_value(self) -> (value: ArgumentValue)
        ensures
            value@ == self.spec_bytes(),
    {
        ArgumentValue {
            bytes: [
                bool_to_byte(self.control),
                bool_to_byte(self.extension),
                bool_to_byte(self.flags),
                self.reg.code(),
                bool_to_byte(self.status),
                0,
                0,
                0,
            ],
        }
    }

    /// Eight bytes hold the member, and reading them gives it back.
    pub proof fn lemma_round_trip(self)
        ensures
            self.spec_bytes().len() == 8,
            CStatusMask::spec_read(self.spec_bytes()) == self,
    {
        self.reg.lemma_code_round_trip();
    }

    /// The member that a payload holds.
    pub fn from_value(value: &ArgumentValue) -> (member: CStatusMask)
        ensures
            member == CStatusMask::spec_read(value@),
    {
        CStatusMask {
            control: value.bytes[0] != 0,
            extension: value.bytes[1] != 0,
            flags: value.bytes[2] != 0,
            reg: StatusReg::from_code(value.bytes[3]),
            status: value.bytes[4] != 0,
        }
    }
}

impl Default for CStatusMask {
    fn default() -> (member: CStatusMask)
        ensures
            member == (CStatusMask {
                control: false,
                extension: false,
                flags: false,
                reg: StatusReg::Illegal,
                status: false,
            }),
    {
        CStatusMask {
            control: false,
            extension: false,
            flags: false,
            reg: StatusReg::Illegal,
            status: false,
        }
    }
}

/// Shift by an immediate: the 32-bit amount, then the operation.
#[derive(Clone, Copy, Debug, PartialEq, Eq, Structural)]
pub struct CShiftImm {
    pub imm: u32,
    pub op: Shift,
}

impl CShiftImm {
    /// The eight payload bytes that hold the member.
    pub open spec fn spec_bytes(self) -> Seq<u8> {
        word_bytes(self.imm) + seq![self.op.spec_code(), 0u8, 0u8, 0u8]
    }

    /// The member that eight payload bytes hold.
    pub open spec fn spec_read(bytes: Seq<u8>) -> CShiftImm {
        CShiftImm { imm: bytes_word(bytes, 0), op: Shift::spec_from_code(bytes[4]) }
    }

    /// The payload that holds this member.
    pub fn to_value(self) -> (value: ArgumentValue)
        ensures
            value@ == self.spec_bytes(),
    {
        ArgumentValue::from_word_and_byte(self.imm, self.op.code())
    }

    /// Eight bytes hold the member, and reading them gives it back.
    pub proof fn lemma_round_trip(self)
        ensures
            self.spec_bytes().len() == 8,
            CShiftImm::spec_read(self.spec_bytes()) == self,
    {
        self.op.lemma_code_round_trip();
    }

    /// The member that a payload holds.
    pub fn from_value(value: &ArgumentValue) -> (member: CShiftImm)
        ensures
            member == CShiftImm::spec_read(value@),
    {
        CShiftImm { imm: value.word_at(0), op: Shift::from_code(value.bytes[4]) }
    }
}

impl Default for CShiftImm {
    fn default() -> (member: CShiftImm)
        ensures
            member == (CShiftImm { imm: 0, op: Shift::Illegal }),
    {
        CShiftImm { imm: 0, op: Shift::Illegal }
    }
}

/// Shift by a register: the operation, then the register, one byte each.
#[derive(Clone, Copy, Debug, PartialEq, Eq, Structural)]
pub struct CShiftReg {
    pub op: Shift,
    pub reg: Register,
}

impl CShiftReg {
    /// The eight payload bytes that hold the member.
    pub open spec fn spec_bytes(self) -> Seq<u8> {
        seq![self.op.spec_code(), self.reg.spec_code(), 0u8, 0u8, 0u8, 0u8, 0u8, 0u8]
    }

    /// The member that eight payload bytes hold.
    pub open spec fn spec_read(bytes: Seq<u8>) -> CShiftReg {
        CShiftReg {
            op: Shift::spec_from_code(bytes[0]),
            reg: Register::spec_from_code(bytes[1]),
        }
    }

    /// The payload that holds this member.
    pub fn to_value(self) -> (value: ArgumentValue)
        ensures
            value@ == self.spec_bytes(),
    {
        ArgumentValue { bytes: [self.op.code(), self.reg.code(), 0, 0, 0, 0, 0, 0] }
    }

    /// Eight bytes hold the member, and reading them gives it back.
    pub proof fn lemma_round_trip(self)
        ensures
            self.spec_bytes().len() == 8,
            CShiftReg::spec_read(self.spec_bytes()) == self,
    {
        self.op.lemma_code_round_trip();
        self.reg.lemma_code_round_trip();
    }

    /// The member that a payload holds.
    pub fn from_value(value: &ArgumentValue) -> (member: CShiftReg)
        ensures
            member == CShiftReg::spec_read(value@),
    {
        CShiftReg {
            op: Shift::from_code(value.bytes[0]),
            reg: Register::from_code(value.bytes[1]),
        }
    }
}

impl Default for CShiftReg {
    fn default() -> (member: CShiftReg)
        ensures
            member == (CShiftReg { op: Shift::Illegal, reg: Register::Illegal }),
    {
        CShiftReg { op: Shift::Illegal, reg: Register::Illegal }
    }
}

/// Immediate offset: the post-index flag in the first byte, the signed
/// 32-bit offset in the last four.
#[derive(Clone, Copy, Debug, PartialEq, Eq, Structural)]
pub struct COffsetImm {
    pub post_indexed: bool,
    pub value: i32,
}

impl COffsetImm {
    /// The eight payload bytes that hold the member.
    pub open spec fn spec_bytes(self) -> Seq<u8> {
        seq![bool_byte(self.post_indexed), 0u8, 0u8, 0u8] + word_bytes(signed_word(self.value))
    }

    /// The member that eight payload bytes hold.
    pub open spec fn spec_read(bytes: Seq<u8>) -> COffsetImm {
        COffsetImm {
            post_indexed: byte_bool(bytes[0]),
            value: word_signed(bytes_word(bytes, 4)),
        }
    }

    /// The payload that holds this member.
    pub fn to_value(self) -> (value: ArgumentValue)
        ensures
            value@ == self.spec_bytes(),
    {
        let word = signed_to_word(self.value);
        let value = ArgumentValue {
            bytes: [
                bool_to_byte(self.post_indexed),
                0,
                0,
                0,
                (word % 256) as u8,
                (word / 256 % 256) as u8,
                (word / 65536 % 256) as u8,
                (word / 16777216) as u8,
            ],
        };
        assert(value@ =~= self.spec_bytes());
        value
    }

    /// Eight bytes hold the member, and reading them gives it back.
    pub proof fn lemma_round_trip(self)
        ensures
            self.spec_bytes().len() == 8,
            COffsetImm::spec_read(self.spec_bytes()) == self,
    {
    }

    /// The member that a payload holds.
    pub fn from_value(value: &ArgumentValue) -> (member: COffsetImm)
        ensures
            member == COffsetImm::spec_read(value@),
    {
        COffsetImm {
            post_indexed: value.bytes[0] != 0,
            value: word_to_signed(value.word_at(4)),
        }
    }
}

impl Default for COffsetImm {
    fn default() -> (member: COffsetImm)
        ensures
            member == (COffsetImm { post_indexed: false, value: 0 }),
    {
        COffsetImm { post_indexed: false, value: 0 }
    }
}

/// Register offset: two flags and the register, one byte each.
#[derive(Clone, Copy, Debug, PartialEq, Eq, Structural)]
pub struct COffsetReg {
    pub add: bool,
    pub post_indexed: bool,
    pub reg: Register,
}

impl COffsetReg {
    /// The eight payload bytes that hold the member.
    pub open spec fn spec_bytes(self) -> Seq<u8> {
        seq![
            bool_byte(self.add),
            bool_byte(self.post_indexed),
            self.reg.spec_code(),
            0u8,
            0u8,
            0u8,
            0u8,
            0u8,
        ]
    }

    /// The member that eight payload bytes hold.
    pub open spec fn spec_read(bytes: Seq<u8>) -> COffsetReg {
        COffsetReg {
            add: byte_bool(bytes[0]),
            post_indexed: byte_bool(bytes[1]),
            reg: Register::spec_from_code(bytes[2]),
        }
    }

    /// The payload that holds this member.
    pub fn to_value(self) -> (value: ArgumentValue)
        ensures
            value@ == self.spec_bytes(),
    {
        ArgumentValue {
            bytes: [
                bool_to_byte(self.add),
                bool_to_byte(self.post_indexed),
                self.reg.code(),
                0,
                0,
                0,
                0,
                0,
            ],
        }
    }

    /// Eight bytes hold the member, and reading them gives it back.
    pub proof fn lemma_round_trip(self)
        ensures
            self.spec_bytes().len() == 8,
            COffsetReg::spec_read(self.spec_bytes()) == self,
    {
        self.reg.lemma_code_round_trip();
    }

    /// The member that a payload holds.
    pub fn from_value(value: &ArgumentValue) -> (member: COffsetReg)
        ensures
            member == COffsetReg::spec_read(value@),
    {
        COffsetReg {
            add: value.bytes[0] != 0,
            post_indexed: value.bytes[1] != 0,
            reg: Register::from_code(value.bytes[2]),
        }
    }
}

impl Default for COffsetReg {
    fn default() -> (member: COffsetReg)
        ensures
            member == (COffsetReg { add: false, post_indexed: false, reg: Register::Illegal }),
    {
        COffsetReg { add: false, post_indexed: false, reg: Register::Illegal }
    }
}

/// Mode switch: the 32-bit mode, then the writeback flag.
#[derive(Clone, Copy, Debug, PartialEq, Eq, Structural)]
pub struct CCpsrMode {
    pub mode: u32,
    pub writeback: bool,
}

impl CCpsrMode {
    /// The eight payload bytes that hold the member.
    pub open spec fn spec_bytes(self) -> Seq<u8> {
        word_bytes(self.mode) + seq![bool_byte(self.writeback), 0u8, 0u8, 0u8]
    }

    /// The member that eight payload bytes hold.
    pub open spec fn spec_read(bytes: Seq<u8>) -> CCpsrMode {
        CCpsrMode { mode: bytes_word(bytes, 0), writeback: byte_bool(bytes[4]) }
    }

    /// The payload that holds this member.
    pub fn to_value(self) -> (value: ArgumentValue)
        ensures
            value@ == self.spec_bytes(),
    {
        ArgumentValue::from_word_and_byte(self.mode, bool_to_byte(self.writeback))
    }

    /// Eight bytes hold the member, and reading them gives it back.
    pub proof fn lemma_round_trip(self)
        ensures
            self.spec_bytes().len() == 8,
            CCpsrMode::spec_read(self.spec_bytes()) == self,
    {
    }

    /// The member that a payload holds.
    pub fn from_value(value: &ArgumentValue) -> (member: CCpsrMode)
        ensures
            member == CCpsrMode::spec_read(value@),
    {
        CCpsrMode { mode: value.word_at(0), writeback: value.bytes[4] != 0 }
    }
}

impl Default for CCpsrMode {
    fn default() -> (member: CCpsrMode)
        ensures
            member == (CCpsrMode { mode: 0, writeback: false }),
    {
        CCpsrMode { mode: 0, writeback: false }
    }
}

/// Interrupt flags: four flags, one byte each.
#[derive(Clone, Copy, Debug, PartialEq, Eq, Structural)]
pub struct CCpsrFlags {
    pub a: bool,
    pub enable: bool,
    pub f: bool,
    pub i: bool,
}

impl CCpsrFlags {
    /// The eight payload bytes that hold the member.
    pub open spec fn spec_bytes(self) -> Seq<u8> {
        seq![
            bool_byte(self.a),
            bool_byte(self.enable),
            bool_byte(self.f),
            bool_byte(self.i),
            0u8,
            0u8,
            0u8,
            0u8,
        ]
    }

    /// The member that eight payload bytes hold.
    pub open spec fn spec_read(bytes: Seq<u8>) -> CCpsrFlags {
        CCpsrFlags {
            a: byte_bool(bytes[0]),
            enable: byte_bool(bytes[1]),
            f: byte_bool(bytes[2]),
            i: byte_bool(bytes[3]),
        }
    }

    /// The payload that holds this member.
    pub fn to_value(self) -> (value: ArgumentValue)
        ensures
            value@ == self.spec_bytes(),
    {
        ArgumentValue {
            bytes: [
                bool_to_byte(self.a),
                bool_to_byte(self.enable),
                bool_to_byte(self.f),
                bool_to_byte(self.i),
                0,
                0,
                0,
                0,
            ],
        }
    }

    /// Eight bytes hold the member, and reading them gives it back.
    pub proof fn lemma_round_trip(self)
        ensures
            self.spec_bytes().len() == 8,
            CCpsrFlags::spec_read(self.spec_bytes()) == self,
    {
    }

    /// The member that a payload holds.
    pub fn from_value(value: &ArgumentValue) -> (member: CCpsrFlags)
        ensures
            member == CCpsrFlags::spec_read(value@),
    {
        CCpsrFlags {
            a: value.bytes[0] != 0,
            enable: value.bytes[1] != 0,
            f: value.bytes[2] != 0,
            i: value.bytes[3] != 0,
        }
    }
}

impl Default for CCpsrFlags {
    fn default() -> (member: CCpsrFlags)
        ensures
            member == (CCpsrFlags { a: false, enable: false, f: false, i: false }),
    {
        CCpsrFlags { a: false, enable: false, f: false, i: false }
    }
}

} // verus!
