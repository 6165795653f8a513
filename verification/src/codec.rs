//! The argument codec: every operand becomes a value of one fixed size, a
//! kind and eight payload bytes, and the kind alone decides how the
//! payload is read.

use vstd::prelude::*;
use vstd::std_specs::convert::FromSpecImpl;
use crate::member::{
    CCpsrFlags, CCpsrMode, COffsetImm, COffsetReg, CReg, CRegList, CShiftImm, CShiftReg,
    CStatusMask,
};
use crate::operand::{
    Argument, CoReg, CpsrFlags, CpsrMode, Endian, OffsetImm, OffsetReg, Reg, RegList, Register,
    Shift, ShiftImm, ShiftReg, StatusMask, StatusReg,
};
use crate::value::{
    bytes_word, lemma_signed_round_trip, signed_word, word_bytes, word_signed, ArgumentValue,
};

verus! {

/// Which member of the payload a marshalled operand holds.
#[derive(Clone, Copy, Debug, PartialEq, Eq, Structural)]
pub enum ArgumentKind {
    /// No operand; the payload is that of a register operand with every
    /// flag clear and the register `Illegal`.
    Absent,
    Reg,
    RegList,
    CoReg,
    StatusReg,
    StatusMask,
    Shift,
    ShiftImm,
    ShiftReg,
    UImm,
    SatImm,
    SImm,
    OffsetImm,
    OffsetReg,
    BranchDest,
    CoOption,
    CoOpcode,
    CoprocNum,
    CpsrMode,
    CpsrFlags,
    Endian,
}

/// Number of operand kinds.
pub const KIND_COUNT: u8 = 21;

impl ArgumentKind {
    /// The one-byte code.
    pub open spec fn spec_code(self) -> u8 {
        match self {
            ArgumentKind::Absent => 0,
            ArgumentKind::Reg => 1,
            ArgumentKind::RegList => 2,
            ArgumentKind::CoReg => 3,
            ArgumentKind::StatusReg => 4,
            ArgumentKind::StatusMask => 5,
            ArgumentKind::Shift => 6,
            ArgumentKind::ShiftImm => 7,
            ArgumentKind::ShiftReg => 8,
            ArgumentKind::UImm => 9,
            ArgumentKind::SatImm => 10,
            ArgumentKind::SImm => 11,
            ArgumentKind::OffsetImm => 12,
            ArgumentKind::OffsetReg => 13,
            ArgumentKind::BranchDest => 14,
            ArgumentKind::CoOption => 15,
            ArgumentKind::CoOpcode => 16,
            ArgumentKind::CoprocNum => 17,
            ArgumentKind::CpsrMode => 18,
            ArgumentKind::CpsrFlags => 19,
            ArgumentKind::Endian => 20,
        }
    }

    /// The kind that a byte stands for, if it stands for one.
    pub open spec fn spec_from_code(code: u8) -> Option<ArgumentKind> {
        match code {
            0 => Some(ArgumentKind::Absent),
            1 => Some(ArgumentKind::Reg),
            2 => Some(ArgumentKind::RegList),
            3 => Some(ArgumentKind::CoReg),
            4 => Some(ArgumentKind::StatusReg),
            5 => Some(ArgumentKind::StatusMask),
            6 => Some(ArgumentKind::Shift),
            7 => Some(ArgumentKind::ShiftImm),
            8 => Some(ArgumentKind::ShiftReg),
            9 => Some(ArgumentKind::UImm),
            10 => Some(ArgumentKind::SatImm),
            11 => Some(ArgumentKind::SImm),
            12 => Some(ArgumentKind::OffsetImm),
            13 => Some(ArgumentKind::OffsetReg),
            14 => Some(ArgumentKind::BranchDest),
            15 => Some(ArgumentKind::CoOption),
            16 => Some(ArgumentKind::CoOpcode),
            17 => Some(ArgumentKind::CoprocNum),
            18 => Some(ArgumentKind::CpsrMode),
            19 => Some(ArgumentKind::CpsrFlags),
            20 => Some(ArgumentKind::Endian),
            _ => None,
        }
    }

    /// The one-byte discriminant of this kind.
    #[verifier::when_used_as_spec(spec_code)]
    pub fn code(self) -> (code: u8)
        ensures
            code == self.spec_code(),
            code < KIND_COUNT,
    {
        match self {
            ArgumentKind::Absent => 0,
            ArgumentKind::Reg => 1,
            ArgumentKind::RegList => 2,
            ArgumentKind::CoReg => 3,
            ArgumentKind::StatusReg => 4,
            ArgumentKind::StatusMask => 5,
            ArgumentKind::Shift => 6,
            ArgumentKind::ShiftImm => 7,
            ArgumentKind::ShiftReg => 8,
            ArgumentKind::UImm => 9,
            ArgumentKind::SatImm => 10,
            ArgumentKind::SImm => 11,
            ArgumentKind::OffsetImm => 12,
            ArgumentKind::OffsetReg => 13,
            ArgumentKind::BranchDest => 14,
            ArgumentKind::CoOption => 15,
            ArgumentKind::CoOpcode => 16,
            ArgumentKind::CoprocNum => 17,
            ArgumentKind::CpsrMode => 18,
            ArgumentKind::CpsrFlags => 19,
            ArgumentKind::Endian => 20,
        }
    }

    /// The kind with the given discriminant, if there is one.
    #[verifier::when_used_as_spec(spec_from_code)]
    pub fn from_code(code: u8) -> (kind: Option<ArgumentKind>)
        ensures
            kind == ArgumentKind::spec_from_code(code),
            kind is Some <==> code < KIND_COUNT,
            kind is Some ==> kind.unwrap().spec_code() == code,
    {
        match code {
            0 => Some(ArgumentKind::Absent),
            1 => Some(ArgumentKind::Reg),
            2 => Some(ArgumentKind::RegList),
            3 => Some(ArgumentKind::CoReg),
            4 => Some(ArgumentKind::StatusReg),
            5 => Some(ArgumentKind::StatusMask),
            6 => Some(ArgumentKind::Shift),
            7 => Some(ArgumentKind::ShiftImm),
            8 => Some(ArgumentKind::ShiftReg),
            9 => Some(ArgumentKind::UImm),
            10 => Some(ArgumentKind::SatImm),
            11 => Some(ArgumentKind::SImm),
            12 => Some(ArgumentKind::OffsetImm),
            13 => Some(ArgumentKind::OffsetReg),
            14 => Some(ArgumentKind::BranchDest),
            15 => Some(ArgumentKind::CoOption),
            16 => Some(ArgumentKind::CoOpcode),
            17 => Some(ArgumentKind::CoprocNum),
            18 => Some(ArgumentKind::CpsrMode),
            19 => Some(ArgumentKind::CpsrFlags),
            20 => Some(ArgumentKind::Endian),
            _ => None,
        }
    }

    /// Reading a kind's discriminant gives the kind back.
    pub proof fn lemma_code_round_trip(self)
        ensures
            ArgumentKind::spec_from_code(self.spec_code()) == Some(self),
    {
    }
}

/// A payload that holds one byte, then zeros.
pub open spec fn byte_payload(byte: u8) -> Seq<u8> {
    seq![byte, 0u8, 0u8, 0u8, 0u8, 0u8, 0u8, 0u8]
}

/// A payload that holds a 32-bit number, then zeros.
pub open spec fn word_payload(word: u32) -> Seq<u8> {
    word_bytes(word) + seq![0u8, 0u8, 0u8, 0u8]
}

/// The kind under which an operand is marshalled.
pub open spec fn kind_of(arg: Argument) -> ArgumentKind {
    match arg {
        Argument::Absent => ArgumentKind::Absent,
        Argument::Reg(_) => ArgumentKind::Reg,
        Argument::RegList(_) => ArgumentKind::RegList,
        Argument::CoReg(_) => ArgumentKind::CoReg,
        Argument::StatusReg(_) => ArgumentKind::StatusReg,
        Argument::StatusMask(_) => ArgumentKind::StatusMask,
        Argument::Shift(_) => ArgumentKind::Shift,
        Argument::ShiftImm(_) => ArgumentKind::ShiftImm,
        Argument::ShiftReg(_) => ArgumentKind::ShiftReg,
        Argument::UImm(_) => ArgumentKind::UImm,
        Argument::SatImm(_) => ArgumentKind::SatImm,
        Argument::SImm(_) => ArgumentKind::SImm,
        Argument::OffsetImm(_) => ArgumentKind::OffsetImm,
        Argument::OffsetReg(_) => ArgumentKind::OffsetReg,
        Argument::BranchDest(_) => ArgumentKind::BranchDest,
        Argument::CoOption(_) => ArgumentKind::CoOption,
        Argument::CoOpcode(_) => ArgumentKind::CoOpcode,
        Argument::CoprocNum(_) => ArgumentKind::CoprocNum,
        Argument::CpsrMode(_) => ArgumentKind::CpsrMode,
        Argument::CpsrFlags(_) => ArgumentKind::CpsrFlags,
        Argument::Endian(_) => ArgumentKind::Endian,
    }
}

/// The eight payload bytes of an operand: each field of the operand, copied
/// to its place in the member that belongs to the operand's kind.
pub open spec fn payload_of(arg: Argument) -> Seq<u8> {
    match arg {
        Argument::Absent => (CReg {
            deref: false,
            reg: Register::Illegal,
            writeback: false,
        }).spec_bytes(),
        Argument::Reg(r) => (CReg {
            deref: r.deref,
            reg: r.reg,
            writeback: r.writeback,
        }).spec_bytes(),
        Argument::RegList(l) => (CRegList { regs: l.regs, user_mode: l.user_mode }).spec_bytes(),
        Argument::CoReg(c) => byte_payload(c.spec_code()),
        Argument::StatusReg(s) => byte_payload(s.spec_code()),
        Argument::StatusMask(m) => (CStatusMask {
            control: m.control,
            extension: m.extension,
            flags: m.flags,
            reg: m.reg,
            status: m.status,
        }).spec_bytes(),
        Argument::Shift(s) => byte_payload(s.spec_code()),
        Argument::ShiftImm(si) => (CShiftImm { imm: si.imm, op: si.op }).spec_bytes(),
        Argument::ShiftReg(sr) => (CShiftReg { op: sr.op, reg: sr.reg }).spec_bytes(),
        Argument::UImm(u) => word_payload(u),
        Argument::SatImm(si) => word_payload(si),
        Argument::SImm(si) => word_payload(signed_word(si)),
        Argument::OffsetImm(oi) => (COffsetImm {
            post_indexed: oi.post_indexed,
            value: oi.value,
        }).spec_bytes(),
        Argument::OffsetReg(or) => (COffsetReg {
            add: or.add,
            post_indexed: or.post_indexed,
            reg: or.reg,
        }).spec_bytes(),
        Argument::BranchDest(bd) => word_payload(signed_word(bd)),
        Argument::CoOption(co) => word_payload(co),
        Argument::CoOpcode(co) => word_payload(co),
        Argument::CoprocNum(cn) => word_payload(cn),
        Argument::CpsrMode(cm) => (CCpsrMode {
            mode: cm.mode,
            writeback: cm.writeback,
        }).spec_bytes(),
        Argument::CpsrFlags(cf) => (CCpsrFlags {
            a: cf.a,
            enable: cf.enable,
            f: cf.f,
            i: cf.i,
        }).spec_bytes(),
        Argument::Endian(e) => byte_payload(e.spec_code()),
    }
}

/// The operand that a kind and a payload stand for: the payload is read as
/// the member that belongs to the kind, and as no other.
pub open spec fn operand_of(kind: ArgumentKind, payload: Seq<u8>) -> Argument {
    match kind {
        ArgumentKind::Absent => Argument::Absent,
        ArgumentKind::Reg => {
            let m = CReg::spec_read(payload);
            Argument::Reg(Reg { deref: m.deref, reg: m.reg, writeback: m.writeback })
        },
        ArgumentKind::RegList => {
            let m = CRegList::spec_read(payload);
            Argument::RegList(RegList { regs: m.regs, user_mode: m.user_mode })
        },
        ArgumentKind::CoReg => Argument::CoReg(CoReg::spec_from_code(payload[0])),
        ArgumentKind::StatusReg => Argument::StatusReg(StatusReg::spec_from_code(payload[0])),
        ArgumentKind::StatusMask => {
            let m = CStatusMask::spec_read(payload);
            Argument::StatusMask(
                StatusMask {
                    control: m.control,
                    extension: m.extension,
                    flags: m.flags,
                    reg: m.reg,
                    status: m.status,
                },
            )
        },
        ArgumentKind::Shift => Argument::Shift(Shift::spec_from_code(payload[0])),
        ArgumentKind::ShiftImm => {
            let m = CShiftImm::spec_read(payload);
            Argument::ShiftImm(ShiftImm { imm: m.imm, op: m.op })
        },
        ArgumentKind::ShiftReg => {
            let m = CShiftReg::spec_read(payload);
            Argument::ShiftReg(ShiftReg { op: m.op, reg: m.reg })
        },
        ArgumentKind::UImm => Argument::UImm(bytes_word(payload, 0)),
        ArgumentKind::SatImm => Argument::SatImm(bytes_word(payload, 0)),
        ArgumentKind::SImm => Argument::SImm(word_signed(bytes_word(payload, 0))),
        ArgumentKind::OffsetImm => {
            let m = COffsetImm::spec_read(payload);
            Argument::OffsetImm(OffsetImm { post_indexed: m.post_indexed, value: m.value })
        },
        ArgumentKind::OffsetReg => {
            let m = COffsetReg::spec_read(payload);
            Argument::OffsetReg(
                OffsetReg { add: m.add, post_indexed: m.post_indexed, reg: m.reg },
            )
        },
        ArgumentKind::BranchDest => Argument::BranchDest(word_signed(bytes_word(payload, 0))),
        ArgumentKind::CoOption => Argument::CoOption(bytes_word(payload, 0)),
        ArgumentKind::CoOpcode => Argument::CoOpcode(bytes_word(payload, 0)),
        ArgumentKind::CoprocNum => Argument::CoprocNum(bytes_word(payload, 0)),
        ArgumentKind::CpsrMode => {
            let m = CCpsrMode::spec_read(payload);
            Argument::CpsrMode(CpsrMode { mode: m.mode, writeback: m.writeback })
        },
        ArgumentKind::CpsrFlags => {
            let m = CCpsrFlags::spec_read(payload);
            Argument::CpsrFlags(CpsrFlags { a: m.a, enable: m.enable, f: m.f, i: m.i })
        },
        ArgumentKind::Endian => Argument::Endian(Endian::spec_from_code(payload[0])),
    }
}

/// A payload that holds one byte reads back as that byte.
proof fn lemma_byte_payload(byte: u8)
    ensures
        byte_payload(byte).len() == 8,
        byte_payload(byte)[0] == byte,
{
}

/// A payload that holds a 32-bit number reads back as that number.
proof fn lemma_word_payload(word: u32)
    ensures
        word_payload(word).len() == 8,
        bytes_word(word_payload(word), 0) == word,
{
}

/// Marshalling loses nothing: the kind and the payload of an operand, read
/// back by the kind, give the operand with every field as it was.
pub proof fn lemma_codec_round_trip(arg: Argument)
    ensures
        payload_of(arg).len() == 8,
        operand_of(kind_of(arg), payload_of(arg)) == arg,
{
    match arg {
        Argument::Absent => {
            (CReg { deref: false, reg: Register::Illegal, writeback: false }).lemma_round_trip();
        },
        Argument::Reg(r) => {
            (CReg { deref: r.deref, reg: r.reg, writeback: r.writeback }).lemma_round_trip();
        },
        Argument::RegList(l) => {
            (CRegList { regs: l.regs, user_mode: l.user_mode }).lemma_round_trip();
        },
        Argument::CoReg(c) => {
            lemma_byte_payload(c.spec_code());
            c.lemma_code_round_trip();
        },
        Argument::StatusReg(s) => {
            lemma_byte_payload(s.spec_code());
            s.lemma_code_round_trip();
        },
        Argument::StatusMask(m) => {
            (CStatusMask {
                control: m.control,
                extension: m.extension,
                flags: m.flags,
                reg: m.reg,
                status: m.status,
            }).lemma_round_trip();
        },
        Argument::Shift(s) => {
            lemma_byte_payload(s.spec_code());
            s.lemma_code_round_trip();
        },
        Argument::ShiftImm(si) => {
            (CShiftImm { imm: si.imm, op: si.op }).lemma_round_trip();
        },
        Argument::ShiftReg(sr) => {
            (CShiftReg { op: sr.op, reg: sr.reg }).lemma_round_trip();
        },
        Argument::UImm(u) => {
            lemma_word_payload(u);
        },
        Argument::SatImm(si) => {
            lemma_word_payload(si);
        },
        Argument::SImm(si) => {
            lemma_word_payload(signed_word(si));
            lemma_signed_round_trip(si);
        },
        Argument::OffsetImm(oi) => {
            (COffsetImm { post_indexed: oi.post_indexed, value: oi.value }).lemma_round_trip();
        },
        Argument::OffsetReg(or) => {
            (COffsetReg {
                add: or.add,
                post_indexed: or.post_indexed,
                reg: or.reg,
            }).lemma_round_trip();
        },
        Argument::BranchDest(bd) => {
            lemma_word_payload(signed_word(bd));
            lemma_signed_round_trip(bd);
        },
        Argument::CoOption(co) => {
            lemma_word_payload(co);
        },
        Argument::CoOpcode(co) => {
            lemma_word_payload(co);
        },
        Argument::CoprocNum(cn) => {
            lemma_word_payload(cn);
        },
        Argument::CpsrMode(cm) => {
            (CCpsrMode { mode: cm.mode, writeback: cm.writeback }).lemma_round_trip();
        },
        Argument::CpsrFlags(cf) => {
            (CCpsrFlags { a: cf.a, enable: cf.enable, f: cf.f, i: cf.i }).lemma_round_trip();
        },
        Argument::Endian(e) => {
            lemma_byte_payload(e.spec_code());
            e.lemma_code_round_trip();
        },
    }
}

/// Two operands with the same kind and the same payload are the same
/// operand.
pub proof fn lemma_codec_injective(a: Argument, b: Argument)
    requires
        kind_of(a) == kind_of(b),
        payload_of(a) == payload_of(b),
    ensures
        a == b,
{
    lemma_codec_round_trip(a);
    lemma_codec_round_trip(b);
}

/// One marshalled operand: a kind and the payload that belongs to it. The
/// view is the operand that it stands for.
#[derive(Clone, Copy, Debug, PartialEq, Eq)]
pub struct CArgument {
    kind: ArgumentKind,
    value: ArgumentValue,
}

impl View for CArgument {
    type V = Argument;

    closed spec fn view(&self) -> Argument {
        operand_of(self.kind, self.value@)
    }
}

impl CArgument {
    /// Kind and payload are those of the operand that the value stands for.
    #[verifier::type_invariant]
    closed spec fn well_formed(self) -> bool {
        &&& self.kind == kind_of(self@)
        &&& self.value@ == payload_of(self@)
    }

    /// The kind of the operand.
    pub fn kind(&self) -> (kind: ArgumentKind)
        ensures
            kind == kind_of(self@),
    {
        proof {
            use_type_invariant(self);
        }
        self.kind
    }

    /// The payload of the operand.
    pub fn value(&self) -> (value: ArgumentValue)
        ensures
            value@ == payload_of(self@),
    {
        proof {
            use_type_invariant(self);
        }
        self.value
    }

    /// The operand, read back from the payload by the kind.
    pub fn to_argument(&self) -> (arg: Argument)
        ensures
            arg == self@,
    {
        match self.kind {
            ArgumentKind::Absent => Argument::Absent,
            ArgumentKind::Reg => {
                let m = CReg::from_value(&self.value);
                Argument::Reg(Reg { deref: m.deref, reg: m.reg, writeback: m.writeback })
            },
            ArgumentKind::RegList => {
                let m = CRegList::from_value(&self.value);
                Argument::RegList(RegList { regs: m.regs, user_mode: m.user_mode })
            },
            ArgumentKind::CoReg => Argument::CoReg(CoReg::from_code(self.value.bytes[0])),
            ArgumentKind::StatusReg => Argument::StatusReg(
                StatusReg::from_code(self.value.bytes[0]),
            ),
            ArgumentKind::StatusMask => {
                let m = CStatusMask::from_value(&self.value);
                Argument::StatusMask(
                    StatusMask {
                        control: m.control,
                        extension: m.extension,
                        flags: m.flags,
                        reg: m.reg,
                        status: m.status,
                    },
                )
            },
            ArgumentKind::Shift => Argument::Shift(Shift::from_code(self.value.bytes[0])),
            ArgumentKind::ShiftImm => {
                let m = CShiftImm::from_value(&self.value);
                Argument::ShiftImm(ShiftImm { imm: m.imm, op: m.op })
            },
            ArgumentKind::ShiftReg => {
                let m = CShiftReg::from_value(&self.value);
                Argument::ShiftReg(ShiftReg { op: m.op, reg: m.reg })
            },
            ArgumentKind::UImm => Argument::UImm(self.value.word()),
            ArgumentKind::SatImm => Argument::SatImm(self.value.word()),
            ArgumentKind::SImm => Argument::SImm(self.value.signed()),
            ArgumentKind::OffsetImm => {
                let m = COffsetImm::from_value(&self.value);
                Argument::OffsetImm(OffsetImm { post_indexed: m.post_indexed, value: m.value })
            },
            ArgumentKind::OffsetReg => {
                let m = COffsetReg::from_value(&self.value);
                Argument::OffsetReg(
                    OffsetReg { add: m.add, post_indexed: m.post_indexed, reg: m.reg },
                )
            },
            ArgumentKind::BranchDest => Argument::BranchDest(self.value.signed()),
            ArgumentKind::CoOption => Argument::CoOption(self.value.word()),
            ArgumentKind::CoOpcode => Argument::CoOpcode(self.value.word()),
            ArgumentKind::CoprocNum => Argument::CoprocNum(self.value.word()),
            ArgumentKind::CpsrMode => {
                let m = CCpsrMode::from_value(&self.value);
                Argument::CpsrMode(CpsrMode { mode: m.mode, writeback: m.writeback })
            },
            ArgumentKind::CpsrFlags => {
                let m = CCpsrFlags::from_value(&self.value);
                Argument::CpsrFlags(CpsrFlags { a: m.a, enable: m.enable, f: m.f, i: m.i })
            },
            ArgumentKind::Endian => Argument::Endian(Endian::from_code(self.value.bytes[0])),
        }
    }
}

impl FromSpecImpl<Argument> for CArgument {
    open spec fn obeys_from_spec() -> bool {
        true
    }

    closed spec fn from_spec(arg: Argument) -> CArgument {
        CArgument { kind: kind_of(arg), value: ArgumentValue { bytes: payload_array(arg) } }
    }
}

/// The array whose elements are the payload bytes of an operand.
spec fn payload_array(arg: Argument) -> [u8; 8] {
    let p = payload_of(arg);
    [p[0], p[1], p[2], p[3], p[4], p[5], p[6], p[7]]
}

impl From<Argument> for CArgument {
    /// Marshals one operand: the kind is that of the operand, and each field
    /// of the operand is copied into the member of that kind.
    fn from(arg: Argument) -> (c: CArgument)
        ensures
            c@ == arg,
    {
        let (kind, value) = match arg {
            Argument::Absent => (ArgumentKind::Absent, CReg::default().to_value()),
            Argument::Reg(r) => (
                ArgumentKind::Reg,
                (CReg { deref: r.deref, reg: r.reg, writeback: r.writeback }).to_value(),
            ),
            Argument::RegList(l) => (
                ArgumentKind::RegList,
                (CRegList { regs: l.regs, user_mode: l.user_mode }).to_value(),
            ),
            Argument::CoReg(c) => (ArgumentKind::CoReg, ArgumentValue::from_byte(c.code())),
            Argument::StatusReg(s) => (ArgumentKind::StatusReg, ArgumentValue::from_byte(s.code())),
            Argument::StatusMask(m) => (
                ArgumentKind::StatusMask,
                (CStatusMask {
                    control: m.control,
                    extension: m.extension,
                    flags: m.flags,
                    reg: m.reg,
                    status: m.status,
                }).to_value(),
            ),
            Argument::Shift(s) => (ArgumentKind::Shift, ArgumentValue::from_byte(s.code())),
            Argument::ShiftImm(si) => (
                ArgumentKind::ShiftImm,
                (CShiftImm { imm: si.imm, op: si.op }).to_value(),
            ),
            Argument::ShiftReg(sr) => (
                ArgumentKind::ShiftReg,
                (CShiftReg { op: sr.op, reg: sr.reg }).to_value(),
            ),
            Argument::UImm(u) => (ArgumentKind::UImm, ArgumentValue::from_word(u)),
            Argument::SatImm(si) => (ArgumentKind::SatImm, ArgumentValue::from_word(si)),
            Argument::SImm(si) => (ArgumentKind::SImm, ArgumentValue::from_signed(si)),
            Argument::OffsetImm(oi) => (
                ArgumentKind::OffsetImm,
                (COffsetImm { post_indexed: oi.post_indexed, value: oi.value }).to_value(),
            ),
            Argument::OffsetReg(or) => (
                ArgumentKind::OffsetReg,
                (COffsetReg { add: or.add, post_indexed: or.post_indexed, reg: or.reg }).to_value(),
            ),
            Argument::BranchDest(bd) => (ArgumentKind::BranchDest, ArgumentValue::from_signed(bd)),
            Argument::CoOption(co) => (ArgumentKind::CoOption, ArgumentValue::from_word(co)),
            Argument::CoOpcode(co) => (ArgumentKind::CoOpcode, ArgumentValue::from_word(co)),
            Argument::CoprocNum(cn) => (ArgumentKind::CoprocNum, ArgumentValue::from_word(cn)),
            Argument::CpsrMode(cm) => (
                ArgumentKind::CpsrMode,
                (CCpsrMode { mode: cm.mode, writeback: cm.writeback }).to_value(),
            ),
            Argument::CpsrFlags(cf) => (
                ArgumentKind::CpsrFlags,
                (CCpsrFlags { a: cf.a, enable: cf.enable, f: cf.f, i: cf.i }).to_value(),
            ),
            Argument::Endian(e) => (ArgumentKind::Endian, ArgumentValue::from_byte(e.code())),
        };
        proof {
            assert(kind == kind_of(arg));
            assert(value@ == payload_of(arg));
            lemma_codec_round_trip(arg);
            assert(value.bytes =~= payload_array(arg));
        }
        CArgument { kind, value }
    }
}

} // verus!
