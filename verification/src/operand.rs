//! The operands of a decoded instruction, as the decoder reports them.
//!
//! Every small enum here has a one-byte code. `code` gives it, and
//! `from_code` reads one back; a byte that is no code reads as `Illegal`.

use vstd::prelude::*;

verus! {

/// General-purpose register.
#[derive(Clone, Copy, Debug, PartialEq, Eq, Structural)]
pub enum Register {
    Illegal,
    R0,
    R1,
    R2,
    R3,
    R4,
    R5,
    R6,
    R7,
    R8,
    R9,
    R10,
    R11,
    R12,
    Sp,
    Lr,
    Pc,
}

impl Register {
    /// The one-byte code.
    pub open spec fn spec_code(self) -> u8 {
        match self {
            Register::Illegal => 255,
            Register::R0 => 0,
            Register::R1 => 1,
            Register::R2 => 2,
            Register::R3 => 3,
            Register::R4 => 4,
            Register::R5 => 5,
            Register::R6 => 6,
            Register::R7 => 7,
            Register::R8 => 8,
            Register::R9 => 9,
            Register::R10 => 10,
            Register::R11 => 11,
            Register::R12 => 12,
            Register::Sp => 13,
            Register::Lr => 14,
            Register::Pc => 15,
        }
    }

    /// The value that a byte stands for.
    pub open spec fn spec_from_code(code: u8) -> Register {
        match code {
            0 => Register::R0,
            1 => Register::R1,
            2 => Register::R2,
            3 => Register::R3,
            4 => Register::R4,
            5 => Register::R5,
            6 => Register::R6,
            7 => Register::R7,
            8 => Register::R8,
            9 => Register::R9,
            10 => Register::R10,
            11 => Register::R11,
            12 => Register::R12,
            13 => Register::Sp,
            14 => Register::Lr,
            15 => Register::Pc,
            _ => Register::Illegal,
        }
    }

    /// The register's number, 255 for `Illegal`.
    #[verifier::when_used_as_spec(spec_code)]
    pub fn code(self) -> (code: u8)
        ensures
            code == self.spec_code(),
    {
        match self {
            Register::Illegal => 255,
            Register::R0 => 0,
            Register::R1 => 1,
            Register::R2 => 2,
            Register::R3 => 3,
            Register::R4 => 4,
            Register::R5 => 5,
            Register::R6 => 6,
            Register::R7 => 7,
            Register::R8 => 8,
            Register::R9 => 9,
            Register::R10 => 10,
            Register::R11 => 11,
            Register::R12 => 12,
            Register::Sp => 13,
            Register::Lr => 14,
            Register::Pc => 15,
        }
    }

    /// The register with the given number; `Illegal` above 15.
    #[verifier::when_used_as_spec(spec_from_code)]
    pub fn from_code(code: u8) -> (reg: Register)
        ensures
            reg == Register::spec_from_code(code),
    {
        match code {
            0 => Register::R0,
            1 => Register::R1,
            2 => Register::R2,
            3 => Register::R3,
            4 => Register::R4,
            5 => Register::R5,
            6 => Register::R6,
            7 => Register::R7,
            8 => Register::R8,
            9 => Register::R9,
            10 => Register::R10,
            11 => Register::R11,
            12 => Register::R12,
            13 => Register::Sp,
            14 => Register::Lr,
            15 => Register::Pc,
            _ => Register::Illegal,
        }
    }

    /// Reading a register's code gives the register back.
    pub proof fn lemma_code_round_trip(self)
        ensures
            Register::spec_from_code(self.spec_code()) == self,
    {
    }
}

impl Default for Register {
    fn default() -> (reg: Register)
        ensures
            reg == Register::Illegal,
    {
        Register::Illegal
    }
}

/// Coprocessor register.
#[derive(Clone, Copy, Debug, PartialEq, Eq, Structural)]
pub enum CoReg {
    Illegal,
    C0,
    C1,
    C2,
    C3,
    C4,
    C5,
    C6,
    C7,
    C8,
    C9,
    C10,
    C11,
    C12,
    C13,
    C14,
    C15,
}

impl CoReg {
    /// The one-byte code.
    pub open spec fn spec_code(self) -> u8 {
        match self {
            CoReg::Illegal => 255,
            CoReg::C0 => 0,
            CoReg::C1 => 1,
            CoReg::C2 => 2,
            CoReg::C3 => 3,
            CoReg::C4 => 4,
            CoReg::C5 => 5,
            CoReg::C6 => 6,
            CoReg::C7 => 7,
            CoReg::C8 => 8,
            CoReg::C9 => 9,
            CoReg::C10 => 10,
            CoReg::C11 => 11,
            CoReg::C12 => 12,
            CoReg::C13 => 13,
            CoReg::C14 => 14,
            CoReg::C15 => 15,
        }
    }

    /// The value that a byte stands for.
    pub open spec fn spec_from_code(code: u8) -> CoReg {
        match code {
            0 => CoReg::C0,
            1 => CoReg::C1,
            2 => CoReg::C2,
            3 => CoReg::C3,
            4 => CoReg::C4,
            5 => CoReg::C5,
            6 => CoReg::C6,
            7 => CoReg::C7,
            8 => CoReg::C8,
            9 => CoReg::C9,
            10 => CoReg::C10,
            11 => CoReg::C11,
            12 => CoReg::C12,
            13 => CoReg::C13,
            14 => CoReg::C14,
            15 => CoReg::C15,
            _ => CoReg::Illegal,
        }
    }

    /// The register's number, 255 for `Illegal`.
    #[verifier::when_used_as_spec(spec_code)]
    pub fn code(self) -> (code: u8)
        ensures
            code == self.spec_code(),
    {
        match self {
            CoReg::Illegal => 255,
            CoReg::C0 => 0,
            CoReg::C1 => 1,
            CoReg::C2 => 2,
            CoReg::C3 => 3,
            CoReg::C4 => 4,
            CoReg::C5 => 5,
            CoReg::C6 => 6,
            CoReg::C7 => 7,
            CoReg::C8 => 8,
            CoReg::C9 => 9,
            CoReg::C10 => 10,
            CoReg::C11 => 11,
            CoReg::C12 => 12,
            CoReg::C13 => 13,
            CoReg::C14 => 14,
            CoReg::C15 => 15,
        }
    }

    /// The coprocessor register with the given number; `Illegal` above 15.
    #[verifier::when_used_as_spec(spec_from_code)]
    pub fn from_code(code: u8) -> (reg: CoReg)
        ensures
            reg == CoReg::spec_from_code(code),
    {
        match code {
            0 => CoReg::C0,
            1 => CoReg::C1,
            2 => CoReg::C2,
            3 => CoReg::C3,
            4 => CoReg::C4,
            5 => CoReg::C5,
            6 => CoReg::C6,
            7 => CoReg::C7,
            8 => CoReg::C8,
            9 => CoReg::C9,
            10 => CoReg::C10,
            11 => CoReg::C11,
            12 => CoReg::C12,
            13 => CoReg::C13,
            14 => CoReg::C14,
            15 => CoReg::C15,
            _ => CoReg::Illegal,
        }
    }

    /// Reading a coprocessor register's code gives the register back.
    pub proof fn lemma_code_round_trip(self)
        ensures
            CoReg::spec_from_code(self.spec_code()) == self,
    {
    }
}

impl Default for CoReg {
    fn default() -> (reg: CoReg)
        ensures
            reg == CoReg::Illegal,
    {
        CoReg::Illegal
    }
}

/// Status register.
#[derive(Clone, Copy, Debug, PartialEq, Eq, Structural)]
pub enum StatusReg {
    Illegal,
    Cpsr,
    Spsr,
}

impl StatusReg {
    /// The one-byte code.
    pub open spec fn spec_code(self) -> u8 {
        match self {
            StatusReg::Illegal => 255,
            StatusReg::Cpsr => 0,
            StatusReg::Spsr => 1,
        }
    }

    /// The value that a byte stands for.
    pub open spec fn spec_from_code(code: u8) -> StatusReg {
        match code {
            0 => StatusReg::Cpsr,
            1 => StatusReg::Spsr,
            _ => StatusReg::Illegal,
        }
    }

    /// The register's number, 255 for `Illegal`.
    #[verifier::when_used_as_spec(spec_code)]
    pub fn code(self) -> (code: u8)
        ensures
            code == self.spec_code(),
    {
        match self {
            StatusReg::Illegal => 255,
            StatusReg::Cpsr => 0,
            StatusReg::Spsr => 1,
        }
    }

    /// The status register with the given number; `Illegal` above 1.
    #[verifier::when_used_as_spec(spec_from_code)]
    pub fn from_code(code: u8) -> (reg: StatusReg)
        ensures
            reg == StatusReg::spec_from_code(code),
    {
        match code {
            0 => StatusReg::Cpsr,
            1 => StatusReg::Spsr,
            _ => StatusReg::Illegal,
        }
    }

    /// Reading a status register's code gives the register back.
    pub proof fn lemma_code_round_trip(self)
        ensures
            StatusReg::spec_from_code(self.spec_code()) == self,
    {
    }
}

impl Default for StatusReg {
    fn default() -> (reg: StatusReg)
        ensures
            reg == StatusReg::Illegal,
    {
        StatusReg::Illegal
    }
}

/// Shift operation.
#[derive(Clone, Copy, Debug, PartialEq, Eq, Structural)]
pub enum Shift {
    Illegal,
    /// Logical shift left
    Lsl,
    /// Logical shift right
    Lsr,
    /// Arithmetic shift right
    Asr,
    /// Rotate right
    Ror,
    /// Rotate right and extend
    Rrx,
}

impl Shift {
    /// The one-byte code.
    pub open spec fn spec_code(self) -> u8 {
        match self {
            Shift::Illegal => 255,
            Shift::Lsl => 0,
            Shift::Lsr => 1,
            Shift::Asr => 2,
            Shift::Ror => 3,
            Shift::Rrx => 4,
        }
    }

    /// The value that a byte stands for.
    pub open spec fn spec_from_code(code: u8) -> Shift {
        match code {
            0 => Shift::Lsl,
            1 => Shift::Lsr,
            2 => Shift::Asr,
            3 => Shift::Ror,
            4 => Shift::Rrx,
            _ => Shift::Illegal,
        }
    }

    /// The operation's number, 255 for `Illegal`.
    #[verifier::when_used_as_spec(spec_code)]
    pub fn code(self) -> (code: u8)
        ensures
            code == self.spec_code(),
    {
        match self {
            Shift::Illegal => 255,
            Shift::Lsl => 0,
            Shift::Lsr => 1,
            Shift::Asr => 2,
            Shift::Ror => 3,
            Shift::Rrx => 4,
        }
    }

    /// The shift operation with the given number; `Illegal` above 4.
    #[verifier::when_used_as_spec(spec_from_code)]
    pub fn from_code(code: u8) -> (op: Shift)
        ensures
            op == Shift::spec_from_code(code),
    {
        match code {
            0 => Shift::Lsl,
            1 => Shift::Lsr,
            2 => Shift::Asr,
            3 => Shift::Ror,
            4 => Shift::Rrx,
            _ => Shift::Illegal,
        }
    }

    /// Reading a shift operation's code gives the operation back.
    pub proof fn lemma_code_round_trip(self)
        ensures
            Shift::spec_from_code(self.spec_code()) == self,
    {
    }
}

impl Default for Shift {
    fn default() -> (op: Shift)
        ensures
            op == Shift::Illegal,
    {
        Shift::Illegal
    }
}

/// Byte order named by an instruction that sets it.
#[derive(Clone, Copy, Debug, PartialEq, Eq, Structural)]
pub enum Endian {
    Illegal,
    /// Little-endian
    Le,
    /// Big-endian
    Be,
}

impl Endian {
    /// The one-byte code.
    pub open spec fn spec_code(self) -> u8 {
        match self {
            Endian::Illegal => 255,
            Endian::Le => 0,
            Endian::Be => 1,
        }
    }

    /// The value that a byte stands for.
    pub open spec fn spec_from_code(code: u8) -> Endian {
        match code {
            0 => Endian::Le,
            1 => Endian::Be,
            _ => Endian::Illegal,
        }
    }

    /// The byte order's number, 255 for `Illegal`.
    #[verifier::when_used_as_spec(spec_code)]
    pub fn code(self) -> (code: u8)
        ensures
            code == self.spec_code(),
    {
        match self {
            Endian::Illegal => 255,
            Endian::Le => 0,
            Endian::Be => 1,
        }
    }

    /// The byte order with the given number; `Illegal` above 1.
    #[verifier::when_used_as_spec(spec_from_code)]
    pub fn from_code(code: u8) -> (endian: Endian)
        ensures
            endian == Endian::spec_from_code(code),
    {
        match code {
            0 => Endian::Le,
            1 => Endian::Be,
            _ => Endian::Illegal,
        }
    }

    /// Reading a byte order's code gives the byte order back.
    pub proof fn lemma_code_round_trip(self)
        ensures
            Endian::spec_from_code(self.spec_code()) == self,
    {
    }
}

impl Default for Endian {
    fn default() -> (endian: Endian)
        ensures
            endian == Endian::Illegal,
    {
        Endian::Illegal
    }
}

/// Register operand.
#[derive(Clone, Copy, Debug, PartialEq, Eq, Structural)]
pub struct Reg {
    /// Use as base register
    pub deref: bool,
    pub reg: Register,
    /// When used as a base register, update this register's value
    pub writeback: bool,
}

/// List of general-purpose registers.
#[derive(Clone, Copy, Debug, PartialEq, Eq, Structural)]
pub struct RegList {
    /// Bitfield of registers
    pub regs: u32,
    /// Access user-mode registers from elevated mode
    pub user_mode: bool,
}

/// Status register with the fields that an instruction writes.
#[derive(Clone, Copy, Debug, PartialEq, Eq, Structural)]
pub struct StatusMask {
    pub control: bool,
    pub extension: bool,
    pub flags: bool,
    pub reg: StatusReg,
    pub status: bool,
}

/// Shift by an immediate.
#[derive(Clone, Copy, Debug, PartialEq, Eq, Structural)]
pub struct ShiftImm {
    pub imm: u32,
    pub op: Shift,
}

/// Shift by a register.
#[derive(Clone, Copy, Debug, PartialEq, Eq, Structural)]
pub struct ShiftReg {
    pub op: Shift,
    pub reg: Register,
}

/// Signed immediate offset.
#[derive(Clone, Copy, Debug, PartialEq, Eq, Structural)]
pub struct OffsetImm {
    /// Add the offset to the base register after dereferencing it
    pub post_indexed: bool,
    pub value: i32,
}

/// Register offset.
#[derive(Clone, Copy, Debug, PartialEq, Eq, Structural)]
pub struct OffsetReg {
    /// Add the offset to the base register, otherwise subtract
    pub add: bool,
    /// Add the offset to the base register after dereferencing it
    pub post_indexed: bool,
    pub reg: Register,
}

/// Processor mode that an instruction switches to.
#[derive(Clone, Copy, Debug, PartialEq, Eq, Structural)]
pub struct CpsrMode {
    pub mode: u32,
    pub writeback: bool,
}

/// Interrupt flags that an instruction enables or disables.
#[derive(Clone, Copy, Debug, PartialEq, Eq, Structural)]
pub struct CpsrFlags {
    /// Imprecise data abort
    pub a: bool,
    /// Enable the flags that are set, otherwise disable them
    pub enable: bool,
    /// FIQ interrupt
    pub f: bool,
    /// IRQ interrupt
    pub i: bool,
}

/// One operand of a decoded instruction.
#[derive(Clone, Copy, Debug, PartialEq, Eq, Structural)]
pub enum Argument {
    /// No operand in this position
    Absent,
    Reg(Reg),
    RegList(RegList),
    CoReg(CoReg),
    StatusReg(StatusReg),
    StatusMask(StatusMask),
    Shift(Shift),
    ShiftImm(ShiftImm),
    ShiftReg(ShiftReg),
    UImm(u32),
    SatImm(u32),
    SImm(i32),
    OffsetImm(OffsetImm),
    OffsetReg(OffsetReg),
    BranchDest(i32),
    CoOption(u32),
    CoOpcode(u32),
    CoprocNum(u32),
    CpsrMode(CpsrMode),
    CpsrFlags(CpsrFlags),
    Endian(Endian),
}

impl Default for Argument {
    fn default() -> (arg: Argument)
        ensures
            arg == Argument::Absent,
    {
        Argument::Absent
    }
}

} // verus!
