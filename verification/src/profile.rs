//! The decoder configurations of the two supported CPU variants.

use vstd::prelude::*;

verus! {

/// Version of the instruction set that the decoder accepts.
#[derive(Clone, Copy, Debug, PartialEq, Eq, Structural)]
pub enum ArmVersion {
    V4T,
    V5Te,
    V6K,
}

/// What the decoder is told about the code it reads: the instruction-set
/// version, and whether mnemonics follow the unified assembly dialect.
#[derive(Clone, Copy, Debug, PartialEq, Eq, Structural)]
pub struct ParseFlags {
    pub ual: bool,
    pub version: ArmVersion,
}

/// One of the two CPU variants. A profile is chosen when an instruction or a
/// parser is made and stays with it.
#[derive(Clone, Copy, Debug, PartialEq, Eq, Structural)]
pub enum Profile {
    Arm9,
    Arm7,
}

impl Profile {
    /// The decoder configuration of this CPU variant.
    pub open spec fn spec_flags(self) -> ParseFlags {
        match self {
            Profile::Arm9 => ParseFlags { ual: false, version: ArmVersion::V5Te },
            Profile::Arm7 => ParseFlags { ual: false, version: ArmVersion::V4T },
        }
    }

    /// The decoder configuration of this CPU variant: ARMv5TE for the ARM9,
    /// ARMv4T for the ARM7, and the divided assembly dialect for both.
    #[verifier::when_used_as_spec(spec_flags)]
    pub fn flags(self) -> (flags: ParseFlags)
        ensures
            flags == self.spec_flags(),
    {
        match self {
            Profile::Arm9 => ParseFlags { ual: false, version: ArmVersion::V5Te },
            Profile::Arm7 => ParseFlags { ual: false, version: ArmVersion::V4T },
        }
    }
}

} // verus!
