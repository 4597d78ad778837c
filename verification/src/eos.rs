//! End-of-string (EOS) termination policy and its driver encoding.
//!
//! The driver takes a single integer for its EOS-mode parameter: the bitwise
//! OR of up to three flag bits with the terminator byte in the low eight
//! bits. The flag bits sit above the byte, so the two halves never collide.

use vstd::prelude::*;

verus! {

/// Driver bit asserted to terminate a read when the terminator byte arrives.
pub const REOS: i32 = 0x400;

/// Driver bit asserted to end a write when the terminator byte is sent.
pub const XEOS: i32 = 0x800;

/// Driver bit asserted to compare all eight bits of the terminator byte
/// rather than only its low seven.
pub const BIN: i32 = 0x1000;

/// The set of EOS flags to assert; each flag is independent of the others
/// and of the terminator byte, and no combination is invalid.
#[derive(Clone, Copy, Debug, PartialEq, Eq, Structural)]
pub struct EoSModeFlags {
    pub reos: bool,
    pub xeos: bool,
    pub bin: bool,
}

/// The driver bit pattern of a flag set: the OR of the bits of the flags it
/// asserts.
pub open spec fn spec_flag_bits(flags: EoSModeFlags) -> i32 {
    (if flags.reos {
        REOS
    } else {
        0
    }) | (if flags.xeos {
        XEOS
    } else {
        0
    }) | (if flags.bin {
        BIN
    } else {
        0
    })
}

impl EoSModeFlags {
    /// The flag set that asserts nothing.
    pub fn empty() -> (r: Self)
        ensures
            r == (EoSModeFlags { reos: false, xeos: false, bin: false }),
    {
        EoSModeFlags { reos: false, xeos: false, bin: false }
    }

    /// The driver bit pattern of this flag set.
    pub fn bits(&self) -> (r: i32)
        ensures
            r == spec_flag_bits(*self),
    {
        let reos_bit: i32 = if self.reos {
            REOS
        } else {
            0
        };
        let xeos_bit: i32 = if self.xeos {
            XEOS
        } else {
            0
        };
        let bin_bit: i32 = if self.bin {
            BIN
        } else {
            0
        };
        reos_bit | xeos_bit | bin_bit
    }
}

/// An end-of-string termination policy: which flags to assert, and the
/// terminator byte they refer to.
#[derive(Clone, Copy, Debug, PartialEq, Eq, Structural)]
pub struct EoS {
    pub flags: EoSModeFlags,
    pub character: u8,
}

/// The single integer the driver expects for a policy: the OR of the
/// selected flag bits with the terminator byte as an unsigned value in the
/// low bits.
pub open spec fn spec_eos_encode(flags: EoSModeFlags, character: u8) -> i32 {
    spec_flag_bits(flags) | (character as i32)
}

/// The EOS-mode integer for an optional policy: no policy encodes to zero,
/// which the driver reads as its default handling.
pub open spec fn spec_eos_mode(eosmode: Option<EoS>) -> i32 {
    match eosmode {
        Some(mode) => spec_eos_encode(mode.flags, mode.character),
        None => 0,
    }
}

impl EoS {
    /// A policy from an explicit flag set and terminator byte.
    pub fn new(flags: EoSModeFlags, character: u8) -> (r: Self)
        ensures
            r.flags == flags,
            r.character == character,
    {
        EoS { flags, character }
    }

    /// A policy from one boolean per flag and the terminator byte.
    pub fn new_alt(reos: bool, xeos: bool, bin: bool, character: u8) -> (r: Self)
        ensures
            r.flags == (EoSModeFlags { reos, xeos, bin }),
            r.character == character,
    {
        EoS { flags: EoSModeFlags { reos, xeos, bin }, character }
    }

    /// Encode this policy as the driver's EOS-mode integer. Any flag
    /// combination and any terminator byte is accepted.
    pub fn encode(&self) -> (r: i32)
        ensures
            r == spec_eos_encode(self.flags, self.character),
    {
        self.flags.bits() | (self.character as i32)
    }
}

} // verus!
