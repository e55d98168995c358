//! Names of the processor's registers.

use vstd::prelude::*;

verus! {

/// The general-purpose and special registers of an ARM processor.
#[derive(Clone, Copy, Debug, PartialEq, Eq, Structural)]
pub enum ArmRegister {
    R0,
    R1,
    R2,
    R3,
    R4,
    R5,
    R6,
    R7,
    R8,
    R9,
    R10,
    R11,
    R12,
    /// The stack pointer.
    R13,
    /// The link register.
    R14,
    /// The program counter.
    R15,
    CPSR,
}

impl ArmRegister {
    /// The register that an instruction's four-bit register field names.
    pub open spec fn spec_from_index(index: u32) -> Option<ArmRegister> {
        if index == 0 {
            Some(ArmRegister::R0)
        } else if index == 1 {
            Some(ArmRegister::R1)
        } else if index == 2 {
            Some(ArmRegister::R2)
        } else if index == 3 {
            Some(ArmRegister::R3)
        } else if index == 4 {
            Some(ArmRegister::R4)
        } else if index == 5 {
            Some(ArmRegister::R5)
        } else if index == 6 {
            Some(ArmRegister::R6)
        } else if index == 7 {
            Some(ArmRegister::R7)
        } else if index == 8 {
            Some(ArmRegister::R8)
        } else if index == 9 {
            Some(ArmRegister::R9)
        } else if index == 10 {
            Some(ArmRegister::R10)
        } else if index == 11 {
            Some(ArmRegister::R11)
        } else if index == 12 {
            Some(ArmRegister::R12)
        } else if index == 13 {
            Some(ArmRegister::R13)
        } else if index == 14 {
            Some(ArmRegister::R14)
        } else if index == 15 {
            Some(ArmRegister::R15)
        } else {
            None
        }
    }

    /// The register that an instruction's four-bit register field names.
    pub fn from_index(index: u32) -> (r: Option<ArmRegister>)
        ensures
            r == ArmRegister::spec_from_index(index),
    {
        if index == 0 {
            Some(ArmRegister::R0)
        } else if index == 1 {
            Some(ArmRegister::R1)
        } else if index == 2 {
            Some(ArmRegister::R2)
        } else if index == 3 {
            Some(ArmRegister::R3)
        } else if index == 4 {
            Some(ArmRegister::R4)
        } else if index == 5 {
            Some(ArmRegister::R5)
        } else if index == 6 {
            Some(ArmRegister::R6)
        } else if index == 7 {
            Some(ArmRegister::R7)
        } else if index == 8 {
            Some(ArmRegister::R8)
        } else if index == 9 {
            Some(ArmRegister::R9)
        } else if index == 10 {
            Some(ArmRegister::R10)
        } else if index == 11 {
            Some(ArmRegister::R11)
        } else if index == 12 {
            Some(ArmRegister::R12)
        } else if index == 13 {
            Some(ArmRegister::R13)
        } else if index == 14 {
            Some(ArmRegister::R14)
        } else if index == 15 {
            Some(ArmRegister::R15)
        } else {
            None
        }
    }
}

} // verus!
