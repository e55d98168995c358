//! The system control coprocessor (CP15) of the ARM9, as far as firmware
//! needs it: the regions of tightly coupled memory and the control
//! register. Every CP15 instruction is skipped once it is handled.

use vstd::prelude::*;
use crate::cpu_types::ArmRegister;

verus! {

/// Length in bytes of an ARM instruction.
pub const ARM_INSN_SIZE: u64 = 4;

/// Which tightly coupled memory a region register configures.
#[derive(Clone, Copy, Debug, PartialEq, Eq, Structural)]
pub enum Tcm {
    /// Data memory.
    Dtcm,
    /// Instruction memory.
    Itcm,
}

/// A decoded coprocessor instruction.
#[derive(Clone, Copy, Debug, PartialEq, Eq, Structural)]
pub enum Cp15Op {
    /// `MCR p15, 0, Rd, c9, c1, {0, 1}`: configure a TCM region.
    TcmRegion { tcm: Tcm, rd: u32 },
    /// `MCR p15, 0, Rd, c1, c0, 0`: write the control register.
    Control { rd: u32 },
    /// Any other CP15 instruction: skipped.
    Unsupported { is_mcr: bool, rd: u32, crn: u32, crm: u32, opc2: u32 },
}

/// A TCM region as its register describes it.
#[derive(Clone, Copy, Debug, PartialEq, Eq, Structural)]
pub struct TcmRegion {
    /// First address of the region, a multiple of 4 KiB.
    pub base: u32,
    /// Length of the region in bytes.
    pub size: u32,
    /// The register's enable bit.
    pub enabled: bool,
}

/// The TCM enable bits of the control register.
#[derive(Clone, Copy, Debug, PartialEq, Eq, Structural)]
pub struct TcmEnables {
    pub dtcm: bool,
    pub itcm: bool,
}

/// What handling an instruction asks of the engine.
#[derive(Clone, Copy, Debug, PartialEq, Eq, Structural)]
pub struct Cp15Effect {
    /// The instruction that was handled; `None` where it is no CP15
    /// instruction, and nothing is to be done.
    pub op: Option<Cp15Op>,
    /// The region to map, whether or not its enable bit is set. A region
    /// that cannot be mapped is passed over.
    pub region: Option<TcmRegion>,
    /// The enable bits that a control register write carries.
    pub enables: Option<TcmEnables>,
    /// The address to go on at: one past the handled instruction.
    pub next_pc: Option<u64>,
}

/// The word is a CP15 instruction: a coprocessor register transfer on
/// coprocessor 15.
pub open spec fn spec_is_cp15(insn: u32) -> bool {
    (insn & 0x0F000000) == 0x0E000000 && (insn & 0x00000F00) == 0x00000F00
}

/// The operation that a CP15 instruction encodes.
pub open spec fn spec_decode(insn: u32) -> Cp15Op {
    let is_mcr = (insn & (1u32 << 20)) == 0;
    let crn = (insn >> 16) & 0xF;
    let crm = insn & 0xF;
    let opc2 = (insn >> 5) & 0x7;
    let rd = (insn >> 12) & 0xF;
    if is_mcr && crn == 9 && crm == 1 && opc2 == 0 {
        Cp15Op::TcmRegion { tcm: Tcm::Dtcm, rd }
    } else if is_mcr && crn == 9 && crm == 1 && opc2 == 1 {
        Cp15Op::TcmRegion { tcm: Tcm::Itcm, rd }
    } else if is_mcr && crn == 1 && crm == 0 && opc2 == 0 {
        Cp15Op::Control { rd }
    } else {
        Cp15Op::Unsupported { is_mcr, rd, crn, crm, opc2 }
    }
}

/// The region that a TCM region register describes: the base in bits 12
/// to 31, the size as 512 bytes shifted by bits 1 to 5, the enable bit in
/// bit 0.
pub open spec fn spec_tcm_region(reg_val: u32) -> TcmRegion {
    TcmRegion {
        base: reg_val & 0xFFFFF000,
        size: 512u32 << ((reg_val >> 1) & 0x1F),
        enabled: (reg_val & 1) == 1,
    }
}

/// The TCM enable bits of a control register value: bits 16 and 18.
pub open spec fn spec_tcm_enables(reg_val: u32) -> TcmEnables {
    TcmEnables { dtcm: (reg_val & 0x10000) != 0, itcm: (reg_val & 0x40000) != 0 }
}

/// The register whose value an instruction needs: the source register of
/// a TCM region or control register write, where it is one of R0 to R12.
/// Another source register reads as zero.
pub open spec fn spec_source_register(insn: u32) -> Option<ArmRegister> {
    if !spec_is_cp15(insn) {
        None
    } else {
        match spec_decode(insn) {
            Cp15Op::TcmRegion { tcm, rd } => if rd <= 12 {
                ArmRegister::spec_from_index(rd)
            } else {
                None
            },
            Cp15Op::Control { rd } => if rd <= 12 {
                ArmRegister::spec_from_index(rd)
            } else {
                None
            },
            Cp15Op::Unsupported { .. } => None,
        }
    }
}

/// What the instruction `insn` at `addr` asks of the engine, with
/// `reg_val` read from its source register.
pub open spec fn spec_handle(addr: u64, insn: u32, reg_val: u32) -> Cp15Effect {
    if !spec_is_cp15(insn) {
        Cp15Effect { op: None, region: None, enables: None, next_pc: None }
    } else {
        let op = spec_decode(insn);
        Cp15Effect {
            op: Some(op),
            region: match op {
                Cp15Op::TcmRegion { .. } => Some(spec_tcm_region(reg_val)),
                _ => None,
            },
            enables: match op {
                Cp15Op::Control { .. } => Some(spec_tcm_enables(reg_val)),
                _ => None,
            },
            next_pc: Some((addr + ARM_INSN_SIZE) as u64),
        }
    }
}

/// Tells whether a word is a CP15 instruction.
pub fn is_cp15(insn: u32) -> (r: bool)
    ensures
        r == spec_is_cp15(insn),
{
    (insn & 0x0F000000) == 0x0E000000 && (insn & 0x00000F00) == 0x00000F00
}

/// Decodes a CP15 instruction.
pub fn decode(insn: u32) -> (r: Cp15Op)
    ensures
        r == spec_decode(insn),
{
    let is_mcr = (insn & (1u32 << 20)) == 0;
    let crn = (insn >> 16) & 0xF;
    let crm = insn & 0xF;
    let opc2 = (insn >> 5) & 0x7;
    let rd = (insn >> 12) & 0xF;
    if is_mcr && crn == 9 && crm == 1 && opc2 == 0 {
        Cp15Op::TcmRegion { tcm: Tcm::Dtcm, rd }
    } else if is_mcr && crn == 9 && crm == 1 && opc2 == 1 {
        Cp15Op::TcmRegion { tcm: Tcm::Itcm, rd }
    } else if is_mcr && crn == 1 && crm == 0 && opc2 == 0 {
        Cp15Op::Control { rd }
    } else {
        Cp15Op::Unsupported { is_mcr, rd, crn, crm, opc2 }
    }
}

/// The region that a TCM region register describes.
pub fn handle_tcm_region_config(reg_val: u32) -> (r: TcmRegion)
    ensures
        r == spec_tcm_region(reg_val),
{
    let size_bits = (reg_val >> 1) & 0x1F;
    assert(((reg_val >> 1) & 0x1F) < 32) by (bit_vector);
    TcmRegion { base: reg_val & 0xFFFFF000, size: 512u32 << size_bits, enabled: (reg_val & 1) == 1 }
}

/// The TCM enable bits of a control register value.
pub fn handle_control_register(reg_val: u32) -> (r: TcmEnables)
    ensures
        r == spec_tcm_enables(reg_val),
{
    TcmEnables { dtcm: (reg_val & 0x10000) != 0, itcm: (reg_val & 0x40000) != 0 }
}

/// The register whose value the instruction needs, if it needs one.
pub fn read_arm_register(insn: u32) -> (r: Option<ArmRegister>)
    ensures
        r == spec_source_register(insn),
{
    if !is_cp15(insn) {
        return None;
    }
    let rd = match decode(insn) {
        Cp15Op::TcmRegion { tcm, rd } => rd,
        Cp15Op::Control { rd } => rd,
        Cp15Op::Unsupported { .. } => {
            return None;
        },
    };
    if rd <= 12 {
        ArmRegister::from_index(rd)
    } else {
        None
    }
}

/// Handles the instruction `insn` that the coprocessor is about to run at
/// `addr`. `reg_val` is the value of the register that
/// [`read_arm_register`] names, or zero where it names none.
pub fn handle_cp15_instruction(addr: u64, insn: u32, reg_val: u32) -> (r: Cp15Effect)
    requires
        addr + ARM_INSN_SIZE <= u64::MAX,
    ensures
        r == spec_handle(addr, insn, reg_val),
{
    if !is_cp15(insn) {
        return Cp15Effect { op: None, region: None, enables: None, next_pc: None };
    }
    let op = decode(insn);
    let region = match op {
        Cp15Op::TcmRegion { .. } => Some(handle_tcm_region_config(reg_val)),
        _ => None,
    };
    let enables = match op {
        Cp15Op::Control { .. } => Some(handle_control_register(reg_val)),
        _ => None,
    };
    Cp15Effect { op: Some(op), region, enables, next_pc: Some(addr + ARM_INSN_SIZE) }
}

} // verus!
