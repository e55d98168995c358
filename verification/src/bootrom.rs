//! The boot ROM of the coprocessor: firmware may branch to its functions.
//! None of them is emulated; each returns to its caller at once.

use vstd::prelude::*;

verus! {

/// First address of the boot ROM window.
pub const ARM9_REGION_START: u32 = 0xFFFF_0000;

/// Last address of the boot ROM window.
pub const ARM9_REGION_END: u32 = 0xFFFF_FFFF;

/// Length in bytes of the boot ROM window.
pub const ARM9_REGION_LEN: u32 = (ARM9_REGION_END - ARM9_REGION_START) + 1;

/// Offset of the function that waits a number of cycles.
pub const WAIT_CYCLES_FN_ADDR_OFFSET: u32 = 0x0198;

/// A function of the boot ROM.
#[derive(Clone, Copy, Debug, PartialEq, Eq, Structural)]
pub enum BootromFunction {
    /// Waits a number of cycles; here it returns at once.
    WaitCycles,
    /// No known function starts at this offset.
    Unknown { offset: u32 },
}

/// What the engine is to do for an instruction in the boot ROM.
#[derive(Clone, Copy, Debug, PartialEq, Eq, Structural)]
pub struct BootromCall {
    /// The function that was called.
    pub function: BootromFunction,
    /// The address to go on at: the caller's return address.
    pub next_pc: u64,
}

/// The function that starts at an address of the boot ROM.
pub open spec fn function_at(addr: u32) -> BootromFunction {
    if addr % 0x1_0000 == WAIT_CYCLES_FN_ADDR_OFFSET {
        BootromFunction::WaitCycles
    } else {
        BootromFunction::Unknown { offset: addr % 0x1_0000 }
    }
}

/// Handles an instruction fetch at `addr` in the boot ROM, with `lr` in
/// the link register: whatever function stands there, it returns to its
/// caller.
pub fn handle_instruction(addr: u32, lr: u64) -> (r: BootromCall)
    ensures
        r == (BootromCall { function: function_at(addr), next_pc: lr }),
{
    let addr_offset = addr % 0x1_0000;
    let function = if addr_offset == WAIT_CYCLES_FN_ADDR_OFFSET {
        BootromFunction::WaitCycles
    } else {
        BootromFunction::Unknown { offset: addr_offset }
    };
    BootromCall { function, next_pc: lr }
}

} // verus!
