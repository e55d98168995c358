//! The device model of the I/O windows that have none of their own: reads
//! return zero and writes are ignored.

use vstd::prelude::*;
use crate::mmio::EmulatorState;

verus! {

/// Handles a read anywhere in a window without a device model.
pub fn read_handler(_state: &mut EmulatorState, _addr: u64, _size: usize) -> (value: u64)
    ensures
        value == 0,
        *final(_state) == *old(_state),
{
    0
}

/// Handles a write anywhere in a window without a device model.
pub fn write_handler(_state: &mut EmulatorState, _addr: u64, _size: usize, _value: u64)
    ensures
        *final(_state) == *old(_state),
{
}

} // verus!
