//! Device models behind the memory-mapped I/O windows, and the routing of
//! an access to the model that its window names.

use vstd::prelude::*;
use crate::address_space::{resolve, AddressSpace, Handler, Mapping, Target};
use crate::mmio::gpu::GpuState;
use crate::mmio::sdmmc::SdmmcState;
use crate::mmio::sdmmc_model::SdmmcModel;

pub mod generic;
pub mod gpu;
pub mod sdmmc;
pub mod sdmmc_laws;
pub mod sdmmc_model;

verus! {

/// The device models of one processor.
#[derive(Debug)]
pub struct EmulatorState {
    pub gpu: GpuState,
    pub sdmmc: SdmmcState,
}

impl EmulatorState {
    /// The devices after reset. `sd_attached` tells whether a backing image
    /// stands behind the card.
    pub fn new(sd_attached: bool) -> (r: Self)
        ensures
            r.gpu == GpuState::init(),
            r.sdmmc@ == SdmmcModel::init(sd_attached),
    {
        EmulatorState { gpu: GpuState::new(), sdmmc: SdmmcState::new(sd_attached) }
    }
}

/// The value that a read of `size` bytes at `offset` of a window of
/// `handler` returns.
pub open spec fn read_value(state: EmulatorState, handler: Handler, offset: u64) -> u64 {
    match handler {
        Handler::Generic => 0,
        Handler::Sdmmc => state.sdmmc@.read_value(offset as u32) as u64,
        Handler::Gpu => state.gpu.spec_read(offset as u32) as u64,
    }
}

/// Routes a read at `offset` of a window to the device model that the
/// window names, and returns the value read.
pub fn mmio_read(state: &mut EmulatorState, handler: Handler, offset: u64, size: usize) -> (value:
    u64)
    ensures
        value == read_value(*old(state), handler, offset),
        final(state).gpu == old(state).gpu,
        final(state).sdmmc@ == (match handler {
            Handler::Sdmmc => old(state).sdmmc@.read(offset as u32),
            _ => old(state).sdmmc@,
        }),
{
    match handler {
        Handler::Generic => generic::read_handler(state, offset, size),
        Handler::Sdmmc => sdmmc::read_handler(state, offset, size),
        Handler::Gpu => gpu::read_handler(state, offset, size),
    }
}

/// Routes a write at `offset` of a window to the device model that the
/// window names.
pub fn mmio_write(state: &mut EmulatorState, handler: Handler, offset: u64, size: usize, value: u64)
    ensures
        final(state).gpu == (match handler {
            Handler::Gpu => old(state).gpu.spec_write(offset as u32, value as u32),
            _ => old(state).gpu,
        }),
        final(state).sdmmc@ == (match handler {
            Handler::Sdmmc => old(state).sdmmc@.write(offset as u32, value as u32),
            _ => old(state).sdmmc@,
        }),
{
    match handler {
        Handler::Generic => generic::write_handler(state, offset, size, value),
        Handler::Sdmmc => sdmmc::write_handler(state, offset, size, value),
        Handler::Gpu => gpu::write_handler(state, offset, size, value),
    }
}

/// The device model and the offset that an access at `addr` reaches in an
/// address space, or `None` where the address belongs to no device.
pub open spec fn device_at(space: Seq<Mapping>, addr: u64) -> Option<
    (Handler, u64),
> {
    match resolve(space, addr) {
        Some((Target::Mmio(handler), offset)) => Some((handler, offset)),
        _ => None,
    }
}

/// Performs a read at `addr` of the I/O space of a processor: the device
/// whose window holds the address handles it, with the offset into the
/// window. `None`, and nothing done, where no device stands at the address.
pub fn dispatch_read(space: &AddressSpace, state: &mut EmulatorState, addr: u64, size: usize) -> (r:
    Option<u64>)
    ensures
        match device_at(space@, addr) {
            Some((handler, offset)) => {
                &&& r == Some(read_value(*old(state), handler, offset))
                &&& final(state).gpu == old(state).gpu
                &&& final(state).sdmmc@ == (match handler {
                    Handler::Sdmmc => old(state).sdmmc@.read(offset as u32),
                    _ => old(state).sdmmc@,
                })
            },
            None => r.is_none() && *final(state) == *old(state),
        },
{
    match space.resolve(addr) {
        Some((Target::Mmio(handler), offset)) => Some(mmio_read(state, handler, offset, size)),
        _ => None,
    }
}

/// Performs a write at `addr` of the I/O space of a processor. Returns
/// whether a device stands at the address; where none does, nothing is
/// done.
pub fn dispatch_write(
    space: &AddressSpace,
    state: &mut EmulatorState,
    addr: u64,
    size: usize,
    value: u64,
) -> (r: bool)
    ensures
        match device_at(space@, addr) {
            Some((handler, offset)) => {
                &&& r
                &&& final(state).gpu == (match handler {
                    Handler::Gpu => old(state).gpu.spec_write(offset as u32, value as u32),
                    _ => old(state).gpu,
                })
                &&& final(state).sdmmc@ == (match handler {
                    Handler::Sdmmc => old(state).sdmmc@.write(offset as u32, value as u32),
                    _ => old(state).sdmmc@,
                })
            },
            None => !r && *final(state) == *old(state),
        },
{
    match space.resolve(addr) {
        Some((Target::Mmio(handler), offset)) => {
            mmio_write(state, handler, offset, size, value);
            true
        },
        _ => false,
    }
}

} // verus!
