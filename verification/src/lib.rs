//! Core of an emulator for a handheld with two processors: a security and
//! I/O coprocessor (ARM9) and an application processor (ARM11) that share
//! physical memory.
//!
//! The library holds the platform: the memory maps of both processors and
//! the memory behind them, the device models behind the I/O windows, the
//! firmware container, and the scheduler that interleaves the two
//! instruction streams. The instruction engine itself is not part of it: to
//! the library an engine is a function from the run that is asked of it to
//! what it reports.

pub mod address_space;
pub mod args;
pub mod bootrom;
pub mod bytes;
pub mod cp15;
pub mod emulator;
pub mod cpu_types;
pub mod display;
pub mod firm;
pub mod memory;
pub mod mmio;
pub mod scheduler;

pub use args::Args;
pub use cpu_types::ArmRegister;
pub use emulator::{EmulatorConfig, EmulatorCore, StopReason};
pub use mmio::gpu::{GpuState, PixelFormat};
pub use mmio::sdmmc::SdmmcState;
pub use mmio::EmulatorState;
pub use scheduler::{QuantumResult, SchedulerConfig};
