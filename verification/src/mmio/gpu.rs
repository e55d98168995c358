//! The framebuffer registers of the application processor: a latch store
//! that a renderer polls. Every register reads as the word that was last
//! written to it; of a format register the pixel format that the word
//! selects is kept beside the word.
//!
//! The framebuffers themselves lie in memory, stored as columns: a screen
//! of 400 by 240 pixels is held as 240 columns of 400 pixels.

use vstd::prelude::*;
use vstd::std_specs::convert::FromSpecImpl;
use crate::mmio::EmulatorState;

verus! {

/// First address of the register window.
pub const GPU_MMIO_BASE: u32 = 0x10400000;

/// One past the last address of the register window.
pub const GPU_MMIO_END: u32 = 0x10500000;

// Register offsets inside the window.
pub const FRAMEBUFFER_TOP_LEFT: u32 = 0x468;
pub const FRAMEBUFFER_TOP_FORMAT: u32 = 0x470;
pub const FRAMEBUFFER_TOP_STRIDE: u32 = 0x490;
pub const FRAMEBUFFER_TOP_RIGHT: u32 = 0x494;
pub const FRAMEBUFFER_BOTTOM_LEFT: u32 = 0x568;
pub const FRAMEBUFFER_BOTTOM_FORMAT: u32 = 0x570;
pub const FRAMEBUFFER_BOTTOM_STRIDE: u32 = 0x590;

/// Pixel format of a framebuffer: the low three bits of a format register.
#[derive(Clone, Copy, Debug, PartialEq, Eq, Structural)]
pub enum PixelFormat {
    /// 32 bits, 8 per component.
    Rgba8,
    /// 24 bits, 8 per component.
    Rgb8,
    /// 16 bits, 5-6-5.
    Rgb565,
    /// 16 bits, 5-5-5 and one bit of alpha.
    Rgb5A1,
    /// 16 bits, 4 per component.
    Rgba4,
    /// None of the above.
    Unknown,
}

/// The format that a register value selects.
pub open spec fn format_of(value: u32) -> PixelFormat {
    let bits = value & 0x7;
    if bits == 0 {
        PixelFormat::Rgba8
    } else if bits == 1 {
        PixelFormat::Rgb8
    } else if bits == 2 {
        PixelFormat::Rgb565
    } else if bits == 3 {
        PixelFormat::Rgb5A1
    } else if bits == 4 {
        PixelFormat::Rgba4
    } else {
        PixelFormat::Unknown
    }
}

impl PixelFormat {
    /// The number that a format register reads as.
    pub open spec fn spec_code(self) -> u32 {
        match self {
            PixelFormat::Rgba8 => 0,
            PixelFormat::Rgb8 => 1,
            PixelFormat::Rgb565 => 2,
            PixelFormat::Rgb5A1 => 3,
            PixelFormat::Rgba4 => 4,
            PixelFormat::Unknown => 0xFF,
        }
    }

    /// The number that a format register reads as.
    pub fn code(self) -> (r: u32)
        ensures
            r == self.spec_code(),
    {
        match self {
            PixelFormat::Rgba8 => 0,
            PixelFormat::Rgb8 => 1,
            PixelFormat::Rgb565 => 2,
            PixelFormat::Rgb5A1 => 3,
            PixelFormat::Rgba4 => 4,
            PixelFormat::Unknown => 0xFF,
        }
    }
}

impl From<u32> for PixelFormat {
    fn from(value: u32) -> (r: Self) {
        let bits = value & 0x7;
        if bits == 0 {
            PixelFormat::Rgba8
        } else if bits == 1 {
            PixelFormat::Rgb8
        } else if bits == 2 {
            PixelFormat::Rgb565
        } else if bits == 3 {
            PixelFormat::Rgb5A1
        } else if bits == 4 {
            PixelFormat::Rgba4
        } else {
            PixelFormat::Unknown
        }
    }
}

impl FromSpecImpl<u32> for PixelFormat {
    open spec fn obeys_from_spec() -> bool {
        true
    }

    open spec fn from_spec(value: u32) -> Self {
        format_of(value)
    }
}

/// The word that a format register holds before it is written: one that
/// selects no known format.
pub const FORMAT_RESET: u32 = 0xFF;

/// The framebuffer configuration.
#[derive(Clone, Copy, Debug)]
pub struct GpuState {
    /// Address of the top screen's left framebuffer.
    pub top_left_addr: u32,
    /// Address of the top screen's right framebuffer.
    pub top_right_addr: u32,
    /// The format that the top screen's format register selects.
    pub top_format: PixelFormat,
    /// The top screen's format register.
    pub top_format_word: u32,
    pub top_stride: u32,
    /// Address of the bottom screen's framebuffer.
    pub bottom_addr: u32,
    /// The format that the bottom screen's format register selects.
    pub bottom_format: PixelFormat,
    /// The bottom screen's format register.
    pub bottom_format_word: u32,
    pub bottom_stride: u32,
}

impl GpuState {
    /// The registers after reset.
    pub open spec fn init() -> GpuState {
        GpuState {
            top_left_addr: 0,
            top_right_addr: 0,
            top_format: PixelFormat::Unknown,
            top_format_word: FORMAT_RESET,
            top_stride: 0,
            bottom_addr: 0,
            bottom_format: PixelFormat::Unknown,
            bottom_format_word: FORMAT_RESET,
            bottom_stride: 0,
        }
    }

    /// The format fields are the formats that the format registers select.
    pub open spec fn consistent(self) -> bool {
        self.top_format == format_of(self.top_format_word) && self.bottom_format == format_of(
            self.bottom_format_word,
        )
    }

    /// The registers after a write: a known register latches the value, an
    /// unknown offset changes nothing.
    pub open spec fn spec_write(self, offset: u32, value: u32) -> GpuState {
        if offset == FRAMEBUFFER_TOP_LEFT {
            GpuState { top_left_addr: value, ..self }
        } else if offset == FRAMEBUFFER_TOP_RIGHT {
            GpuState { top_right_addr: value, ..self }
        } else if offset == FRAMEBUFFER_TOP_FORMAT {
            GpuState { top_format: format_of(value), top_format_word: value, ..self }
        } else if offset == FRAMEBUFFER_TOP_STRIDE {
            GpuState { top_stride: value, ..self }
        } else if offset == FRAMEBUFFER_BOTTOM_LEFT {
            GpuState { bottom_addr: value, ..self }
        } else if offset == FRAMEBUFFER_BOTTOM_FORMAT {
            GpuState { bottom_format: format_of(value), bottom_format_word: value, ..self }
        } else if offset == FRAMEBUFFER_BOTTOM_STRIDE {
            GpuState { bottom_stride: value, ..self }
        } else {
            self
        }
    }

    /// The value that a register reads as; 0 at an unknown offset.
    pub open spec fn spec_read(self, offset: u32) -> u32 {
        if offset == FRAMEBUFFER_TOP_LEFT {
            self.top_left_addr
        } else if offset == FRAMEBUFFER_TOP_RIGHT {
            self.top_right_addr
        } else if offset == FRAMEBUFFER_TOP_FORMAT {
            self.top_format_word
        } else if offset == FRAMEBUFFER_TOP_STRIDE {
            self.top_stride
        } else if offset == FRAMEBUFFER_BOTTOM_LEFT {
            self.bottom_addr
        } else if offset == FRAMEBUFFER_BOTTOM_FORMAT {
            self.bottom_format_word
        } else if offset == FRAMEBUFFER_BOTTOM_STRIDE {
            self.bottom_stride
        } else {
            0
        }
    }

    pub fn new() -> (r: Self)
        ensures
            r == GpuState::init(),
    {
        GpuState {
            top_left_addr: 0,
            top_right_addr: 0,
            top_format: PixelFormat::Unknown,
            top_format_word: FORMAT_RESET,
            top_stride: 0,
            bottom_addr: 0,
            bottom_format: PixelFormat::Unknown,
            bottom_format_word: FORMAT_RESET,
            bottom_stride: 0,
        }
    }

    /// Handles a write to the register at `offset`. The access width plays
    /// no part.
    pub fn write(&mut self, offset: u32, _size: usize, value: u32)
        ensures
            *final(self) == old(self).spec_write(offset, value),
    {
        if offset == FRAMEBUFFER_TOP_LEFT {
            self.top_left_addr = value;
        } else if offset == FRAMEBUFFER_TOP_RIGHT {
            self.top_right_addr = value;
        } else if offset == FRAMEBUFFER_TOP_FORMAT {
            self.top_format = PixelFormat::from(value);
            self.top_format_word = value;
        } else if offset == FRAMEBUFFER_TOP_STRIDE {
            self.top_stride = value;
        } else if offset == FRAMEBUFFER_BOTTOM_LEFT {
            self.bottom_addr = value;
        } else if offset == FRAMEBUFFER_BOTTOM_FORMAT {
            self.bottom_format = PixelFormat::from(value);
            self.bottom_format_word = value;
        } else if offset == FRAMEBUFFER_BOTTOM_STRIDE {
            self.bottom_stride = value;
        }
    }

    /// Handles a read of the register at `offset`. The access width plays no
    /// part.
    pub fn read(&self, offset: u32, _size: usize) -> (value: u32)
        ensures
            value == self.spec_read(offset),
    {
        if offset == FRAMEBUFFER_TOP_LEFT {
            self.top_left_addr
        } else if offset == FRAMEBUFFER_TOP_RIGHT {
            self.top_right_addr
        } else if offset == FRAMEBUFFER_TOP_FORMAT {
            self.top_format_word
        } else if offset == FRAMEBUFFER_TOP_STRIDE {
            self.top_stride
        } else if offset == FRAMEBUFFER_BOTTOM_LEFT {
            self.bottom_addr
        } else if offset == FRAMEBUFFER_BOTTOM_FORMAT {
            self.bottom_format_word
        } else if offset == FRAMEBUFFER_BOTTOM_STRIDE {
            self.bottom_stride
        } else {
            0
        }
    }
}

/// Handles a read at offset `addr` of the register window.
pub fn read_handler(state: &mut EmulatorState, addr: u64, size: usize) -> (value: u64)
    ensures
        value == old(state).gpu.spec_read(addr as u32),
        *final(state) == *old(state),
{
    state.gpu.read(addr as u32, size) as u64
}

/// Handles a write at offset `addr` of the register window.
pub fn write_handler(state: &mut EmulatorState, addr: u64, size: usize, value: u64)
    ensures
        final(state).gpu == old(state).gpu.spec_write(addr as u32, value as u32),
        final(state).sdmmc == old(state).sdmmc,
{
    state.gpu.write(addr as u32, size, value as u32);
}

/// The offset is that of a register.
pub open spec fn is_register(offset: u32) -> bool {
    offset == FRAMEBUFFER_TOP_LEFT || offset == FRAMEBUFFER_TOP_RIGHT || offset
        == FRAMEBUFFER_TOP_FORMAT || offset == FRAMEBUFFER_TOP_STRIDE || offset
        == FRAMEBUFFER_BOTTOM_LEFT || offset == FRAMEBUFFER_BOTTOM_FORMAT || offset
        == FRAMEBUFFER_BOTTOM_STRIDE
}

/// Every register, a format register too, reads as the word that was last
/// written to it.
pub proof fn law_read_after_write(gpu: GpuState, offset: u32, value: u32)
    requires
        is_register(offset),
    ensures
        gpu.spec_write(offset, value).spec_read(offset) == value,
{
}

/// A write to one register leaves what the others read as.
pub proof fn law_write_leaves_others(gpu: GpuState, offset: u32, value: u32, other: u32)
    requires
        other != offset,
    ensures
        gpu.spec_write(offset, value).spec_read(other) == gpu.spec_read(other),
{
}

/// An unknown offset reads as zero, and a write to it changes nothing.
pub proof fn law_unknown_offset(gpu: GpuState, offset: u32, value: u32)
    requires
        !is_register(offset),
    ensures
        gpu.spec_read(offset) == 0,
        gpu.spec_write(offset, value) == gpu,
{
}

/// The format fields follow the format registers: after reset, and after
/// every write.
pub proof fn law_formats_follow_registers(gpu: GpuState, offset: u32, value: u32)
    requires
        gpu.consistent(),
    ensures
        GpuState::init().consistent(),
        gpu.spec_write(offset, value).consistent(),
        gpu.spec_write(FRAMEBUFFER_TOP_FORMAT, value).top_format == format_of(value),
        gpu.spec_write(FRAMEBUFFER_BOTTOM_FORMAT, value).bottom_format == format_of(value),
{
    assert(0xFFu32 & 0x7 == 7) by (bit_vector);
}

} // verus!
