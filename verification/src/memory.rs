//! The memory maps of the two processors and the memory behind them.
//!
//! The fabric owns every RAM-like region once and maps it into the address
//! space of each processor that sees it. A region that both processors see
//! is mapped at the same window in both, so a byte written through one
//! processor is what the other reads. No lock guards this: the scheduler
//! runs one processor at a time.

use vstd::prelude::*;
use vstd::slice::slice_subrange;
use crate::firm::FirmSectionHeader;
use crate::mmio::gpu::{GPU_MMIO_BASE, GPU_MMIO_END};
use crate::address_space::{
    disjoint, lemma_lookup_found, lemma_lookup_hit, lemma_lookup_miss, lookup, overlaps_any,
    range_valid, resolve, AddressSpace, Backing, Handler, MapError, Mapping, Target,
    ADDRESS_SPACE_END,
};

verus! {

pub const FCRAM_BASE: u32 = 0x20000000;
pub const FCRAM_SIZE: usize = 0x800_0000;
pub const AXI_WRAM_BASE: u32 = 0x1FF80000;
pub const AXI_WRAM_SIZE: usize = 0x8_0000;
pub const VRAM_BASE: u32 = 0x18000000;
pub const VRAM_SIZE: usize = 0x60_0000;
pub const ARM9_ITCM_BASE: u32 = 0x08000000;
pub const ARM9_ITCM_SIZE: usize = 0x20_0000;
pub const ARM9_PRIVATE_WRAM_BASE: u32 = 0x01FF8000;
pub const ARM9_PRIVATE_WRAM_SIZE: usize = 0x8000;
pub const ARM9_BOOTROM_BASE: u32 = 0xFFFF0000;
pub const ARM9_BOOTROM_SIZE: usize = 0x1_0000;

/// First I/O region: below video memory.
pub const MMIO_REGION1_BASE: u32 = 0x10000000;
pub const MMIO_REGION1_END: u32 = 0x18000000;

/// Second I/O region: above video memory.
pub const MMIO_REGION2_BASE: u32 = 0x18600000;
pub const MMIO_REGION2_END: u32 = 0x1FF80000;

/// The window of the SD/MMC host controller.
pub const SDMMC_MMIO_BASE: u32 = 0x10006000;
pub const SDMMC_MMIO_END: u32 = 0x10007000;

/// The window after the SD/MMC controller that neither processor maps: an
/// access there faults.
pub const UNMAPPED_GAP_BASE: u32 = 0x10007000;
pub const UNMAPPED_GAP_END: u32 = 0x10008000;

/// Where the first I/O region of the application processor ends.
pub const ARM11_MMIO_SPLIT: u32 = 0x17E11000;

/// One of the two processors.
#[derive(Clone, Copy, Debug, PartialEq, Eq, Structural)]
pub enum Cpu {
    /// The security and I/O coprocessor.
    Arm9,
    /// The application processor.
    Arm11,
}

/// Length in bytes of a backing region.
pub open spec fn backing_size(backing: Backing) -> nat {
    match backing {
        Backing::Fcram => FCRAM_SIZE as nat,
        Backing::AxiWram => AXI_WRAM_SIZE as nat,
        Backing::Vram => VRAM_SIZE as nat,
        Backing::Arm9Itcm => ARM9_ITCM_SIZE as nat,
        Backing::Arm9PrivateWram => ARM9_PRIVATE_WRAM_SIZE as nat,
        Backing::Arm9Bootrom => ARM9_BOOTROM_SIZE as nat,
    }
}

/// Length in bytes of a backing region.
pub fn backing_len(backing: Backing) -> (r: usize)
    ensures
        r == backing_size(backing),
{
    match backing {
        Backing::Fcram => FCRAM_SIZE,
        Backing::AxiWram => AXI_WRAM_SIZE,
        Backing::Vram => VRAM_SIZE,
        Backing::Arm9Itcm => ARM9_ITCM_SIZE,
        Backing::Arm9PrivateWram => ARM9_PRIVATE_WRAM_SIZE,
        Backing::Arm9Bootrom => ARM9_BOOTROM_SIZE,
    }
}

pub open spec fn ram(base: u32, size: usize, backing: Backing) -> Mapping {
    Mapping { base: base as u64, size: size as u64, target: Target::Ram(backing) }
}

/// The I/O window `[base, end)` of a device model.
pub open spec fn io(base: u32, end: u32, handler: Handler) -> Mapping {
    Mapping { base: base as u64, size: (end - base) as u64, target: Target::Mmio(handler) }
}

/// The windows of the coprocessor, in the order of mapping.
pub open spec fn arm9_layout() -> Seq<Mapping> {
    seq![
        ram(FCRAM_BASE, FCRAM_SIZE, Backing::Fcram),
        ram(AXI_WRAM_BASE, AXI_WRAM_SIZE, Backing::AxiWram),
        ram(VRAM_BASE, VRAM_SIZE, Backing::Vram),
        ram(ARM9_ITCM_BASE, ARM9_ITCM_SIZE, Backing::Arm9Itcm),
        ram(ARM9_PRIVATE_WRAM_BASE, ARM9_PRIVATE_WRAM_SIZE, Backing::Arm9PrivateWram),
        io(MMIO_REGION1_BASE, SDMMC_MMIO_BASE, Handler::Generic),
        io(SDMMC_MMIO_BASE, SDMMC_MMIO_END, Handler::Sdmmc),
        io(UNMAPPED_GAP_END, MMIO_REGION1_END, Handler::Generic),
        io(MMIO_REGION2_BASE, MMIO_REGION2_END, Handler::Generic),
    ]
}

/// The windows of the application processor, in the order of mapping.
pub open spec fn arm11_layout() -> Seq<Mapping> {
    seq![
        ram(FCRAM_BASE, FCRAM_SIZE, Backing::Fcram),
        ram(AXI_WRAM_BASE, AXI_WRAM_SIZE, Backing::AxiWram),
        ram(VRAM_BASE, VRAM_SIZE, Backing::Vram),
        io(MMIO_REGION1_BASE, SDMMC_MMIO_BASE, Handler::Generic),
        io(SDMMC_MMIO_BASE, SDMMC_MMIO_END, Handler::Sdmmc),
        io(UNMAPPED_GAP_END, GPU_MMIO_BASE, Handler::Generic),
        io(GPU_MMIO_BASE, GPU_MMIO_END, Handler::Gpu),
        io(GPU_MMIO_END, ARM11_MMIO_SPLIT, Handler::Generic),
        io(MMIO_REGION2_BASE, MMIO_REGION2_END, Handler::Generic),
    ]
}

/// Maps a window that is known to fit.
fn map_fresh(space: &mut AddressSpace, base: u64, size: u64, target: Target)
    requires
        range_valid(base, size),
        forall|i: int| 0 <= i < old(space)@.len() ==> !(#[trigger] old(space)@[i]).overlaps(base, size),
    ensures
        final(space)@ == old(space)@.push(Mapping { base, size, target }),
        disjoint(final(space)@),
{
    let r = space.map(base, size, target);
    assert(r.is_ok());
}

/// The address space of the coprocessor: shared memory, its private
/// memory, and its I/O windows.
pub fn setup_arm9_memory() -> (space: AddressSpace)
    ensures
        space@ == arm9_layout(),
        disjoint(space@),
{
    let mut space = AddressSpace::new();
    map_fresh(&mut space, FCRAM_BASE as u64, FCRAM_SIZE as u64, Target::Ram(Backing::Fcram));
    map_fresh(&mut space, AXI_WRAM_BASE as u64, AXI_WRAM_SIZE as u64, Target::Ram(Backing::AxiWram));
    map_fresh(&mut space, VRAM_BASE as u64, VRAM_SIZE as u64, Target::Ram(Backing::Vram));
    map_fresh(
        &mut space,
        ARM9_ITCM_BASE as u64,
        ARM9_ITCM_SIZE as u64,
        Target::Ram(Backing::Arm9Itcm),
    );
    map_fresh(
        &mut space,
        ARM9_PRIVATE_WRAM_BASE as u64,
        ARM9_PRIVATE_WRAM_SIZE as u64,
        Target::Ram(Backing::Arm9PrivateWram),
    );
    map_fresh(
        &mut space,
        MMIO_REGION1_BASE as u64,
        (SDMMC_MMIO_BASE - MMIO_REGION1_BASE) as u64,
        Target::Mmio(Handler::Generic),
    );
    map_fresh(
        &mut space,
        SDMMC_MMIO_BASE as u64,
        (SDMMC_MMIO_END - SDMMC_MMIO_BASE) as u64,
        Target::Mmio(Handler::Sdmmc),
    );
    map_fresh(
        &mut space,
        UNMAPPED_GAP_END as u64,
        (MMIO_REGION1_END - UNMAPPED_GAP_END) as u64,
        Target::Mmio(Handler::Generic),
    );
    map_fresh(
        &mut space,
        MMIO_REGION2_BASE as u64,
        (MMIO_REGION2_END - MMIO_REGION2_BASE) as u64,
        Target::Mmio(Handler::Generic),
    );
    assert(space@ =~= arm9_layout());
    space
}

/// The address space of the application processor: shared memory and its
/// I/O windows, the framebuffer registers among them.
pub fn setup_arm11_memory() -> (space: AddressSpace)
    ensures
        space@ == arm11_layout(),
        disjoint(space@),
{
    let mut space = AddressSpace::new();
    map_fresh(&mut space, FCRAM_BASE as u64, FCRAM_SIZE as u64, Target::Ram(Backing::Fcram));
    map_fresh(&mut space, AXI_WRAM_BASE as u64, AXI_WRAM_SIZE as u64, Target::Ram(Backing::AxiWram));
    map_fresh(&mut space, VRAM_BASE as u64, VRAM_SIZE as u64, Target::Ram(Backing::Vram));
    map_fresh(
        &mut space,
        MMIO_REGION1_BASE as u64,
        (SDMMC_MMIO_BASE - MMIO_REGION1_BASE) as u64,
        Target::Mmio(Handler::Generic),
    );
    map_fresh(
        &mut space,
        SDMMC_MMIO_BASE as u64,
        (SDMMC_MMIO_END - SDMMC_MMIO_BASE) as u64,
        Target::Mmio(Handler::Sdmmc),
    );
    map_fresh(
        &mut space,
        UNMAPPED_GAP_END as u64,
        (GPU_MMIO_BASE - UNMAPPED_GAP_END) as u64,
        Target::Mmio(Handler::Generic),
    );
    map_fresh(
        &mut space,
        GPU_MMIO_BASE as u64,
        (GPU_MMIO_END - GPU_MMIO_BASE) as u64,
        Target::Mmio(Handler::Gpu),
    );
    map_fresh(
        &mut space,
        GPU_MMIO_END as u64,
        (ARM11_MMIO_SPLIT - GPU_MMIO_END) as u64,
        Target::Mmio(Handler::Generic),
    );
    map_fresh(
        &mut space,
        MMIO_REGION2_BASE as u64,
        (MMIO_REGION2_END - MMIO_REGION2_BASE) as u64,
        Target::Mmio(Handler::Generic),
    );
    assert(space@ =~= arm11_layout());
    space
}

pub open spec fn spec_is_arm9_memory(addr: u32) -> bool {
    ARM9_ITCM_BASE <= addr < ARM9_ITCM_BASE + ARM9_ITCM_SIZE
}

/// Tells whether an address lies in the internal memory of the
/// coprocessor: a firmware section that is loaded there belongs to it.
pub fn is_arm9_memory(addr: u32) -> (r: bool)
    ensures
        r == spec_is_arm9_memory(addr),
{
    addr >= ARM9_ITCM_BASE && addr - ARM9_ITCM_BASE < ARM9_ITCM_SIZE as u32
}

/// Every RAM-like window of `ms` lies inside its backing region.
pub open spec fn backed(ms: Seq<Mapping>) -> bool {
    forall|i: int, b: Backing|
        0 <= i < ms.len() && (#[trigger] ms[i]).target == Target::Ram(b) ==> ms[i].size
            <= #[trigger] backing_size(b)
}

/// The fabric as a mathematical value: the two address spaces and the
/// contents of the backing regions.
#[verifier::ext_equal]
pub struct FabricModel {
    pub arm9: Seq<Mapping>,
    pub arm11: Seq<Mapping>,
    pub fcram: Seq<u8>,
    pub axi_wram: Seq<u8>,
    pub vram: Seq<u8>,
    pub arm9_itcm: Seq<u8>,
    pub arm9_private_wram: Seq<u8>,
    pub arm9_bootrom: Seq<u8>,
}

impl FabricModel {
    /// The address space of a processor.
    pub open spec fn space(self, cpu: Cpu) -> Seq<Mapping> {
        match cpu {
            Cpu::Arm9 => self.arm9,
            Cpu::Arm11 => self.arm11,
        }
    }

    /// The contents of a backing region.
    pub open spec fn buffer(self, backing: Backing) -> Seq<u8> {
        match backing {
            Backing::Fcram => self.fcram,
            Backing::AxiWram => self.axi_wram,
            Backing::Vram => self.vram,
            Backing::Arm9Itcm => self.arm9_itcm,
            Backing::Arm9PrivateWram => self.arm9_private_wram,
            Backing::Arm9Bootrom => self.arm9_bootrom,
        }
    }

    /// The fabric with the contents of one backing region replaced.
    pub open spec fn with_buffer(self, backing: Backing, contents: Seq<u8>) -> FabricModel {
        match backing {
            Backing::Fcram => FabricModel { fcram: contents, ..self },
            Backing::AxiWram => FabricModel { axi_wram: contents, ..self },
            Backing::Vram => FabricModel { vram: contents, ..self },
            Backing::Arm9Itcm => FabricModel { arm9_itcm: contents, ..self },
            Backing::Arm9PrivateWram => FabricModel { arm9_private_wram: contents, ..self },
            Backing::Arm9Bootrom => FabricModel { arm9_bootrom: contents, ..self },
        }
    }

    /// What holds of every fabric: windows are disjoint and lie inside
    /// their backing regions, which have their full length.
    pub open spec fn wf(self) -> bool {
        &&& disjoint(self.arm9)
        &&& disjoint(self.arm11)
        &&& backed(self.arm9)
        &&& backed(self.arm11)
        &&& self.fcram.len() == FCRAM_SIZE
        &&& self.axi_wram.len() == AXI_WRAM_SIZE
        &&& self.vram.len() == VRAM_SIZE
        &&& self.arm9_itcm.len() == ARM9_ITCM_SIZE
        &&& self.arm9_private_wram.len() == ARM9_PRIVATE_WRAM_SIZE
        &&& self.arm9_bootrom.len() == ARM9_BOOTROM_SIZE
    }

    /// The fabric at start: both standard address spaces, all memory zero.
    pub open spec fn init() -> FabricModel {
        FabricModel {
            arm9: arm9_layout(),
            arm11: arm11_layout(),
            fcram: Seq::new(FCRAM_SIZE as nat, |i: int| 0u8),
            axi_wram: Seq::new(AXI_WRAM_SIZE as nat, |i: int| 0u8),
            vram: Seq::new(VRAM_SIZE as nat, |i: int| 0u8),
            arm9_itcm: Seq::new(ARM9_ITCM_SIZE as nat, |i: int| 0u8),
            arm9_private_wram: Seq::new(ARM9_PRIVATE_WRAM_SIZE as nat, |i: int| 0u8),
            arm9_bootrom: Seq::new(ARM9_BOOTROM_SIZE as nat, |i: int| 0u8),
        }
    }

    /// The byte of backing memory that `addr` names for `cpu`: the region
    /// and the index into it. `None` where the address is unmapped or
    /// belongs to a device.
    pub open spec fn location(self, cpu: Cpu, addr: u64) -> Option<(Backing, int)> {
        match resolve(self.space(cpu), addr) {
            Some((Target::Ram(b), offset)) => Some((b, offset as int)),
            _ => None,
        }
    }

    /// The byte that `cpu` reads at `addr`.
    pub open spec fn read_byte(self, cpu: Cpu, addr: u64) -> Option<u8> {
        match self.location(cpu, addr) {
            Some((b, index)) => Some(self.buffer(b)[index]),
            None => None,
        }
    }

    /// The fabric after `cpu` has written `value` at `addr`; unchanged
    /// where the address names no memory.
    pub open spec fn write_byte(self, cpu: Cpu, addr: u64, value: u8) -> FabricModel {
        match self.location(cpu, addr) {
            Some((b, index)) => self.with_buffer(b, self.buffer(b).update(index, value)),
            None => self,
        }
    }

    /// `addr + i` is an address, and it names memory for `cpu`.
    pub open spec fn accessible_at(self, cpu: Cpu, addr: u64, i: int) -> bool {
        addr + i < ADDRESS_SPACE_END && self.location(cpu, (addr + i) as u64).is_some()
    }

    /// Every address of `[addr, addr + len)` names memory for `cpu`.
    pub open spec fn accessible(self, cpu: Cpu, addr: u64, len: nat) -> bool {
        forall|i: int| 0 <= i < len ==> #[trigger] self.accessible_at(cpu, addr, i)
    }

    /// The bytes that `cpu` reads from `addr` on.
    pub open spec fn read_bytes(self, cpu: Cpu, addr: u64, len: nat) -> Seq<u8> {
        Seq::new(len, |i: int| self.read_byte(cpu, (addr + i) as u64).unwrap())
    }

    /// The fabric after `cpu` has written `data` from `addr` on, byte by
    /// byte.
    pub open spec fn write_bytes(self, cpu: Cpu, addr: u64, data: Seq<u8>) -> FabricModel
        decreases data.len(),
    {
        if data.len() == 0 {
            self
        } else {
            self.write_bytes(cpu, addr, data.drop_last()).write_byte(
                cpu,
                (addr + data.len() - 1) as u64,
                data.last(),
            )
        }
    }

    /// Both processors see the same byte of memory at `addr`.
    pub open spec fn shared(self, addr: u64) -> bool {
        self.location(Cpu::Arm9, addr).is_some() && self.location(Cpu::Arm9, addr)
            == self.location(Cpu::Arm11, addr)
    }
}

/// A location that an address names lies inside its backing region.
pub proof fn lemma_location_in_bounds(m: FabricModel, cpu: Cpu, addr: u64)
    requires
        m.wf(),
        m.location(cpu, addr).is_some(),
    ensures
        0 <= m.location(cpu, addr).unwrap().1 < m.buffer(m.location(cpu, addr).unwrap().0).len(),
{
    let ms = m.space(cpu);
    lemma_lookup_found(ms, addr);
    let w = lookup(ms, addr).unwrap();
    let i = choose|i: int| 0 <= i < ms.len() && ms[i] == w;
    let b = m.location(cpu, addr).unwrap().0;
    assert(ms[i].target == Target::Ram(b));
    assert(ms[i].size <= backing_size(b));
    assert(m.buffer(b).len() == backing_size(b));
}

/// A write changes memory only: the address spaces stay, and so does what
/// every address names.
pub proof fn lemma_write_keeps_spaces(m: FabricModel, cpu: Cpu, addr: u64, value: u8)
    requires
        m.wf(),
    ensures
        m.write_byte(cpu, addr, value).arm9 == m.arm9,
        m.write_byte(cpu, addr, value).arm11 == m.arm11,
        m.write_byte(cpu, addr, value).wf(),
{
    if m.location(cpu, addr).is_some() {
        lemma_location_in_bounds(m, cpu, addr);
    }
}

/// Writing a run of bytes changes memory only.
pub proof fn lemma_write_bytes_keeps_spaces(m: FabricModel, cpu: Cpu, addr: u64, data: Seq<u8>)
    requires
        m.wf(),
    ensures
        m.write_bytes(cpu, addr, data).arm9 == m.arm9,
        m.write_bytes(cpu, addr, data).arm11 == m.arm11,
        m.write_bytes(cpu, addr, data).wf(),
    decreases data.len(),
{
    if data.len() > 0 {
        lemma_write_bytes_keeps_spaces(m, cpu, addr, data.drop_last());
        lemma_write_keeps_spaces(
            m.write_bytes(cpu, addr, data.drop_last()),
            cpu,
            (addr + data.len() - 1) as u64,
            data.last(),
        );
    }
}

/// Shared-memory visibility: a byte that one processor writes at an
/// address that both see is the byte that the other reads there, with
/// nothing done in between.
pub proof fn law_shared_write_visible(m: FabricModel, writer: Cpu, reader: Cpu, addr: u64, value: u8)
    requires
        m.wf(),
        m.shared(addr),
    ensures
        m.write_byte(writer, addr, value).read_byte(reader, addr) == Some(value),
{
    lemma_location_in_bounds(m, writer, addr);
    lemma_write_keeps_spaces(m, writer, addr, value);
}

/// In the standard maps every address of main memory, of shared work RAM
/// and of video memory is shared.
pub proof fn law_standard_windows_shared(m: FabricModel, addr: u64)
    requires
        m.arm9 == arm9_layout(),
        m.arm11 == arm11_layout(),
        FCRAM_BASE <= addr < FCRAM_BASE + FCRAM_SIZE || AXI_WRAM_BASE <= addr < AXI_WRAM_BASE
            + AXI_WRAM_SIZE || VRAM_BASE <= addr < VRAM_BASE + VRAM_SIZE,
    ensures
        m.shared(addr),
{
    lemma_layouts_disjoint();
    let i = if FCRAM_BASE <= addr < FCRAM_BASE + FCRAM_SIZE {
        0int
    } else if AXI_WRAM_BASE <= addr < AXI_WRAM_BASE + AXI_WRAM_SIZE {
        1int
    } else {
        2int
    };
    lemma_lookup_hit(arm9_layout(), addr, i);
    lemma_lookup_hit(arm11_layout(), addr, i);
}

/// The standard maps are disjoint and backed.
pub proof fn lemma_layouts_disjoint()
    ensures
        disjoint(arm9_layout()),
        disjoint(arm11_layout()),
        backed(arm9_layout()),
        backed(arm11_layout()),
{
}

/// Every RAM-like window of the application processor is a window of the
/// coprocessor too, at the same addresses and onto the same region.
pub proof fn law_shared_windows_identical(i: int)
    requires
        0 <= i < arm11_layout().len(),
        arm11_layout()[i].target is Ram,
    ensures
        arm9_layout().contains(arm11_layout()[i]),
{
    assert(arm9_layout()[i] == arm11_layout()[i]);
}

/// The window after the SD/MMC controller is mapped for neither
/// processor: an access there faults.
pub proof fn law_gap_faults(addr: u64)
    requires
        UNMAPPED_GAP_BASE <= addr < UNMAPPED_GAP_END,
    ensures
        resolve(arm9_layout(), addr).is_none(),
        resolve(arm11_layout(), addr).is_none(),
{
    lemma_lookup_miss(arm9_layout(), addr);
    lemma_lookup_miss(arm11_layout(), addr);
}

/// The SD/MMC controller stands at the same window for both processors,
/// and an access reaches it with the offset into the window.
pub proof fn law_sdmmc_window(addr: u64)
    requires
        SDMMC_MMIO_BASE <= addr < SDMMC_MMIO_END,
    ensures
        resolve(arm9_layout(), addr) == Some(
            (Target::Mmio(Handler::Sdmmc), (addr - SDMMC_MMIO_BASE) as u64),
        ),
        resolve(arm11_layout(), addr) == Some(
            (Target::Mmio(Handler::Sdmmc), (addr - SDMMC_MMIO_BASE) as u64),
        ),
{
    lemma_layouts_disjoint();
    lemma_lookup_hit(arm9_layout(), addr, 6);
    lemma_lookup_hit(arm11_layout(), addr, 4);
}

/// The framebuffer registers stand before the application processor
/// only: the coprocessor finds the generic model at their window.
pub proof fn law_gpu_window(addr: u64)
    requires
        GPU_MMIO_BASE <= addr < GPU_MMIO_END,
    ensures
        resolve(arm11_layout(), addr) == Some(
            (Target::Mmio(Handler::Gpu), (addr - GPU_MMIO_BASE) as u64),
        ),
        resolve(arm9_layout(), addr) == Some(
            (Target::Mmio(Handler::Generic), (addr - UNMAPPED_GAP_END) as u64),
        ),
{
    lemma_layouts_disjoint();
    lemma_lookup_hit(arm11_layout(), addr, 6);
    lemma_lookup_hit(arm9_layout(), addr, 7);
}

/// The end of the first I/O region is mapped for the coprocessor and
/// unmapped for the application processor.
pub proof fn law_io_regions_differ(addr: u64)
    requires
        ARM11_MMIO_SPLIT <= addr < MMIO_REGION1_END,
    ensures
        resolve(arm9_layout(), addr) == Some(
            (Target::Mmio(Handler::Generic), (addr - UNMAPPED_GAP_END) as u64),
        ),
        resolve(arm11_layout(), addr).is_none(),
{
    lemma_layouts_disjoint();
    lemma_lookup_hit(arm9_layout(), addr, 7);
    lemma_lookup_miss(arm11_layout(), addr);
}

/// The private memory of the coprocessor is no memory of the application
/// processor.
pub proof fn law_private_memory_isolated(m: FabricModel, addr: u64)
    requires
        m.arm9 == arm9_layout(),
        m.arm11 == arm11_layout(),
        ARM9_ITCM_BASE <= addr < ARM9_ITCM_BASE + ARM9_ITCM_SIZE || ARM9_PRIVATE_WRAM_BASE <= addr
            < ARM9_PRIVATE_WRAM_BASE + ARM9_PRIVATE_WRAM_SIZE,
    ensures
        m.location(Cpu::Arm9, addr).is_some(),
        m.location(Cpu::Arm11, addr).is_none(),
        m.read_byte(Cpu::Arm11, addr).is_none(),
{
    lemma_layouts_disjoint();
    let i = if ARM9_ITCM_BASE <= addr < ARM9_ITCM_BASE + ARM9_ITCM_SIZE {
        3int
    } else {
        4int
    };
    lemma_lookup_hit(arm9_layout(), addr, i);
    lemma_lookup_miss(arm11_layout(), addr);
}

/// Why the fabric could not map a window.
#[derive(Clone, Copy, Debug, PartialEq, Eq, Structural)]
pub enum FabricError {
    /// The address space refused the window.
    Window(MapError),
    /// The window is longer than the region that is to back it.
    BackingTooSmall,
}

/// What mapping a window yields.
pub open spec fn map_outcome(ms: Seq<Mapping>, base: u64, size: u64, target: Target) -> Result<
    (),
    FabricError,
> {
    if !range_valid(base, size) {
        Err(FabricError::Window(MapError::InvalidRange))
    } else if overlaps_any(ms, base, size) {
        Err(FabricError::Window(MapError::Overlap))
    } else if target matches Target::Ram(b) && size > backing_size(b) {
        Err(FabricError::BackingTooSmall)
    } else {
        Ok(())
    }
}

/// The memory of the machine and the two views of it.
#[derive(Debug)]
pub struct MemoryFabric {
    arm9: AddressSpace,
    arm11: AddressSpace,
    fcram: Vec<u8>,
    axi_wram: Vec<u8>,
    vram: Vec<u8>,
    arm9_itcm: Vec<u8>,
    arm9_private_wram: Vec<u8>,
    arm9_bootrom: Vec<u8>,
}

impl View for MemoryFabric {
    type V = FabricModel;

    closed spec fn view(&self) -> FabricModel {
        FabricModel {
            arm9: self.arm9@,
            arm11: self.arm11@,
            fcram: self.fcram@,
            axi_wram: self.axi_wram@,
            vram: self.vram@,
            arm9_itcm: self.arm9_itcm@,
            arm9_private_wram: self.arm9_private_wram@,
            arm9_bootrom: self.arm9_bootrom@,
        }
    }
}

/// A region of `len` zero bytes.
fn zeroed(len: usize) -> (r: Vec<u8>)
    ensures
        r@ == Seq::new(len as nat, |i: int| 0u8),
{
    let r = vec![0u8; len];
    assert(r@ =~= Seq::new(len as nat, |i: int| 0u8));
    r
}

impl MemoryFabric {
    #[verifier::type_invariant]
    closed spec fn inv(&self) -> bool {
        self@.wf()
    }

    /// Allocates every backing region, zero-filled, and maps the standard
    /// address spaces of both processors.
    pub fn new() -> (r: Self)
        ensures
            r@ == FabricModel::init(),
            r@.wf(),
    {
        let arm9 = setup_arm9_memory();
        let arm11 = setup_arm11_memory();
        proof {
            lemma_layouts_disjoint();
        }
        let r = MemoryFabric {
            arm9,
            arm11,
            fcram: zeroed(FCRAM_SIZE),
            axi_wram: zeroed(AXI_WRAM_SIZE),
            vram: zeroed(VRAM_SIZE),
            arm9_itcm: zeroed(ARM9_ITCM_SIZE),
            arm9_private_wram: zeroed(ARM9_PRIVATE_WRAM_SIZE),
            arm9_bootrom: zeroed(ARM9_BOOTROM_SIZE),
        };
        r
    }

    /// The address space of a processor.
    pub fn space(&self, cpu: Cpu) -> (r: &AddressSpace)
        ensures
            r@ == self@.space(cpu),
    {
        match cpu {
            Cpu::Arm9 => &self.arm9,
            Cpu::Arm11 => &self.arm11,
        }
    }

    /// The contents of a backing region.
    pub fn buffer(&self, backing: Backing) -> (r: &[u8])
        ensures
            r@ == self@.buffer(backing),
            self@.wf(),
    {
        proof {
            use_type_invariant(self);
        }
        match backing {
            Backing::Fcram => self.fcram.as_slice(),
            Backing::AxiWram => self.axi_wram.as_slice(),
            Backing::Vram => self.vram.as_slice(),
            Backing::Arm9Itcm => self.arm9_itcm.as_slice(),
            Backing::Arm9PrivateWram => self.arm9_private_wram.as_slice(),
            Backing::Arm9Bootrom => self.arm9_bootrom.as_slice(),
        }
    }

    /// Maps `size` bytes from `base` of the address space of `cpu` to
    /// `target`. A window that overlaps one mapped before, that is no
    /// range of addresses, or that is longer than the region to back it is
    /// refused, and the fabric left as it was.
    pub fn map(&mut self, cpu: Cpu, base: u64, size: u64, target: Target) -> (r: Result<
        (),
        FabricError,
    >)
        ensures
            r == map_outcome(old(self)@.space(cpu), base, size, target),
            r.is_err() ==> final(self)@ == old(self)@,
            r.is_ok() ==> final(self)@ == (match cpu {
                Cpu::Arm9 => FabricModel {
                    arm9: old(self)@.arm9.push(Mapping { base, size, target }),
                    ..old(self)@
                },
                Cpu::Arm11 => FabricModel {
                    arm11: old(self)@.arm11.push(Mapping { base, size, target }),
                    ..old(self)@
                },
            }),
            final(self)@.wf(),
    {
        proof {
            use_type_invariant(&*self);
        }
        let too_long = match target {
            Target::Ram(b) => size > backing_len(b) as u64,
            Target::Mmio(_) => false,
        };
        let mut space = AddressSpace::new();
        match cpu {
            Cpu::Arm9 => std::mem::swap(&mut space, &mut self.arm9),
            Cpu::Arm11 => std::mem::swap(&mut space, &mut self.arm11),
        }
        let ghost before = space@;
        let r = if too_long {
            match space.check_window(base, size) {
                Ok(()) => Err(FabricError::BackingTooSmall),
                Err(e) => Err(FabricError::Window(e)),
            }
        } else {
            match space.map(base, size, target) {
                Ok(()) => Ok(()),
                Err(e) => Err(FabricError::Window(e)),
            }
        };
        proof {
            if r.is_ok() {
                let after = before.push(Mapping { base, size, target });
                assert forall|i: int, b: Backing|
                    0 <= i < after.len() && (#[trigger] after[i]).target == Target::Ram(
                        b,
                    ) implies after[i].size <= #[trigger] backing_size(b) by {
                    if i < before.len() {
                        assert(before[i].target == Target::Ram(b));
                    }
                }
            }
        }
        match cpu {
            Cpu::Arm9 => {
                self.arm9 = space;
            },
            Cpu::Arm11 => {
                self.arm11 = space;
            },
        }
        r
    }

    /// The byte of backing memory that `addr` names for `cpu`.
    pub fn location(&self, cpu: Cpu, addr: u64) -> (r: Option<(Backing, usize)>)
        ensures
            r.is_some() == self@.location(cpu, addr).is_some(),
            r.is_some() ==> r.unwrap().0 == self@.location(cpu, addr).unwrap().0 && r.unwrap().1
                == self@.location(cpu, addr).unwrap().1 && r.unwrap().1 < self@.buffer(
                r.unwrap().0,
            ).len(),
            self@.wf(),
    {
        proof {
            use_type_invariant(self);
        }
        let found = match cpu {
            Cpu::Arm9 => self.arm9.resolve(addr),
            Cpu::Arm11 => self.arm11.resolve(addr),
        };
        match found {
            Some((Target::Ram(b), offset)) => {
                proof {
                    lemma_location_in_bounds(self@, cpu, addr);
                }
                Some((b, offset as usize))
            },
            _ => None,
        }
    }

    /// Reads the byte at `addr` as `cpu` sees it; `None` where the address
    /// names no memory.
    pub fn read_byte(&self, cpu: Cpu, addr: u64) -> (r: Option<u8>)
        ensures
            r == self@.read_byte(cpu, addr),
    {
        match self.location(cpu, addr) {
            Some((b, index)) => {
                let buffer = self.buffer(b);
                Some(buffer[index])
            },
            None => None,
        }
    }

    /// Writes `value` at `addr` as `cpu` sees it. Returns whether the
    /// address names memory; where it does not, nothing changes.
    pub fn write_byte(&mut self, cpu: Cpu, addr: u64, value: u8) -> (r: bool)
        ensures
            r == old(self)@.location(cpu, addr).is_some(),
            final(self)@ == old(self)@.write_byte(cpu, addr, value),
            final(self)@.wf(),
    {
        proof {
            use_type_invariant(&*self);
            lemma_write_keeps_spaces(self@, cpu, addr, value);
        }
        match self.location(cpu, addr) {
            Some((b, index)) => {
                match b {
                    Backing::Fcram => {
                        self.fcram[index] = value;
                    },
                    Backing::AxiWram => {
                        self.axi_wram[index] = value;
                    },
                    Backing::Vram => {
                        self.vram[index] = value;
                    },
                    Backing::Arm9Itcm => {
                        self.arm9_itcm[index] = value;
                    },
                    Backing::Arm9PrivateWram => {
                        self.arm9_private_wram[index] = value;
                    },
                    Backing::Arm9Bootrom => {
                        self.arm9_bootrom[index] = value;
                    },
                }
                true
            },
            None => false,
        }
    }

    /// Reads `size` bytes from `addr` on as `cpu` sees them; `None` where
    /// one of the addresses names no memory.
    pub fn read(&self, cpu: Cpu, addr: u64, size: usize) -> (r: Option<Vec<u8>>)
        ensures
            r.is_some() == self@.accessible(cpu, addr, size as nat),
            r.is_some() ==> r.unwrap()@ == self@.read_bytes(cpu, addr, size as nat),
    {
        let mut out: Vec<u8> = Vec::new();
        let mut i: usize = 0;
        while i < size
            invariant
                i <= size,
                out@.len() == i,
                forall|k: int| 0 <= k < i ==> #[trigger] self@.accessible_at(cpu, addr, k),
                forall|k: int|
                    0 <= k < i ==> out@[k] == self@.read_byte(cpu, (addr + k) as u64).unwrap(),
            decreases size - i,
        {
            if addr >= ADDRESS_SPACE_END || i as u64 >= ADDRESS_SPACE_END - addr {
                assert(!self@.accessible_at(cpu, addr, i as int));
                return None;
            }
            match self.read_byte(cpu, addr + i as u64) {
                Some(b) => {
                    out.push(b);
                },
                None => {
                    assert(!self@.accessible_at(cpu, addr, i as int));
                    return None;
                },
            }
            i += 1;
        }
        assert(out@ =~= self@.read_bytes(cpu, addr, size as nat));
        Some(out)
    }

    /// Tells whether every address of `[addr, addr + len)` names memory
    /// for `cpu`.
    pub fn is_accessible(&self, cpu: Cpu, addr: u64, len: usize) -> (r: bool)
        ensures
            r == self@.accessible(cpu, addr, len as nat),
            self@.wf(),
    {
        proof {
            use_type_invariant(self);
        }
        let mut i: usize = 0;
        while i < len
            invariant
                i <= len,
                self@.wf(),
                forall|k: int| 0 <= k < i ==> #[trigger] self@.accessible_at(cpu, addr, k),
            decreases len - i,
        {
            if addr >= ADDRESS_SPACE_END || i as u64 >= ADDRESS_SPACE_END - addr {
                assert(!self@.accessible_at(cpu, addr, i as int));
                return false;
            }
            if self.location(cpu, addr + i as u64).is_none() {
                assert(!self@.accessible_at(cpu, addr, i as int));
                return false;
            }
            i += 1;
        }
        true
    }

    /// Writes `data` from `addr` on as `cpu` sees the addresses. Nothing is
    /// written, and `false` returned, where one of the addresses names no
    /// memory.
    pub fn write(&mut self, cpu: Cpu, addr: u64, data: &[u8]) -> (r: bool)
        ensures
            r == old(self)@.accessible(cpu, addr, data@.len()),
            r ==> final(self)@ == old(self)@.write_bytes(cpu, addr, data@),
            !r ==> final(self)@ == old(self)@,
            final(self)@.wf(),
    {
        let len = data.len();
        if !self.is_accessible(cpu, addr, len) {
            return false;
        }
        let mut i: usize = 0;
        assert(data@.take(0) =~= Seq::<u8>::empty());
        while i < len
            invariant
                i <= len,
                len == data@.len(),
                old(self)@.wf(),
                old(self)@.accessible(cpu, addr, len as nat),
                self@ == old(self)@.write_bytes(cpu, addr, data@.take(i as int)),
            decreases len - i,
        {
            assert(old(self)@.accessible_at(cpu, addr, i as int));
            let ghost before = self@;
            self.write_byte(cpu, addr + i as u64, data[i]);
            proof {
                let next = data@.take(i + 1);
                assert(next.drop_last() =~= data@.take(i as int));
                assert(next.last() == data@[i as int]);
            }
            i += 1;
        }
        assert(data@.take(len as int) =~= data@);
        proof {
            lemma_write_bytes_keeps_spaces(old(self)@, cpu, addr, data@);
        }
        true
    }
}

/// Why a firmware section could not be loaded.
#[derive(Clone, Copy, Debug, PartialEq, Eq, Structural)]
pub enum LoadError {
    /// The section at `index` reaches past the end of the container.
    OutOfBounds { index: usize },
    /// The section at `index` is to be loaded where the processor has no
    /// memory.
    Unmapped { index: usize },
}

/// The processor that a load pass is for.
pub open spec fn pass_cpu(is_arm9: bool) -> Cpu {
    if is_arm9 {
        Cpu::Arm9
    } else {
        Cpu::Arm11
    }
}

/// The section is loaded in the pass for the coprocessor, or in the other
/// pass: it is not empty, and its load address belongs to the processor of
/// the pass.
pub open spec fn section_selected(section: FirmSectionHeader, is_arm9: bool) -> bool {
    section.size != 0 && spec_is_arm9_memory(section.load_address) == is_arm9
}

/// The bytes of a section in its container.
pub open spec fn section_bytes(section: FirmSectionHeader, firm_data: Seq<u8>) -> Seq<u8> {
    firm_data.subrange(section.offset as int, section.offset + section.size)
}

/// A section that is not empty belongs to exactly one of the two passes,
/// and an empty section to none: two passes load every section once.
pub proof fn law_section_has_one_owner(section: FirmSectionHeader)
    ensures
        section.size != 0 ==> section_selected(section, true) != section_selected(section, false),
        section.size == 0 ==> !section_selected(section, true) && !section_selected(
            section,
            false,
        ),
{
}

/// The fabric after one pass over the first `n` sections, and the error
/// that ended the pass, if one did. A section that does not belong to the
/// pass is skipped; the others are written to their load addresses, in
/// order, up to the first that cannot be.
pub open spec fn load_pass(
    m: FabricModel,
    sections: Seq<FirmSectionHeader>,
    firm_data: Seq<u8>,
    is_arm9: bool,
    n: int,
) -> (FabricModel, Option<LoadError>)
    decreases n,
{
    if n <= 0 {
        (m, None)
    } else {
        let (before, failed) = load_pass(m, sections, firm_data, is_arm9, n - 1);
        let section = sections[n - 1];
        if failed.is_some() || !section_selected(section, is_arm9) {
            (before, failed)
        } else if section.offset + section.size > firm_data.len() {
            (before, Some(LoadError::OutOfBounds { index: (n - 1) as usize }))
        } else if !before.accessible(
            pass_cpu(is_arm9),
            section.load_address as u64,
            section.size as nat,
        ) {
            (before, Some(LoadError::Unmapped { index: (n - 1) as usize }))
        } else {
            (
                before.write_bytes(
                    pass_cpu(is_arm9),
                    section.load_address as u64,
                    section_bytes(section, firm_data),
                ),
                None,
            )
        }
    }
}

/// Writes the sections of one pass into memory: those for the coprocessor
/// where `is_arm9` holds, else those for the application processor. So
/// two passes load every section once, each through the processor that
/// owns its load address.
pub fn load_sections(
    fabric: &mut MemoryFabric,
    sections: &[FirmSectionHeader],
    firm_data: &[u8],
    is_arm9: bool,
) -> (r: Result<(), LoadError>)
    ensures
        final(fabric)@ == load_pass(
            old(fabric)@,
            sections@,
            firm_data@,
            is_arm9,
            sections@.len() as int,
        ).0,
        r == (match load_pass(
            old(fabric)@,
            sections@,
            firm_data@,
            is_arm9,
            sections@.len() as int,
        ).1 {
            Some(e) => Err::<(), LoadError>(e),
            None => Ok::<(), LoadError>(()),
        }),
        final(fabric)@.wf(),
{
    let cpu = if is_arm9 {
        Cpu::Arm9
    } else {
        Cpu::Arm11
    };
    let n = sections.len();
    let data_len = firm_data.len();
    let mut i: usize = 0;
    proof {
        use_type_invariant(&*fabric);
    }
    while i < n
        invariant
            i <= n,
            n == sections@.len(),
            data_len == firm_data@.len(),
            cpu == pass_cpu(is_arm9),
            fabric@.wf(),
            load_pass(old(fabric)@, sections@, firm_data@, is_arm9, i as int) == (
                fabric@,
                None::<LoadError>,
            ),
        decreases n - i,
    {
        let section = sections[i];
        if section.size != 0 && is_arm9_memory(section.load_address) == is_arm9 {
            let start = section.offset as usize;
            let size = section.size as usize;
            if size > data_len || start > data_len - size {
                proof {
                    lemma_pass_stays_failed(
                        old(fabric)@,
                        sections@,
                        firm_data@,
                        is_arm9,
                        i as int + 1,
                        n as int,
                    );
                }
                return Err(LoadError::OutOfBounds { index: i });
            }
            let bytes = slice_subrange(firm_data, start, start + size);
            if !fabric.write(cpu, section.load_address as u64, bytes) {
                proof {
                    lemma_pass_stays_failed(
                        old(fabric)@,
                        sections@,
                        firm_data@,
                        is_arm9,
                        i as int + 1,
                        n as int,
                    );
                }
                return Err(LoadError::Unmapped { index: i });
            }
        }
        i += 1;
    }
    Ok(())
}

/// A pass that has failed stays as it is, whatever sections follow.
proof fn lemma_pass_stays_failed(
    m: FabricModel,
    sections: Seq<FirmSectionHeader>,
    firm_data: Seq<u8>,
    is_arm9: bool,
    at: int,
    n: int,
)
    requires
        0 <= at <= n,
        load_pass(m, sections, firm_data, is_arm9, at).1.is_some(),
    ensures
        load_pass(m, sections, firm_data, is_arm9, n) == load_pass(
            m,
            sections,
            firm_data,
            is_arm9,
            at,
        ),
    decreases n - at,
{
    if at < n {
        lemma_pass_stays_failed(m, sections, firm_data, is_arm9, at, n - 1);
    }
}

} // verus!
