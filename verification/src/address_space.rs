//! The physical address space of one processor: a set of disjoint windows,
//! each backed by memory or routed to a device model.

use vstd::prelude::*;

verus! {

/// One past the last physical address.
pub const ADDRESS_SPACE_END: u64 = 0x1_0000_0000;

/// The memory regions that back RAM-like windows.
#[derive(Clone, Copy, Debug, PartialEq, Eq, Structural)]
pub enum Backing {
    /// Main memory, shared by both processors.
    Fcram,
    /// Work RAM, shared by both processors.
    AxiWram,
    /// Video memory, shared by both processors.
    Vram,
    /// Internal memory of the coprocessor.
    Arm9Itcm,
    /// Private work RAM of the coprocessor.
    Arm9PrivateWram,
    /// Boot ROM window of the coprocessor.
    Arm9Bootrom,
}

/// The device models that stand behind I/O windows.
#[derive(Clone, Copy, Debug, PartialEq, Eq, Structural)]
pub enum Handler {
    /// Reads return zero, writes are ignored.
    Generic,
    /// The SD/MMC host controller.
    Sdmmc,
    /// The framebuffer registers.
    Gpu,
}

/// What stands behind a window.
#[derive(Clone, Copy, Debug, PartialEq, Eq, Structural)]
pub enum Target {
    Ram(Backing),
    Mmio(Handler),
}

/// A window of the address space: `size` bytes from `base`.
#[derive(Clone, Copy, Debug, PartialEq, Eq, Structural)]
pub struct Mapping {
    pub base: u64,
    pub size: u64,
    pub target: Target,
}

/// Why a window could not be mapped.
#[derive(Clone, Copy, Debug, PartialEq, Eq, Structural)]
pub enum MapError {
    /// The window is empty or reaches past the end of the address space.
    InvalidRange,
    /// The window overlaps one that is mapped already.
    Overlap,
}

/// `[base, base + size)` is a window of the address space.
pub open spec fn range_valid(base: u64, size: u64) -> bool {
    size > 0 && base + size <= ADDRESS_SPACE_END
}

impl Mapping {
    pub open spec fn valid(self) -> bool {
        range_valid(self.base, self.size)
    }

    pub open spec fn contains(self, addr: u64) -> bool {
        self.base <= addr < self.base + self.size
    }

    /// The window shares an address with `[base, base + size)`.
    pub open spec fn overlaps(self, base: u64, size: u64) -> bool {
        self.base < base + size && base < self.base + self.size
    }
}

/// Some window of `ms` shares an address with `[base, base + size)`.
pub open spec fn overlaps_any(ms: Seq<Mapping>, base: u64, size: u64) -> bool {
    exists|i: int| 0 <= i < ms.len() && (#[trigger] ms[i]).overlaps(base, size)
}

/// The windows are valid and no two of them share an address.
pub open spec fn disjoint(ms: Seq<Mapping>) -> bool {
    &&& forall|i: int| 0 <= i < ms.len() ==> (#[trigger] ms[i]).valid()
    &&& forall|i: int, j: int|
        0 <= i < j < ms.len() ==> !(#[trigger] ms[i]).overlaps((#[trigger] ms[j]).base, ms[j].size)
}

/// The first window at or after index `from` that holds `addr`.
pub open spec fn lookup_from(ms: Seq<Mapping>, addr: u64, from: int) -> Option<Mapping>
    decreases ms.len() - from,
{
    if from < 0 || from >= ms.len() {
        None
    } else if ms[from].contains(addr) {
        Some(ms[from])
    } else {
        lookup_from(ms, addr, from + 1)
    }
}

/// The window that holds `addr`, if one does.
pub open spec fn lookup(ms: Seq<Mapping>, addr: u64) -> Option<Mapping> {
    lookup_from(ms, addr, 0)
}

/// What an access at `addr` reaches: the target of its window and the
/// offset into it. `None` where no window holds the address: the access
/// faults.
pub open spec fn resolve(ms: Seq<Mapping>, addr: u64) -> Option<(Target, u64)> {
    match lookup(ms, addr) {
        Some(m) => Some((m.target, (addr - m.base) as u64)),
        None => None,
    }
}

/// A window of disjoint windows is the one that `lookup` finds for each of
/// its addresses.
pub proof fn lemma_lookup_hit(ms: Seq<Mapping>, addr: u64, i: int)
    requires
        disjoint(ms),
        0 <= i < ms.len(),
        ms[i].contains(addr),
    ensures
        lookup(ms, addr) == Some(ms[i]),
{
    lemma_lookup_from_hit(ms, addr, i, 0);
}

proof fn lemma_lookup_from_hit(ms: Seq<Mapping>, addr: u64, i: int, from: int)
    requires
        disjoint(ms),
        0 <= from <= i < ms.len(),
        ms[i].contains(addr),
    ensures
        lookup_from(ms, addr, from) == Some(ms[i]),
    decreases i - from,
{
    if from < i {
        assert(!ms[from].overlaps(ms[i].base, ms[i].size));
        lemma_lookup_from_hit(ms, addr, i, from + 1);
    }
}

/// Where no window holds an address, `lookup` finds none.
pub proof fn lemma_lookup_miss(ms: Seq<Mapping>, addr: u64)
    requires
        forall|i: int| 0 <= i < ms.len() ==> !(#[trigger] ms[i]).contains(addr),
    ensures
        lookup(ms, addr).is_none(),
{
    lemma_lookup_from_miss(ms, addr, 0);
}

proof fn lemma_lookup_from_miss(ms: Seq<Mapping>, addr: u64, from: int)
    requires
        0 <= from,
        forall|i: int| 0 <= i < ms.len() ==> !(#[trigger] ms[i]).contains(addr),
    ensures
        lookup_from(ms, addr, from).is_none(),
    decreases ms.len() - from,
{
    if from < ms.len() {
        lemma_lookup_from_miss(ms, addr, from + 1);
    }
}

/// What `lookup` finds is a window of `ms` that holds the address.
pub proof fn lemma_lookup_found(ms: Seq<Mapping>, addr: u64)
    ensures
        lookup(ms, addr).is_some() ==> ms.contains(lookup(ms, addr).unwrap()) && lookup(
            ms,
            addr,
        ).unwrap().contains(addr),
{
    lemma_lookup_from_found(ms, addr, 0);
}

proof fn lemma_lookup_from_found(ms: Seq<Mapping>, addr: u64, from: int)
    requires
        0 <= from,
    ensures
        lookup_from(ms, addr, from).is_some() ==> ms.contains(lookup_from(ms, addr, from).unwrap())
            && lookup_from(ms, addr, from).unwrap().contains(addr),
    decreases ms.len() - from,
{
    if from < ms.len() {
        if ms[from].contains(addr) {
            assert(ms.contains(ms[from]));
        } else {
            lemma_lookup_from_found(ms, addr, from + 1);
        }
    }
}

/// The address space of one processor.
#[derive(Debug)]
pub struct AddressSpace {
    mappings: Vec<Mapping>,
}

impl View for AddressSpace {
    type V = Seq<Mapping>;

    closed spec fn view(&self) -> Seq<Mapping> {
        self.mappings@
    }
}

impl AddressSpace {
    #[verifier::type_invariant]
    closed spec fn inv(&self) -> bool {
        disjoint(self.mappings@)
    }

    /// An address space without windows: every access faults.
    pub fn new() -> (r: Self)
        ensures
            r@ == Seq::<Mapping>::empty(),
            disjoint(r@),
    {
        AddressSpace { mappings: Vec::new() }
    }

    /// Maps `size` bytes from `base` to `target`. The window is refused,
    /// and the space unchanged, where it is empty, reaches past the end of
    /// the address space or overlaps a window that is mapped already.
    pub fn map(&mut self, base: u64, size: u64, target: Target) -> (r: Result<(), MapError>)
        ensures
            disjoint(final(self)@),
            !range_valid(base, size) ==> r == Err::<(), MapError>(MapError::InvalidRange)
                && final(self)@ == old(self)@,
            range_valid(base, size) && overlaps_any(old(self)@, base, size) ==> r == Err::<
                (),
                MapError,
            >(MapError::Overlap) && final(self)@ == old(self)@,
            range_valid(base, size) && !overlaps_any(old(self)@, base, size) ==> r.is_ok()
                && final(self)@ == old(self)@.push(Mapping { base, size, target }),
    {
        proof {
            use_type_invariant(&*self);
        }
        match self.check_window(base, size) {
            Err(e) => {
                return Err(e);
            },
            Ok(()) => {},
        }
        assert(forall|k: int|
            0 <= k < self.mappings@.len() ==> !(#[trigger] self.mappings@[k]).overlaps(base, size));
        let ghost before = self.mappings@;
        let mut mappings = Vec::new();
        std::mem::swap(&mut mappings, &mut self.mappings);
        mappings.push(Mapping { base, size, target });
        proof {
            let after = before.push(Mapping { base, size, target });
            assert forall|a: int, b: int| 0 <= a < b < after.len() implies !(#[trigger] after[a]).overlaps(
                (#[trigger] after[b]).base,
                after[b].size,
            ) by {
                if b == before.len() {
                    assert(!before[a].overlaps(base, size));
                } else {
                    assert(!before[a].overlaps(before[b].base, before[b].size));
                }
            }
            assert forall|a: int| 0 <= a < after.len() implies (#[trigger] after[a]).valid() by {
                if a < before.len() {
                    assert(before[a].valid());
                }
            }
        }
        self.mappings = mappings;
        Ok(())
    }

    /// Tells whether `size` bytes from `base` could be mapped, by the
    /// error that `map` would give.
    pub fn check_window(&self, base: u64, size: u64) -> (r: Result<(), MapError>)
        ensures
            !range_valid(base, size) ==> r == Err::<(), MapError>(MapError::InvalidRange),
            range_valid(base, size) && overlaps_any(self@, base, size) ==> r == Err::<
                (),
                MapError,
            >(MapError::Overlap),
            range_valid(base, size) && !overlaps_any(self@, base, size) ==> r.is_ok(),
    {
        proof {
            use_type_invariant(self);
        }
        if size == 0 || base > ADDRESS_SPACE_END || size > ADDRESS_SPACE_END - base {
            return Err(MapError::InvalidRange);
        }
        let n = self.mappings.len();
        let mut i: usize = 0;
        while i < n
            invariant
                i <= n,
                n == self.mappings@.len(),
                disjoint(self.mappings@),
                range_valid(base, size),
                forall|k: int| 0 <= k < i ==> !(#[trigger] self.mappings@[k]).overlaps(base, size),
            decreases n - i,
        {
            let m = self.mappings[i];
            if m.base < base + size && base < m.base + m.size {
                assert(self.mappings@[i as int].overlaps(base, size));
                return Err(MapError::Overlap);
            }
            i += 1;
        }
        Ok(())
    }

    /// What an access at `addr` reaches, or `None` where it faults.
    pub fn resolve(&self, addr: u64) -> (r: Option<(Target, u64)>)
        ensures
            r == resolve(self@, addr),
    {
        let n = self.mappings.len();
        let mut i: usize = 0;
        while i < n
            invariant
                i <= n,
                n == self.mappings@.len(),
                lookup(self.mappings@, addr) == lookup_from(self.mappings@, addr, i as int),
            decreases n - i,
        {
            let m = self.mappings[i];
            if m.base <= addr && addr - m.base < m.size {
                return Some((m.target, addr - m.base));
            }
            i += 1;
        }
        None
    }

    /// The number of windows.
    pub fn len(&self) -> (r: usize)
        ensures
            r == self@.len(),
    {
        self.mappings.len()
    }

    /// The window at `index`, in the order of mapping.
    pub fn mapping(&self, index: usize) -> (r: Option<Mapping>)
        ensures
            r == if index < self@.len() {
                Some(self@[index as int])
            } else {
                None
            },
    {
        if index < self.mappings.len() {
            Some(self.mappings[index])
        } else {
            None
        }
    }
}

} // verus!
