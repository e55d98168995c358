//! The firmware container: a fixed header with two entry points and four
//! section descriptors, followed by the sections' bytes.

use vstd::prelude::*;
use crate::bytes::{le_word_at, read_word};

verus! {

/// Length in bytes of the header.
pub const HEADER_SIZE: usize = 0x200;

/// Offset of the first section descriptor.
pub const SECTIONS_OFFSET: usize = 0x040;

/// Length in bytes of one section descriptor.
pub const SECTION_HEADER_SIZE: usize = 0x30;

/// Offset of the signature block.
pub const SIGNATURE_OFFSET: usize = 0x100;

/// Why a buffer is no firmware container.
#[derive(Clone, Copy, Debug, PartialEq, Eq, Structural)]
pub enum FirmError {
    /// The buffer is shorter than the header.
    FileTooSmall,
    /// The buffer does not start with the bytes `FIRM`.
    InvalidMagic,
}

/// Descriptor of one loadable section.
#[derive(Clone, Copy, Debug)]
pub struct FirmSectionHeader {
    /// Offset of the section's bytes in the container.
    pub offset: u32,
    /// Physical address that the section is loaded to.
    pub load_address: u32,
    /// Length of the section in bytes; 0 where there is no section.
    pub size: u32,
    /// How the boot ROM copies the section.
    pub copy_method: u32,
    /// SHA-256 hash of the section's bytes.
    pub hash: [u8; 32],
}

/// The header of a firmware container.
#[derive(Debug)]
pub struct FirmHeader {
    /// The bytes `FIRM`.
    pub magic: [u8; 4],
    pub boot_priority: u32,
    /// Entry point of the application processor.
    pub arm11_entrypoint: u32,
    /// Entry point of the coprocessor.
    pub arm9_entrypoint: u32,
    pub reserved: [u8; 0x30],
    pub sections: [FirmSectionHeader; 4],
    /// RSA-2048 signature over the header's hash.
    pub signature: [u8; 0x100],
}

/// The bytes `FIRM`.
pub open spec fn magic_bytes() -> Seq<u8> {
    seq![0x46u8, 0x49u8, 0x52u8, 0x4Du8]
}

/// `section` is what the descriptor at offset `base` of `data` spells.
pub open spec fn section_matches(section: FirmSectionHeader, data: Seq<u8>, base: int) -> bool {
    &&& section.offset == le_word_at(data, base)
    &&& section.load_address == le_word_at(data, base + 4)
    &&& section.size == le_word_at(data, base + 8)
    &&& section.copy_method == le_word_at(data, base + 12)
    &&& section.hash@ == data.subrange(base + 16, base + 48)
}

/// `header` is what the first `HEADER_SIZE` bytes of `data` spell.
pub open spec fn header_matches(header: FirmHeader, data: Seq<u8>) -> bool {
    &&& header.magic@ == data.subrange(0, 4)
    &&& header.boot_priority == le_word_at(data, 4)
    &&& header.arm11_entrypoint == le_word_at(data, 8)
    &&& header.arm9_entrypoint == le_word_at(data, 12)
    &&& header.reserved@ == data.subrange(0x10, 0x40)
    &&& forall|i: int|
        0 <= i < 4 ==> section_matches(#[trigger] header.sections@[i], data, 0x40 + i * 0x30)
    &&& header.signature@ == data.subrange(0x100, 0x200)
}

/// The header that the first `HEADER_SIZE` bytes of `data` spell.
pub open spec fn header_of(data: Seq<u8>) -> FirmHeader {
    choose|header: FirmHeader| header_matches(header, data)
}

/// What parsing `data` yields: the error, or success.
pub open spec fn parse_outcome(data: Seq<u8>) -> Result<(), FirmError> {
    if data.len() < HEADER_SIZE {
        Err(FirmError::FileTooSmall)
    } else if data.subrange(0, 4) != magic_bytes() {
        Err(FirmError::InvalidMagic)
    } else {
        Ok(())
    }
}

/// Copies `N` bytes of `data` from index `start`.
fn copy_bytes<const N: usize>(data: &[u8], start: usize) -> (r: [u8; N])
    requires
        start + N <= data@.len(),
    ensures
        r@ == data@.subrange(start as int, start + N),
{
    let len = data.len();
    let mut r = [0u8; N];
    let mut i: usize = 0;
    while i < N
        invariant
            i <= N,
            start + N <= len,
            len == data@.len(),
            r@.len() == N,
            forall|k: int| 0 <= k < i ==> r@[k] == data@[start + k],
        decreases N - i,
    {
        r[i] = data[start + i];
        i += 1;
    }
    assert(r@ =~= data@.subrange(start as int, start + N));
    r
}

/// Reads the section descriptor at offset `base` of `data`.
fn parse_section(data: &[u8], base: usize) -> (r: FirmSectionHeader)
    requires
        base + SECTION_HEADER_SIZE <= data@.len(),
    ensures
        section_matches(r, data@, base as int),
{
    let len = data.len();
    assert(base + SECTION_HEADER_SIZE <= len);
    FirmSectionHeader {
        offset: read_word(data, base),
        load_address: read_word(data, base + 4),
        size: read_word(data, base + 8),
        copy_method: read_word(data, base + 12),
        hash: copy_bytes::<32>(data, base + 16),
    }
}

impl FirmHeader {
    /// Parses the header at the start of `data`. A buffer shorter than the
    /// header, or one that does not start with `FIRM`, is rejected before
    /// any section is looked at.
    pub fn parse(data: &[u8]) -> (r: Result<FirmHeader, FirmError>)
        ensures
            match r {
                Ok(header) => parse_outcome(data@).is_ok() && header_matches(header, data@)
                    && header == header_of(data@),
                Err(e) => parse_outcome(data@) == Err::<(), FirmError>(e),
            },
    {
        if data.len() < HEADER_SIZE {
            return Err(FirmError::FileTooSmall);
        }
        let magic = copy_bytes::<4>(data, 0);
        if !(magic[0] == 0x46 && magic[1] == 0x49 && magic[2] == 0x52 && magic[3] == 0x4D) {
            assert(data@.subrange(0, 4) != magic_bytes()) by {
                if data@.subrange(0, 4) == magic_bytes() {
                    assert(magic@[0] == magic_bytes()[0]);
                    assert(magic@[1] == magic_bytes()[1]);
                    assert(magic@[2] == magic_bytes()[2]);
                    assert(magic@[3] == magic_bytes()[3]);
                }
            }
            return Err(FirmError::InvalidMagic);
        }
        assert(data@.subrange(0, 4) =~= magic_bytes());
        let boot_priority = read_word(data, 0x004);
        let arm11_entrypoint = read_word(data, 0x008);
        let arm9_entrypoint = read_word(data, 0x00C);
        let reserved = copy_bytes::<0x30>(data, 0x010);
        let sections = [
            parse_section(data, 0x040),
            parse_section(data, 0x070),
            parse_section(data, 0x0A0),
            parse_section(data, 0x0D0),
        ];
        let signature = copy_bytes::<0x100>(data, SIGNATURE_OFFSET);
        let header = FirmHeader {
            magic,
            boot_priority,
            arm11_entrypoint,
            arm9_entrypoint,
            reserved,
            sections,
            signature,
        };
        proof {
            assert(header_matches(header, data@));
            lemma_header_unique(header, header_of(data@), data@);
        }
        Ok(header)
    }
}

/// The bytes of a header determine it: two headers that the same bytes
/// spell are equal.
pub proof fn lemma_header_unique(a: FirmHeader, b: FirmHeader, data: Seq<u8>)
    requires
        header_matches(a, data),
        header_matches(b, data),
    ensures
        a == b,
{
    assert(a.magic =~= b.magic);
    assert(a.reserved =~= b.reserved);
    assert(a.signature =~= b.signature);
    assert forall|i: int| 0 <= i < 4 implies a.sections@[i] == b.sections@[i] by {
        assert(section_matches(a.sections@[i], data, 0x40 + i * 0x30));
        assert(section_matches(b.sections@[i], data, 0x40 + i * 0x30));
        assert(a.sections@[i].hash =~= b.sections@[i].hash);
    }
    assert(a.sections =~= b.sections);
}

} // verus!
