use threemu::address_space::{AddressSpace, Backing, Handler, MapError, Mapping, Target};
use threemu::firm::FirmSectionHeader;
use threemu::memory::{
    is_arm9_memory, load_sections, setup_arm11_memory, setup_arm9_memory, Cpu, FabricError,
    LoadError, MemoryFabric,
};

fn section(offset: u32, load_address: u32, size: u32) -> FirmSectionHeader {
    FirmSectionHeader { offset, load_address, size, copy_method: 0, hash: [0; 32] }
}

#[test]
fn a_byte_written_by_one_processor_is_read_by_the_other() {
    let mut fabric = MemoryFabric::new();
    for addr in [0x2000_0000u64, 0x27FF_FFFF, 0x1FF8_0000, 0x1FFF_FFFF, 0x1800_0000, 0x185F_FFFF] {
        assert!(fabric.write_byte(Cpu::Arm9, addr, 0x5A));
        assert_eq!(fabric.read_byte(Cpu::Arm11, addr), Some(0x5A));
        assert!(fabric.write_byte(Cpu::Arm11, addr, 0xA5));
        assert_eq!(fabric.read_byte(Cpu::Arm9, addr), Some(0xA5));
    }
}

#[test]
fn private_memory_is_seen_by_its_processor_only() {
    let mut fabric = MemoryFabric::new();
    for addr in [0x0800_0000u64, 0x081F_FFFF, 0x01FF_8000, 0x01FF_FFFF] {
        assert!(fabric.write_byte(Cpu::Arm9, addr, 0x77));
        assert_eq!(fabric.read_byte(Cpu::Arm9, addr), Some(0x77));
        assert_eq!(fabric.read_byte(Cpu::Arm11, addr), None);
        assert!(!fabric.write_byte(Cpu::Arm11, addr, 0x11));
        assert_eq!(fabric.read_byte(Cpu::Arm9, addr), Some(0x77));
    }
}

#[test]
fn memory_starts_zero_and_devices_are_no_memory() {
    let fabric = MemoryFabric::new();
    assert_eq!(fabric.read_byte(Cpu::Arm9, 0x2000_0000), Some(0));
    assert_eq!(fabric.read_byte(Cpu::Arm9, 0x1000_6000), None);
    assert_eq!(fabric.read_byte(Cpu::Arm11, 0x1040_0468), None);
    assert_eq!(fabric.read_byte(Cpu::Arm9, 0), None);
    assert_eq!(fabric.read_byte(Cpu::Arm9, 0x2800_0000), None);
    assert_eq!(fabric.read_byte(Cpu::Arm9, 0x1_2000_0000), None);
    assert_eq!(fabric.buffer(Backing::Vram).len(), 6 * 1024 * 1024);
    assert_eq!(fabric.buffer(Backing::Fcram).len(), 128 * 1024 * 1024);
}

#[test]
fn arm9_map_lists_its_windows_in_order() {
    let space = setup_arm9_memory();
    let expected = [
        (0x2000_0000u64, 0x800_0000u64, Target::Ram(Backing::Fcram)),
        (0x1FF8_0000, 0x8_0000, Target::Ram(Backing::AxiWram)),
        (0x1800_0000, 0x60_0000, Target::Ram(Backing::Vram)),
        (0x0800_0000, 0x20_0000, Target::Ram(Backing::Arm9Itcm)),
        (0x01FF_8000, 0x8000, Target::Ram(Backing::Arm9PrivateWram)),
        (0x1000_0000, 0x6000, Target::Mmio(Handler::Generic)),
        (0x1000_6000, 0x1000, Target::Mmio(Handler::Sdmmc)),
        (0x1000_8000, 0x7FF_8000, Target::Mmio(Handler::Generic)),
        (0x1860_0000, 0x798_0000, Target::Mmio(Handler::Generic)),
    ];
    assert_eq!(space.len(), expected.len());
    for (i, (base, size, target)) in expected.iter().enumerate() {
        assert_eq!(
            space.mapping(i),
            Some(Mapping { base: *base, size: *size, target: *target }),
            "window {i}"
        );
    }
    assert_eq!(space.mapping(expected.len()), None);
}

#[test]
fn arm11_map_lists_its_windows_in_order() {
    let space = setup_arm11_memory();
    let expected = [
        (0x2000_0000u64, 0x800_0000u64, Target::Ram(Backing::Fcram)),
        (0x1FF8_0000, 0x8_0000, Target::Ram(Backing::AxiWram)),
        (0x1800_0000, 0x60_0000, Target::Ram(Backing::Vram)),
        (0x1000_0000, 0x6000, Target::Mmio(Handler::Generic)),
        (0x1000_6000, 0x1000, Target::Mmio(Handler::Sdmmc)),
        (0x1000_8000, 0x3F_8000, Target::Mmio(Handler::Generic)),
        (0x1040_0000, 0x10_0000, Target::Mmio(Handler::Gpu)),
        (0x1050_0000, 0x791_1000, Target::Mmio(Handler::Generic)),
        (0x1860_0000, 0x798_0000, Target::Mmio(Handler::Generic)),
    ];
    assert_eq!(space.len(), expected.len());
    for (i, (base, size, target)) in expected.iter().enumerate() {
        assert_eq!(
            space.mapping(i),
            Some(Mapping { base: *base, size: *size, target: *target }),
            "window {i}"
        );
    }
}

#[test]
fn accesses_reach_their_device_with_the_offset_into_its_window() {
    let arm9 = setup_arm9_memory();
    let arm11 = setup_arm11_memory();
    assert_eq!(arm9.resolve(0x1000_601C), Some((Target::Mmio(Handler::Sdmmc), 0x01C)));
    assert_eq!(arm11.resolve(0x1000_601C), Some((Target::Mmio(Handler::Sdmmc), 0x01C)));
    assert_eq!(arm11.resolve(0x1040_0468), Some((Target::Mmio(Handler::Gpu), 0x468)));
    assert_eq!(arm9.resolve(0x1040_0468), Some((Target::Mmio(Handler::Generic), 0x3F_8468)));
    assert_eq!(arm9.resolve(0x1000_0000), Some((Target::Mmio(Handler::Generic), 0)));
    assert_eq!(arm9.resolve(0x2000_0010), Some((Target::Ram(Backing::Fcram), 0x10)));
}

#[test]
fn the_gap_after_the_sd_controller_faults() {
    let arm9 = setup_arm9_memory();
    let arm11 = setup_arm11_memory();
    for addr in [0x1000_7000u64, 0x1000_7800, 0x1000_7FFF] {
        assert_eq!(arm9.resolve(addr), None);
        assert_eq!(arm11.resolve(addr), None);
    }
    assert!(arm9.resolve(0x1000_6FFF).is_some());
    assert!(arm9.resolve(0x1000_8000).is_some());
}

#[test]
fn the_io_regions_of_the_two_processors_differ() {
    let arm9 = setup_arm9_memory();
    let arm11 = setup_arm11_memory();
    assert_eq!(arm11.resolve(0x17E1_0FFF), Some((Target::Mmio(Handler::Generic), 0x791_0FFF)));
    assert_eq!(arm11.resolve(0x17E1_1000), None);
    assert_eq!(arm11.resolve(0x17FF_FFFF), None);
    assert!(arm9.resolve(0x17E1_1000).is_some());
    assert!(arm9.resolve(0x17FF_FFFF).is_some());
}

#[test]
fn an_overlapping_window_is_refused() {
    let mut space = AddressSpace::new();
    assert_eq!(space.map(0x1000, 0x1000, Target::Mmio(Handler::Generic)), Ok(()));
    assert_eq!(space.map(0x1FFF, 1, Target::Mmio(Handler::Gpu)), Err(MapError::Overlap));
    assert_eq!(space.map(0x0800, 0x1000, Target::Mmio(Handler::Gpu)), Err(MapError::Overlap));
    assert_eq!(space.map(0x0, 0x10000, Target::Mmio(Handler::Gpu)), Err(MapError::Overlap));
    assert_eq!(space.map(0x2000, 0x1000, Target::Mmio(Handler::Gpu)), Ok(()));
    assert_eq!(space.map(0x0, 0x1000, Target::Mmio(Handler::Sdmmc)), Ok(()));
    assert_eq!(space.len(), 3);
    assert_eq!(space.resolve(0x1FFF), Some((Target::Mmio(Handler::Generic), 0xFFF)));
    assert_eq!(space.resolve(0x2000), Some((Target::Mmio(Handler::Gpu), 0)));
}

#[test]
fn a_window_that_is_no_range_is_refused() {
    let mut space = AddressSpace::new();
    assert_eq!(space.map(0x1000, 0, Target::Mmio(Handler::Generic)), Err(MapError::InvalidRange));
    assert_eq!(
        space.map(0xFFFF_F000, 0x1001, Target::Mmio(Handler::Generic)),
        Err(MapError::InvalidRange)
    );
    assert_eq!(
        space.map(u64::MAX, u64::MAX, Target::Mmio(Handler::Generic)),
        Err(MapError::InvalidRange)
    );
    assert_eq!(space.map(0xFFFF_F000, 0x1000, Target::Mmio(Handler::Generic)), Ok(()));
    assert_eq!(space.check_window(0xFFFF_F000, 0x1000), Err(MapError::Overlap));
    assert_eq!(space.check_window(0, 0x1000), Ok(()));
}

#[test]
fn the_fabric_refuses_windows_like_the_address_space() {
    let mut fabric = MemoryFabric::new();
    assert_eq!(
        fabric.map(Cpu::Arm11, 0x2000_0000, 0x1000, Target::Ram(Backing::Fcram)),
        Err(FabricError::Window(MapError::Overlap))
    );
    assert_eq!(
        fabric.map(Cpu::Arm11, 0x3000_0000, 0, Target::Ram(Backing::Fcram)),
        Err(FabricError::Window(MapError::InvalidRange))
    );
    assert_eq!(
        fabric.map(Cpu::Arm11, 0x3000_0000, 0x1_0000, Target::Ram(Backing::Arm9PrivateWram)),
        Err(FabricError::BackingTooSmall)
    );
    assert_eq!(fabric.space(Cpu::Arm11).len(), 9);
    // A second window onto private memory makes it shared.
    assert_eq!(
        fabric.map(Cpu::Arm11, 0x3000_0000, 0x8000, Target::Ram(Backing::Arm9PrivateWram)),
        Ok(())
    );
    assert!(fabric.write_byte(Cpu::Arm9, 0x01FF_8004, 0x42));
    assert_eq!(fabric.read_byte(Cpu::Arm11, 0x3000_0004), Some(0x42));
    assert_eq!(fabric.space(Cpu::Arm9).len(), 9);
}

#[test]
fn runs_of_bytes_are_written_whole_or_not_at_all() {
    let mut fabric = MemoryFabric::new();
    assert!(fabric.write(Cpu::Arm9, 0x081F_FFFC, &[1, 2, 3, 4]));
    assert_eq!(fabric.read(Cpu::Arm9, 0x081F_FFFC, 4), Some(vec![1, 2, 3, 4]));
    // One byte past the end of the region: nothing is written.
    assert!(!fabric.write(Cpu::Arm9, 0x081F_FFFD, &[9, 9, 9, 9]));
    assert_eq!(fabric.read(Cpu::Arm9, 0x081F_FFFC, 4), Some(vec![1, 2, 3, 4]));
    assert_eq!(fabric.read(Cpu::Arm9, 0x081F_FFFD, 4), None);
    assert_eq!(fabric.read(Cpu::Arm9, 0x081F_FFFD, 3), Some(vec![2, 3, 4]));
    assert_eq!(fabric.read(Cpu::Arm9, 0x5000_0000, 0), Some(vec![]));
    assert!(fabric.write(Cpu::Arm9, 0x5000_0000, &[]));
    assert_eq!(fabric.read(Cpu::Arm9, u64::MAX, 2), None);
}

#[test]
fn a_run_may_cross_from_one_region_into_the_next() {
    let mut fabric = MemoryFabric::new();
    // Shared work RAM ends where main memory starts.
    assert!(fabric.write(Cpu::Arm11, 0x1FFF_FFFE, &[1, 2, 3, 4]));
    assert_eq!(fabric.read(Cpu::Arm9, 0x1FFF_FFFE, 4), Some(vec![1, 2, 3, 4]));
    assert_eq!(fabric.buffer(Backing::AxiWram)[0x7_FFFE..], [1, 2]);
    assert_eq!(fabric.buffer(Backing::Fcram)[..2], [3, 4]);
}

#[test]
fn arm9_memory_is_the_internal_memory_window() {
    assert!(!is_arm9_memory(0x07FF_FFFF));
    assert!(is_arm9_memory(0x0800_0000));
    assert!(is_arm9_memory(0x081F_FFFF));
    assert!(!is_arm9_memory(0x0820_0000));
    assert!(!is_arm9_memory(0x01FF_8000));
    assert!(!is_arm9_memory(0x2000_0000));
    assert!(!is_arm9_memory(0xFFFF_FFFF));
}

#[test]
fn each_section_is_loaded_once_by_the_pass_of_its_owner() {
    let mut firm_data = vec![0u8; 0x200];
    firm_data.extend_from_slice(&[0xA1, 0xA2, 0xA3, 0xA4]);
    firm_data.extend_from_slice(&[0xB1, 0xB2, 0xB3]);
    let sections = [
        section(0x200, 0x0800_0100, 4),
        section(0x204, 0x2000_0000, 3),
        section(0x204, 0x1FF8_0000, 0),
        section(0, 0, 0),
    ];

    let mut fabric = MemoryFabric::new();
    assert_eq!(load_sections(&mut fabric, &sections, &firm_data, false), Ok(()));
    assert_eq!(fabric.read(Cpu::Arm9, 0x0800_0100, 4), Some(vec![0; 4]));
    assert_eq!(fabric.read(Cpu::Arm11, 0x2000_0000, 3), Some(vec![0xB1, 0xB2, 0xB3]));

    assert_eq!(load_sections(&mut fabric, &sections, &firm_data, true), Ok(()));
    assert_eq!(fabric.read(Cpu::Arm9, 0x0800_0100, 4), Some(vec![0xA1, 0xA2, 0xA3, 0xA4]));
    assert_eq!(fabric.read(Cpu::Arm9, 0x2000_0000, 3), Some(vec![0xB1, 0xB2, 0xB3]));
    assert_eq!(fabric.read(Cpu::Arm9, 0x1FF8_0000, 3), Some(vec![0; 3]));
}

#[test]
fn a_section_outside_the_file_ends_the_pass() {
    let firm_data = vec![0xCCu8; 0x210];
    let sections = [
        section(0x200, 0x2000_0000, 8),
        section(0x20C, 0x2000_1000, 8),
        section(0x200, 0x2000_2000, 8),
    ];
    let mut fabric = MemoryFabric::new();
    assert_eq!(
        load_sections(&mut fabric, &sections, &firm_data, false),
        Err(LoadError::OutOfBounds { index: 1 })
    );
    assert_eq!(fabric.read(Cpu::Arm11, 0x2000_0000, 8), Some(vec![0xCC; 8]));
    assert_eq!(fabric.read(Cpu::Arm11, 0x2000_2000, 8), Some(vec![0; 8]));
    let far = [section(0xFFFF_FFFF, 0x2000_0000, 0xFFFF_FFFF)];
    assert_eq!(
        load_sections(&mut fabric, &far, &firm_data, false),
        Err(LoadError::OutOfBounds { index: 0 })
    );
}

#[test]
fn a_section_for_unmapped_memory_ends_the_pass() {
    let firm_data = vec![0xDDu8; 0x210];
    let sections = [section(0x200, 0x3000_0000, 8)];
    let mut fabric = MemoryFabric::new();
    assert_eq!(
        load_sections(&mut fabric, &sections, &firm_data, false),
        Err(LoadError::Unmapped { index: 0 })
    );
    // The same section is none of the coprocessor's.
    assert_eq!(load_sections(&mut fabric, &sections, &firm_data, true), Ok(()));
    let device = [section(0x200, 0x1000_6000, 8)];
    assert_eq!(
        load_sections(&mut fabric, &device, &firm_data, false),
        Err(LoadError::Unmapped { index: 0 })
    );
}
