use threemu::mmio::gpu::{read_handler, write_handler, GpuState, PixelFormat};
use threemu::memory::{setup_arm11_memory, setup_arm9_memory};
use threemu::mmio::{
    dispatch_read, dispatch_write, generic, mmio_read, mmio_write, sdmmc, EmulatorState,
};
use threemu::address_space::Handler;

#[test]
fn a_new_gpu_has_no_framebuffers() {
    let gpu = GpuState::new();
    assert_eq!(gpu.top_left_addr, 0);
    assert_eq!(gpu.top_right_addr, 0);
    assert_eq!(gpu.bottom_addr, 0);
    assert_eq!(gpu.top_stride, 0);
    assert_eq!(gpu.bottom_stride, 0);
    assert_eq!(gpu.top_format, PixelFormat::Unknown);
    assert_eq!(gpu.bottom_format, PixelFormat::Unknown);
    assert_eq!(gpu.top_format_word, 0xFF);
    assert_eq!(gpu.bottom_format_word, 0xFF);
    assert_eq!(gpu.read(0x470, 4), 0xFF);
    assert_eq!(gpu.read(0x570, 4), 0xFF);
}

#[test]
fn registers_read_back_what_was_written() {
    let mut gpu = GpuState::new();
    gpu.write(0x468, 4, 0x1800_0000);
    gpu.write(0x494, 4, 0x1804_6500);
    gpu.write(0x490, 4, 0x2D0);
    gpu.write(0x568, 4, 0x2000_0000);
    gpu.write(0x590, 4, 0x1E0);
    assert_eq!(gpu.read(0x468, 4), 0x1800_0000);
    assert_eq!(gpu.read(0x494, 4), 0x1804_6500);
    assert_eq!(gpu.read(0x490, 4), 0x2D0);
    assert_eq!(gpu.read(0x568, 4), 0x2000_0000);
    assert_eq!(gpu.read(0x590, 4), 0x1E0);
    assert_eq!(gpu.top_left_addr, 0x1800_0000);
    assert_eq!(gpu.top_right_addr, 0x1804_6500);
    assert_eq!(gpu.bottom_addr, 0x2000_0000);
    assert_eq!(gpu.top_stride, 0x2D0);
    assert_eq!(gpu.bottom_stride, 0x1E0);
}

#[test]
fn format_registers_read_back_the_word_that_was_written() {
    let mut gpu = GpuState::new();
    gpu.write(0x470, 4, 0x0008_0341);
    assert_eq!(gpu.read(0x470, 4), 0x0008_0341);
    assert_eq!(gpu.top_format_word, 0x0008_0341);
    assert_eq!(gpu.top_format, PixelFormat::Rgb8);
    gpu.write(0x570, 4, 0x0008_0304);
    assert_eq!(gpu.read(0x570, 4), 0x0008_0304);
    assert_eq!(gpu.bottom_format, PixelFormat::Rgba4);
    gpu.write(0x470, 4, 5);
    assert_eq!(gpu.read(0x470, 4), 5);
    assert_eq!(gpu.top_format, PixelFormat::Unknown);
    gpu.write(0x470, 4, 0);
    assert_eq!(gpu.read(0x470, 4), 0);
    assert_eq!(gpu.top_format, PixelFormat::Rgba8);
    // The other format register is left alone.
    assert_eq!(gpu.read(0x570, 4), 0x0008_0304);
}

#[test]
fn pixel_formats_by_number() {
    assert_eq!(PixelFormat::from(0), PixelFormat::Rgba8);
    assert_eq!(PixelFormat::from(1), PixelFormat::Rgb8);
    assert_eq!(PixelFormat::from(2), PixelFormat::Rgb565);
    assert_eq!(PixelFormat::from(3), PixelFormat::Rgb5A1);
    assert_eq!(PixelFormat::from(4), PixelFormat::Rgba4);
    assert_eq!(PixelFormat::from(5), PixelFormat::Unknown);
    assert_eq!(PixelFormat::from(6), PixelFormat::Unknown);
    assert_eq!(PixelFormat::from(7), PixelFormat::Unknown);
    assert_eq!(PixelFormat::from(8), PixelFormat::Rgba8);
    assert_eq!(PixelFormat::Rgba8.code(), 0);
    assert_eq!(PixelFormat::Rgb8.code(), 1);
    assert_eq!(PixelFormat::Rgb565.code(), 2);
    assert_eq!(PixelFormat::Rgb5A1.code(), 3);
    assert_eq!(PixelFormat::Rgba4.code(), 4);
    assert_eq!(PixelFormat::Unknown.code(), 0xFF);
}

#[test]
fn unknown_offsets_read_zero_and_ignore_writes() {
    let mut gpu = GpuState::new();
    gpu.write(0x468, 4, 7);
    for offset in [0u32, 0x464, 0x46C, 0x498, 0x1000, 0xFFFF_FFFF] {
        gpu.write(offset, 4, 0xFFFF_FFFF);
        assert_eq!(gpu.read(offset, 4), 0);
    }
    assert_eq!(gpu.top_left_addr, 7);
    assert_eq!(gpu.top_right_addr, 0);
    assert_eq!(gpu.bottom_addr, 0);
}

#[test]
fn the_width_of_an_access_plays_no_part() {
    let mut gpu = GpuState::new();
    gpu.write(0x468, 1, 0x1234_5678);
    assert_eq!(gpu.read(0x468, 1), 0x1234_5678);
    assert_eq!(gpu.read(0x468, 2), 0x1234_5678);
}

#[test]
fn handlers_reach_their_device() {
    let mut state = EmulatorState::new(false);
    write_handler(&mut state, 0x468, 4, 0x1_1800_0000);
    assert_eq!(state.gpu.top_left_addr, 0x1800_0000);
    assert_eq!(read_handler(&mut state, 0x468, 4), 0x1800_0000);

    sdmmc::write_handler(&mut state, 0x00a, 2, 0x1_0003);
    assert_eq!(sdmmc::read_handler(&mut state, 0x00a, 2), 3);
    assert_eq!(sdmmc::read_handler(&mut state, 0x01c, 2), 0xA0);

    generic::write_handler(&mut state, 0x468, 4, 9);
    assert_eq!(generic::read_handler(&mut state, 0x468, 4), 0);
    assert_eq!(state.gpu.top_left_addr, 0x1800_0000);
}

#[test]
fn accesses_are_routed_by_handler() {
    let mut state = EmulatorState::new(false);
    mmio_write(&mut state, Handler::Gpu, 0x568, 4, 0x2000_0000);
    mmio_write(&mut state, Handler::Sdmmc, 0x026, 2, 0x200);
    mmio_write(&mut state, Handler::Generic, 0x568, 4, 5);
    assert_eq!(mmio_read(&mut state, Handler::Gpu, 0x568, 4), 0x2000_0000);
    assert_eq!(mmio_read(&mut state, Handler::Sdmmc, 0x026, 2), 0x200);
    assert_eq!(mmio_read(&mut state, Handler::Generic, 0x568, 4), 0);
    assert_eq!(mmio_read(&mut state, Handler::Sdmmc, 0x568, 4), 0);
    assert_eq!(mmio_read(&mut state, Handler::Gpu, 0x026, 2), 0);
}

#[test]
fn accesses_are_dispatched_by_address() {
    let arm9 = setup_arm9_memory();
    let arm11 = setup_arm11_memory();
    let mut state = EmulatorState::new(false);
    assert!(dispatch_write(&arm11, &mut state, 0x1040_0468, 4, 0x1800_0000));
    assert_eq!(dispatch_read(&arm11, &mut state, 0x1040_0468, 4), Some(0x1800_0000));
    // The coprocessor finds no framebuffer registers there.
    assert!(dispatch_write(&arm9, &mut state, 0x1040_0468, 4, 7));
    assert_eq!(dispatch_read(&arm9, &mut state, 0x1040_0468, 4), Some(0));
    assert_eq!(state.gpu.top_left_addr, 0x1800_0000);
    assert!(dispatch_write(&arm9, &mut state, 0x1000_600a, 2, 5));
    assert_eq!(dispatch_read(&arm11, &mut state, 0x1000_600a, 2), Some(5));
    // The gap faults, and memory is no device.
    assert_eq!(dispatch_read(&arm9, &mut state, 0x1000_7000, 4), None);
    assert!(!dispatch_write(&arm11, &mut state, 0x1000_7FFC, 4, 1));
    assert_eq!(dispatch_read(&arm9, &mut state, 0x2000_0000, 4), None);
    assert!(!dispatch_write(&arm9, &mut state, 0x2000_0000, 4, 1));
}
