use threemu::mmio::sdmmc::{SdmmcState, StorageRequest};
use threemu::mmio::sdmmc_model::MmcState;

const CMD: u32 = 0x000;
const PORTSEL: u32 = 0x002;
const CMDARG0: u32 = 0x004;
const CMDARG1: u32 = 0x006;
const BLKCOUNT: u32 = 0x00a;
const RESP0: u32 = 0x00c;
const STATUS0: u32 = 0x01c;
const STATUS1: u32 = 0x01e;
const BLKLEN: u32 = 0x026;
const FIFO: u32 = 0x030;
const DATA32_IRQ: u32 = 0x100;
const DATA32_BLK_LEN: u32 = 0x104;
const DATA32_BLK_COUNT: u32 = 0x108;
const DATA32_FIFO: u32 = 0x10c;

fn command(sd: &mut SdmmcState, number: u32, arg: u32) {
    sd.write(CMDARG0, 2, arg & 0xFFFF);
    sd.write(CMDARG1, 2, arg >> 16);
    sd.write(CMD, 2, number);
}

fn app_command(sd: &mut SdmmcState, number: u32, arg: u32) {
    command(sd, 55, 0);
    command(sd, number, arg);
}

fn response(sd: &mut SdmmcState) -> [u32; 8] {
    let mut r = [0u32; 8];
    for i in 0..8 {
        r[i] = sd.read(RESP0 + 2 * i as u32, 2);
    }
    r
}

fn response32(sd: &mut SdmmcState) -> u32 {
    let r = response(sd);
    r[0] | (r[1] << 16)
}

fn sector(n: u32) -> Vec<u8> {
    (0..512u32).map(|i| (i.wrapping_mul(7).wrapping_add(n * 13) & 0xFF) as u8).collect()
}

fn serve_read(sd: &mut SdmmcState, offset: u64, len: usize, data: Vec<u8>) {
    assert_eq!(sd.pending_request(), Some(&StorageRequest::Read { offset, len }));
    sd.complete_request(Some(data));
    assert_eq!(sd.pending_request(), None);
}

/// Brings a fresh card to the standby state.
fn identify(sd: &mut SdmmcState) {
    command(sd, 0, 0);
    app_command(sd, 41, 0);
    command(sd, 2, 0);
    command(sd, 3, 0);
}

#[test]
fn a_new_controller_is_idle_and_quiet() {
    let mut sd = SdmmcState::new(false);
    assert_eq!(sd.get_state(), MmcState::Idle);
    assert_eq!(sd.blocks_remaining(), 0);
    assert_eq!(sd.pending_request(), None);
    assert_eq!(sd.read(STATUS1, 2), 0);
    assert_eq!(sd.read(CMD, 2), 0);
    assert_eq!(response(&mut sd), [0; 8]);
}

#[test]
fn go_idle_sets_idle_and_completion_flags_from_any_state() {
    let mut sd = SdmmcState::new(false);
    identify(&mut sd);
    assert_eq!(sd.get_state(), MmcState::Standby);
    sd.write(STATUS0, 2, 0);
    command(&mut sd, 0, 0);
    assert_eq!(sd.get_state(), MmcState::Idle);
    assert_eq!(sd.read(STATUS1, 2) & 0x4000, 0);
    assert_eq!(sd.read(STATUS0, 2) & 0x0001, 0x0001);
    assert_eq!(response32(&mut sd), 1 << 9);

    let mut sd = SdmmcState::new(false);
    sd.write(BLKCOUNT, 2, 3);
    sd.write(BLKLEN, 2, 512);
    command(&mut sd, 18, 0);
    assert_eq!(sd.get_state(), MmcState::Data);
    command(&mut sd, 0, 0);
    assert_eq!(sd.get_state(), MmcState::Idle);
    assert_eq!(sd.read(STATUS1, 2) & 0x4000, 0);
    assert_eq!(sd.read(STATUS0, 2) & 0x0001, 0x0001);
}

#[test]
fn status0_reads_card_inserted_and_not_write_protected() {
    let mut sd = SdmmcState::new(false);
    assert_eq!(sd.read(STATUS0, 2), 0x00A0);
    command(&mut sd, 0, 0);
    assert_eq!(sd.read(STATUS0, 2), 0x00A1);
}

#[test]
fn status_write_keeps_only_bits_set_in_both() {
    let mut sd = SdmmcState::new(false);
    sd.write(BLKCOUNT, 2, 1);
    sd.write(BLKLEN, 2, 4);
    command(&mut sd, 18, 0);
    assert_eq!(sd.read(DATA32_FIFO, 4), 0);
    // Response ready (bit 0) and data end (bit 2): the register holds 0b101.
    assert_eq!(sd.read(STATUS0, 2) & !0x00A0, 0b101);
    sd.write(STATUS0, 2, 0b001);
    assert_eq!(sd.read(STATUS0, 2) & !0x00A0, 0b001);
    // A write never sets a bit.
    sd.write(STATUS0, 2, 0xFFFF);
    assert_eq!(sd.read(STATUS0, 2) & !0x00A0, 0b001);
    sd.write(STATUS0, 2, 0b100);
    assert_eq!(sd.read(STATUS0, 2) & !0x00A0, 0);
}

#[test]
fn status1_write_clears_by_mask() {
    let mut sd = SdmmcState::new(false);
    sd.write(BLKCOUNT, 2, 2);
    sd.write(BLKLEN, 2, 512);
    command(&mut sd, 18, 0);
    assert_eq!(sd.read(STATUS1, 2), 0x0B00);
    sd.write(STATUS1, 2, !0x0100 & 0xFFFF);
    assert_eq!(sd.read(STATUS1, 2), 0x0A00);
}

#[test]
fn read_multiple_block_streams_two_sectors_from_storage() {
    let n: u32 = 0x0001_2345;
    let mut sd = SdmmcState::new(true);
    identify(&mut sd);
    sd.write(BLKCOUNT, 2, 2);
    sd.write(BLKLEN, 2, 512);
    command(&mut sd, 18, n);
    assert_eq!(sd.get_state(), MmcState::Data);
    assert_eq!(sd.blocks_remaining(), 2);
    assert_eq!(sd.read(STATUS1, 2) & 0x0100, 0x0100);
    assert_eq!(response32(&mut sd), 5 << 9);
    serve_read(&mut sd, n as u64 * 512, 512, sector(n));

    let first = sector(n);
    for k in 0..128usize {
        let expected = u32::from_le_bytes([
            first[4 * k],
            first[4 * k + 1],
            first[4 * k + 2],
            first[4 * k + 3],
        ]);
        assert_eq!(sd.read(DATA32_FIFO, 4), expected, "word {k} of the first sector");
    }
    // The next sector is staged on its own.
    assert_eq!(sd.blocks_remaining(), 1);
    assert_eq!(sd.read(STATUS0, 2) & 0x0004, 0);
    assert_eq!(sd.read(STATUS1, 2) & 0x0100, 0x0100);
    serve_read(&mut sd, (n as u64 + 1) * 512, 512, sector(n + 1));

    let second = sector(n + 1);
    for k in 0..128usize {
        let expected = u32::from_le_bytes([
            second[4 * k],
            second[4 * k + 1],
            second[4 * k + 2],
            second[4 * k + 3],
        ]);
        assert_eq!(sd.read(DATA32_FIFO, 4), expected, "word {k} of the second sector");
    }
    assert_eq!(sd.read(STATUS0, 2) & 0x0004, 0x0004);
    assert_eq!(sd.blocks_remaining(), 0);
    assert_eq!(sd.get_state(), MmcState::Transfer);
    assert_eq!(sd.pending_request(), None);
    // The buffer is gone: further reads return zero.
    assert_eq!(sd.read(DATA32_FIFO, 4), 0);
}

#[test]
fn fifo_words_are_little_endian() {
    let mut sd = SdmmcState::new(true);
    sd.write(BLKCOUNT, 2, 1);
    sd.write(BLKLEN, 2, 8);
    command(&mut sd, 18, 0);
    serve_read(&mut sd, 0, 8, vec![0x78, 0x56, 0x34, 0x12, 0xEF, 0xBE, 0xAD, 0xDE]);
    assert_eq!(sd.read(DATA32_FIFO, 4), 0x12345678);
    assert_eq!(sd.read(DATA32_FIFO, 4), 0xDEADBEEF);
}

#[test]
fn a_narrow_access_moves_a_whole_word() {
    let mut sd = SdmmcState::new(true);
    sd.write(BLKCOUNT, 1, 1);
    sd.write(BLKLEN, 1, 8);
    command(&mut sd, 18, 0);
    serve_read(&mut sd, 0, 8, vec![1, 2, 3, 4, 5, 6, 7, 8]);
    assert_eq!(sd.read(DATA32_FIFO, 2), 0x04030201);
    assert_eq!(sd.read(DATA32_FIFO, 1), 0x08070605);
}

#[test]
fn reads_without_storage_serve_zeros() {
    let mut sd = SdmmcState::new(false);
    sd.write(BLKCOUNT, 2, 2);
    sd.write(BLKLEN, 2, 16);
    command(&mut sd, 18, 9);
    assert_eq!(sd.pending_request(), None);
    for _ in 0..8 {
        assert_eq!(sd.read(DATA32_FIFO, 4), 0);
    }
    assert_eq!(sd.pending_request(), None);
    assert_eq!(sd.blocks_remaining(), 0);
    assert_eq!(sd.read(STATUS0, 2) & 0x0004, 0x0004);
}

#[test]
fn the_raw_unit_never_reaches_storage() {
    let mut sd = SdmmcState::new(true);
    sd.write(PORTSEL, 2, 1);
    sd.write(BLKCOUNT, 2, 1);
    sd.write(BLKLEN, 2, 4);
    command(&mut sd, 18, 9);
    assert_eq!(sd.pending_request(), None);
    assert_eq!(sd.read(DATA32_FIFO, 4), 0);
    command(&mut sd, 25, 9);
    sd.write(DATA32_FIFO, 4, 0x11223344);
    assert_eq!(sd.pending_request(), None);
}

#[test]
fn a_failed_read_serves_zeros() {
    let mut sd = SdmmcState::new(true);
    sd.write(BLKCOUNT, 2, 1);
    sd.write(BLKLEN, 2, 8);
    command(&mut sd, 18, 3);
    assert_eq!(sd.pending_request(), Some(&StorageRequest::Read { offset: 3 * 512, len: 8 }));
    sd.complete_request(None);
    assert_eq!(sd.pending_request(), None);
    assert_eq!(sd.read(DATA32_FIFO, 4), 0);
    assert_eq!(sd.read(DATA32_FIFO, 4), 0);
}

#[test]
fn a_read_of_the_wrong_length_is_dropped() {
    let mut sd = SdmmcState::new(true);
    sd.write(BLKCOUNT, 2, 1);
    sd.write(BLKLEN, 2, 8);
    command(&mut sd, 18, 3);
    sd.complete_request(Some(vec![0xFF; 7]));
    assert_eq!(sd.pending_request(), None);
    assert_eq!(sd.read(DATA32_FIFO, 4), 0);
}

#[test]
fn data_without_a_request_is_dropped() {
    let mut sd = SdmmcState::new(false);
    sd.write(BLKCOUNT, 2, 1);
    sd.write(BLKLEN, 2, 4);
    command(&mut sd, 18, 3);
    sd.complete_request(Some(vec![0xFF; 4]));
    assert_eq!(sd.read(DATA32_FIFO, 4), 0);
}

#[test]
fn thirty_two_bit_mode_registers_take_precedence() {
    let mut sd = SdmmcState::new(true);
    sd.write(BLKCOUNT, 2, 9);
    sd.write(BLKLEN, 2, 512);
    sd.write(DATA32_BLK_COUNT, 2, 3);
    sd.write(DATA32_BLK_LEN, 2, 16);
    command(&mut sd, 18, 1);
    assert_eq!(sd.blocks_remaining(), 3);
    assert_eq!(sd.pending_request(), Some(&StorageRequest::Read { offset: 512, len: 16 }));
}

#[test]
fn sectors_advance_by_one_in_thirty_two_bit_mode() {
    let mut sd = SdmmcState::new(true);
    sd.write(BLKCOUNT, 2, 0);
    sd.write(DATA32_BLK_COUNT, 2, 3);
    sd.write(DATA32_BLK_LEN, 2, 4);
    command(&mut sd, 18, 10);
    serve_read(&mut sd, 10 * 512, 4, vec![1, 0, 0, 0]);
    assert_eq!(sd.read(DATA32_FIFO, 4), 1);
    serve_read(&mut sd, 11 * 512, 4, vec![2, 0, 0, 0]);
    assert_eq!(sd.read(DATA32_FIFO, 4), 2);
    serve_read(&mut sd, 12 * 512, 4, vec![3, 0, 0, 0]);
    assert_eq!(sd.read(DATA32_FIFO, 4), 3);
    assert_eq!(sd.blocks_remaining(), 0);
}

#[test]
fn the_highest_sector_does_not_wrap() {
    let mut sd = SdmmcState::new(true);
    sd.write(BLKCOUNT, 2, 2);
    sd.write(BLKLEN, 2, 4);
    command(&mut sd, 18, 0xFFFF_FFFF);
    serve_read(&mut sd, 0xFFFF_FFFFu64 * 512, 4, vec![0; 4]);
    sd.read(DATA32_FIFO, 4);
    assert_eq!(
        sd.pending_request(),
        Some(&StorageRequest::Read { offset: 0x1_0000_0000u64 * 512, len: 4 })
    );
}

#[test]
fn write_multiple_block_hands_each_block_to_storage() {
    let mut sd = SdmmcState::new(true);
    sd.write(BLKCOUNT, 2, 2);
    sd.write(BLKLEN, 2, 8);
    command(&mut sd, 25, 0x40);
    assert_eq!(sd.blocks_remaining(), 2);
    assert_eq!(sd.read(STATUS1, 2) & 0x0200, 0x0200);
    assert_eq!(sd.pending_request(), None);
    // Receive (6) with the write-request bit on top reads as Program (7).
    assert_eq!(sd.get_state(), MmcState::Program);

    sd.write(DATA32_FIFO, 4, 0x04030201);
    assert_eq!(sd.pending_request(), None);
    sd.write(DATA32_FIFO, 4, 0x08070605);
    assert_eq!(
        sd.pending_request(),
        Some(&StorageRequest::Write { offset: 0x40 * 512, data: vec![1, 2, 3, 4, 5, 6, 7, 8] })
    );
    sd.complete_request(None);
    assert_eq!(sd.blocks_remaining(), 1);
    assert_eq!(sd.read(STATUS0, 2) & 0x0004, 0);

    sd.write(DATA32_FIFO, 4, 0xAABBCCDD);
    sd.write(DATA32_FIFO, 4, 0x11223344);
    assert_eq!(
        sd.pending_request(),
        Some(&StorageRequest::Write {
            offset: 0x41 * 512,
            data: vec![0xDD, 0xCC, 0xBB, 0xAA, 0x44, 0x33, 0x22, 0x11],
        })
    );
    sd.complete_request(None);
    assert_eq!(sd.blocks_remaining(), 0);
    assert_eq!(sd.read(STATUS0, 2) & 0x0004, 0x0004);
    assert_eq!(sd.get_state(), MmcState::Transfer);
    assert_eq!(sd.read(DATA32_FIFO + 0, 4), 0);
}

#[test]
fn writes_without_storage_are_discarded() {
    let mut sd = SdmmcState::new(false);
    sd.write(BLKCOUNT, 2, 1);
    sd.write(BLKLEN, 2, 4);
    command(&mut sd, 25, 0);
    sd.write(DATA32_FIFO, 4, 0x11223344);
    assert_eq!(sd.pending_request(), None);
    assert_eq!(sd.read(STATUS0, 2) & 0x0004, 0x0004);
}

#[test]
fn the_fifo_latches_the_last_word_written() {
    let mut sd = SdmmcState::new(false);
    sd.write(DATA32_FIFO, 4, 0xCAFEF00D);
    // No block is staged: the word goes nowhere, and a read returns zero.
    assert_eq!(sd.read(DATA32_FIFO, 4), 0);
    sd.write(FIFO, 2, 0x1_BEEF);
    assert_eq!(sd.read(FIFO, 2), 0xBEEF);
}

#[test]
fn identification_walks_through_the_states() {
    let mut sd = SdmmcState::new(false);
    command(&mut sd, 0, 0);
    assert_eq!(sd.get_state(), MmcState::Idle);

    command(&mut sd, 55, 0);
    assert_eq!(response32(&mut sd), (1 << 5) | (1 << 8));
    command(&mut sd, 41, 0);
    assert_eq!(response32(&mut sd), 0xC0FF8080);
    assert_eq!(sd.get_state(), MmcState::Ready);

    command(&mut sd, 2, 0);
    assert_eq!(
        response(&mut sd),
        [0x65CD, 0xD71C, 0x147B, 0x4445, 0x4731, 0x4D32, 0x0100, 0x0015]
    );
    assert_eq!(sd.get_state(), MmcState::Identify);

    command(&mut sd, 3, 0);
    assert_eq!(response32(&mut sd), 0x0001_0000 | (2 << 9) | (1 << 8));
    assert_eq!(sd.get_state(), MmcState::Standby);
}

#[test]
fn transitions_apply_only_from_their_source_state() {
    let mut sd = SdmmcState::new(false);
    command(&mut sd, 2, 0);
    assert_eq!(sd.get_state(), MmcState::Idle);
    command(&mut sd, 3, 0);
    assert_eq!(sd.get_state(), MmcState::Idle);
    identify(&mut sd);
    app_command(&mut sd, 41, 0);
    assert_eq!(sd.get_state(), MmcState::Standby);
}

#[test]
fn app_cmd_applies_to_one_command_only() {
    let mut sd = SdmmcState::new(false);
    command(&mut sd, 55, 0);
    command(&mut sd, 41, 0);
    assert_eq!(response32(&mut sd), 0xC0FF8080);
    // Without APP_CMD, command 41 is unknown: it completes and leaves the response.
    sd.write(STATUS0, 2, 0);
    command(&mut sd, 41, 0);
    assert_eq!(response32(&mut sd), 0xC0FF8080);
    assert_eq!(sd.read(STATUS0, 2) & 1, 1);
    // Command 13 is SEND_STATUS: no data block is staged.
    command(&mut sd, 13, 0);
    assert_eq!(sd.read(STATUS1, 2) & 0x0100, 0);
}

#[test]
fn the_raw_unit_has_its_own_identity() {
    let mut sd = SdmmcState::new(false);
    sd.write(PORTSEL, 2, 1);
    command(&mut sd, 2, 0);
    assert_eq!(response(&mut sd), [0; 8]);
    app_command(&mut sd, 41, 0);
    assert_eq!(response32(&mut sd), 0x80FF8080);
}

#[test]
fn fixed_responses() {
    let mut sd = SdmmcState::new(false);
    command(&mut sd, 1, 0);
    assert_eq!(response32(&mut sd), 0x80FF8080);
    command(&mut sd, 8, 0x1AA);
    assert_eq!(response32(&mut sd), 0x1AA);
    command(&mut sd, 9, 0);
    assert_eq!(
        response(&mut sd),
        [0x4040, 0xe996, 0xdb7f, 0xdff6, 0x5901, 0x2a0f, 0x9001, 0x3f26]
    );
    command(&mut sd, 10, 0);
    assert_eq!(response(&mut sd), [0; 8]);
    command(&mut sd, 7, 0);
    assert_eq!(response32(&mut sd), 1 << 8);
    command(&mut sd, 13, 0);
    assert_eq!(response32(&mut sd), 1 << 8);
    command(&mut sd, 16, 512);
    assert_eq!(response32(&mut sd), 1 << 8);
    app_command(&mut sd, 6, 2);
    assert_eq!(response32(&mut sd), 1 << 8);
    app_command(&mut sd, 42, 0);
    assert_eq!(response32(&mut sd), 1 << 8);
}

#[test]
fn an_unknown_command_completes_without_error() {
    for number in [4u32, 5, 6, 17, 24, 63] {
        let mut sd = SdmmcState::new(false);
        identify(&mut sd);
        let before = response(&mut sd);
        sd.write(STATUS0, 2, 0);
        command(&mut sd, number, 0);
        assert_eq!(sd.read(STATUS0, 2) & 1, 1, "command {number}");
        assert_eq!(sd.read(STATUS1, 2) & 0x4000, 0, "command {number}");
        assert_eq!(response(&mut sd), before, "command {number}");
        assert_eq!(sd.get_state(), MmcState::Standby, "command {number}");
    }
}

#[test]
fn only_the_low_six_bits_number_the_command() {
    let mut sd = SdmmcState::new(false);
    identify(&mut sd);
    sd.write(CMD, 2, 0x0740);
    assert_eq!(sd.read(CMD, 2), 0x0740);
    assert_eq!(sd.get_state(), MmcState::Idle);
    assert_eq!(response32(&mut sd), 1 << 9);
}

#[test]
fn stop_transmission_ends_a_read() {
    let mut sd = SdmmcState::new(true);
    sd.write(BLKCOUNT, 2, 4);
    sd.write(BLKLEN, 2, 512);
    command(&mut sd, 18, 0);
    sd.read(DATA32_FIFO, 4);
    command(&mut sd, 12, 0);
    // The response is taken before the transfer is dropped.
    assert_eq!(response32(&mut sd), 5 << 9);
    assert_eq!(sd.blocks_remaining(), 0);
    assert_eq!(sd.pending_request(), None);
    assert_eq!(sd.get_state(), MmcState::Transfer);
    assert_eq!(sd.read(DATA32_FIFO, 4), 0);
    command(&mut sd, 12, 0);
    assert_eq!(sd.get_state(), MmcState::Standby);
    command(&mut sd, 12, 0);
    assert_eq!(sd.get_state(), MmcState::Standby);
}

#[test]
fn sd_status_stages_sixty_four_zero_bytes() {
    let mut sd = SdmmcState::new(true);
    app_command(&mut sd, 13, 0);
    assert_eq!(sd.read(STATUS1, 2) & 0x0100, 0x0100);
    assert_eq!(sd.pending_request(), None);
    for _ in 0..16 {
        assert_eq!(sd.read(DATA32_FIFO, 4), 0);
    }
    assert_eq!(sd.read(DATA32_FIFO, 4), 0);
}

#[test]
fn send_scr_stages_the_configuration_register() {
    let mut sd = SdmmcState::new(false);
    app_command(&mut sd, 51, 0);
    assert_eq!(sd.read(STATUS1, 2) & 0x0100, 0x0100);
    assert_eq!(sd.read(DATA32_FIFO, 4), 0x2a00_0000);
    assert_eq!(sd.read(DATA32_FIFO, 4), 0x0000_0001);
    assert_eq!(sd.read(DATA32_FIFO, 4), 0);
}

#[test]
fn data_control_reflects_the_data_flags() {
    let mut sd = SdmmcState::new(false);
    // Nothing to read, no write requested: bit 9 alone.
    assert_eq!(sd.read(DATA32_IRQ, 2), 0x0200);
    sd.write(DATA32_IRQ, 2, 0x0002);
    assert_eq!(sd.read(DATA32_IRQ, 2), 0x0202);
    sd.write(BLKCOUNT, 2, 1);
    sd.write(BLKLEN, 2, 4);
    command(&mut sd, 18, 0);
    assert_eq!(sd.read(DATA32_IRQ, 2), 0x0102);
}

#[test]
fn plain_registers_latch_sixteen_bits() {
    let offsets = [
        0x002u32, 0x004, 0x006, 0x008, 0x00a, 0x00c, 0x00e, 0x010, 0x012, 0x014, 0x016, 0x018,
        0x01a, 0x020, 0x022, 0x024, 0x026, 0x028, 0x02c, 0x02e, 0x030, 0x0d8, 0x0e0, 0x104, 0x108,
    ];
    let mut sd = SdmmcState::new(false);
    for (i, offset) in offsets.iter().enumerate() {
        sd.write(*offset, 4, 0xABCD_0000 + i as u32 + 1);
    }
    for (i, offset) in offsets.iter().enumerate() {
        assert_eq!(sd.read(*offset, 4), i as u32 + 1, "register {offset:#x}");
    }
}

#[test]
fn unknown_registers_read_zero_and_ignore_writes() {
    let mut sd = SdmmcState::new(false);
    identify(&mut sd);
    let status = (sd.read(STATUS0, 2), sd.read(STATUS1, 2));
    for offset in [0x001u32, 0x01b, 0x02a, 0x034, 0x0fe, 0x110, 0xFFC, 0xFFFF_FFFF] {
        sd.write(offset, 4, 0xFFFF_FFFF);
        assert_eq!(sd.read(offset, 4), 0);
    }
    assert_eq!((sd.read(STATUS0, 2), sd.read(STATUS1, 2)), status);
    assert_eq!(sd.get_state(), MmcState::Standby);
}

#[test]
fn the_argument_is_read_low_half_first() {
    let mut sd = SdmmcState::new(true);
    sd.write(BLKCOUNT, 2, 1);
    sd.write(BLKLEN, 2, 4);
    sd.write(CMDARG0, 2, 0x5678);
    sd.write(CMDARG1, 2, 0x1234);
    sd.write(CMD, 2, 18);
    assert_eq!(
        sd.pending_request(),
        Some(&StorageRequest::Read { offset: 0x1234_5678u64 * 512, len: 4 })
    );
}
