//! The SD/MMC host controller: registers, command engine and data FIFO.
//!
//! The controller never touches the backing image itself. Where a block
//! boundary needs the image, it leaves a [`StorageRequest`] for its owner,
//! who performs the transfer and reports back with
//! [`SdmmcState::complete_request`].

use vstd::prelude::*;
use crate::bytes::{word_from_le, word_to_le};
use crate::mmio::EmulatorState;
use crate::mmio::sdmmc_model::{
    csd, nand_cid, scr, sd_cid, state_code, zeros, MmcState, SdmmcModel,
    StorageOp, MAX_BLOCK_LEN, OCR, OCR_SDHC, RCA, REG_BLKCOUNT, REG_BLKLEN, REG_CLKCTL, REG_CMD,
    REG_CMDARG0, REG_CMDARG1, REG_DATA32_BLK_COUNT, REG_DATA32_BLK_LEN, REG_DATA32_FIFO,
    REG_DATA32_IRQ, REG_DATA_CTL, REG_ERROR_DETAIL_STATUS0, REG_ERROR_DETAIL_STATUS1, REG_FIFO,
    REG_IRQ_MASK0, REG_IRQ_MASK1, REG_OPT, REG_PORTSEL, REG_RESET, REG_RESP0, REG_RESP1,
    REG_RESP2, REG_RESP3, REG_RESP4, REG_RESP5, REG_RESP6, REG_RESP7,
    REG_STATUS0, REG_STATUS1, REG_STOP, STAT0_CARD_INSERTED, STAT0_CMDRESPEND, STAT0_DATAEND,
    STAT0_WRPROTECT, STAT1_CMD_BUSY, STAT1_RXRDY, STAT1_TXRQ,
};

verus! {

/// Work that the controller asks of whoever holds the backing image.
#[derive(Clone, Debug, PartialEq, Eq)]
pub enum StorageRequest {
    /// Read `len` bytes at byte `offset` of the image into the staged block.
    Read { offset: u64, len: usize },
    /// Store `data` at byte `offset` of the image.
    Write { offset: u64, data: Vec<u8> },
}

impl View for StorageRequest {
    type V = StorageOp;

    open spec fn view(&self) -> StorageOp {
        match *self {
            StorageRequest::Read { offset, len } => StorageOp::Read { offset, len: len as nat },
            StorageRequest::Write { offset, data } => StorageOp::Write { offset, data: data@ },
        }
    }
}

/// The model of an optional request.
pub open spec fn request_view(r: Option<StorageRequest>) -> Option<StorageOp> {
    match r {
        Some(r) => Some(r@),
        None => None,
    }
}

/// Registers and transfer session of the controller.
#[derive(Debug)]
pub struct SdmmcState {
    cmd: u16,
    portsel: u16,
    cmdarg0: u16,
    cmdarg1: u16,
    stop: u16,
    blkcount: u16,
    resp: [u16; 8],
    status0: u16,
    status1: u16,
    irq_mask0: u16,
    irq_mask1: u16,
    clkctl: u16,
    blklen: u16,
    opt: u16,
    error_detail_status0: u16,
    error_detail_status1: u16,
    fifo: u16,
    data_ctl: u16,
    reset: u16,
    data32_irq: u16,
    data32_blk_len: u16,
    data32_blk_count: u16,
    data32_fifo: u32,
    app_command_next: bool,
    transfer_buffer: Vec<u8>,
    transfer_pos: usize,
    transfer_blocks_remaining: u16,
    transfer_blocks_done: u16,
    transfer_start_addr: u32,
    sd_attached: bool,
    pending: Option<StorageRequest>,
}

impl View for SdmmcState {
    type V = SdmmcModel;

    closed spec fn view(&self) -> SdmmcModel {
        SdmmcModel {
            cmd: self.cmd,
            portsel: self.portsel,
            cmdarg0: self.cmdarg0,
            cmdarg1: self.cmdarg1,
            stop: self.stop,
            blkcount: self.blkcount,
            resp: self.resp@,
            status0: self.status0,
            status1: self.status1,
            irq_mask0: self.irq_mask0,
            irq_mask1: self.irq_mask1,
            clkctl: self.clkctl,
            blklen: self.blklen,
            opt: self.opt,
            error_detail_status0: self.error_detail_status0,
            error_detail_status1: self.error_detail_status1,
            fifo: self.fifo,
            data_ctl: self.data_ctl,
            reset: self.reset,
            data32_irq: self.data32_irq,
            data32_blk_len: self.data32_blk_len,
            data32_blk_count: self.data32_blk_count,
            data32_fifo: self.data32_fifo,
            app_command_next: self.app_command_next,
            transfer_buffer: self.transfer_buffer@,
            transfer_pos: self.transfer_pos as nat,
            transfer_blocks_remaining: self.transfer_blocks_remaining,
            transfer_blocks_done: self.transfer_blocks_done,
            transfer_start_addr: self.transfer_start_addr,
            sd_attached: self.sd_attached,
            pending: request_view(self.pending),
        }
    }
}

/// The number that stands for a card state.
pub fn state_number(state: MmcState) -> (r: u16)
    ensures
        r == state_code(state),
{
    match state {
        MmcState::Idle => 0,
        MmcState::Ready => 1,
        MmcState::Identify => 2,
        MmcState::Standby => 3,
        MmcState::Transfer => 4,
        MmcState::Data => 5,
        MmcState::Receive => 6,
        MmcState::Program => 7,
    }
}

impl SdmmcState {
    #[verifier::type_invariant]
    closed spec fn inv(&self) -> bool {
        self@.wf()
    }

    /// A controller after reset. `sd_attached` tells whether a backing image
    /// stands behind the card.
    pub fn new(sd_attached: bool) -> (r: Self)
        ensures
            r@ == SdmmcModel::init(sd_attached),
            r@.wf(),
    {
        let r = SdmmcState {
            cmd: 0,
            portsel: 0,
            cmdarg0: 0,
            cmdarg1: 0,
            stop: 0,
            blkcount: 0,
            resp: [0u16; 8],
            status0: 0,
            status1: 0,
            irq_mask0: 0,
            irq_mask1: 0,
            clkctl: 0,
            blklen: 0,
            opt: 0,
            error_detail_status0: 0,
            error_detail_status1: 0,
            fifo: 0,
            data_ctl: 0,
            reset: 0,
            data32_irq: 0,
            data32_blk_len: 0,
            data32_blk_count: 0,
            data32_fifo: 0,
            app_command_next: false,
            transfer_buffer: Vec::new(),
            transfer_pos: 0,
            transfer_blocks_remaining: 0,
            transfer_blocks_done: 0,
            transfer_start_addr: 0,
            sd_attached,
            pending: None,
        };
        assert(r@.resp =~= SdmmcModel::init(sd_attached).resp);
        assert(r@.transfer_buffer =~= SdmmcModel::init(sd_attached).transfer_buffer);
        r
    }

    /// The card state held in the status bits.
    pub fn get_state(&self) -> (r: MmcState)
        ensures
            r == self@.state(),
    {
        let state_bits = (self.status1 >> 9) & 0xF;
        if state_bits == 1 {
            MmcState::Ready
        } else if state_bits == 2 {
            MmcState::Identify
        } else if state_bits == 3 {
            MmcState::Standby
        } else if state_bits == 4 {
            MmcState::Transfer
        } else if state_bits == 5 {
            MmcState::Data
        } else if state_bits == 6 {
            MmcState::Receive
        } else if state_bits == 7 {
            MmcState::Program
        } else {
            MmcState::Idle
        }
    }

    fn set_state(&mut self, state: MmcState)
        ensures
            final(self)@ == old(self)@.set_state(state),
    {
        proof {
            use_type_invariant(&*self);
        }
        self.status1 = (self.status1 & 0xE1FF) | (state_number(state) << 9);
    }

    fn get_r1_response(&self) -> (r: u32)
        ensures
            r == self@.r1_response(),
    {
        let app: u32 = if self.app_command_next { 1u32 << 5 } else { 0 };
        let state: u32 = (state_number(self.get_state()) as u32) << 9;
        let ready: u32 = if self.transfer_blocks_remaining == 0 { 1u32 << 8 } else { 0 };
        app | state | ready
    }

    fn command_end(&mut self)
        ensures
            final(self)@ == old(self)@.command_end(),
    {
        proof {
            use_type_invariant(&*self);
        }
        self.status1 &= 0xBFFF;
        self.status0 |= STAT0_CMDRESPEND;
    }

    fn get_argument(&self) -> (r: u32)
        ensures
            r == self@.argument(),
    {
        ((self.cmdarg1 as u32) << 16) | (self.cmdarg0 as u32)
    }

    fn set_response_128(&mut self, resp: &[u32; 4])
        ensures
            final(self)@ == old(self)@.set_response_128(resp@),
    {
        proof {
            use_type_invariant(&*self);
        }
        self.resp[0] = (resp[0] & 0xFFFF) as u16;
        self.resp[1] = (resp[0] >> 16) as u16;
        self.resp[2] = (resp[1] & 0xFFFF) as u16;
        self.resp[3] = (resp[1] >> 16) as u16;
        self.resp[4] = (resp[2] & 0xFFFF) as u16;
        self.resp[5] = (resp[2] >> 16) as u16;
        self.resp[6] = (resp[3] & 0xFFFF) as u16;
        self.resp[7] = (resp[3] >> 16) as u16;
        assert(self@.resp =~= old(self)@.set_response_128(resp@).resp);
    }

    fn set_response_32(&mut self, resp: u32)
        ensures
            final(self)@ == old(self)@.set_response_32(resp),
    {
        proof {
            use_type_invariant(&*self);
        }
        self.resp[0] = (resp & 0xFFFF) as u16;
        self.resp[1] = (resp >> 16) as u16;
    }

    fn nand_selected(&self) -> (r: bool)
        ensures
            r == self@.nand_selected(),
    {
        self.portsel == 1
    }

    fn storage_active(&self) -> (r: bool)
        ensures
            r == self@.storage_active(),
    {
        self.portsel == 0 && self.sd_attached
    }

    /// Byte offset in the backing image of the block that is staged.
    fn current_offset(&self) -> (r: u64)
        ensures
            r == self@.current_offset(),
    {
        (self.transfer_start_addr as u64 + self.transfer_blocks_done as u64) * 512
    }

    fn execute_cmd(&mut self, cmd: u8, arg: u32)
        ensures
            final(self)@ == old(self)@.execute_cmd(cmd, arg),
    {
        if cmd == 0 {
            self.cmd0_go_idle_state()
        } else if cmd == 1 {
            self.cmd1_send_op_cond()
        } else if cmd == 2 {
            self.cmd2_all_send_cid()
        } else if cmd == 3 {
            self.cmd3_send_relative_addr(arg)
        } else if cmd == 7 {
            self.cmd7_select_card()
        } else if cmd == 8 {
            self.cmd8_send_if_cond()
        } else if cmd == 9 {
            self.cmd9_send_csd()
        } else if cmd == 10 {
            self.cmd10_send_cid()
        } else if cmd == 12 {
            self.cmd12_stop_transmission()
        } else if cmd == 13 {
            self.cmd13_send_status()
        } else if cmd == 16 {
            self.cmd16_set_blocklen(arg)
        } else if cmd == 18 {
            self.cmd18_read_multiple_block(arg)
        } else if cmd == 25 {
            self.cmd25_write_multiple_block(arg)
        } else if cmd == 55 {
            self.cmd55_app_cmd()
        } else {
            self.command_end()
        }
    }

    fn execute_acmd(&mut self, cmd: u8, arg: u32)
        ensures
            final(self)@ == old(self)@.execute_acmd(cmd, arg),
    {
        if cmd == 6 {
            self.acmd6_set_bus_width(arg)
        } else if cmd == 13 {
            self.acmd13_sd_status()
        } else if cmd == 41 {
            self.acmd41_sd_send_op_cond(arg)
        } else if cmd == 42 {
            self.acmd42_set_clr_card_detect()
        } else if cmd == 51 {
            self.acmd51_send_scr()
        } else {
            self.command_end()
        }
    }

    fn cmd0_go_idle_state(&mut self)
        ensures
            final(self)@ == old(self)@.cmd0(),
    {
        self.set_state(MmcState::Idle);
        self.set_response_32(1u32 << 9);
        self.command_end();
    }

    fn cmd1_send_op_cond(&mut self)
        ensures
            final(self)@ == old(self)@.cmd1(),
    {
        self.set_response_32(OCR);
        self.command_end();
    }

    fn cmd2_all_send_cid(&mut self)
        ensures
            final(self)@ == old(self)@.cmd2(),
    {
        let cid: [u32; 4] = if self.nand_selected() {
            [0x00000000u32, 0x00000000, 0x00000000, 0x00000000]
        } else {
            [0xD71C65CDu32, 0x4445147B, 0x4D324731, 0x00150100]
        };
        assert(cid@ =~= if self@.nand_selected() { nand_cid() } else { sd_cid() });
        self.set_response_128(&cid);
        self.command_end();
        if self.get_state() == MmcState::Ready {
            self.set_state(MmcState::Identify);
        }
    }

    fn cmd3_send_relative_addr(&mut self, _arg: u32)
        ensures
            final(self)@ == old(self)@.cmd3(),
    {
        let status = self.get_r1_response();
        self.set_response_32(RCA | status);
        self.command_end();
        if self.get_state() == MmcState::Identify {
            self.set_state(MmcState::Standby);
        }
    }

    fn cmd7_select_card(&mut self)
        ensures
            final(self)@ == old(self)@.status_command(),
    {
        let status = self.get_r1_response();
        self.set_response_32(status);
        self.command_end();
    }

    fn cmd8_send_if_cond(&mut self)
        ensures
            final(self)@ == old(self)@.cmd8(),
    {
        self.set_response_32(0x1AA);
        self.command_end();
    }

    fn cmd9_send_csd(&mut self)
        ensures
            final(self)@ == old(self)@.cmd9(),
    {
        let csd_words: [u32; 4] = [0xe9964040u32, 0xdff6db7f, 0x2a0f5901, 0x3f269001];
        assert(csd_words@ =~= csd());
        self.set_response_128(&csd_words);
        self.command_end();
    }

    fn cmd10_send_cid(&mut self)
        ensures
            final(self)@ == old(self)@.cmd10(),
    {
        let cid: [u32; 4] = [0x00000000u32, 0x00000000, 0x00000000, 0x00000000];
        assert(cid@ =~= nand_cid());
        self.set_response_128(&cid);
        self.command_end();
    }

    fn cmd12_stop_transmission(&mut self)
        ensures
            final(self)@ == old(self)@.cmd12(),
    {
        proof {
            use_type_invariant(&*self);
        }
        let status = self.get_r1_response();
        self.set_response_32(status);
        self.transfer_blocks_remaining = 0;
        self.transfer_pos = 0;
        self.transfer_buffer = Vec::new();
        self.pending = None;
        self.command_end();
        let state = self.get_state();
        match state {
            MmcState::Data | MmcState::Receive => self.set_state(MmcState::Transfer),
            MmcState::Transfer => self.set_state(MmcState::Standby),
            _ => {},
        }
    }

    fn cmd13_send_status(&mut self)
        ensures
            final(self)@ == old(self)@.status_command(),
    {
        let status = self.get_r1_response();
        self.set_response_32(status);
        self.command_end();
    }

    fn cmd16_set_blocklen(&mut self, _arg: u32)
        ensures
            final(self)@ == old(self)@.command_end(),
    {
        self.command_end();
    }

    /// Opens the session of a block command: counters, state and a zero block.
    fn open_transfer(&mut self, arg: u32, state: MmcState)
        ensures
            final(self)@ == old(self)@.open_transfer(arg, state),
    {
        proof {
            use_type_invariant(&*self);
        }
        let (blocks, block_len) = if self.data32_blk_len > 0 {
            (self.data32_blk_count, self.data32_blk_len)
        } else {
            (self.blkcount, self.blklen)
        };
        self.transfer_start_addr = arg;
        self.transfer_blocks_done = 0;
        self.transfer_blocks_remaining = blocks;
        self.transfer_pos = 0;
        self.transfer_buffer = vec![0u8; block_len as usize];
        self.pending = None;
        assert(self.transfer_buffer@ =~= zeros(block_len as nat));
        self.set_state(state);
    }

    fn cmd18_read_multiple_block(&mut self, arg: u32)
        ensures
            final(self)@ == old(self)@.cmd18(arg),
    {
        self.open_transfer(arg, MmcState::Data);
        self.request_read();
        let status = self.get_r1_response();
        self.set_response_32(status);
        self.command_end();
        proof {
            use_type_invariant(&*self);
        }
        self.status1 |= STAT1_RXRDY;
    }

    /// Leaves the read request for the staged block, where storage is active.
    fn request_read(&mut self)
        ensures
            final(self)@ == (SdmmcModel { pending: old(self)@.read_request(), ..old(self)@ }),
    {
        proof {
            use_type_invariant(&*self);
        }
        if self.storage_active() {
            let offset = self.current_offset();
            self.pending = Some(StorageRequest::Read { offset, len: self.transfer_buffer.len() });
        } else {
            self.pending = None;
        }
    }

    /// Leaves the write request for the staged block, where storage is active.
    fn request_write(&mut self)
        ensures
            final(self)@ == (SdmmcModel { pending: old(self)@.write_request(), ..old(self)@ }),
    {
        proof {
            use_type_invariant(&*self);
        }
        if self.storage_active() {
            let offset = self.current_offset();
            let data = self.transfer_buffer.clone();
            assert(data@ =~= self.transfer_buffer@);
            self.pending = Some(StorageRequest::Write { offset, data });
        } else {
            self.pending = None;
        }
    }

    fn cmd25_write_multiple_block(&mut self, arg: u32)
        ensures
            final(self)@ == old(self)@.cmd25(arg),
    {
        self.open_transfer(arg, MmcState::Receive);
        let status = self.get_r1_response();
        self.set_response_32(status);
        self.command_end();
        proof {
            use_type_invariant(&*self);
        }
        self.status1 |= STAT1_TXRQ;
    }

    fn cmd55_app_cmd(&mut self)
        ensures
            final(self)@ == old(self)@.cmd55(),
    {
        proof {
            use_type_invariant(&*self);
        }
        self.app_command_next = true;
        let status = self.get_r1_response();
        self.set_response_32(status);
        self.command_end();
    }

    fn acmd6_set_bus_width(&mut self, _arg: u32)
        ensures
            final(self)@ == old(self)@.status_command(),
    {
        let status = self.get_r1_response();
        self.set_response_32(status);
        self.command_end();
    }

    /// Stages a fixed data block for reading and completes the command.
    fn stage_data(&mut self, block: Vec<u8>)
        requires
            block@.len() <= MAX_BLOCK_LEN,
        ensures
            final(self)@ == old(self)@.data_command(block@),
    {
        proof {
            use_type_invariant(&*self);
        }
        let status = self.get_r1_response();
        self.set_response_32(status);
        proof {
            use_type_invariant(&*self);
        }
        self.transfer_pos = 0;
        self.transfer_buffer = block;
        self.pending = None;
        self.command_end();
        proof {
            use_type_invariant(&*self);
        }
        self.status1 |= STAT1_RXRDY;
    }

    fn acmd13_sd_status(&mut self)
        ensures
            final(self)@ == old(self)@.data_command(zeros(64)),
    {
        let block = vec![0u8; 64];
        assert(block@ =~= zeros(64));
        self.stage_data(block);
    }

    fn acmd41_sd_send_op_cond(&mut self, _arg: u32)
        ensures
            final(self)@ == old(self)@.acmd41(),
    {
        let ocr = if self.nand_selected() { OCR } else { OCR_SDHC };
        self.set_response_32(ocr);
        self.command_end();
        if self.get_state() == MmcState::Idle {
            self.set_state(MmcState::Ready);
        }
    }

    fn acmd42_set_clr_card_detect(&mut self)
        ensures
            final(self)@ == old(self)@.status_command(),
    {
        let status = self.get_r1_response();
        self.set_response_32(status);
        self.command_end();
    }

    fn acmd51_send_scr(&mut self)
        ensures
            final(self)@ == old(self)@.data_command(scr()),
    {
        let block = vec![0u8, 0x00, 0x00, 0x2a, 0x01, 0x00, 0x00, 0x00];
        assert(block@ =~= scr());
        self.stage_data(block);
    }

    /// Moves one word out of the staged block.
    fn read_fifo32(&mut self) -> (value: u32)
        ensures
            value == old(self)@.fifo_word(),
            final(self)@ == old(self)@.read_fifo32(),
    {
        proof {
            use_type_invariant(&*self);
        }
        let len = self.transfer_buffer.len();
        if self.transfer_pos + 4 <= len {
            let pos = self.transfer_pos;
            let value = word_from_le(
                self.transfer_buffer[pos],
                self.transfer_buffer[pos + 1],
                self.transfer_buffer[pos + 2],
                self.transfer_buffer[pos + 3],
            );
            self.transfer_pos = pos + 4;
            if self.transfer_pos >= len {
                self.handle_block_complete_read();
            }
            value
        } else {
            0
        }
    }

    /// Moves one word into the staged block.
    fn write_fifo32(&mut self, value: u32)
        ensures
            final(self)@ == old(self)@.write_fifo32(value),
    {
        proof {
            use_type_invariant(&*self);
        }
        let len = self.transfer_buffer.len();
        if self.transfer_pos + 4 <= len {
            let pos = self.transfer_pos;
            let bytes = word_to_le(value);
            self.transfer_buffer[pos] = bytes[0];
            self.transfer_buffer[pos + 1] = bytes[1];
            self.transfer_buffer[pos + 2] = bytes[2];
            self.transfer_buffer[pos + 3] = bytes[3];
            assert(self.transfer_buffer@ =~= old(self)@.buffer_with_word(value));
            self.transfer_pos = pos + 4;
            if self.transfer_pos >= len {
                self.handle_block_complete_write();
            }
        }
    }

    /// Ends a block that the FIFO has drained: the next block is staged, or
    /// the transfer ends.
    fn handle_block_complete_read(&mut self)
        ensures
            final(self)@ == old(self)@.block_complete_read(),
    {
        proof {
            use_type_invariant(&*self);
        }
        if self.transfer_blocks_remaining > 0 {
            self.transfer_blocks_remaining -= 1;
            self.transfer_blocks_done += 1;
            self.transfer_pos = 0;
            if self.transfer_blocks_remaining == 0 {
                self.status0 |= STAT0_DATAEND;
                self.transfer_buffer = Vec::new();
                self.pending = None;
                self.set_state(MmcState::Transfer);
            } else {
                let len = self.transfer_buffer.len();
                self.transfer_buffer = vec![0u8; len];
                assert(self.transfer_buffer@ =~= zeros(len as nat));
                self.request_read();
                proof {
                    use_type_invariant(&*self);
                }
                self.status1 |= STAT1_RXRDY;
            }
        }
    }

    /// Ends a block that the FIFO has filled: the block goes to storage, and
    /// the next one is awaited, or the transfer ends.
    fn handle_block_complete_write(&mut self)
        ensures
            final(self)@ == old(self)@.block_complete_write(),
    {
        self.request_write();
        proof {
            use_type_invariant(&*self);
        }
        if self.transfer_blocks_remaining > 0 {
            self.transfer_blocks_remaining -= 1;
            self.transfer_blocks_done += 1;
            self.transfer_pos = 0;
            if self.transfer_blocks_remaining == 0 {
                self.status0 |= STAT0_DATAEND;
                self.transfer_buffer = Vec::new();
                self.set_state(MmcState::Transfer);
            } else {
                self.status1 |= STAT1_TXRQ;
            }
        }
    }

    /// Handles a write to the register at `offset`. The access width plays
    /// no part.
    pub fn write(&mut self, offset: u32, _size: usize, value: u32)
        ensures
            final(self)@ == old(self)@.write(offset, value),
            final(self)@.wf(),
    {
        proof {
            use_type_invariant(&*self);
        }
        if offset == REG_CMD {
            self.cmd = value as u16;
            let cmd = (value & 0x3F) as u8;
            let arg = self.get_argument();
            self.status1 |= STAT1_CMD_BUSY;
            if self.app_command_next {
                self.app_command_next = false;
                self.execute_acmd(cmd, arg);
            } else {
                self.execute_cmd(cmd, arg);
            }
        } else if offset == REG_PORTSEL {
            self.portsel = value as u16;
        } else if offset == REG_CMDARG0 {
            self.cmdarg0 = value as u16;
        } else if offset == REG_CMDARG1 {
            self.cmdarg1 = value as u16;
        } else if offset == REG_STOP {
            self.stop = value as u16;
        } else if offset == REG_BLKCOUNT {
            self.blkcount = value as u16;
        } else if offset == REG_RESP0 {
            self.resp[0] = value as u16;
        } else if offset == REG_RESP1 {
            self.resp[1] = value as u16;
        } else if offset == REG_RESP2 {
            self.resp[2] = value as u16;
        } else if offset == REG_RESP3 {
            self.resp[3] = value as u16;
        } else if offset == REG_RESP4 {
            self.resp[4] = value as u16;
        } else if offset == REG_RESP5 {
            self.resp[5] = value as u16;
        } else if offset == REG_RESP6 {
            self.resp[6] = value as u16;
        } else if offset == REG_RESP7 {
            self.resp[7] = value as u16;
        } else if offset == REG_STATUS0 {
            self.status0 &= value as u16;
        } else if offset == REG_STATUS1 {
            self.status1 &= value as u16;
        } else if offset == REG_IRQ_MASK0 {
            self.irq_mask0 = value as u16;
        } else if offset == REG_IRQ_MASK1 {
            self.irq_mask1 = value as u16;
        } else if offset == REG_CLKCTL {
            self.clkctl = value as u16;
        } else if offset == REG_BLKLEN {
            self.blklen = value as u16;
        } else if offset == REG_OPT {
            self.opt = value as u16;
        } else if offset == REG_ERROR_DETAIL_STATUS0 {
            self.error_detail_status0 = value as u16;
        } else if offset == REG_ERROR_DETAIL_STATUS1 {
            self.error_detail_status1 = value as u16;
        } else if offset == REG_FIFO {
            self.fifo = value as u16;
        } else if offset == REG_DATA_CTL {
            self.data_ctl = value as u16;
        } else if offset == REG_RESET {
            self.reset = value as u16;
        } else if offset == REG_DATA32_IRQ {
            self.data32_irq = value as u16;
        } else if offset == REG_DATA32_BLK_LEN {
            self.data32_blk_len = value as u16;
        } else if offset == REG_DATA32_BLK_COUNT {
            self.data32_blk_count = value as u16;
        } else if offset == REG_DATA32_FIFO {
            self.data32_fifo = value;
            self.write_fifo32(value);
        }
        proof {
            use_type_invariant(&*self);
        }
    }

    /// Handles a read of the register at `offset` and returns its value. The
    /// access width plays no part.
    pub fn read(&mut self, offset: u32, _size: usize) -> (value: u32)
        ensures
            value == old(self)@.read_value(offset),
            final(self)@ == old(self)@.read(offset),
            final(self)@.wf(),
    {
        proof {
            use_type_invariant(&*self);
        }
        let value = if offset == REG_CMD {
            self.cmd as u32
        } else if offset == REG_PORTSEL {
            self.portsel as u32
        } else if offset == REG_CMDARG0 {
            self.cmdarg0 as u32
        } else if offset == REG_CMDARG1 {
            self.cmdarg1 as u32
        } else if offset == REG_STOP {
            self.stop as u32
        } else if offset == REG_BLKCOUNT {
            self.blkcount as u32
        } else if offset == REG_RESP0 {
            self.resp[0] as u32
        } else if offset == REG_RESP1 {
            self.resp[1] as u32
        } else if offset == REG_RESP2 {
            self.resp[2] as u32
        } else if offset == REG_RESP3 {
            self.resp[3] as u32
        } else if offset == REG_RESP4 {
            self.resp[4] as u32
        } else if offset == REG_RESP5 {
            self.resp[5] as u32
        } else if offset == REG_RESP6 {
            self.resp[6] as u32
        } else if offset == REG_RESP7 {
            self.resp[7] as u32
        } else if offset == REG_STATUS0 {
            (self.status0 | STAT0_CARD_INSERTED | STAT0_WRPROTECT) as u32
        } else if offset == REG_STATUS1 {
            self.status1 as u32
        } else if offset == REG_IRQ_MASK0 {
            self.irq_mask0 as u32
        } else if offset == REG_IRQ_MASK1 {
            self.irq_mask1 as u32
        } else if offset == REG_CLKCTL {
            self.clkctl as u32
        } else if offset == REG_BLKLEN {
            self.blklen as u32
        } else if offset == REG_OPT {
            self.opt as u32
        } else if offset == REG_ERROR_DETAIL_STATUS0 {
            self.error_detail_status0 as u32
        } else if offset == REG_ERROR_DETAIL_STATUS1 {
            self.error_detail_status1 as u32
        } else if offset == REG_FIFO {
            self.fifo as u32
        } else if offset == REG_DATA_CTL {
            self.data_ctl as u32
        } else if offset == REG_RESET {
            self.reset as u32
        } else if offset == REG_DATA32_IRQ {
            let rx: u16 = if self.status1 & STAT1_RXRDY != 0 { 0x100 } else { 0 };
            let tx: u16 = if self.status1 & STAT1_TXRQ == 0 { 0x200 } else { 0 };
            (self.data32_irq | rx | tx) as u32
        } else if offset == REG_DATA32_BLK_LEN {
            self.data32_blk_len as u32
        } else if offset == REG_DATA32_BLK_COUNT {
            self.data32_blk_count as u32
        } else if offset == REG_DATA32_FIFO {
            self.read_fifo32()
        } else {
            0
        };
        proof {
            use_type_invariant(&*self);
        }
        value
    }

    /// Blocks of the running transfer that are not complete yet.
    pub fn blocks_remaining(&self) -> (r: u16)
        ensures
            r == self@.transfer_blocks_remaining,
    {
        self.transfer_blocks_remaining
    }

    /// The storage work that waits to be served, if any.
    pub fn pending_request(&self) -> (r: Option<&StorageRequest>)
        ensures
            r.is_some() == self@.pending.is_some(),
            r.is_some() ==> r.unwrap()@ == self@.pending.unwrap(),
    {
        self.pending.as_ref()
    }

    /// Reports that the pending request has been served. For a read, `data`
    /// holds the bytes that came from the image, or `None` where the image
    /// could not deliver them: the staged block then stays zero.
    pub fn complete_request(&mut self, data: Option<Vec<u8>>)
        ensures
            final(self)@ == old(self)@.complete_request(
                match data {
                    Some(d) => Some(d@),
                    None => None,
                },
            ),
            final(self)@.wf(),
    {
        proof {
            use_type_invariant(&*self);
        }
        let mut pending = None;
        std::mem::swap(&mut pending, &mut self.pending);
        match (pending, data) {
            (Some(StorageRequest::Read { offset, len }), Some(d)) => {
                if d.len() == len && len == self.transfer_buffer.len() {
                    self.transfer_buffer = d;
                }
            },
            _ => {},
        }
        proof {
            use_type_invariant(&*self);
        }
    }
}

/// Handles a read at offset `addr` of the controller's window.
pub fn read_handler(state: &mut EmulatorState, addr: u64, size: usize) -> (value: u64)
    ensures
        value == old(state).sdmmc@.read_value(addr as u32),
        final(state).sdmmc@ == old(state).sdmmc@.read(addr as u32),
        final(state).gpu == old(state).gpu,
{
    state.sdmmc.read(addr as u32, size) as u64
}

/// Handles a write at offset `addr` of the controller's window.
pub fn write_handler(state: &mut EmulatorState, addr: u64, size: usize, value: u64)
    ensures
        final(state).sdmmc@ == old(state).sdmmc@.write(addr as u32, value as u32),
        final(state).gpu == old(state).gpu,
{
    state.sdmmc.write(addr as u32, size, value as u32);
}

} // verus!
