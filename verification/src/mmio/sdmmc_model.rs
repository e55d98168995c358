//! Mathematical model of the SD/MMC host controller.
//!
//! The controller is a register file plus a transfer session. Every register
//! access is a total function from one model state to the next; the
//! executable controller in the sibling module is proved to follow it.

use vstd::prelude::*;
use crate::bytes::{le_bytes, le_word_at};

verus! {

// Register offsets inside the controller's window.
pub const REG_CMD: u32 = 0x000;
pub const REG_PORTSEL: u32 = 0x002;
pub const REG_CMDARG0: u32 = 0x004;
pub const REG_CMDARG1: u32 = 0x006;
pub const REG_STOP: u32 = 0x008;
pub const REG_BLKCOUNT: u32 = 0x00a;
pub const REG_RESP0: u32 = 0x00c;
pub const REG_RESP1: u32 = 0x00e;
pub const REG_RESP2: u32 = 0x010;
pub const REG_RESP3: u32 = 0x012;
pub const REG_RESP4: u32 = 0x014;
pub const REG_RESP5: u32 = 0x016;
pub const REG_RESP6: u32 = 0x018;
pub const REG_RESP7: u32 = 0x01a;
pub const REG_STATUS0: u32 = 0x01c;
pub const REG_STATUS1: u32 = 0x01e;
pub const REG_IRQ_MASK0: u32 = 0x020;
pub const REG_IRQ_MASK1: u32 = 0x022;
pub const REG_CLKCTL: u32 = 0x024;
pub const REG_BLKLEN: u32 = 0x026;
pub const REG_OPT: u32 = 0x028;
pub const REG_ERROR_DETAIL_STATUS0: u32 = 0x02c;
pub const REG_ERROR_DETAIL_STATUS1: u32 = 0x02e;
pub const REG_FIFO: u32 = 0x030;
pub const REG_DATA_CTL: u32 = 0x0d8;
pub const REG_RESET: u32 = 0x0e0;
pub const REG_DATA32_IRQ: u32 = 0x100;
pub const REG_DATA32_BLK_LEN: u32 = 0x104;
pub const REG_DATA32_BLK_COUNT: u32 = 0x108;
pub const REG_DATA32_FIFO: u32 = 0x10c;

// Status flags.
pub const STAT0_CMDRESPEND: u16 = 0x0001;
pub const STAT0_DATAEND: u16 = 0x0004;
pub const STAT0_CARD_INSERTED: u16 = 0x0020;
pub const STAT0_WRPROTECT: u16 = 0x0080;
pub const STAT1_RXRDY: u16 = 0x0100;
pub const STAT1_TXRQ: u16 = 0x0200;
pub const STAT1_CMD_BUSY: u16 = 0x4000;

/// The four status bits that hold the card state.
pub const STAT1_STATE_MASK: u16 = 0x1E00;

/// Size in bytes of one sector of the backing image.
pub const SECTOR_SIZE: u64 = 512;

/// Largest staged block, in bytes: block lengths come from 16-bit registers.
pub const MAX_BLOCK_LEN: usize = 0xFFFF;

/// State of the card's protocol engine.
#[derive(Clone, Copy, Debug, PartialEq, Eq, Structural)]
pub enum MmcState {
    Idle,
    Ready,
    Identify,
    Standby,
    Transfer,
    Data,
    Receive,
    Program,
}

/// Work that the controller asks of whoever holds the backing image.
#[verifier::ext_equal]
pub enum StorageOp {
    /// Read `len` bytes at byte `offset` of the image into the staged block.
    Read { offset: u64, len: nat },
    /// Store `data` at byte `offset` of the image.
    Write { offset: u64, data: Seq<u8> },
}

/// The controller as a mathematical value.
#[verifier::ext_equal]
pub struct SdmmcModel {
    pub cmd: u16,
    pub portsel: u16,
    pub cmdarg0: u16,
    pub cmdarg1: u16,
    pub stop: u16,
    pub blkcount: u16,
    pub resp: Seq<u16>,
    pub status0: u16,
    pub status1: u16,
    pub irq_mask0: u16,
    pub irq_mask1: u16,
    pub clkctl: u16,
    pub blklen: u16,
    pub opt: u16,
    pub error_detail_status0: u16,
    pub error_detail_status1: u16,
    pub fifo: u16,
    pub data_ctl: u16,
    pub reset: u16,
    pub data32_irq: u16,
    pub data32_blk_len: u16,
    pub data32_blk_count: u16,
    pub data32_fifo: u32,
    /// The next command is an application command.
    pub app_command_next: bool,
    /// The staged block that the FIFO drains or fills.
    pub transfer_buffer: Seq<u8>,
    /// Next byte of the staged block.
    pub transfer_pos: nat,
    /// Blocks of the running transfer that are not complete yet.
    pub transfer_blocks_remaining: u16,
    /// Blocks of the running transfer that are complete.
    pub transfer_blocks_done: u16,
    /// First sector of the running transfer.
    pub transfer_start_addr: u32,
    /// A backing image is attached.
    pub sd_attached: bool,
    /// Storage work that waits for the holder of the image.
    pub pending: Option<StorageOp>,
}

/// A block of `len` zero bytes.
pub open spec fn zeros(len: nat) -> Seq<u8> {
    Seq::new(len, |i: int| 0u8)
}

/// The card state that four status bits decode to.
pub open spec fn decode_state(status1: u16) -> MmcState {
    let bits = (status1 >> 9) & 0xF;
    if bits == 1 {
        MmcState::Ready
    } else if bits == 2 {
        MmcState::Identify
    } else if bits == 3 {
        MmcState::Standby
    } else if bits == 4 {
        MmcState::Transfer
    } else if bits == 5 {
        MmcState::Data
    } else if bits == 6 {
        MmcState::Receive
    } else if bits == 7 {
        MmcState::Program
    } else {
        MmcState::Idle
    }
}

/// The number that stands for a card state in status bits and responses.
pub open spec fn state_code(state: MmcState) -> u16 {
    match state {
        MmcState::Idle => 0,
        MmcState::Ready => 1,
        MmcState::Identify => 2,
        MmcState::Standby => 3,
        MmcState::Transfer => 4,
        MmcState::Data => 5,
        MmcState::Receive => 6,
        MmcState::Program => 7,
    }
}

/// Status bits with the card state replaced.
pub open spec fn encode_state(status1: u16, state: MmcState) -> u16 {
    (status1 & 0xE1FF) | (state_code(state) << 9)
}

/// Byte offset of a sector in the backing image.
pub open spec fn sector_offset(start: u32, blocks_done: u16) -> int {
    (start + blocks_done) * 512
}

impl SdmmcModel {
    /// The controller after reset, with or without a backing image.
    pub open spec fn init(sd_attached: bool) -> SdmmcModel {
        SdmmcModel {
            cmd: 0,
            portsel: 0,
            cmdarg0: 0,
            cmdarg1: 0,
            stop: 0,
            blkcount: 0,
            resp: Seq::new(8, |i: int| 0u16),
            status0: 0,
            status1: 0,
            irq_mask0: 0,
            irq_mask1: 0,
            clkctl: 0,
            blklen: 0,
            opt: 0,
            error_detail_status0: 0,
            error_detail_status1: 0,
            fifo: 0,
            data_ctl: 0,
            reset: 0,
            data32_irq: 0,
            data32_blk_len: 0,
            data32_blk_count: 0,
            data32_fifo: 0,
            app_command_next: false,
            transfer_buffer: Seq::empty(),
            transfer_pos: 0,
            transfer_blocks_remaining: 0,
            transfer_blocks_done: 0,
            transfer_start_addr: 0,
            sd_attached,
            pending: None,
        }
    }

    /// What holds of every controller that the operations can reach.
    pub open spec fn wf(self) -> bool {
        &&& self.resp.len() == 8
        &&& self.transfer_pos <= self.transfer_buffer.len()
        &&& self.transfer_buffer.len() <= MAX_BLOCK_LEN
        &&& self.transfer_blocks_done + self.transfer_blocks_remaining <= 0xFFFF
    }

    /// The card state held in the status bits.
    pub open spec fn state(self) -> MmcState {
        decode_state(self.status1)
    }

    pub open spec fn set_state(self, state: MmcState) -> SdmmcModel {
        SdmmcModel { status1: encode_state(self.status1, state), ..self }
    }

    /// The command argument: low half first.
    pub open spec fn argument(self) -> u32 {
        ((self.cmdarg1 as u32) << 16) | (self.cmdarg0 as u32)
    }

    /// The alternate raw unit is selected in place of the card.
    pub open spec fn nand_selected(self) -> bool {
        self.portsel == 1
    }

    /// Block boundaries reach the backing image.
    pub open spec fn storage_active(self) -> bool {
        self.portsel == 0 && self.sd_attached
    }

    /// The short status response.
    pub open spec fn r1_response(self) -> u32 {
        let app: u32 = if self.app_command_next { 1u32 << 5 } else { 0 };
        let state: u32 = (state_code(self.state()) as u32) << 9;
        let ready: u32 = if self.transfer_blocks_remaining == 0 { 1u32 << 8 } else { 0 };
        app | state | ready
    }

    /// Completion of a command: busy cleared, response ready.
    pub open spec fn command_end(self) -> SdmmcModel {
        SdmmcModel {
            status1: self.status1 & 0xBFFF,
            status0: self.status0 | STAT0_CMDRESPEND,
            ..self
        }
    }

    pub open spec fn set_response_32(self, r: u32) -> SdmmcModel {
        SdmmcModel {
            resp: self.resp.update(0, (r & 0xFFFF) as u16).update(1, (r >> 16) as u16),
            ..self
        }
    }

    /// A 128-bit response, lowest word first, each word low half first.
    pub open spec fn set_response_128(self, r: Seq<u32>) -> SdmmcModel {
        SdmmcModel {
            resp: seq![
                (r[0] & 0xFFFF) as u16,
                (r[0] >> 16) as u16,
                (r[1] & 0xFFFF) as u16,
                (r[1] >> 16) as u16,
                (r[2] & 0xFFFF) as u16,
                (r[2] >> 16) as u16,
                (r[3] & 0xFFFF) as u16,
                (r[3] >> 16) as u16,
            ],
            ..self
        }
    }

    /// Block count and block length of a block command: the 32-bit mode
    /// registers where a 32-bit block length is set, else the 16-bit ones.
    pub open spec fn block_params(self) -> (u16, u16) {
        if self.data32_blk_len > 0 {
            (self.data32_blk_count, self.data32_blk_len)
        } else {
            (self.blkcount, self.blklen)
        }
    }

    /// Byte offset in the backing image of the block that is staged.
    pub open spec fn current_offset(self) -> u64 {
        sector_offset(self.transfer_start_addr, self.transfer_blocks_done) as u64
    }

    /// The read request for the staged block, where storage is active.
    pub open spec fn read_request(self) -> Option<StorageOp> {
        if self.storage_active() {
            Some(StorageOp::Read { offset: self.current_offset(), len: self.transfer_buffer.len() })
        } else {
            None
        }
    }

    /// The write request for the staged block, where storage is active.
    pub open spec fn write_request(self) -> Option<StorageOp> {
        if self.storage_active() {
            Some(StorageOp::Write { offset: self.current_offset(), data: self.transfer_buffer })
        } else {
            None
        }
    }
}

/// Identification register of the card.
pub open spec fn sd_cid() -> Seq<u32> {
    seq![0xD71C65CDu32, 0x4445147Bu32, 0x4D324731u32, 0x00150100u32]
}

/// Identification register of the alternate raw unit.
pub open spec fn nand_cid() -> Seq<u32> {
    seq![0u32, 0u32, 0u32, 0u32]
}

/// Card-specific data register.
pub open spec fn csd() -> Seq<u32> {
    seq![0xe9964040u32, 0xdff6db7fu32, 0x2a0f5901u32, 0x3f269001u32]
}

/// Configuration register, as the data block of SEND_SCR.
pub open spec fn scr() -> Seq<u8> {
    seq![0u8, 0x00u8, 0x00u8, 0x2au8, 0x01u8, 0x00u8, 0x00u8, 0x00u8]
}

/// Operating conditions register.
pub const OCR: u32 = 0x80FF8080;

/// Operating conditions of a high-capacity card.
pub const OCR_SDHC: u32 = 0xC0FF8080;

/// Relative card address, in the upper half of its response.
pub const RCA: u32 = 0x00010000;

impl SdmmcModel {
    /// GO_IDLE_STATE.
    pub open spec fn cmd0(self) -> SdmmcModel {
        self.set_state(MmcState::Idle).set_response_32(1u32 << 9).command_end()
    }

    /// SEND_OP_COND.
    pub open spec fn cmd1(self) -> SdmmcModel {
        self.set_response_32(OCR).command_end()
    }

    /// ALL_SEND_CID.
    pub open spec fn cmd2(self) -> SdmmcModel {
        let cid = if self.nand_selected() { nand_cid() } else { sd_cid() };
        let m = self.set_response_128(cid).command_end();
        if m.state() == MmcState::Ready {
            m.set_state(MmcState::Identify)
        } else {
            m
        }
    }

    /// SEND_RELATIVE_ADDR.
    pub open spec fn cmd3(self) -> SdmmcModel {
        let m = self.set_response_32(RCA | self.r1_response()).command_end();
        if m.state() == MmcState::Identify {
            m.set_state(MmcState::Standby)
        } else {
            m
        }
    }

    /// A command that answers with the short status and does nothing else:
    /// SELECT_CARD, SEND_STATUS, SET_BUS_WIDTH, SET_CLR_CARD_DETECT.
    pub open spec fn status_command(self) -> SdmmcModel {
        self.set_response_32(self.r1_response()).command_end()
    }

    /// SEND_IF_COND.
    pub open spec fn cmd8(self) -> SdmmcModel {
        self.set_response_32(0x1AA).command_end()
    }

    /// SEND_CSD.
    pub open spec fn cmd9(self) -> SdmmcModel {
        self.set_response_128(csd()).command_end()
    }

    /// SEND_CID.
    pub open spec fn cmd10(self) -> SdmmcModel {
        self.set_response_128(nand_cid()).command_end()
    }

    /// STOP_TRANSMISSION.
    pub open spec fn cmd12(self) -> SdmmcModel {
        let m = SdmmcModel {
            transfer_blocks_remaining: 0,
            transfer_buffer: Seq::empty(),
            transfer_pos: 0,
            pending: None,
            ..self.set_response_32(self.r1_response())
        }.command_end();
        match m.state() {
            MmcState::Data => m.set_state(MmcState::Transfer),
            MmcState::Receive => m.set_state(MmcState::Transfer),
            MmcState::Transfer => m.set_state(MmcState::Standby),
            _ => m,
        }
    }

    /// The session that a block command opens, before its response.
    pub open spec fn open_transfer(self, arg: u32, state: MmcState) -> SdmmcModel {
        let (blocks, block_len) = self.block_params();
        SdmmcModel {
            transfer_start_addr: arg,
            transfer_blocks_remaining: blocks,
            transfer_blocks_done: 0,
            transfer_pos: 0,
            transfer_buffer: zeros(block_len as nat),
            pending: None,
            ..self
        }.set_state(state)
    }

    /// READ_MULTIPLE_BLOCK.
    pub open spec fn cmd18(self, arg: u32) -> SdmmcModel {
        let m = self.open_transfer(arg, MmcState::Data);
        let m = SdmmcModel { pending: m.read_request(), ..m };
        let m = m.set_response_32(m.r1_response()).command_end();
        SdmmcModel { status1: m.status1 | STAT1_RXRDY, ..m }
    }

    /// WRITE_MULTIPLE_BLOCK.
    pub open spec fn cmd25(self, arg: u32) -> SdmmcModel {
        let m = self.open_transfer(arg, MmcState::Receive);
        let m = m.set_response_32(m.r1_response()).command_end();
        SdmmcModel { status1: m.status1 | STAT1_TXRQ, ..m }
    }

    /// APP_CMD.
    pub open spec fn cmd55(self) -> SdmmcModel {
        let m = SdmmcModel { app_command_next: true, ..self };
        m.set_response_32(m.r1_response()).command_end()
    }

    /// A command that stages a fixed data block for reading: SD_STATUS, SEND_SCR.
    pub open spec fn data_command(self, block: Seq<u8>) -> SdmmcModel {
        let m = SdmmcModel {
            transfer_buffer: block,
            transfer_pos: 0,
            pending: None,
            ..self.set_response_32(self.r1_response())
        }.command_end();
        SdmmcModel { status1: m.status1 | STAT1_RXRDY, ..m }
    }

    /// SD_SEND_OP_COND.
    pub open spec fn acmd41(self) -> SdmmcModel {
        let ocr = if self.nand_selected() { OCR } else { OCR_SDHC };
        let m = self.set_response_32(ocr).command_end();
        if m.state() == MmcState::Idle {
            m.set_state(MmcState::Ready)
        } else {
            m
        }
    }

    /// An ordinary command, by number. A number without a command of its own
    /// completes and changes nothing else.
    pub open spec fn execute_cmd(self, cmd: u8, arg: u32) -> SdmmcModel {
        if cmd == 0 {
            self.cmd0()
        } else if cmd == 1 {
            self.cmd1()
        } else if cmd == 2 {
            self.cmd2()
        } else if cmd == 3 {
            self.cmd3()
        } else if cmd == 7 || cmd == 13 {
            self.status_command()
        } else if cmd == 8 {
            self.cmd8()
        } else if cmd == 9 {
            self.cmd9()
        } else if cmd == 10 {
            self.cmd10()
        } else if cmd == 12 {
            self.cmd12()
        } else if cmd == 18 {
            self.cmd18(arg)
        } else if cmd == 25 {
            self.cmd25(arg)
        } else if cmd == 55 {
            self.cmd55()
        } else {
            self.command_end()
        }
    }

    /// An application command, by number.
    pub open spec fn execute_acmd(self, cmd: u8, arg: u32) -> SdmmcModel {
        if cmd == 6 || cmd == 42 {
            self.status_command()
        } else if cmd == 13 {
            self.data_command(zeros(64))
        } else if cmd == 41 {
            self.acmd41()
        } else if cmd == 51 {
            self.data_command(scr())
        } else {
            self.command_end()
        }
    }

    /// A write to the command register: latch it, raise busy, and run the
    /// command that its low six bits number, as an application command where
    /// APP_CMD came before.
    pub open spec fn write_cmd(self, value: u32) -> SdmmcModel {
        let number = (value & 0x3F) as u8;
        let arg = self.argument();
        let m = SdmmcModel { cmd: value as u16, status1: self.status1 | STAT1_CMD_BUSY, ..self };
        if m.app_command_next {
            SdmmcModel { app_command_next: false, ..m }.execute_acmd(number, arg)
        } else {
            m.execute_cmd(number, arg)
        }
    }

    /// The end of a block that the FIFO has drained.
    pub open spec fn block_complete_read(self) -> SdmmcModel {
        if self.transfer_blocks_remaining > 0 {
            let m = SdmmcModel {
                transfer_blocks_remaining: (self.transfer_blocks_remaining - 1) as u16,
                transfer_blocks_done: (self.transfer_blocks_done + 1) as u16,
                transfer_pos: 0,
                ..self
            };
            if m.transfer_blocks_remaining == 0 {
                SdmmcModel {
                    status0: m.status0 | STAT0_DATAEND,
                    transfer_buffer: Seq::empty(),
                    pending: None,
                    ..m
                }.set_state(MmcState::Transfer)
            } else {
                let m = SdmmcModel { transfer_buffer: zeros(m.transfer_buffer.len()), ..m };
                SdmmcModel { pending: m.read_request(), status1: m.status1 | STAT1_RXRDY, ..m }
            }
        } else {
            self
        }
    }

    /// The end of a block that the FIFO has filled.
    pub open spec fn block_complete_write(self) -> SdmmcModel {
        let m = SdmmcModel { pending: self.write_request(), ..self };
        if m.transfer_blocks_remaining > 0 {
            let m = SdmmcModel {
                transfer_blocks_remaining: (m.transfer_blocks_remaining - 1) as u16,
                transfer_blocks_done: (m.transfer_blocks_done + 1) as u16,
                transfer_pos: 0,
                ..m
            };
            if m.transfer_blocks_remaining == 0 {
                SdmmcModel {
                    status0: m.status0 | STAT0_DATAEND,
                    transfer_buffer: Seq::empty(),
                    ..m
                }.set_state(MmcState::Transfer)
            } else {
                SdmmcModel { status1: m.status1 | STAT1_TXRQ, ..m }
            }
        } else {
            m
        }
    }

    /// A word can be moved through the FIFO.
    pub open spec fn fifo_ready(self) -> bool {
        self.transfer_pos + 4 <= self.transfer_buffer.len()
    }

    /// The word that the next FIFO read returns.
    pub open spec fn fifo_word(self) -> u32 {
        if self.fifo_ready() {
            le_word_at(self.transfer_buffer, self.transfer_pos as int)
        } else {
            0
        }
    }

    /// The controller after a FIFO read.
    pub open spec fn read_fifo32(self) -> SdmmcModel {
        if self.fifo_ready() {
            let m = SdmmcModel { transfer_pos: self.transfer_pos + 4, ..self };
            if m.transfer_pos >= m.transfer_buffer.len() {
                m.block_complete_read()
            } else {
                m
            }
        } else {
            self
        }
    }

    /// The staged block with a word stored at the position.
    pub open spec fn buffer_with_word(self, value: u32) -> Seq<u8> {
        let p = self.transfer_pos as int;
        let b = le_bytes(value);
        self.transfer_buffer.update(p, b[0]).update(p + 1, b[1]).update(p + 2, b[2]).update(
            p + 3,
            b[3],
        )
    }

    /// The controller after a FIFO write.
    pub open spec fn write_fifo32(self, value: u32) -> SdmmcModel {
        if self.fifo_ready() {
            let m = SdmmcModel {
                transfer_buffer: self.buffer_with_word(value),
                transfer_pos: self.transfer_pos + 4,
                ..self
            };
            if m.transfer_pos >= m.transfer_buffer.len() {
                m.block_complete_write()
            } else {
                m
            }
        } else {
            self
        }
    }

    /// The controller after a register write. The access width plays no part.
    pub open spec fn write(self, offset: u32, value: u32) -> SdmmcModel {
        let v = value as u16;
        if offset == REG_CMD {
            self.write_cmd(value)
        } else if offset == REG_PORTSEL {
            SdmmcModel { portsel: v, ..self }
        } else if offset == REG_CMDARG0 {
            SdmmcModel { cmdarg0: v, ..self }
        } else if offset == REG_CMDARG1 {
            SdmmcModel { cmdarg1: v, ..self }
        } else if offset == REG_STOP {
            SdmmcModel { stop: v, ..self }
        } else if offset == REG_BLKCOUNT {
            SdmmcModel { blkcount: v, ..self }
        } else if REG_RESP0 <= offset <= REG_RESP7 && offset % 2 == 0 {
            SdmmcModel { resp: self.resp.update((offset - REG_RESP0) / 2, v), ..self }
        } else if offset == REG_STATUS0 {
            SdmmcModel { status0: self.status0 & v, ..self }
        } else if offset == REG_STATUS1 {
            SdmmcModel { status1: self.status1 & v, ..self }
        } else if offset == REG_IRQ_MASK0 {
            SdmmcModel { irq_mask0: v, ..self }
        } else if offset == REG_IRQ_MASK1 {
            SdmmcModel { irq_mask1: v, ..self }
        } else if offset == REG_CLKCTL {
            SdmmcModel { clkctl: v, ..self }
        } else if offset == REG_BLKLEN {
            SdmmcModel { blklen: v, ..self }
        } else if offset == REG_OPT {
            SdmmcModel { opt: v, ..self }
        } else if offset == REG_ERROR_DETAIL_STATUS0 {
            SdmmcModel { error_detail_status0: v, ..self }
        } else if offset == REG_ERROR_DETAIL_STATUS1 {
            SdmmcModel { error_detail_status1: v, ..self }
        } else if offset == REG_FIFO {
            SdmmcModel { fifo: v, ..self }
        } else if offset == REG_DATA_CTL {
            SdmmcModel { data_ctl: v, ..self }
        } else if offset == REG_RESET {
            SdmmcModel { reset: v, ..self }
        } else if offset == REG_DATA32_IRQ {
            SdmmcModel { data32_irq: v, ..self }
        } else if offset == REG_DATA32_BLK_LEN {
            SdmmcModel { data32_blk_len: v, ..self }
        } else if offset == REG_DATA32_BLK_COUNT {
            SdmmcModel { data32_blk_count: v, ..self }
        } else if offset == REG_DATA32_FIFO {
            SdmmcModel { data32_fifo: value, ..self }.write_fifo32(value)
        } else {
            self
        }
    }

    /// The 32-bit data control register as it reads: the latch, with bit 8
    /// set while a block waits to be read and bit 9 set unless the
    /// controller asks for write data.
    pub open spec fn data32_irq_read(self) -> u16 {
        let rx: u16 = if self.status1 & STAT1_RXRDY != 0 { 0x100 } else { 0 };
        let tx: u16 = if self.status1 & STAT1_TXRQ == 0 { 0x200 } else { 0 };
        self.data32_irq | rx | tx
    }

    /// The value that a register read returns.
    pub open spec fn read_value(self, offset: u32) -> u32 {
        if offset == REG_CMD {
            self.cmd as u32
        } else if offset == REG_PORTSEL {
            self.portsel as u32
        } else if offset == REG_CMDARG0 {
            self.cmdarg0 as u32
        } else if offset == REG_CMDARG1 {
            self.cmdarg1 as u32
        } else if offset == REG_STOP {
            self.stop as u32
        } else if offset == REG_BLKCOUNT {
            self.blkcount as u32
        } else if REG_RESP0 <= offset <= REG_RESP7 && offset % 2 == 0 {
            self.resp[(offset - REG_RESP0) / 2] as u32
        } else if offset == REG_STATUS0 {
            (self.status0 | STAT0_CARD_INSERTED | STAT0_WRPROTECT) as u32
        } else if offset == REG_STATUS1 {
            self.status1 as u32
        } else if offset == REG_IRQ_MASK0 {
            self.irq_mask0 as u32
        } else if offset == REG_IRQ_MASK1 {
            self.irq_mask1 as u32
        } else if offset == REG_CLKCTL {
            self.clkctl as u32
        } else if offset == REG_BLKLEN {
            self.blklen as u32
        } else if offset == REG_OPT {
            self.opt as u32
        } else if offset == REG_ERROR_DETAIL_STATUS0 {
            self.error_detail_status0 as u32
        } else if offset == REG_ERROR_DETAIL_STATUS1 {
            self.error_detail_status1 as u32
        } else if offset == REG_FIFO {
            self.fifo as u32
        } else if offset == REG_DATA_CTL {
            self.data_ctl as u32
        } else if offset == REG_RESET {
            self.reset as u32
        } else if offset == REG_DATA32_IRQ {
            self.data32_irq_read() as u32
        } else if offset == REG_DATA32_BLK_LEN {
            self.data32_blk_len as u32
        } else if offset == REG_DATA32_BLK_COUNT {
            self.data32_blk_count as u32
        } else if offset == REG_DATA32_FIFO {
            self.fifo_word()
        } else {
            0
        }
    }

    /// The controller after a register read: only the FIFO moves.
    pub open spec fn read(self, offset: u32) -> SdmmcModel {
        if offset == REG_DATA32_FIFO {
            self.read_fifo32()
        } else {
            self
        }
    }

    /// The controller after the holder of the image has served the pending
    /// request. A read is taken only with the length that was asked for; a
    /// failed read leaves the zero block that was staged.
    pub open spec fn complete_request(self, data: Option<Seq<u8>>) -> SdmmcModel {
        match (self.pending, data) {
            (Some(StorageOp::Read { offset, len }), Some(d)) => if d.len() == len && len
                == self.transfer_buffer.len() {
                SdmmcModel { transfer_buffer: d, pending: None, ..self }
            } else {
                SdmmcModel { pending: None, ..self }
            },
            _ => SdmmcModel { pending: None, ..self },
        }
    }
}

} // verus!
