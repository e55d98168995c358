//! What holds of the SD/MMC controller whatever the firmware does.

use vstd::prelude::*;
use crate::bytes::{le_bytes, le_word_at};
use crate::mmio::sdmmc_model::{
    csd, decode_state, encode_state, nand_cid, scr, sd_cid, state_code, zeros, MmcState,
    SdmmcModel, StorageOp, OCR, OCR_SDHC, RCA, REG_CMD, REG_DATA32_FIFO, REG_PORTSEL,
    REG_STATUS0, REG_STATUS1, STAT0_CMDRESPEND, STAT0_DATAEND, STAT1_CMD_BUSY, STAT1_RXRDY,
    STAT1_TXRQ,
};

verus! {

/// The status bits hold the state that was put into them.
pub proof fn lemma_state_round_trip(status1: u16, state: MmcState)
    ensures
        decode_state(encode_state(status1, state)) == state,
        encode_state(status1, state) & STAT1_CMD_BUSY == status1 & STAT1_CMD_BUSY,
{
    let c = state_code(state);
    assert(c <= 7 ==> (((status1 & 0xE1FF) | (c << 9)) >> 9) & 0xF == c) by (bit_vector);
    assert(c <= 7 ==> ((status1 & 0xE1FF) | (c << 9)) & 0x4000 == status1 & 0x4000)
        by (bit_vector);
}

/// Setting a data flag leaves the busy flag; clearing the busy flag
/// clears it; completion sets the response flag.
pub proof fn lemma_flag_bits(s: u16)
    ensures
        (s | STAT1_RXRDY) & STAT1_CMD_BUSY == s & STAT1_CMD_BUSY,
        (s | STAT1_TXRQ) & STAT1_CMD_BUSY == s & STAT1_CMD_BUSY,
        (s & 0xBFFF) & STAT1_CMD_BUSY == 0,
        (s | STAT0_CMDRESPEND) & STAT0_CMDRESPEND != 0,
        (s | STAT0_DATAEND) & STAT0_DATAEND != 0,
{
    assert((s | 0x0100) & 0x4000 == s & 0x4000) by (bit_vector);
    assert((s | 0x0200) & 0x4000 == s & 0x4000) by (bit_vector);
    assert((s & 0xBFFF) & 0x4000 == 0) by (bit_vector);
    assert((s | 0x0001) & 0x0001 != 0) by (bit_vector);
    assert((s | 0x0004) & 0x0004 != 0) by (bit_vector);
}

/// A command has completed: busy is cleared and the response is ready.
pub open spec fn completed(m: SdmmcModel) -> bool {
    m.status1 & STAT1_CMD_BUSY == 0 && m.status0 & STAT0_CMDRESPEND != 0
}

/// GO_IDLE_STATE leaves the card idle and the command completed, whatever
/// the state before.
pub proof fn law_go_idle(m: SdmmcModel)
    ensures
        m.cmd0().state() == MmcState::Idle,
        completed(m.cmd0()),
{
    let idle = encode_state(m.status1, MmcState::Idle);
    lemma_state_round_trip(m.status1, MmcState::Idle);
    lemma_flag_bits(idle);
    lemma_flag_bits(m.status0);
    assert((idle & 0xBFFF) >> 9 & 0xF == (idle >> 9) & 0xF) by (bit_vector);
}

/// A write of command number 0 to the command register is GO_IDLE_STATE,
/// unless APP_CMD came before: the card is idle after it, the command
/// completed, and the response registers hold the ready bit.
pub proof fn law_go_idle_by_register(m: SdmmcModel, value: u32)
    requires
        !m.app_command_next,
        value & 0x3F == 0,
    ensures
        m.write(REG_CMD, value).state() == MmcState::Idle,
        completed(m.write(REG_CMD, value)),
{
    let latched = SdmmcModel { cmd: value as u16, status1: m.status1 | STAT1_CMD_BUSY, ..m };
    assert((value & 0x3F) as u8 == 0) by (bit_vector)
        requires
            value & 0x3F == 0,
    ;
    assert(m.write(REG_CMD, value) == latched.cmd0());
    law_go_idle(latched);
}

/// Every write to the command register completes its command, whatever
/// the number: an unknown command is no error.
pub proof fn law_command_completes(m: SdmmcModel, value: u32)
    ensures
        completed(m.write(REG_CMD, value)),
{
    let number = (value & 0x3F) as u8;
    let arg = m.argument();
    let latched = SdmmcModel { cmd: value as u16, status1: m.status1 | STAT1_CMD_BUSY, ..m };
    if latched.app_command_next {
        let a = SdmmcModel { app_command_next: false, ..latched };
        lemma_acmd_completes(a, number, arg);
    } else {
        lemma_cmd_completes(latched, number, arg);
    }
}

/// Completion survives a change of state.
proof fn lemma_completed_set_state(m: SdmmcModel, state: MmcState)
    requires
        completed(m),
    ensures
        completed(m.set_state(state)),
{
    lemma_state_round_trip(m.status1, state);
}

/// A command end completes.
proof fn lemma_end_completes(m: SdmmcModel)
    ensures
        completed(m.command_end()),
{
    lemma_flag_bits(m.status1);
    lemma_flag_bits(m.status0);
}

proof fn lemma_cmd_completes(m: SdmmcModel, number: u8, arg: u32)
    ensures
        completed(m.execute_cmd(number, arg)),
{
    if number == 0 {
        law_go_idle(m);
    } else if number == 1 {
        lemma_end_completes(m.set_response_32(OCR));
    } else if number == 2 {
        let cid = if m.nand_selected() {
            nand_cid()
        } else {
            sd_cid()
        };
        let n = m.set_response_128(cid);
        lemma_end_completes(n);
        lemma_completed_set_state(n.command_end(), MmcState::Identify);
    } else if number == 3 {
        let n = m.set_response_32(RCA | m.r1_response());
        lemma_end_completes(n);
        lemma_completed_set_state(n.command_end(), MmcState::Standby);
    } else if number == 7 || number == 13 {
        lemma_end_completes(m.set_response_32(m.r1_response()));
    } else if number == 8 {
        lemma_end_completes(m.set_response_32(0x1AA));
    } else if number == 9 {
        lemma_end_completes(m.set_response_128(csd()));
    } else if number == 10 {
        lemma_end_completes(m.set_response_128(nand_cid()));
    } else if number == 12 {
        let n = SdmmcModel {
            transfer_blocks_remaining: 0,
            transfer_buffer: Seq::empty(),
            transfer_pos: 0,
            pending: None,
            ..m.set_response_32(m.r1_response())
        };
        lemma_end_completes(n);
        lemma_completed_set_state(n.command_end(), MmcState::Transfer);
        lemma_completed_set_state(n.command_end(), MmcState::Standby);
    } else if number == 18 {
        let o = m.open_transfer(arg, MmcState::Data);
        let o = SdmmcModel { pending: o.read_request(), ..o };
        let n = o.set_response_32(o.r1_response());
        lemma_end_completes(n);
        lemma_flag_bits(n.command_end().status1);
    } else if number == 25 {
        let o = m.open_transfer(arg, MmcState::Receive);
        let n = o.set_response_32(o.r1_response());
        lemma_end_completes(n);
        lemma_flag_bits(n.command_end().status1);
    } else if number == 55 {
        let o = SdmmcModel { app_command_next: true, ..m };
        lemma_end_completes(o.set_response_32(o.r1_response()));
    } else {
        lemma_end_completes(m);
    }
}

proof fn lemma_data_command_completes(m: SdmmcModel, block: Seq<u8>)
    ensures
        completed(m.data_command(block)),
{
    let n = SdmmcModel {
        transfer_buffer: block,
        transfer_pos: 0,
        pending: None,
        ..m.set_response_32(m.r1_response())
    };
    lemma_end_completes(n);
    lemma_flag_bits(n.command_end().status1);
}

proof fn lemma_acmd_completes(m: SdmmcModel, number: u8, arg: u32)
    ensures
        completed(m.execute_acmd(number, arg)),
{
    if number == 6 || number == 42 {
        lemma_end_completes(m.set_response_32(m.r1_response()));
    } else if number == 13 {
        lemma_data_command_completes(m, zeros(64));
    } else if number == 41 {
        let ocr = if m.nand_selected() {
            OCR
        } else {
            OCR_SDHC
        };
        let n = m.set_response_32(ocr);
        lemma_end_completes(n);
        lemma_completed_set_state(n.command_end(), MmcState::Ready);
    } else if number == 51 {
        lemma_data_command_completes(m, scr());
    } else {
        lemma_end_completes(m);
    }
}

/// A write to a status register keeps the bits that are set in both the
/// register and the value written, and clears the rest: it never sets a
/// bit, and never stores the value as it is.
pub proof fn law_status_write_clears(m: SdmmcModel, value: u32)
    ensures
        m.write(REG_STATUS0, value).status0 == m.status0 & (value as u16),
        m.write(REG_STATUS1, value).status1 == m.status1 & (value as u16),
        m.write(REG_STATUS0, value).status0 & !m.status0 == 0,
        m.write(REG_STATUS1, value).status1 & !m.status1 == 0,
        m.write(REG_STATUS0, value).status0 & !(value as u16) == 0,
        m.write(REG_STATUS1, value).status1 & !(value as u16) == 0,
{
    let v = value as u16;
    let s0 = m.status0;
    let s1 = m.status1;
    assert((s0 & v) & !s0 == 0) by (bit_vector);
    assert((s1 & v) & !s1 == 0) by (bit_vector);
    assert((s0 & v) & !v == 0) by (bit_vector);
    assert((s1 & v) & !v == 0) by (bit_vector);
}

/// Whatever is done to a controller, it stays well formed: the position
/// never passes the end of the staged block.
pub proof fn law_write_keeps_wf(m: SdmmcModel, offset: u32, value: u32)
    requires
        m.wf(),
    ensures
        m.write(offset, value).wf(),
        m.write(offset, value).sd_attached == m.sd_attached,
{
    if offset == REG_CMD {
        let number = (value & 0x3F) as u8;
        let arg = m.argument();
        let latched = SdmmcModel { cmd: value as u16, status1: m.status1 | STAT1_CMD_BUSY, ..m };
        if latched.app_command_next {
            let a = SdmmcModel { app_command_next: false, ..latched };
            assert(a.execute_acmd(number, arg).wf());
        } else {
            assert(latched.execute_cmd(number, arg).wf());
        }
    } else if offset == REG_DATA32_FIFO {
        let n = SdmmcModel { data32_fifo: value, ..m };
        assert(n.write_fifo32(value).wf());
    }
}

/// A read leaves the controller well formed, and moves the position
/// forward or to the start of the next block.
pub proof fn law_read_keeps_wf(m: SdmmcModel, offset: u32)
    requires
        m.wf(),
    ensures
        m.read(offset).wf(),
        m.read(offset).sd_attached == m.sd_attached,
        m.read(offset).transfer_pos == m.transfer_pos + 4 || m.read(offset).transfer_pos == 0
            || m.read(offset) == m,
{
}

/// Serving the pending request leaves the controller well formed and
/// without a request.
pub proof fn law_complete_keeps_wf(m: SdmmcModel, data: Option<Seq<u8>>)
    requires
        m.wf(),
    ensures
        m.complete_request(data).wf(),
        m.complete_request(data).pending.is_none(),
{
}

/// A controller without a backing image, or with the raw unit selected,
/// never asks for storage work.
pub proof fn law_no_storage_no_request(m: SdmmcModel, offset: u32, value: u32)
    requires
        !m.storage_active(),
        m.pending.is_none(),
        offset != REG_PORTSEL,
    ensures
        m.write(offset, value).pending.is_none(),
        m.read(offset).pending.is_none(),
{
}

/// The last word of the last block ends the transfer: the data-end flag
/// is set, no block is left, the staged block is gone, and the card is
/// back in the transfer state.
pub proof fn law_last_word_ends_transfer(m: SdmmcModel)
    requires
        m.wf(),
        m.transfer_pos + 4 == m.transfer_buffer.len(),
        m.transfer_blocks_remaining == 1,
    ensures
        m.read(REG_DATA32_FIFO).status0 & STAT0_DATAEND != 0,
        m.read(REG_DATA32_FIFO).transfer_blocks_remaining == 0,
        m.read(REG_DATA32_FIFO).transfer_buffer.len() == 0,
        m.read(REG_DATA32_FIFO).state() == MmcState::Transfer,
        m.read(REG_DATA32_FIFO).pending.is_none(),
{
    lemma_flag_bits(m.status0);
    lemma_state_round_trip(m.status1, MmcState::Transfer);
}

/// The last word of a block that is not the last stages the next block:
/// a zero block of the same length, the read-ready flag, and, where
/// storage is active, a request for the sector that follows.
pub proof fn law_last_word_stages_next(m: SdmmcModel)
    requires
        m.wf(),
        m.transfer_pos + 4 == m.transfer_buffer.len(),
        m.transfer_blocks_remaining > 1,
    ensures
        ({
            let n = m.read(REG_DATA32_FIFO);
            &&& n.transfer_blocks_remaining == m.transfer_blocks_remaining - 1
            &&& n.transfer_pos == 0
            &&& n.transfer_buffer == zeros(m.transfer_buffer.len())
            &&& n.status1 & STAT1_RXRDY != 0
            &&& m.storage_active() ==> n.pending == Some(
                StorageOp::Read {
                    offset: (m.current_offset() + 512) as u64,
                    len: m.transfer_buffer.len(),
                },
            )
            &&& !m.storage_active() ==> n.pending.is_none()
        }),
{
    let s = m.status1;
    assert((s | 0x0100) & 0x0100 != 0) by (bit_vector);
}

/// The controller after `n` reads of the 32-bit FIFO.
pub open spec fn drained(m: SdmmcModel, n: nat) -> SdmmcModel
    decreases n,
{
    if n == 0 {
        m
    } else {
        drained(m, (n - 1) as nat).read(REG_DATA32_FIFO)
    }
}

/// Draining a staged block yields its bytes in order, four to a word,
/// lowest byte first, and changes nothing but the position until the last
/// word is taken.
pub proof fn law_fifo_streams_block(m: SdmmcModel, k: nat)
    requires
        m.wf(),
        m.transfer_pos == 0,
        m.transfer_buffer.len() % 4 == 0,
        4 * k < m.transfer_buffer.len(),
    ensures
        drained(m, k) == (SdmmcModel { transfer_pos: 4 * k, ..m }),
        drained(m, k).read_value(REG_DATA32_FIFO) == le_word_at(m.transfer_buffer, 4 * k as int),
    decreases k,
{
    if k > 0 {
        law_fifo_streams_block(m, (k - 1) as nat);
    }
}

/// READ_MULTIPLE_BLOCK opens a transfer of as many blocks as the block
/// count says, stages a zero block of the block length, raises the
/// read-ready flag and, where storage is active, asks for the bytes at the
/// sector that the argument names.
pub proof fn law_read_command_opens_transfer(m: SdmmcModel, arg: u32)
    ensures
        ({
            let n = m.cmd18(arg);
            let (blocks, block_len) = m.block_params();
            &&& n.state() == MmcState::Data
            &&& n.transfer_blocks_remaining == blocks
            &&& n.transfer_buffer == zeros(block_len as nat)
            &&& n.transfer_pos == 0
            &&& n.status1 & STAT1_RXRDY != 0
            &&& m.storage_active() ==> n.pending == Some(
                StorageOp::Read { offset: (arg * 512) as u64, len: block_len as nat },
            )
            &&& !m.storage_active() ==> n.pending.is_none()
        }),
{
    let opened = m.open_transfer(arg, MmcState::Data);
    let data = encode_state(m.status1, MmcState::Data);
    lemma_state_round_trip(m.status1, MmcState::Data);
    assert(((data & 0xBFFF) | 0x0100) & 0x0100 != 0) by (bit_vector);
    assert((((data & 0xBFFF) | 0x0100) >> 9) & 0xF == (data >> 9) & 0xF) by (bit_vector);
}

/// The bytes that storage delivers for a read request are what the FIFO
/// streams next.
pub proof fn law_served_block_is_streamed(m: SdmmcModel, data: Seq<u8>, k: nat)
    requires
        m.wf(),
        m.transfer_pos == 0,
        m.pending == Some(StorageOp::Read { offset: m.current_offset(), len: data.len() }),
        data.len() == m.transfer_buffer.len(),
        data.len() % 4 == 0,
        4 * k < data.len(),
    ensures
        drained(m.complete_request(Some(data)), k).read_value(REG_DATA32_FIFO) == le_word_at(
            data,
            4 * k as int,
        ),
{
    law_fifo_streams_block(m.complete_request(Some(data)), k);
}

/// The controller after the words of `words` are written to the 32-bit
/// FIFO, one after the other.
pub open spec fn filled(m: SdmmcModel, words: Seq<u32>) -> SdmmcModel
    decreases words.len(),
{
    if words.len() == 0 {
        m
    } else {
        filled(m, words.drop_last()).write(REG_DATA32_FIFO, words.last())
    }
}

/// The bytes of a run of words: four to a word, lowest byte first.
pub open spec fn bytes_of(words: Seq<u32>) -> Seq<u8> {
    Seq::new(4 * words.len(), |i: int| le_bytes(words[i / 4])[i % 4])
}

/// Words written to the FIFO fill the staged block from its start and
/// change nothing else, as long as the block is not full.
proof fn lemma_fill_prefix(m: SdmmcModel, words: Seq<u32>, k: int)
    requires
        m.wf(),
        m.transfer_pos == 0,
        m.transfer_buffer.len() == 4 * words.len(),
        0 <= k < words.len(),
    ensures
        ({
            let f = filled(m, words.take(k));
            &&& f == (SdmmcModel {
                data32_fifo: f.data32_fifo,
                transfer_buffer: f.transfer_buffer,
                transfer_pos: (4 * k) as nat,
                ..m
            })
            &&& f.transfer_buffer.len() == m.transfer_buffer.len()
            &&& forall|i: int| 0 <= i < 4 * k ==> f.transfer_buffer[i] == bytes_of(words)[i]
        }),
    decreases k,
{
    if k > 0 {
        lemma_fill_prefix(m, words, k - 1);
        assert(words.take(k).drop_last() =~= words.take(k - 1));
        assert(words.take(k).last() == words[k - 1]);
        let before = filled(m, words.take(k - 1));
        let f = filled(m, words.take(k));
        assert(f == before.write(REG_DATA32_FIFO, words[k - 1]));
        assert forall|i: int| 0 <= i < 4 * k implies f.transfer_buffer[i] == bytes_of(words)[i] by {
            if i >= 4 * (k - 1) {
                assert(i / 4 == k - 1);
            }
        }
    } else {
        assert(words.take(0) =~= Seq::<u32>::empty());
    }
}

/// A block that the FIFO has filled goes to storage as it was written:
/// where storage is active, the controller asks for the bytes of the
/// words, in order, to be stored at the sector of the block.
pub proof fn law_filled_block_reaches_storage(m: SdmmcModel, words: Seq<u32>)
    requires
        m.wf(),
        m.transfer_pos == 0,
        words.len() > 0,
        m.transfer_buffer.len() == 4 * words.len(),
    ensures
        m.storage_active() ==> filled(m, words).pending == Some(
            StorageOp::Write { offset: m.current_offset(), data: bytes_of(words) },
        ),
        !m.storage_active() ==> filled(m, words).pending.is_none(),
{
    let n = words.len() as int;
    lemma_fill_prefix(m, words, n - 1);
    assert(words.drop_last() =~= words.take(n - 1));
    let before = filled(m, words.take(n - 1));
    let word = words[n - 1];
    let full = SdmmcModel { data32_fifo: word, ..before }.buffer_with_word(word);
    assert(full =~= bytes_of(words)) by {
        assert forall|i: int| 0 <= i < 4 * n implies full[i] == bytes_of(words)[i] by {
            if i >= 4 * (n - 1) {
                assert(i / 4 == n - 1);
            }
        }
    }
}

} // verus!
