use vstd::prelude::*;
use vstd::bytes::{
    spec_u16_to_le_bytes, spec_u32_to_le_bytes, spec_u32_from_le_bytes,
};
use crate::constants::{
    GET_VERSION, GET_CURRENT_MODE, GET_TARGET_VOLTAGE, DEBUG_COMMAND, DFU_COMMAND, DFU_EXIT,
    DEBUG_READCOREID, DEBUG_ENTER_SWD, DEBUG_APIV2_ENTER, DEBUG_APIV2_RESETSYS, DEBUG_RUNCORE,
    DEBUG_FORCEDEBUG, DEBUG_STEPCORE, DEBUG_APIV2_READALLREGS, DEBUG_APIV2_READREG,
    DEBUG_APIV2_WRITEREG, DEBUG_APIV2_GETLASTRWSTATUS, DEBUG_READMEM_8BIT, DEBUG_WRITEMEM_8BIT,
    DEBUG_READMEM_32BIT, DEBUG_WRITEMEM_32BIT, DEBUG_APIV2_READDEBUGREG, DEBUG_APIV2_WRITEDEBUGREG,
    DEBUG_APIV2_START_TRACE_RX, DEBUG_APIV2_STOP_TRACE_RX, DEBUG_APIV2_GET_TRACE_NB,
    DEBUG_APIV2_SWD_SET_FREQ, DEBUG_ERR_OK,
};
use crate::errors::Error;
use crate::framing::{Request, Response};

verus! {

// Expected response lengths of the fixed-size exchanges.
pub const VERSION_RESPONSE_LEN: usize = 6;
pub const MODE_RESPONSE_LEN: usize = 2;
pub const VOLTAGE_RESPONSE_LEN: usize = 8;
pub const CORE_ID_RESPONSE_LEN: usize = 4;
pub const ACK_RESPONSE_LEN: usize = 2;
pub const READ_REG_RESPONSE_LEN: usize = 8;
pub const READ_REGS_RESPONSE_LEN: usize = 88;
pub const READ_DEBUG_RESPONSE_LEN: usize = 8;
/// How many core registers a bulk register read returns.
pub const REG_COUNT: usize = 21;
/// Capacity of the probe's internal trace buffer, armed on trace start.
pub const TRACE_BUFFER_SIZE: u16 = 4096;

/// GET_VERSION; the probe answers with the 6 raw version bytes.
pub fn version_request() -> (r: Request)
    ensures
        r.wf(),
        r@ == seq![GET_VERSION],
{
    let r = Request::new([GET_VERSION].as_slice());
    proof {
        assert(r@ =~= seq![GET_VERSION]);
    }
    r
}

/// GET_CURRENT_MODE; the probe answers with a 2-byte mode code.
pub fn mode_request() -> (r: Request)
    ensures
        r.wf(),
        r@ == seq![GET_CURRENT_MODE],
{
    let r = Request::new([GET_CURRENT_MODE].as_slice());
    proof {
        assert(r@ =~= seq![GET_CURRENT_MODE]);
    }
    r
}

/// GET_TARGET_VOLTAGE; the probe answers with two u32 ADC samples.
pub fn voltage_request() -> (r: Request)
    ensures
        r.wf(),
        r@ == seq![GET_TARGET_VOLTAGE],
{
    let r = Request::new([GET_TARGET_VOLTAGE].as_slice());
    proof {
        assert(r@ =~= seq![GET_TARGET_VOLTAGE]);
    }
    r
}

/// READCOREID; the probe answers with the 4-byte core id.
pub fn core_id_request() -> (r: Request)
    ensures
        r.wf(),
        r@ == seq![DEBUG_COMMAND, DEBUG_READCOREID],
{
    let r = Request::new([DEBUG_COMMAND, DEBUG_READCOREID].as_slice());
    proof {
        assert(r@ =~= seq![DEBUG_COMMAND, DEBUG_READCOREID]);
    }
    r
}

/// The APIv2 ENTER / ENTER_SWD pair that drives the probe into Debug;
/// acknowledged with the fixed 2-byte ack.
pub fn enter_swd_request() -> (r: Request)
    ensures
        r.wf(),
        r@ == seq![DEBUG_COMMAND, DEBUG_APIV2_ENTER, DEBUG_ENTER_SWD],
{
    let r = Request::new([DEBUG_COMMAND, DEBUG_APIV2_ENTER, DEBUG_ENTER_SWD].as_slice());
    proof {
        assert(r@ =~= seq![DEBUG_COMMAND, DEBUG_APIV2_ENTER, DEBUG_ENTER_SWD]);
    }
    r
}

/// DFU_COMMAND / DFU_EXIT: leaves the DFU bootloader, fire and forget, no
/// response follows. Legal only from DFU.
pub fn exit_dfu_request() -> (r: Request)
    ensures
        r.wf(),
        r@ == seq![DFU_COMMAND, DFU_EXIT],
{
    let r = Request::new([DFU_COMMAND, DFU_EXIT].as_slice());
    proof {
        assert(r@ =~= seq![DFU_COMMAND, DFU_EXIT]);
    }
    r
}

/// APIv2 system reset, a 2-byte-ack command.
pub fn reset_request() -> (r: Request)
    ensures
        r.wf(),
        r@ == seq![DEBUG_COMMAND, DEBUG_APIV2_RESETSYS],
{
    let r = Request::new([DEBUG_COMMAND, DEBUG_APIV2_RESETSYS].as_slice());
    proof {
        assert(r@ =~= seq![DEBUG_COMMAND, DEBUG_APIV2_RESETSYS]);
    }
    r
}

/// Resume the core, a 2-byte-ack command.
pub fn run_request() -> (r: Request)
    ensures
        r.wf(),
        r@ == seq![DEBUG_COMMAND, DEBUG_RUNCORE],
{
    let r = Request::new([DEBUG_COMMAND, DEBUG_RUNCORE].as_slice());
    proof {
        assert(r@ =~= seq![DEBUG_COMMAND, DEBUG_RUNCORE]);
    }
    r
}

/// Halt the core, a 2-byte-ack command.
pub fn halt_request() -> (r: Request)
    ensures
        r.wf(),
        r@ == seq![DEBUG_COMMAND, DEBUG_FORCEDEBUG],
{
    let r = Request::new([DEBUG_COMMAND, DEBUG_FORCEDEBUG].as_slice());
    proof {
        assert(r@ =~= seq![DEBUG_COMMAND, DEBUG_FORCEDEBUG]);
    }
    r
}

/// Single-step the core, a 2-byte-ack command.
pub fn step_request() -> (r: Request)
    ensures
        r.wf(),
        r@ == seq![DEBUG_COMMAND, DEBUG_STEPCORE],
{
    let r = Request::new([DEBUG_COMMAND, DEBUG_STEPCORE].as_slice());
    proof {
        assert(r@ =~= seq![DEBUG_COMMAND, DEBUG_STEPCORE]);
    }
    r
}

/// Bulk-read all core registers; the response starts with a 4-byte status
/// word, then `REG_COUNT` registers.
pub fn read_regs_request() -> (r: Request)
    ensures
        r.wf(),
        r@ == seq![DEBUG_COMMAND, DEBUG_APIV2_READALLREGS],
{
    let r = Request::new([DEBUG_COMMAND, DEBUG_APIV2_READALLREGS].as_slice());
    proof {
        assert(r@ =~= seq![DEBUG_COMMAND, DEBUG_APIV2_READALLREGS]);
    }
    r
}

/// Read one core register; the response starts with a 4-byte status word.
pub fn read_reg_request(reg: u8) -> (r: Request)
    ensures
        r.wf(),
        r@ == seq![DEBUG_COMMAND, DEBUG_APIV2_READREG, reg],
{
    let r = Request::new([DEBUG_COMMAND, DEBUG_APIV2_READREG].as_slice()).write_u8(reg);
    proof {
        assert(r@ =~= seq![DEBUG_COMMAND, DEBUG_APIV2_READREG, reg]);
    }
    r
}

/// Write one core register, answered by a 2-byte status word.
pub fn write_reg_request(reg: u8, value: u32) -> (r: Request)
    ensures
        r.wf(),
        r@ == seq![DEBUG_COMMAND, DEBUG_APIV2_WRITEREG, reg] + spec_u32_to_le_bytes(value),
{
    let r = Request::new([DEBUG_COMMAND, DEBUG_APIV2_WRITEREG].as_slice())
        .write_u8(reg)
        .write_u32(value);
    proof {
        assert(r@ =~= seq![DEBUG_COMMAND, DEBUG_APIV2_WRITEREG, reg] + spec_u32_to_le_bytes(
            value,
        ));
    }
    r
}

/// Query the out-of-band status of the last read or write.
pub fn check_rw_status_request() -> (r: Request)
    ensures
        r.wf(),
        r@ == seq![DEBUG_COMMAND, DEBUG_APIV2_GETLASTRWSTATUS],
{
    let r = Request::new([DEBUG_COMMAND, DEBUG_APIV2_GETLASTRWSTATUS].as_slice());
    proof {
        assert(r@ =~= seq![DEBUG_COMMAND, DEBUG_APIV2_GETLASTRWSTATUS]);
    }
    r
}

/// Byte-granularity memory read: a 32-bit address and a 16-bit length.
pub fn read_mem8_request(addr: u32, len: u16) -> (r: Request)
    ensures
        r.wf(),
        r@ == seq![DEBUG_COMMAND, DEBUG_READMEM_8BIT] + spec_u32_to_le_bytes(addr)
            + spec_u16_to_le_bytes(len),
{
    proof {
        vstd::bytes::lemma_auto_spec_u16_to_from_le_bytes();
        vstd::bytes::lemma_auto_spec_u32_to_from_le_bytes();
    }
    let r = Request::new([DEBUG_COMMAND, DEBUG_READMEM_8BIT].as_slice())
        .write_u32(addr)
        .write_u16(len);
    proof {
        assert(r@ =~= seq![DEBUG_COMMAND, DEBUG_READMEM_8BIT] + spec_u32_to_le_bytes(addr)
            + spec_u16_to_le_bytes(len));
    }
    r
}

/// Byte-granularity memory write; the payload follows in its own transfer.
pub fn write_mem8_request(addr: u32, len: u16) -> (r: Request)
    ensures
        r.wf(),
        r@ == seq![DEBUG_COMMAND, DEBUG_WRITEMEM_8BIT] + spec_u32_to_le_bytes(addr)
            + spec_u16_to_le_bytes(len),
{
    proof {
        vstd::bytes::lemma_auto_spec_u16_to_from_le_bytes();
        vstd::bytes::lemma_auto_spec_u32_to_from_le_bytes();
    }
    let r = Request::new([DEBUG_COMMAND, DEBUG_WRITEMEM_8BIT].as_slice())
        .write_u32(addr)
        .write_u16(len);
    proof {
        assert(r@ =~= seq![DEBUG_COMMAND, DEBUG_WRITEMEM_8BIT] + spec_u32_to_le_bytes(addr)
            + spec_u16_to_le_bytes(len));
    }
    r
}

/// Word-granularity memory read of `count` words: the wire length field is
/// the byte count.
pub fn read_mem32_request(addr: u32, count: usize) -> (r: Request)
    requires
        count * 4 <= 0xFFFF,
    ensures
        r.wf(),
        r@ == seq![DEBUG_COMMAND, DEBUG_READMEM_32BIT] + spec_u32_to_le_bytes(addr)
            + spec_u16_to_le_bytes((count * 4) as u16),
{
    proof {
        vstd::bytes::lemma_auto_spec_u16_to_from_le_bytes();
        vstd::bytes::lemma_auto_spec_u32_to_from_le_bytes();
    }
    let r = Request::new([DEBUG_COMMAND, DEBUG_READMEM_32BIT].as_slice())
        .write_u32(addr)
        .write_u16((count * 4) as u16);
    proof {
        assert(r@ =~= seq![DEBUG_COMMAND, DEBUG_READMEM_32BIT] + spec_u32_to_le_bytes(addr)
            + spec_u16_to_le_bytes((count * 4) as u16));
    }
    r
}

/// Word-granularity memory write of `count` words; the packed payload
/// follows in its own transfer.
pub fn write_mem32_request(addr: u32, count: usize) -> (r: Request)
    requires
        count * 4 <= 0xFFFF,
    ensures
        r.wf(),
        r@ == seq![DEBUG_COMMAND, DEBUG_WRITEMEM_32BIT] + spec_u32_to_le_bytes(addr)
            + spec_u16_to_le_bytes((count * 4) as u16),
{
    proof {
        vstd::bytes::lemma_auto_spec_u16_to_from_le_bytes();
        vstd::bytes::lemma_auto_spec_u32_to_from_le_bytes();
    }
    let r = Request::new([DEBUG_COMMAND, DEBUG_WRITEMEM_32BIT].as_slice())
        .write_u32(addr)
        .write_u16((count * 4) as u16);
    proof {
        assert(r@ =~= seq![DEBUG_COMMAND, DEBUG_WRITEMEM_32BIT] + spec_u32_to_le_bytes(addr)
            + spec_u16_to_le_bytes((count * 4) as u16));
    }
    r
}

/// Read a 32-bit-addressed debug register (a distinct opcode family from the
/// core registers); the response starts with a 4-byte status word.
pub fn read_debug_request(addr: u32) -> (r: Request)
    ensures
        r.wf(),
        r@ == seq![DEBUG_COMMAND, DEBUG_APIV2_READDEBUGREG] + spec_u32_to_le_bytes(addr),
{
    let r = Request::new([DEBUG_COMMAND, DEBUG_APIV2_READDEBUGREG].as_slice()).write_u32(addr);
    proof {
        assert(r@ =~= seq![DEBUG_COMMAND, DEBUG_APIV2_READDEBUGREG] + spec_u32_to_le_bytes(addr));
    }
    r
}

/// Write a 32-bit-addressed debug register, a 2-byte-ack command.
pub fn write_debug_request(addr: u32, value: u32) -> (r: Request)
    ensures
        r.wf(),
        r@ == seq![DEBUG_COMMAND, DEBUG_APIV2_WRITEDEBUGREG] + spec_u32_to_le_bytes(addr)
            + spec_u32_to_le_bytes(value),
{
    proof {
        vstd::bytes::lemma_auto_spec_u16_to_from_le_bytes();
        vstd::bytes::lemma_auto_spec_u32_to_from_le_bytes();
    }
    let r = Request::new([DEBUG_COMMAND, DEBUG_APIV2_WRITEDEBUGREG].as_slice())
        .write_u32(addr)
        .write_u32(value);
    proof {
        assert(r@ =~= seq![DEBUG_COMMAND, DEBUG_APIV2_WRITEDEBUGREG] + spec_u32_to_le_bytes(addr)
            + spec_u32_to_le_bytes(value));
    }
    r
}

/// Arm hardware trace capture into the probe's fixed-size internal buffer.
pub fn trace_start_rx_request(source_hz: u32) -> (r: Request)
    ensures
        r.wf(),
        r@ == seq![DEBUG_COMMAND, DEBUG_APIV2_START_TRACE_RX] + spec_u16_to_le_bytes(
            TRACE_BUFFER_SIZE,
        ) + spec_u32_to_le_bytes(source_hz),
{
    proof {
        vstd::bytes::lemma_auto_spec_u16_to_from_le_bytes();
        vstd::bytes::lemma_auto_spec_u32_to_from_le_bytes();
    }
    let r = Request::new([DEBUG_COMMAND, DEBUG_APIV2_START_TRACE_RX].as_slice())
        .write_u16(TRACE_BUFFER_SIZE)
        .write_u32(source_hz);
    proof {
        assert(r@ =~= seq![DEBUG_COMMAND, DEBUG_APIV2_START_TRACE_RX] + spec_u16_to_le_bytes(
            TRACE_BUFFER_SIZE,
        ) + spec_u32_to_le_bytes(source_hz));
    }
    r
}

/// Disarm hardware trace capture.
pub fn trace_stop_rx_request() -> (r: Request)
    ensures
        r.wf(),
        r@ == seq![DEBUG_COMMAND, DEBUG_APIV2_STOP_TRACE_RX],
{
    let r = Request::new([DEBUG_COMMAND, DEBUG_APIV2_STOP_TRACE_RX].as_slice());
    proof {
        assert(r@ =~= seq![DEBUG_COMMAND, DEBUG_APIV2_STOP_TRACE_RX]);
    }
    r
}

/// Query how many buffered, unread trace bytes the probe holds.
pub fn trace_bytes_available_request() -> (r: Request)
    ensures
        r.wf(),
        r@ == seq![DEBUG_COMMAND, DEBUG_APIV2_GET_TRACE_NB],
{
    let r = Request::new([DEBUG_COMMAND, DEBUG_APIV2_GET_TRACE_NB].as_slice());
    proof {
        assert(r@ =~= seq![DEBUG_COMMAND, DEBUG_APIV2_GET_TRACE_NB]);
    }
    r
}

/// Set the SWD clock divisor, a 2-byte-ack command.
pub fn trace_set_swdclk_request(divisor: u16) -> (r: Request)
    ensures
        r.wf(),
        r@ == seq![DEBUG_COMMAND, DEBUG_APIV2_SWD_SET_FREQ] + spec_u16_to_le_bytes(divisor),
{
    let r = Request::new([DEBUG_COMMAND, DEBUG_APIV2_SWD_SET_FREQ].as_slice()).write_u16(divisor);
    proof {
        assert(r@ =~= seq![DEBUG_COMMAND, DEBUG_APIV2_SWD_SET_FREQ] + spec_u16_to_le_bytes(
            divisor,
        ));
    }
    r
}

/// Decode the 4-byte core id.
pub fn decode_core_id(res: &mut Response) -> (r: u32)
    requires
        old(res).wf(),
        old(res).cursor() + 4 <= old(res).data().len(),
    ensures
        final(res).wf(),
        final(res).data() == old(res).data(),
        final(res).cursor() == old(res).cursor() + 4,
        r == spec_u32_from_le_bytes(
            old(res).data().subrange(old(res).cursor(), old(res).cursor() + 4),
        ),
{
    res.read_u32()
}

/// The target voltage in millivolts computed from the two ADC samples:
/// 2400 * adc1 / adc0, and exactly 0 when adc0 is 0 (no division).
pub open spec fn spec_voltage_millivolts(adc0: u32, adc1: u32) -> int {
    if adc0 == 0 {
        0
    } else {
        2400 * adc1 / (adc0 as int)
    }
}

/// Decode GET_TARGET_VOLTAGE: two little-endian u32 ADC samples.
pub fn voltage_millivolts(res: &mut Response) -> (r: u64)
    requires
        old(res).wf(),
        old(res).cursor() + 8 <= old(res).data().len(),
    ensures
        final(res).wf(),
        final(res).data() == old(res).data(),
        final(res).cursor() == old(res).cursor() + 8,
        r == spec_voltage_millivolts(
            spec_u32_from_le_bytes(
                old(res).data().subrange(old(res).cursor(), old(res).cursor() + 4),
            ),
            spec_u32_from_le_bytes(
                old(res).data().subrange(old(res).cursor() + 4, old(res).cursor() + 8),
            ),
        ),
{
    let adc0 = res.read_u32();
    let adc1 = res.read_u32();
    if adc0 == 0 {
        0
    } else {
        (2400u64 * (adc1 as u64)) / (adc0 as u64)
    }
}

/// Decode a single-register read: a 4-byte status word, then the value.
pub fn decode_reg(res: &mut Response) -> (r: u32)
    requires
        old(res).wf(),
        old(res).cursor() + 8 <= old(res).data().len(),
    ensures
        final(res).wf(),
        final(res).data() == old(res).data(),
        final(res).cursor() == old(res).cursor() + 8,
        r == spec_u32_from_le_bytes(
            old(res).data().subrange(old(res).cursor() + 4, old(res).cursor() + 8),
        ),
{
    res.skip(4);
    res.read_u32()
}

/// Decode a debug-register read: a 4-byte status word, then the value.
pub fn decode_debug(res: &mut Response) -> (r: u32)
    requires
        old(res).wf(),
        old(res).cursor() + 8 <= old(res).data().len(),
    ensures
        final(res).wf(),
        final(res).data() == old(res).data(),
        final(res).cursor() == old(res).cursor() + 8,
        r == spec_u32_from_le_bytes(
            old(res).data().subrange(old(res).cursor() + 4, old(res).cursor() + 8),
        ),
{
    res.skip(4);
    res.read_u32()
}

/// Decode a bulk register read: a 4-byte status word is discarded, then
/// `REG_COUNT` little-endian registers follow.
pub fn decode_regs(res: &mut Response) -> (r: Vec<u32>)
    requires
        old(res).wf(),
        old(res).cursor() + READ_REGS_RESPONSE_LEN <= old(res).data().len(),
    ensures
        final(res).wf(),
        final(res).data() == old(res).data(),
        final(res).cursor() == old(res).cursor() + READ_REGS_RESPONSE_LEN,
        r@.len() == REG_COUNT,
        forall|i: int|
            0 <= i < REG_COUNT ==> r@[i] == spec_u32_from_le_bytes(
                old(res).data().subrange(
                    old(res).cursor() + 4 + 4 * i,
                    old(res).cursor() + 8 + 4 * i,
                ),
            ),
{
    res.skip(4);
    let mut regs: Vec<u32> = Vec::new();
    let mut i: usize = 0;
    while i < REG_COUNT
        invariant
            res.wf(),
            res.data() == old(res).data(),
            old(res).cursor() + READ_REGS_RESPONSE_LEN <= old(res).data().len(),
            i <= REG_COUNT,
            res.cursor() == old(res).cursor() + 4 + 4 * i,
            regs@.len() == i,
            forall|j: int|
                0 <= j < i ==> regs@[j] == spec_u32_from_le_bytes(
                    old(res).data().subrange(
                        old(res).cursor() + 4 + 4 * j,
                        old(res).cursor() + 8 + 4 * j,
                    ),
                ),
        decreases REG_COUNT - i,
    {
        let v = res.read_u32();
        regs.push(v);
        i = i + 1;
    }
    regs
}

/// What the out-of-band status byte means: 0x80 is success, everything else
/// is the failure of the preceding read or write.
pub open spec fn spec_rw_status(status: u8) -> Result<(), Error> {
    if status == DEBUG_ERR_OK {
        Ok(())
    } else {
        Err(Error::Status)
    }
}

/// Decode the 2-byte status-check response; its first byte is the status of
/// the preceding memory or register operation.
pub fn decode_rw_status(res: &mut Response) -> (r: Result<(), Error>)
    requires
        old(res).wf(),
        old(res).cursor() + 2 <= old(res).data().len(),
    ensures
        final(res).wf(),
        final(res).data() == old(res).data(),
        final(res).cursor() == old(res).cursor() + 2,
        r == spec_rw_status(old(res).data()[old(res).cursor()]),
{
    let status = res.read_u8();
    res.skip(1);
    if status == DEBUG_ERR_OK {
        Ok(())
    } else {
        Err(Error::Status)
    }
}

/// A write whose following status check reports anything but success is a
/// failed write, never a silent success: the composed result of the
/// operation is exactly the status check's result.
pub proof fn lemma_status_failure_is_operation_failure(status: u8)
    requires
        status != DEBUG_ERR_OK,
    ensures
        spec_rw_status(status) == Err::<(), Error>(Error::Status),
{
}

/// How long the response to a byte-granularity read of `n` bytes is: the
/// probe returns two bytes when a single byte is requested, and only the
/// first carries data.
pub open spec fn spec_mem8_response_len(n: u16) -> int {
    if n == 1 {
        2
    } else {
        n as int
    }
}

pub fn read_mem8_response_len(n: u16) -> (r: usize)
    ensures
        r == spec_mem8_response_len(n),
{
    if n == 1 {
        2
    } else {
        n as usize
    }
}

/// Decode a byte-granularity read of `n` bytes, honouring the single-byte
/// quirk: for `n == 1` only the first of the two response bytes is data.
pub fn decode_mem8(res: &mut Response, n: u16) -> (r: Vec<u8>)
    requires
        old(res).wf(),
        n >= 1,
        old(res).cursor() + spec_mem8_response_len(n) <= old(res).data().len(),
    ensures
        final(res).wf(),
        final(res).data() == old(res).data(),
        final(res).cursor() == old(res).cursor() + spec_mem8_response_len(n),
        r@.len() == n,
        forall|i: int| 0 <= i < n ==> r@[i] == old(res).data()[old(res).cursor() + i],
{
    let count = n as usize;
    let mut out: Vec<u8> = Vec::new();
    let mut i: usize = 0;
    while i < count
        invariant
            res.wf(),
            res.data() == old(res).data(),
            count == n,
            old(res).cursor() + spec_mem8_response_len(n) <= old(res).data().len(),
            i <= count,
            res.cursor() == old(res).cursor() + i,
            out@.len() == i,
            forall|j: int| 0 <= j < i ==> out@[j] == old(res).data()[old(res).cursor() + j],
        decreases count - i,
    {
        let b = res.read_u8();
        out.push(b);
        i = i + 1;
    }
    if n == 1 {
        res.skip(1);
    }
    out
}

/// Decode the buffered-trace-byte count.
pub fn decode_trace_bytes_available(res: &mut Response) -> (r: u16)
    requires
        old(res).wf(),
        old(res).cursor() + 2 <= old(res).data().len(),
    ensures
        final(res).wf(),
        final(res).data() == old(res).data(),
        final(res).cursor() == old(res).cursor() + 2,
        r == vstd::bytes::spec_u16_from_le_bytes(
            old(res).data().subrange(old(res).cursor(), old(res).cursor() + 2),
        ),
{
    res.read_u16()
}

/// How many trace bytes to pull: the available count clamped to the caller's
/// buffer; zero is a normal "nothing yet", not an error.
pub fn trace_read_len(buf_len: usize, available: u16) -> (r: usize)
    ensures
        r == if (available as int) < buf_len {
            available as int
        } else {
            buf_len as int
        },
{
    if (available as usize) < buf_len {
        available as usize
    } else {
        buf_len
    }
}

/// The addresses of the single-byte transfers that an arbitrary-length
/// memory range decomposes into; correctness-first, not performance-first,
/// so callers needing throughput use the word-granularity path instead.
pub fn byte_addresses(addr: u32, len: usize) -> (r: Vec<u32>)
    requires
        addr + len <= 0x1_0000_0000,
    ensures
        r@.len() == len,
        forall|i: int| 0 <= i < len ==> r@[i] == addr + i,
{
    let mut out: Vec<u32> = Vec::new();
    let mut i: usize = 0;
    while i < len
        invariant
            addr + len <= 0x1_0000_0000,
            i <= len,
            out@.len() == i,
            forall|j: int| 0 <= j < i ==> out@[j] == addr + j,
        decreases len - i,
    {
        out.push(addr + (i as u32));
        i = i + 1;
    }
    out
}

/// The USB configuration value a probe session expects.
pub const EXPECTED_CONFIGURATION: u8 = 1;

/// Whether configuring the session must set the active USB configuration:
/// only when it is not the expected one already, or when forced.
pub fn needs_set_configuration(active: u8, force: bool) -> (r: bool)
    ensures
        r == (active != EXPECTED_CONFIGURATION || force),
{
    active != EXPECTED_CONFIGURATION || force
}

/// Pack words into the little-endian byte stream the probe expects; replaces
/// any in-place reinterpretation of the word array with an explicit pass.
pub fn words_to_bytes(words: &Vec<u32>) -> (r: Vec<u8>)
    ensures
        r@.len() == 4 * words@.len(),
        forall|i: int|
            0 <= i < words@.len() ==> r@.subrange(4 * i, 4 * i + 4) == spec_u32_to_le_bytes(
                words@[i],
            ),
{
    let mut out: Vec<u8> = Vec::new();
    let mut i: usize = 0;
    while i < words.len()
        invariant
            i <= words@.len(),
            out@.len() == 4 * i,
            forall|j: int|
                0 <= j < i ==> out@.subrange(4 * j, 4 * j + 4) == spec_u32_to_le_bytes(
                    words@[j],
                ),
        decreases words@.len() - i,
    {
        let ghost prev = out@;
        let bytes = vstd::bytes::u32_to_le_bytes(words[i]);
        out.push(bytes[0]);
        out.push(bytes[1]);
        out.push(bytes[2]);
        out.push(bytes[3]);
        i = i + 1;
        proof {
            assert(out@.subrange(4 * (i - 1), 4 * (i - 1) + 4) =~= spec_u32_to_le_bytes(
                words@[i - 1],
            ));
            assert forall|j: int| 0 <= j < i - 1 implies out@.subrange(4 * j, 4 * j + 4)
                == spec_u32_to_le_bytes(words@[j]) by {
                assert(out@.subrange(4 * j, 4 * j + 4) =~= prev.subrange(4 * j, 4 * j + 4));
            }
        }
    }
    out
}

/// Unpack the little-endian byte stream of a word-granularity read.
pub fn bytes_to_words(bytes: &Vec<u8>) -> (r: Vec<u32>)
    requires
        bytes@.len() % 4 == 0,
    ensures
        r@.len() == bytes@.len() / 4,
        forall|i: int|
            0 <= i < r@.len() ==> r@[i] == spec_u32_from_le_bytes(
                bytes@.subrange(4 * i, 4 * i + 4),
            ),
{
    let n = bytes.len();
    let count = n / 4;
    let mut out: Vec<u32> = Vec::new();
    let mut i: usize = 0;
    while i < count
        invariant
            n == bytes@.len(),
            n == 4 * count,
            i <= count,
            out@.len() == i,
            forall|j: int|
                0 <= j < i ==> out@[j] == spec_u32_from_le_bytes(
                    bytes@.subrange(4 * j, 4 * j + 4),
                ),
        decreases count - i,
    {
        let w = vstd::bytes::u32_from_le_bytes(
            vstd::slice::slice_subrange(bytes.as_slice(), 4 * i, 4 * i + 4),
        );
        out.push(w);
        i = i + 1;
    }
    out
}

} // verus!
