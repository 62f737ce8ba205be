use vstd::prelude::*;
use vstd::slice::{slice_subrange, slice_to_vec};
use crate::constants::{
    DCB_DHCSR, DCB_DEMCR, DCB_DEMCR_TRCENA, DBGMCU_CR, DBGMCU_CR_DEBUG_TRACE_IOEN,
    DBGMCU_CR_DEBUG_STOP, DBGMCU_CR_DEBUG_STANDBY, DBGMCU_CR_DEBUG_SLEEP, TPIU_CSPSR, TPIU_ACPR,
    TPIU_SPPR, TPIU_SPPR_TXMODE_NRZ, TPIU_FFCR, ITM_LAR, SCS_LAR_KEY, ITM_TCR, ITM_TCR_SYNCENA,
    ITM_TCR_ITMENA, ITM_TER, ITM_TPR, DWT_CTRL,
};

verus! {

/// The trace configuration consumed once by the setup program: a stimulus
/// port bitmask, the 2-bit synchronization tap selector, and the target's
/// core and trace clocks.
pub struct TraceConfig {
    pub stim_mask: u32,
    pub sync_taps: u32,
    pub cpu_hz: u32,
    pub swo_hz: u32,
}

impl TraceConfig {
    /// What the register program needs of a configuration: a nonzero trace
    /// clock no faster than the core clock, and a 2-bit tap selector.
    pub open spec fn wf(&self) -> bool {
        &&& self.swo_hz > 0
        &&& self.swo_hz <= self.cpu_hz
        &&& self.sync_taps < 4
    }
}

/// The TPIU asynchronous prescaler dividing the core clock down to the
/// trace clock; the register takes the divider minus one.
pub fn trace_prescaler(cpu_hz: u32, swo_hz: u32) -> (r: u32)
    requires
        swo_hz > 0,
        swo_hz <= cpu_hz,
    ensures
        r == cpu_hz as int / swo_hz as int - 1,
{
    proof {
        assert(cpu_hz as int / swo_hz as int >= 1) by (nonlinear_arith)
            requires
                swo_hz > 0,
                swo_hz <= cpu_hz,
        ;
    }
    cpu_hz / swo_hz - 1
}

/// The vendor debug-control value with trace-pin output plus sleep, stop
/// and standby debug retention enabled on top of the value read back.
pub fn dbgmcu_trace_config(reg: u32) -> (r: u32)
    ensures
        r == reg | (DBGMCU_CR_DEBUG_TRACE_IOEN | DBGMCU_CR_DEBUG_STOP | DBGMCU_CR_DEBUG_STANDBY
            | DBGMCU_CR_DEBUG_SLEEP),
{
    reg | (DBGMCU_CR_DEBUG_TRACE_IOEN | DBGMCU_CR_DEBUG_STOP | DBGMCU_CR_DEBUG_STANDBY
        | DBGMCU_CR_DEBUG_SLEEP)
}

/// DWT_CTRL with its 2-bit synchronization-tap field replaced by
/// `sync_taps` and the cycle-counter enable forced on, as the tap counts
/// cycle-counter bits.
pub fn dwt_sync_tap_update(reg: u32, sync_taps: u32) -> (r: u32)
    requires
        sync_taps < 4,
    ensures
        r == (reg & !(3u32 << 10)) | (sync_taps << 10) | 1,
{
    (reg & !(3u32 << 10)) | (sync_taps << 10) | 1
}

/// The ITM control value: trace-bus id 1, synchronization packets and the
/// ITM itself enabled.
pub fn itm_tcr_value() -> (r: u32)
    ensures
        r == (1u32 << 16) | ITM_TCR_SYNCENA | ITM_TCR_ITMENA,
{
    (1u32 << 16) | ITM_TCR_SYNCENA | ITM_TCR_ITMENA
}

/// One step of the trace-setup register program.
#[derive(Clone, Copy, Debug, PartialEq, Eq, Structural)]
pub enum TraceStep {
    /// Read a debug register; the first such read is a probe warm-up whose
    /// value is discarded.
    ReadDebug(u32),
    /// Write a debug register.
    WriteDebug(u32, u32),
    /// Read a word of target memory.
    ReadWord(u32),
    /// Write a word of target memory.
    WriteWord(u32, u32),
}

/// How many steps the setup program has.
pub const TRACE_SETUP_STEPS: usize = 14;

/// The sequential register program of trace setup. `dbgmcu_cr` and
/// `dwt_ctrl` are the values returned by the two read steps, which feed the
/// read-modify-write steps that follow them.
pub open spec fn spec_setup_step(
    cfg: TraceConfig,
    index: int,
    dbgmcu_cr: u32,
    dwt_ctrl: u32,
) -> Option<TraceStep> {
    if index == 0 {
        Some(TraceStep::ReadDebug(DCB_DHCSR))
    } else if index == 1 {
        Some(TraceStep::WriteDebug(DCB_DEMCR, DCB_DEMCR_TRCENA))
    } else if index == 2 {
        Some(TraceStep::ReadWord(DBGMCU_CR))
    } else if index == 3 {
        Some(
            TraceStep::WriteWord(
                DBGMCU_CR,
                dbgmcu_cr | (DBGMCU_CR_DEBUG_TRACE_IOEN | DBGMCU_CR_DEBUG_STOP
                    | DBGMCU_CR_DEBUG_STANDBY | DBGMCU_CR_DEBUG_SLEEP),
            ),
        )
    } else if index == 4 {
        Some(TraceStep::WriteWord(TPIU_CSPSR, 1))
    } else if index == 5 {
        Some(TraceStep::WriteWord(TPIU_ACPR, (cfg.cpu_hz as int / cfg.swo_hz as int - 1) as u32))
    } else if index == 6 {
        Some(TraceStep::WriteWord(TPIU_SPPR, TPIU_SPPR_TXMODE_NRZ))
    } else if index == 7 {
        Some(TraceStep::WriteWord(TPIU_FFCR, 0))
    } else if index == 8 {
        Some(TraceStep::WriteWord(ITM_LAR, SCS_LAR_KEY))
    } else if index == 9 {
        Some(TraceStep::WriteWord(ITM_TCR, (1u32 << 16) | ITM_TCR_SYNCENA | ITM_TCR_ITMENA))
    } else if index == 10 {
        Some(TraceStep::WriteWord(ITM_TER, cfg.stim_mask))
    } else if index == 11 {
        Some(TraceStep::WriteWord(ITM_TPR, cfg.stim_mask))
    } else if index == 12 {
        Some(TraceStep::ReadWord(DWT_CTRL))
    } else if index == 13 {
        Some(TraceStep::WriteWord(DWT_CTRL, (dwt_ctrl & !(3u32 << 10)) | (cfg.sync_taps << 10) | 1))
    } else {
        None
    }
}

impl TraceConfig {
    /// The `index`-th step of the setup program: enable the trace block,
    /// set the vendor trace bits, program the TPIU for 1-bit NRZ output at
    /// the computed prescaler with formatting off, unlock and enable the
    /// ITM with the configured stimulus ports, and set the DWT tap.
    pub fn setup_step(&self, index: usize, dbgmcu_cr: u32, dwt_ctrl: u32) -> (r: Option<TraceStep>)
        requires
            self.wf(),
        ensures
            r == spec_setup_step(*self, index as int, dbgmcu_cr, dwt_ctrl),
            r is Some <==> index < TRACE_SETUP_STEPS,
    {
        if index == 0 {
            Some(TraceStep::ReadDebug(DCB_DHCSR))
        } else if index == 1 {
            Some(TraceStep::WriteDebug(DCB_DEMCR, DCB_DEMCR_TRCENA))
        } else if index == 2 {
            Some(TraceStep::ReadWord(DBGMCU_CR))
        } else if index == 3 {
            Some(TraceStep::WriteWord(DBGMCU_CR, dbgmcu_trace_config(dbgmcu_cr)))
        } else if index == 4 {
            Some(TraceStep::WriteWord(TPIU_CSPSR, 1))
        } else if index == 5 {
            Some(TraceStep::WriteWord(TPIU_ACPR, trace_prescaler(self.cpu_hz, self.swo_hz)))
        } else if index == 6 {
            Some(TraceStep::WriteWord(TPIU_SPPR, TPIU_SPPR_TXMODE_NRZ))
        } else if index == 7 {
            Some(TraceStep::WriteWord(TPIU_FFCR, 0))
        } else if index == 8 {
            Some(TraceStep::WriteWord(ITM_LAR, SCS_LAR_KEY))
        } else if index == 9 {
            Some(TraceStep::WriteWord(ITM_TCR, itm_tcr_value()))
        } else if index == 10 {
            Some(TraceStep::WriteWord(ITM_TER, self.stim_mask))
        } else if index == 11 {
            Some(TraceStep::WriteWord(ITM_TPR, self.stim_mask))
        } else if index == 12 {
            Some(TraceStep::ReadWord(DWT_CTRL))
        } else if index == 13 {
            Some(TraceStep::WriteWord(DWT_CTRL, dwt_sync_tap_update(dwt_ctrl, self.sync_taps)))
        } else {
            None
        }
    }
}

/// One decoded trace packet: a stimulus port (0 to 31) and a payload of 1,
/// 2 or 4 bytes. Port 0 carries the application's output; other ports pass
/// through untouched.
pub struct TracePacket {
    pub port: u8,
    pub payload: Vec<u8>,
}

/// The payload size selected by the low 3 bits of a header byte; 0 marks a
/// size class this scanner does not consume.
pub open spec fn spec_payload_len(header: u8) -> int {
    if header & 7 == 1 {
        1
    } else if header & 7 == 2 {
        2
    } else if header & 7 == 3 {
        4
    } else {
        0
    }
}

/// The payload size class of a header byte.
pub fn payload_len(header: u8) -> (r: usize)
    ensures
        r == spec_payload_len(header),
{
    let cls = header & 7;
    if cls == 1 {
        1
    } else if cls == 2 {
        2
    } else if cls == 3 {
        4
    } else {
        0
    }
}

/// Whether a whole packet (a known size class with all its payload bytes)
/// starts at `pos`.
pub open spec fn spec_has_packet(bytes: Seq<u8>, pos: int) -> bool {
    &&& pos < bytes.len()
    &&& spec_payload_len(bytes[pos]) > 0
    &&& pos + 1 + spec_payload_len(bytes[pos]) <= bytes.len()
}

/// A stateless, restartable scanner over a raw SWO byte stream. Each call
/// to `next` either consumes one whole packet or consumes nothing, so a
/// partial trailing packet can be presented again after more bytes arrive.
pub struct Reader<'a> {
    buf: &'a [u8],
    pos: usize,
}

impl<'a> Reader<'a> {
    /// The scanned bytes.
    pub closed spec fn bytes(&self) -> Seq<u8> {
        self.buf@
    }

    /// The scan position: always at a packet boundary.
    pub closed spec fn position(&self) -> int {
        self.pos as int
    }

    pub closed spec fn wf(&self) -> bool {
        self.pos <= self.buf@.len()
    }

    pub fn new(buf: &'a [u8]) -> (r: Reader<'a>)
        ensures
            r.wf(),
            r.bytes() == buf@,
            r.position() == 0,
    {
        Reader { buf, pos: 0 }
    }

    /// Bytes not yet consumed by the scan.
    pub fn remaining(&self) -> (r: usize)
        requires
            self.wf(),
        ensures
            r == self.bytes().len() - self.position(),
    {
        self.buf.len() - self.pos
    }

    /// Decode the packet at the cursor. A header with an unknown size
    /// class, or with fewer trailing bytes than the class declares, ends
    /// the scan for this call without consuming the header.
    pub fn next(&mut self) -> (r: Option<TracePacket>)
        requires
            old(self).wf(),
        ensures
            final(self).wf(),
            final(self).bytes() == old(self).bytes(),
            r is Some <==> spec_has_packet(old(self).bytes(), old(self).position()),
            r is None ==> final(self).position() == old(self).position(),
            r matches Some(p) ==> {
                let c = old(self).position();
                let h = old(self).bytes()[c];
                &&& p.port == h >> 3
                &&& p.port < 32
                &&& p.payload@ == old(self).bytes().subrange(c + 1, c + 1 + spec_payload_len(h))
                &&& final(self).position() == c + 1 + spec_payload_len(h)
            },
    {
        let n = self.buf.len();
        if self.pos >= n {
            return None;
        }
        let header = self.buf[self.pos];
        let size = payload_len(header);
        if size == 0 {
            return None;
        }
        if size > n - 1 - self.pos {
            return None;
        }
        let start = self.pos + 1;
        let payload = slice_to_vec(slice_subrange(self.buf, start, start + size));
        let port = header >> 3;
        proof {
            assert(header >> 3 < 32) by (bit_vector);
        }
        self.pos = start + size;
        Some(TracePacket { port, payload })
    }
}

/// The finite sequence of whole packets that one scan of `bytes` from `pos`
/// produces, as (port, payload) pairs, together with nothing of any partial
/// trailing packet.
pub open spec fn spec_scan(bytes: Seq<u8>, pos: int) -> Seq<(u8, Seq<u8>)>
    decreases bytes.len() - pos,
    when 0 <= pos <= bytes.len()
{
    if spec_has_packet(bytes, pos) {
        let h = bytes[pos];
        seq![((h >> 3) as u8, bytes.subrange(pos + 1, pos + 1 + spec_payload_len(h)))]
            + spec_scan(bytes, pos + 1 + spec_payload_len(h))
    } else {
        Seq::empty()
    }
}

/// Where a scan from `pos` stops: just past the last whole packet, at the
/// header of any partial trailing packet.
pub open spec fn spec_scan_end(bytes: Seq<u8>, pos: int) -> int
    decreases bytes.len() - pos,
    when 0 <= pos <= bytes.len()
{
    if spec_has_packet(bytes, pos) {
        spec_scan_end(bytes, pos + 1 + spec_payload_len(bytes[pos]))
    } else {
        pos
    }
}

/// Scan a whole buffer: every whole packet in order, and how many bytes
/// they cover, so the caller can carry the unconsumed tail into the next
/// read.
pub fn demux(buf: &[u8]) -> (r: (Vec<TracePacket>, usize))
    ensures
        r.1 == spec_scan_end(buf@, 0),
        r.1 <= buf@.len(),
        r.0@.len() == spec_scan(buf@, 0).len(),
        forall|i: int|
            0 <= i < r.0@.len() ==> (r.0@[i].port, r.0@[i].payload@) == spec_scan(buf@, 0)[i],
{
    let mut reader = Reader::new(buf);
    let mut packets: Vec<TracePacket> = Vec::new();
    let ghost whole = spec_scan(buf@, 0);
    loop
        invariant
            reader.wf(),
            reader.bytes() == buf@,
            whole == spec_scan(buf@, 0),
            packets@.len() <= whole.len(),
            forall|i: int|
                0 <= i < packets@.len() ==> (packets@[i].port, packets@[i].payload@) == whole[i],
            whole =~= whole.take(packets@.len() as int) + spec_scan(buf@, reader.position()),
            spec_scan_end(buf@, 0) == spec_scan_end(buf@, reader.position()),
        ensures
            reader.wf(),
            reader.bytes() == buf@,
            packets@.len() == whole.len(),
            forall|i: int|
                0 <= i < packets@.len() ==> (packets@[i].port, packets@[i].payload@) == whole[i],
            reader.position() == spec_scan_end(buf@, 0),
        decreases buf@.len() - reader.position(),
    {
        let ghost before = reader.position();
        match reader.next() {
            Some(p) => {
                proof {
                    let tail = spec_scan(buf@, before);
                    assert(tail[0] == ((p.port, p.payload@)));
                    assert(tail.skip(1) =~= spec_scan(buf@, reader.position()));
                    assert(whole[packets@.len() as int] == (p.port, p.payload@));
                }
                packets.push(p);
                proof {
                    assert(whole =~= whole.take(packets@.len() as int) + spec_scan(
                        buf@,
                        reader.position(),
                    ));
                }
            },
            None => {
                proof {
                    assert(spec_scan(buf@, reader.position()) =~= Seq::<(u8, Seq<u8>)>::empty());
                    assert(whole.take(packets@.len() as int) =~= whole);
                    assert(spec_scan_end(buf@, reader.position()) == reader.position());
                }
                break;
            },
        }
    }
    let consumed = buf.len() - reader.remaining();
    (packets, consumed)
}

} // verus!
