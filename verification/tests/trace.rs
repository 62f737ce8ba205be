use bobbin::constants::{
    DBGMCU_CR, DCB_DEMCR, DCB_DEMCR_TRCENA, DCB_DHCSR, DWT_CTRL, ITM_LAR, ITM_TCR, ITM_TER,
    ITM_TPR, SCS_LAR_KEY, TPIU_ACPR, TPIU_CSPSR, TPIU_FFCR, TPIU_SPPR,
};
use bobbin::trace::{
    dbgmcu_trace_config, demux, dwt_sync_tap_update, itm_tcr_value, trace_prescaler, Reader,
    TraceConfig, TraceStep, TRACE_SETUP_STEPS,
};

#[test]
fn prescaler_divides_the_core_clock() {
    assert_eq!(trace_prescaler(168_000_000, 2_000_000), 83);
    assert_eq!(trace_prescaler(2_000_000, 2_000_000), 0);
    assert_eq!(trace_prescaler(64_000_000, 2_000_000), 31);
}

#[test]
fn register_values_set_the_documented_bits() {
    assert_eq!(dbgmcu_trace_config(0), 0b100111);
    assert_eq!(dbgmcu_trace_config(0x100), 0x100 | 0b100111);
    assert_eq!(itm_tcr_value(), (1 << 16) | (1 << 2) | 1);
    assert_eq!(dwt_sync_tap_update(0, 1), (1 << 10) | 1);
    assert_eq!(dwt_sync_tap_update(0xFFFF_FFFF, 0), 0xFFFF_F3FF);
    assert_eq!(dwt_sync_tap_update(0b11 << 10, 2), (2 << 10) | 1);
}

#[test]
fn setup_program_runs_the_documented_sequence() {
    let cfg = TraceConfig { stim_mask: 0x0000_0001, sync_taps: 1, cpu_hz: 168_000_000, swo_hz: 2_000_000 };
    let dbgmcu = 0x0000_0100;
    let dwt = 0x4000_0000;
    let expect = [
        TraceStep::ReadDebug(DCB_DHCSR),
        TraceStep::WriteDebug(DCB_DEMCR, DCB_DEMCR_TRCENA),
        TraceStep::ReadWord(DBGMCU_CR),
        TraceStep::WriteWord(DBGMCU_CR, dbgmcu | 0b100111),
        TraceStep::WriteWord(TPIU_CSPSR, 1),
        TraceStep::WriteWord(TPIU_ACPR, 83),
        TraceStep::WriteWord(TPIU_SPPR, 2),
        TraceStep::WriteWord(TPIU_FFCR, 0),
        TraceStep::WriteWord(ITM_LAR, SCS_LAR_KEY),
        TraceStep::WriteWord(ITM_TCR, (1 << 16) | (1 << 2) | 1),
        TraceStep::WriteWord(ITM_TER, 0x0000_0001),
        TraceStep::WriteWord(ITM_TPR, 0x0000_0001),
        TraceStep::ReadWord(DWT_CTRL),
        TraceStep::WriteWord(DWT_CTRL, (dwt & !(0b11 << 10)) | (1 << 10) | 1),
    ];
    assert_eq!(expect.len(), TRACE_SETUP_STEPS);
    for (i, step) in expect.iter().enumerate() {
        assert_eq!(cfg.setup_step(i, dbgmcu, dwt), Some(*step));
    }
    assert_eq!(cfg.setup_step(TRACE_SETUP_STEPS, dbgmcu, dwt), None);
}

#[test]
fn one_byte_packet_advances_two_bytes() {
    // Header: port 1, size class 01, then one payload byte.
    let buf = [0x09u8, 0x55];
    let mut r = Reader::new(&buf);
    let p = r.next().expect("a whole packet is present");
    assert_eq!(p.port, 1);
    assert_eq!(p.payload, vec![0x55]);
    // The scan advanced exactly two bytes: nothing is left.
    assert!(r.next().is_none());
}

#[test]
fn missing_payload_does_not_consume_the_header() {
    let buf = [0x0Au8, 0x11];
    let mut r = Reader::new(&buf);
    // Size class 10 wants two payload bytes but only one is present.
    assert!(r.next().is_none());
    assert!(r.next().is_none());

    // Re-presenting the same bytes with the payload completed yields the
    // packet.
    let buf = [0x0Au8, 0x11, 0x22];
    let mut r = Reader::new(&buf);
    let p = r.next().expect("payload is complete now");
    assert_eq!(p.port, 1);
    assert_eq!(p.payload, vec![0x11, 0x22]);
}

#[test]
fn unknown_size_class_ends_the_scan() {
    let buf = [0x08u8, 0x11, 0x22, 0x33];
    let mut r = Reader::new(&buf);
    assert!(r.next().is_none());

    let buf = [0x0Du8, 0x11, 0x22, 0x33, 0x44];
    let mut r = Reader::new(&buf);
    assert!(r.next().is_none());
}

#[test]
fn packets_demultiplex_in_sequence() {
    // Port 0 with one byte, port 2 with two bytes, port 31 with four bytes.
    let buf = [
        0x01, 0xAA, 0x12, 0xBB, 0xCC, 0xFB, 0x01, 0x02, 0x03, 0x04,
    ];
    let mut r = Reader::new(&buf);
    let p = r.next().unwrap();
    assert_eq!((p.port, p.payload), (0, vec![0xAA]));
    let p = r.next().unwrap();
    assert_eq!((p.port, p.payload), (2, vec![0xBB, 0xCC]));
    let p = r.next().unwrap();
    assert_eq!((p.port, p.payload), (31, vec![0x01, 0x02, 0x03, 0x04]));
    assert!(r.next().is_none());
}

#[test]
fn empty_input_yields_nothing() {
    let buf: [u8; 0] = [];
    let mut r = Reader::new(&buf);
    assert!(r.next().is_none());
}

#[test]
fn whole_buffer_scan_stops_before_a_partial_packet() {
    // Two whole packets, then a header whose payload has not arrived yet.
    let buf = [0x01, 0xAA, 0x12, 0xBB, 0xCC, 0x0A, 0x11];
    let (packets, consumed) = demux(&buf);
    assert_eq!(packets.len(), 2);
    assert_eq!((packets[0].port, packets[0].payload.clone()), (0, vec![0xAA]));
    assert_eq!((packets[1].port, packets[1].payload.clone()), (2, vec![0xBB, 0xCC]));
    assert_eq!(consumed, 5);

    let (packets, consumed) = demux(&buf[..0]);
    assert!(packets.is_empty());
    assert_eq!(consumed, 0);
}

#[test]
fn reader_reports_its_remaining_bytes() {
    let buf = [0x09u8, 0x55, 0x42];
    let mut r = Reader::new(&buf);
    assert_eq!(r.remaining(), 3);
    r.next().unwrap();
    assert_eq!(r.remaining(), 1);
}
