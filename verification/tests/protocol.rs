use bobbin::errors::Error;
use bobbin::framing::Response;
use bobbin::protocol::{
    bytes_to_words, check_rw_status_request, decode_mem8, decode_reg, decode_regs,
    decode_rw_status, decode_trace_bytes_available, enter_swd_request, exit_dfu_request,
    halt_request, mode_request, read_mem32_request, read_mem8_request, read_mem8_response_len,
    read_reg_request, trace_read_len, trace_start_rx_request, version_request, voltage_millivolts,
    words_to_bytes, write_debug_request, write_mem32_request, write_reg_request, byte_addresses,
    needs_set_configuration, REG_COUNT,
};

fn wire_prefix(req: bobbin::framing::Request, n: usize) -> Vec<u8> {
    let wire = req.as_wire();
    wire[..n].to_vec()
}

#[test]
fn simple_requests_have_exact_frames() {
    assert_eq!(wire_prefix(version_request(), 1), vec![0xF1]);
    assert_eq!(wire_prefix(mode_request(), 1), vec![0xF5]);
    assert_eq!(wire_prefix(enter_swd_request(), 3), vec![0xF2, 0x30, 0xA3]);
    assert_eq!(wire_prefix(exit_dfu_request(), 2), vec![0xF3, 0x07]);
    assert_eq!(wire_prefix(halt_request(), 2), vec![0xF2, 0x02]);
    assert_eq!(wire_prefix(check_rw_status_request(), 2), vec![0xF2, 0x3B]);
    assert_eq!(wire_prefix(read_reg_request(0x0F), 3), vec![0xF2, 0x33, 0x0F]);
}

#[test]
fn parameterized_requests_pack_little_endian() {
    assert_eq!(
        wire_prefix(write_reg_request(0x02, 0xDEADBEEF), 7),
        vec![0xF2, 0x34, 0x02, 0xEF, 0xBE, 0xAD, 0xDE]
    );
    assert_eq!(
        wire_prefix(read_mem8_request(0x20000000, 0x0100), 8),
        vec![0xF2, 0x0C, 0x00, 0x00, 0x00, 0x20, 0x00, 0x01]
    );
    assert_eq!(
        wire_prefix(read_mem32_request(0xE0001000, 2), 8),
        vec![0xF2, 0x07, 0x00, 0x10, 0x00, 0xE0, 0x08, 0x00]
    );
    assert_eq!(
        wire_prefix(write_mem32_request(0x08000000, 3), 8),
        vec![0xF2, 0x08, 0x00, 0x00, 0x00, 0x08, 0x0C, 0x00]
    );
    assert_eq!(
        wire_prefix(write_debug_request(0xE000EDFC, 0x01000000), 10),
        vec![0xF2, 0x35, 0xFC, 0xED, 0x00, 0xE0, 0x00, 0x00, 0x00, 0x01]
    );
    assert_eq!(
        wire_prefix(trace_start_rx_request(2_000_000), 8),
        vec![0xF2, 0x40, 0x00, 0x10, 0x80, 0x84, 0x1E, 0x00]
    );
}

#[test]
fn zero_adc_reads_as_zero_voltage() {
    let mut res = Response::new(8);
    res.fill(&[0, 0, 0, 0, 0xF4, 0x01, 0, 0]);
    assert_eq!(voltage_millivolts(&mut res), 0);
}

#[test]
fn voltage_scales_from_the_two_samples() {
    // adc0 = 1000, adc1 = 500: 1.2 volts.
    let mut res = Response::new(8);
    res.fill(&[0xE8, 0x03, 0, 0, 0xF4, 0x01, 0, 0]);
    let mv = voltage_millivolts(&mut res);
    assert_eq!(mv, 1200);
    assert_eq!(mv as f32 / 1000.0, 1.2f32);
}

#[test]
fn register_reads_discard_the_status_word() {
    let mut res = Response::new(8);
    res.fill(&[0xAA, 0xBB, 0xCC, 0xDD, 0x78, 0x56, 0x34, 0x12]);
    assert_eq!(decode_reg(&mut res), 0x12345678);
}

#[test]
fn bulk_register_read_returns_every_register() {
    let mut bytes = vec![0u8; 88];
    for reg in 0..REG_COUNT {
        let value = (reg as u32) * 0x01010101;
        bytes[4 + 4 * reg..8 + 4 * reg].copy_from_slice(&value.to_le_bytes());
    }
    let mut res = Response::new(88);
    res.fill(&bytes);
    let regs = decode_regs(&mut res);
    assert_eq!(regs.len(), REG_COUNT);
    for (reg, value) in regs.iter().enumerate() {
        assert_eq!(*value, (reg as u32) * 0x01010101);
    }
}

#[test]
fn status_check_reports_the_preceding_write() {
    let mut res = Response::new(2);
    res.fill(&[0x80, 0x00]);
    assert_eq!(decode_rw_status(&mut res), Ok(()));

    let mut res = Response::new(2);
    res.fill(&[0x81, 0x00]);
    assert_eq!(decode_rw_status(&mut res), Err(Error::Status));

    let mut res = Response::new(2);
    res.fill(&[0x10, 0x00]);
    assert_eq!(decode_rw_status(&mut res), Err(Error::Status));
}

#[test]
fn single_byte_reads_use_only_the_first_byte() {
    assert_eq!(read_mem8_response_len(1), 2);
    assert_eq!(read_mem8_response_len(2), 2);
    assert_eq!(read_mem8_response_len(64), 64);

    let mut res = Response::new(2);
    res.fill(&[0xAB, 0xCD]);
    let data = decode_mem8(&mut res, 1);
    assert_eq!(data, vec![0xAB]);

    let mut res = Response::new(4);
    res.fill(&[0x01, 0x02, 0x03, 0x04]);
    let data = decode_mem8(&mut res, 4);
    assert_eq!(data, vec![0x01, 0x02, 0x03, 0x04]);
}

#[test]
fn trace_count_decodes_and_clamps() {
    let mut res = Response::new(2);
    res.fill(&[0x34, 0x12]);
    assert_eq!(decode_trace_bytes_available(&mut res), 0x1234);

    assert_eq!(trace_read_len(1024, 100), 100);
    assert_eq!(trace_read_len(64, 100), 64);
    assert_eq!(trace_read_len(64, 0), 0);
}

#[test]
fn word_packing_round_trips() {
    let words = vec![0x12345678, 0xDEADBEEF, 0x00000001];
    let bytes = words_to_bytes(&words);
    assert_eq!(
        bytes,
        vec![0x78, 0x56, 0x34, 0x12, 0xEF, 0xBE, 0xAD, 0xDE, 0x01, 0x00, 0x00, 0x00]
    );
    assert_eq!(bytes_to_words(&bytes), words);
}

#[test]
fn byte_ranges_decompose_one_address_per_byte() {
    assert_eq!(byte_addresses(0x2000_0000, 0), Vec::<u32>::new());
    assert_eq!(
        byte_addresses(0x2000_0000, 3),
        vec![0x2000_0000, 0x2000_0001, 0x2000_0002]
    );
}

#[test]
fn configuration_is_set_only_when_needed() {
    assert!(!needs_set_configuration(1, false));
    assert!(needs_set_configuration(1, true));
    assert!(needs_set_configuration(2, false));
}
