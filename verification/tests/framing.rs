use bobbin::framing::{Operand, Request, Response, WIRE_LEN};

#[test]
fn wire_is_zero_padded_prefix() {
    let req = Request::new(&[0xF2, 0x07]);
    let wire = req.as_wire();
    assert_eq!(wire.len(), WIRE_LEN);
    assert_eq!(wire[0], 0xF2);
    assert_eq!(wire[1], 0x07);
    for i in 2..WIRE_LEN {
        assert_eq!(wire[i], 0x00);
    }
}

#[test]
fn wire_truncates_past_the_prefix() {
    let mut bytes = Vec::new();
    for i in 0..20u8 {
        bytes.push(i + 1);
    }
    let req = Request::new(&bytes);
    let wire = req.as_wire();
    assert_eq!(wire.len(), WIRE_LEN);
    for i in 0..WIRE_LEN {
        assert_eq!(wire[i], (i + 1) as u8);
    }
}

#[test]
fn writes_are_little_endian() {
    let req = Request::new(&[]).write_u16(0x1234).write_u32(0xDEADBEEF);
    let wire = req.as_wire();
    assert_eq!(&wire[..6], &[0x34, 0x12, 0xEF, 0xBE, 0xAD, 0xDE]);
}

#[test]
fn response_reads_consume_left_to_right() {
    let mut res = Response::new(8);
    res.fill(&[0x01, 0x34, 0x12, 0x78, 0x56, 0x34, 0x12, 0xFF]);
    assert_eq!(res.len(), 8);
    assert_eq!(res.read_u8(), 0x01);
    assert_eq!(res.read_u16(), 0x1234);
    assert_eq!(res.read_u32(), 0x12345678);
    assert_eq!(res.len(), 1);
    res.skip(1);
    assert_eq!(res.len(), 0);
}

#[test]
fn encode_then_decode_reproduces_operands() {
    let req = Request::new(&[0xF2])
        .write_u8(0x33)
        .write_u16(0x1234)
        .write_u32(0xCAFEBABE);
    let wire = req.as_wire();
    let mut res = Response::new(WIRE_LEN);
    res.fill(&wire);
    assert_eq!(res.read_u8(), 0xF2);
    assert_eq!(res.read_u8(), 0x33);
    assert_eq!(res.read_u16(), 0x1234);
    assert_eq!(res.read_u32(), 0xCAFEBABE);
}

#[test]
fn boundary_values_round_trip() {
    let req = Request::new(&[])
        .write_u16(0x0000)
        .write_u16(0xFFFF)
        .write_u32(0x00000000)
        .write_u32(0xFFFFFFFF);
    let wire = req.as_wire();
    let mut res = Response::new(WIRE_LEN);
    res.fill(&wire);
    assert_eq!(res.read_u16(), 0x0000);
    assert_eq!(res.read_u16(), 0xFFFF);
    assert_eq!(res.read_u32(), 0x00000000);
    assert_eq!(res.read_u32(), 0xFFFFFFFF);
}

#[test]
fn operands_round_trip_through_the_frame() {
    let ops = [
        Operand::Byte(0xF2),
        Operand::Half(0xBEEF),
        Operand::Word(0x01020304),
        Operand::Byte(0x00),
    ];
    let mut req = Request::new(&[]);
    for op in ops.iter() {
        req = req.write_operand(*op);
    }
    let wire = req.as_wire();
    let mut res = Response::new(WIRE_LEN);
    res.fill(&wire);
    for op in ops.iter() {
        assert_eq!(res.read_operand(*op), *op);
    }
}
