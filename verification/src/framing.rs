use vstd::prelude::*;
use vstd::bytes::{
    spec_u16_to_le_bytes, spec_u16_from_le_bytes, spec_u32_to_le_bytes, spec_u32_from_le_bytes,
    u16_to_le_bytes, u32_to_le_bytes, u16_from_le_bytes, u32_from_le_bytes,
    lemma_auto_spec_u16_to_from_le_bytes, lemma_auto_spec_u32_to_from_le_bytes,
};
use vstd::slice::{slice_subrange, slice_to_vec};

verus! {

/// Capacity of the request build buffer.
pub const REQUEST_CAPACITY: usize = 64;
/// Number of bytes of a request actually placed on the wire: a fixed-size
/// prefix of the build buffer, zero-padded when fewer bytes were written.
pub const WIRE_LEN: usize = 16;
/// Capacity of the response buffer.
pub const RESPONSE_CAPACITY: usize = 128;

/// A bounded command buffer with an append cursor, built by chaining
/// little-endian writes. Its view is the sequence of bytes written so far.
pub struct Request {
    buf: Vec<u8>,
    len: usize,
}

impl View for Request {
    type V = Seq<u8>;

    closed spec fn view(&self) -> Seq<u8> {
        self.buf@.take(self.len as int)
    }
}

/// The exact bytes a request puts on the wire: the first `WIRE_LEN` bytes
/// written, zero-padded when fewer were written.
pub open spec fn spec_wire(s: Seq<u8>) -> Seq<u8> {
    if s.len() >= WIRE_LEN {
        s.take(WIRE_LEN as int)
    } else {
        s + Seq::new((WIRE_LEN - s.len()) as nat, |i: int| 0u8)
    }
}

impl Request {
    /// Every byte past the append cursor is still zero, so the wire prefix
    /// is the written bytes padded with zeros.
    pub closed spec fn wf(&self) -> bool {
        &&& self.buf@.len() == REQUEST_CAPACITY
        &&& self.len <= REQUEST_CAPACITY
        &&& forall|i: int| self.len <= i < REQUEST_CAPACITY ==> self.buf@[i] == 0u8
    }

    /// Start a request from an initial opcode byte sequence.
    pub fn new(opcode: &[u8]) -> (r: Request)
        requires
            opcode@.len() <= REQUEST_CAPACITY,
        ensures
            r.wf(),
            r@ == opcode@,
    {
        let n = opcode.len();
        let mut buf: Vec<u8> = Vec::new();
        let mut i: usize = 0;
        while i < n
            invariant
                n == opcode@.len(),
                i <= n,
                buf@ == opcode@.take(i as int),
            decreases n - i,
        {
            buf.push(opcode[i]);
            i = i + 1;
            proof {
                assert(buf@ =~= opcode@.take(i as int));
            }
        }
        proof {
            assert(buf@ =~= opcode@);
        }
        while buf.len() < REQUEST_CAPACITY
            invariant
                n <= buf@.len() <= REQUEST_CAPACITY,
                buf@.take(n as int) == opcode@,
                forall|j: int| n <= j < buf@.len() ==> buf@[j] == 0u8,
            decreases REQUEST_CAPACITY - buf@.len(),
        {
            buf.push(0);
            proof {
                assert(buf@.take(n as int) =~= opcode@);
            }
        }
        let r = Request { buf, len: n };
        proof {
            assert(r@ =~= opcode@);
        }
        r
    }

    /// Append one byte, advancing the cursor.
    pub fn write_u8(self, value: u8) -> (r: Request)
        requires
            self.wf(),
            self@.len() + 1 <= REQUEST_CAPACITY,
        ensures
            r.wf(),
            r@ == self@ + seq![value],
    {
        let mut r = self;
        r.buf.set(r.len, value);
        r.len = r.len + 1;
        proof {
            assert(r@ =~= self@ + seq![value]);
        }
        r
    }

    /// Append a 16-bit value in little-endian order.
    pub fn write_u16(self, value: u16) -> (r: Request)
        requires
            self.wf(),
            self@.len() + 2 <= REQUEST_CAPACITY,
        ensures
            r.wf(),
            r@ == self@ + spec_u16_to_le_bytes(value),
    {
        proof {
            lemma_auto_spec_u16_to_from_le_bytes();
        }
        let bytes = u16_to_le_bytes(value);
        let r = self.write_u8(bytes[0]).write_u8(bytes[1]);
        proof {
            assert(r@ =~= self@ + spec_u16_to_le_bytes(value));
        }
        r
    }

    /// Append a 32-bit value in little-endian order.
    pub fn write_u32(self, value: u32) -> (r: Request)
        requires
            self.wf(),
            self@.len() + 4 <= REQUEST_CAPACITY,
        ensures
            r.wf(),
            r@ == self@ + spec_u32_to_le_bytes(value),
    {
        proof {
            lemma_auto_spec_u32_to_from_le_bytes();
        }
        let bytes = u32_to_le_bytes(value);
        let r = self.write_u8(bytes[0]).write_u8(bytes[1]).write_u8(bytes[2]).write_u8(bytes[3]);
        proof {
            assert(r@ =~= self@ + spec_u32_to_le_bytes(value));
        }
        r
    }

    /// The transmitted prefix: exactly `WIRE_LEN` bytes, zero-padded.
    pub fn as_wire(&self) -> (r: Vec<u8>)
        requires
            self.wf(),
        ensures
            r@.len() == WIRE_LEN,
            r@ == spec_wire(self@),
    {
        let r = slice_to_vec(slice_subrange(self.buf.as_slice(), 0, WIRE_LEN));
        proof {
            assert(r@ =~= spec_wire(self@));
        }
        r
    }
}

/// A bounded response buffer with a read cursor; sequential reads consume
/// bytes left to right. `data` is the declared response contents, `cursor`
/// the number of bytes consumed so far.
pub struct Response {
    buf: Vec<u8>,
    cap: usize,
    pos: usize,
}

impl Response {
    /// The declared response contents.
    pub closed spec fn data(&self) -> Seq<u8> {
        self.buf@.take(self.cap as int)
    }

    /// How many bytes have been consumed.
    pub closed spec fn cursor(&self) -> int {
        self.pos as int
    }

    pub closed spec fn wf(&self) -> bool {
        &&& self.buf@.len() == RESPONSE_CAPACITY
        &&& self.pos <= self.cap <= RESPONSE_CAPACITY
    }

    /// An empty response expecting `cap` bytes.
    pub fn new(cap: usize) -> (r: Response)
        requires
            cap <= RESPONSE_CAPACITY,
        ensures
            r.wf(),
            r.cursor() == 0,
            r.data() == Seq::new(cap as nat, |i: int| 0u8),
    {
        let mut buf: Vec<u8> = Vec::new();
        while buf.len() < RESPONSE_CAPACITY
            invariant
                buf@.len() <= RESPONSE_CAPACITY,
                forall|j: int| 0 <= j < buf@.len() ==> buf@[j] == 0u8,
            decreases RESPONSE_CAPACITY - buf@.len(),
        {
            buf.push(0);
        }
        let r = Response { buf, cap, pos: 0 };
        proof {
            assert(r.data() =~= Seq::new(cap as nat, |i: int| 0u8));
        }
        r
    }

    /// Load the received bytes, which must match the declared length.
    pub fn fill(&mut self, bytes: &[u8])
        requires
            old(self).wf(),
            bytes@.len() == old(self).data().len(),
        ensures
            final(self).wf(),
            final(self).data() == bytes@,
            final(self).cursor() == old(self).cursor(),
    {
        let n = bytes.len();
        let mut i: usize = 0;
        while i < n
            invariant
                self.wf(),
                self.cap == old(self).cap,
                self.pos == old(self).pos,
                n == bytes@.len(),
                n == self.cap,
                i <= n,
                forall|j: int| 0 <= j < i ==> self.buf@[j] == bytes@[j],
            decreases n - i,
        {
            self.buf.set(i, bytes[i]);
            i = i + 1;
        }
        proof {
            assert(self.data() =~= bytes@);
        }
    }

    /// Bytes still unread.
    pub fn len(&self) -> (r: usize)
        requires
            self.wf(),
        ensures
            r == self.data().len() - self.cursor(),
    {
        self.cap - self.pos
    }

    /// Discard `n` bytes. Reading or skipping past the declared response
    /// length is a contract violation.
    pub fn skip(&mut self, n: usize)
        requires
            old(self).wf(),
            old(self).cursor() + n <= old(self).data().len(),
        ensures
            final(self).wf(),
            final(self).data() == old(self).data(),
            final(self).cursor() == old(self).cursor() + n,
    {
        self.pos = self.pos + n;
    }

    /// Consume one byte from the front.
    pub fn read_u8(&mut self) -> (r: u8)
        requires
            old(self).wf(),
            old(self).cursor() + 1 <= old(self).data().len(),
        ensures
            final(self).wf(),
            final(self).data() == old(self).data(),
            final(self).cursor() == old(self).cursor() + 1,
            r == old(self).data()[old(self).cursor()],
    {
        let v = self.buf[self.pos];
        self.pos = self.pos + 1;
        v
    }

    /// Consume a 16-bit little-endian value.
    pub fn read_u16(&mut self) -> (r: u16)
        requires
            old(self).wf(),
            old(self).cursor() + 2 <= old(self).data().len(),
        ensures
            final(self).wf(),
            final(self).data() == old(self).data(),
            final(self).cursor() == old(self).cursor() + 2,
            r == spec_u16_from_le_bytes(
                old(self).data().subrange(old(self).cursor(), old(self).cursor() + 2),
            ),
    {
        let v = u16_from_le_bytes(slice_subrange(self.buf.as_slice(), self.pos, self.pos + 2));
        proof {
            assert(self.buf@.subrange(self.pos as int, self.pos + 2) =~= self.data().subrange(
                self.pos as int,
                self.pos + 2,
            ));
        }
        self.pos = self.pos + 2;
        v
    }

    /// Consume a 32-bit little-endian value.
    pub fn read_u32(&mut self) -> (r: u32)
        requires
            old(self).wf(),
            old(self).cursor() + 4 <= old(self).data().len(),
        ensures
            final(self).wf(),
            final(self).data() == old(self).data(),
            final(self).cursor() == old(self).cursor() + 4,
            r == spec_u32_from_le_bytes(
                old(self).data().subrange(old(self).cursor(), old(self).cursor() + 4),
            ),
    {
        let v = u32_from_le_bytes(slice_subrange(self.buf.as_slice(), self.pos, self.pos + 4));
        proof {
            assert(self.buf@.subrange(self.pos as int, self.pos + 4) =~= self.data().subrange(
                self.pos as int,
                self.pos + 4,
            ));
        }
        self.pos = self.pos + 4;
        v
    }
}

/// One operand of a command frame, as written by the chained little-endian
/// writes of `Request` and read back by the sequential reads of `Response`.
#[derive(Clone, Copy, Debug, PartialEq, Eq, Structural)]
pub enum Operand {
    Byte(u8),
    Half(u16),
    Word(u32),
}

/// The little-endian bytes of one operand.
pub open spec fn spec_operand_bytes(op: Operand) -> Seq<u8> {
    match op {
        Operand::Byte(b) => seq![b],
        Operand::Half(h) => spec_u16_to_le_bytes(h),
        Operand::Word(w) => spec_u32_to_le_bytes(w),
    }
}

/// How many bytes one operand occupies on the wire.
pub open spec fn spec_operand_width(op: Operand) -> int {
    match op {
        Operand::Byte(_) => 1,
        Operand::Half(_) => 2,
        Operand::Word(_) => 4,
    }
}

/// The frame built by writing the operands in order.
pub open spec fn spec_encode_operands(ops: Seq<Operand>) -> Seq<u8>
    decreases ops.len(),
{
    if ops.len() == 0 {
        Seq::empty()
    } else {
        spec_operand_bytes(ops[0]) + spec_encode_operands(ops.skip(1))
    }
}

/// The operands recovered by reading `bytes` from the front, taking widths
/// from `shape` (only the variant of each shape element matters).
pub open spec fn spec_decode_operands(bytes: Seq<u8>, shape: Seq<Operand>) -> Seq<Operand>
    decreases shape.len(),
{
    if shape.len() == 0 {
        Seq::empty()
    } else {
        let head = match shape[0] {
            Operand::Byte(_) => Operand::Byte(bytes[0]),
            Operand::Half(_) => Operand::Half(spec_u16_from_le_bytes(bytes.take(2))),
            Operand::Word(_) => Operand::Word(spec_u32_from_le_bytes(bytes.take(4))),
        };
        seq![head] + spec_decode_operands(bytes.skip(spec_operand_width(shape[0])), shape.skip(1))
    }
}

impl Request {
    /// Append one operand, whichever width it has.
    pub fn write_operand(self, op: Operand) -> (r: Request)
        requires
            self.wf(),
            self@.len() + spec_operand_width(op) <= REQUEST_CAPACITY,
        ensures
            r.wf(),
            r@ == self@ + spec_operand_bytes(op),
    {
        match op {
            Operand::Byte(b) => self.write_u8(b),
            Operand::Half(h) => self.write_u16(h),
            Operand::Word(w) => self.write_u32(w),
        }
    }
}

impl Response {
    /// Consume one operand of the width that `shape` selects (its value is
    /// ignored).
    pub fn read_operand(&mut self, shape: Operand) -> (r: Operand)
        requires
            old(self).wf(),
            old(self).cursor() + spec_operand_width(shape) <= old(self).data().len(),
        ensures
            final(self).wf(),
            final(self).data() == old(self).data(),
            final(self).cursor() == old(self).cursor() + spec_operand_width(shape),
            r == spec_decode_operands(
                old(self).data().skip(old(self).cursor()),
                seq![shape],
            )[0],
    {
        let r = match shape {
            Operand::Byte(_) => Operand::Byte(self.read_u8()),
            Operand::Half(_) => Operand::Half(self.read_u16()),
            Operand::Word(_) => Operand::Word(self.read_u32()),
        };
        proof {
            let rest = old(self).data().skip(old(self).cursor());
            match shape {
                Operand::Byte(_) => {
                    assert(rest[0] == old(self).data()[old(self).cursor()]);
                },
                Operand::Half(_) => {
                    assert(rest.take(2) =~= old(self).data().subrange(
                        old(self).cursor(),
                        old(self).cursor() + 2,
                    ));
                },
                Operand::Word(_) => {
                    assert(rest.take(4) =~= old(self).data().subrange(
                        old(self).cursor(),
                        old(self).cursor() + 4,
                    ));
                },
            }
        }
        r
    }
}

/// Encoding a sequence of operands and reading it back, value by value in the
/// same order and widths, reproduces the original operands exactly.
pub proof fn lemma_operand_round_trip(ops: Seq<Operand>)
    ensures
        spec_decode_operands(spec_encode_operands(ops), ops) == ops,
    decreases ops.len(),
{
    lemma_auto_spec_u16_to_from_le_bytes();
    lemma_auto_spec_u32_to_from_le_bytes();
    if ops.len() == 0 {
        assert(spec_decode_operands(spec_encode_operands(ops), ops) =~= ops);
    } else {
        let head = ops[0];
        let rest = ops.skip(1);
        let bytes = spec_encode_operands(ops);
        let w = spec_operand_width(head);
        assert(spec_operand_bytes(head).len() == w);
        assert(bytes.take(w) =~= spec_operand_bytes(head));
        assert(bytes.skip(w) =~= spec_encode_operands(rest));
        lemma_operand_round_trip(rest);
        match head {
            Operand::Byte(_) => {
                assert(bytes[0] == spec_operand_bytes(head)[0]);
            },
            Operand::Half(h) => {
                assert(spec_u16_from_le_bytes(bytes.take(2)) == h);
            },
            Operand::Word(v) => {
                assert(spec_u32_from_le_bytes(bytes.take(4)) == v);
            },
        }
        assert(spec_decode_operands(bytes, ops) =~= ops);
    }
}

} // verus!
