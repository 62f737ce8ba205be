use vstd::prelude::*;
use vstd::bytes::spec_u16_from_le_bytes;
use vstd::bytes::u16_from_le_bytes;
use vstd::slice::slice_subrange;

verus! {

/// The probe's immutable 6-byte version record: a bit-packed version word in
/// the first two bytes, then the USB vendor and product ids, all
/// little-endian.
pub struct Version(pub [u8; 6]);

impl Version {
    /// The packed 16-bit version word.
    pub open spec fn spec_version(&self) -> u16 {
        spec_u16_from_le_bytes(self.0@.subrange(0, 2))
    }

    pub fn version(&self) -> (r: u16)
        ensures
            r == self.spec_version(),
    {
        u16_from_le_bytes(slice_subrange(self.0.as_slice(), 0, 2))
    }

    /// The ST-Link sub-version: the high nibble of the version word.
    pub fn stlink(&self) -> (r: u8)
        ensures
            r == (self.spec_version() >> 12) & 0x0f,
    {
        let v = self.version();
        proof {
            assert((v >> 12) & 0x0f < 256) by (bit_vector);
        }
        ((v >> 12) & 0x0f) as u8
    }

    /// The JTAG version: the middle six bits of the version word.
    pub fn jtag(&self) -> (r: u8)
        ensures
            r == (self.spec_version() >> 6) & 0x3f,
    {
        let v = self.version();
        proof {
            assert((v >> 6) & 0x3f < 256) by (bit_vector);
        }
        ((v >> 6) & 0x3f) as u8
    }

    /// The SWIM version: the low six bits of the version word.
    pub fn swim(&self) -> (r: u8)
        ensures
            r == self.spec_version() & 0x3f,
    {
        let v = self.version();
        proof {
            assert(v & 0x3f < 256) by (bit_vector);
        }
        (v & 0x3f) as u8
    }

    /// The USB vendor id, from bytes 2 and 3.
    pub fn vid(&self) -> (r: u16)
        ensures
            r == spec_u16_from_le_bytes(self.0@.subrange(2, 4)),
    {
        u16_from_le_bytes(slice_subrange(self.0.as_slice(), 2, 4))
    }

    /// The USB product id, from bytes 4 and 5.
    pub fn pid(&self) -> (r: u16)
        ensures
            r == spec_u16_from_le_bytes(self.0@.subrange(4, 6)),
    {
        u16_from_le_bytes(slice_subrange(self.0.as_slice(), 4, 6))
    }
}

/// Build the version record from the 6 raw bytes the probe returned.
pub fn decode_version(bytes: &[u8]) -> (r: Version)
    requires
        bytes@.len() == 6,
    ensures
        r.0@ == bytes@,
{
    let r = Version([bytes[0], bytes[1], bytes[2], bytes[3], bytes[4], bytes[5]]);
    proof {
        assert(r.0@ =~= bytes@);
    }
    r
}

} // verus!
