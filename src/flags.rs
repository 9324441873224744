use vstd::prelude::*;

verus! {

/// The four condition flags of the processor.
#[derive(Clone, Copy, PartialEq, Eq, Structural, Debug)]
pub struct Flags {
    pub z: bool,
    pub n: bool,
    pub h: bool,
    pub c: bool,
}

/// 1 for a set flag, 0 for a clear one.
pub open spec fn bit_of(b: bool) -> u8 {
    if b {
        1
    } else {
        0
    }
}

impl Flags {
    /// The byte that holds these flags: Zero in bit 7, Subtract in bit 6,
    /// Half-carry in bit 5, Carry in bit 4; bits 0 to 3 are zero.
    pub open spec fn byte_spec(self) -> u8 {
        (128 * bit_of(self.z) + 64 * bit_of(self.n) + 32 * bit_of(self.h) + 16 * bit_of(
            self.c,
        )) as u8
    }

    /// The flags that a byte holds in bits 7 to 4; bits 0 to 3 are ignored.
    pub open spec fn from_byte_spec(v: u8) -> Flags {
        Flags { z: v & 0x80 != 0, n: v & 0x40 != 0, h: v & 0x20 != 0, c: v & 0x10 != 0 }
    }

    pub fn clear() -> (r: Flags)
        ensures
            r == (Flags { z: false, n: false, h: false, c: false }),
    {
        Flags { z: false, n: false, h: false, c: false }
    }

    pub fn to_byte(self) -> (r: u8)
        ensures
            r == self.byte_spec(),
    {
        let mut r: u8 = 0;
        if self.z {
            r = r + 128;
        }
        if self.n {
            r = r + 64;
        }
        if self.h {
            r = r + 32;
        }
        if self.c {
            r = r + 16;
        }
        r
    }

    pub fn from_byte(v: u8) -> (r: Flags)
        ensures
            r == Flags::from_byte_spec(v),
    {
        Flags { z: v & 0x80 != 0, n: v & 0x40 != 0, h: v & 0x20 != 0, c: v & 0x10 != 0 }
    }
}

/// Packing flags into a byte and reading them back gives the same flags.
pub proof fn lemma_flags_round_trip(f: Flags)
    ensures
        Flags::from_byte_spec(f.byte_spec()) == f,
{
    let (z, n, h, c) = (bit_of(f.z), bit_of(f.n), bit_of(f.h), bit_of(f.c));
    let v = f.byte_spec();
    assert(v == (128 * z + 64 * n + 32 * h + 16 * c) as u8);
    assert(z <= 1 && n <= 1 && h <= 1 && c <= 1 && v == (128 * z + 64 * n + 32 * h + 16 * c) as u8
        ==> (v & 0x80 != 0) == (z == 1) && (v & 0x40 != 0) == (n == 1) && (v & 0x20 != 0) == (h
        == 1) && (v & 0x10 != 0) == (c == 1)) by (bit_vector);
}

/// Reading the flags out of a byte and packing them again keeps bits 7 to 4
/// and clears bits 3 to 0.
pub proof fn lemma_flags_byte_masks_low_bits(v: u8)
    ensures
        Flags::from_byte_spec(v).byte_spec() == v & 0xf0,
{
    let f = Flags::from_byte_spec(v);
    let (z, n, h, c) = (bit_of(f.z), bit_of(f.n), bit_of(f.h), bit_of(f.c));
    assert(z == (if v & 0x80 != 0 { 1u8 } else { 0u8 }));
    assert(n == (if v & 0x40 != 0 { 1u8 } else { 0u8 }));
    assert(h == (if v & 0x20 != 0 { 1u8 } else { 0u8 }));
    assert(c == (if v & 0x10 != 0 { 1u8 } else { 0u8 }));
    assert(z == (if v & 0x80 != 0 { 1u8 } else { 0u8 }) && n == (if v & 0x40 != 0 { 1u8 } else { 0u8 })
        && h == (if v & 0x20 != 0 { 1u8 } else { 0u8 }) && c == (if v & 0x10 != 0 { 1u8 } else { 0u8 })
        ==> (128 * z + 64 * n + 32 * h + 16 * c) as u8 == v & 0xf0) by (bit_vector);
}

} // verus!
