//! The processor status register `P`, kept as one boolean per bit.
//!
//! Bit layout of the packed byte: `N V U B D I Z C` (bit 7 down to bit 0).

use vstd::prelude::*;

verus! {

/// Processor status flags.
///
/// The booleans are the source of truth; [`StatusFlags::to_byte`] and
/// [`StatusFlags::from_byte`] convert to and from the packed status byte.
#[derive(Clone, Copy, Debug, PartialEq, Eq, Structural)]
pub struct StatusFlags {
    /// bit 0: carry
    pub c: bool,
    /// bit 1: zero
    pub z: bool,
    /// bit 2: interrupt disable
    pub i: bool,
    /// bit 3: decimal mode
    pub d: bool,
    /// bit 4: break
    pub b: bool,
    /// bit 5: unused
    pub unused: bool,
    /// bit 6: overflow
    pub v: bool,
    /// bit 7: negative
    pub n: bool,
}

/// 1 for a set flag, 0 for a clear one.
pub open spec fn bit_value(b: bool) -> int {
    if b { 1 } else { 0 }
}

/// The status byte whose bit `k` holds the `k`-th flag.
pub open spec fn pack_flags(f: StatusFlags) -> u8 {
    (bit_value(f.c) + 2 * bit_value(f.z) + 4 * bit_value(f.i) + 8 * bit_value(f.d) + 16
        * bit_value(f.b) + 32 * bit_value(f.unused) + 64 * bit_value(f.v) + 128 * bit_value(
        f.n,
    )) as u8
}

/// The flags read off the bits of a status byte.
pub open spec fn unpack_flags(byte: u8) -> StatusFlags {
    StatusFlags {
        c: byte % 2 == 1,
        z: (byte / 2) % 2 == 1,
        i: (byte / 4) % 2 == 1,
        d: (byte / 8) % 2 == 1,
        b: (byte / 16) % 2 == 1,
        unused: (byte / 32) % 2 == 1,
        v: (byte / 64) % 2 == 1,
        n: (byte / 128) % 2 == 1,
    }
}

/// All flags clear: the state after a reset.
pub open spec fn cleared_flags() -> StatusFlags {
    StatusFlags {
        c: false,
        z: false,
        i: false,
        d: false,
        b: false,
        unused: false,
        v: false,
        n: false,
    }
}

impl StatusFlags {
    /// Pack the flags into the processor status byte.
    pub fn to_byte(self) -> (byte: u8)
        ensures
            byte == pack_flags(self),
    {
        let c = self.c as u8;
        let z = self.z as u8;
        let i = self.i as u8;
        let d = self.d as u8;
        let b = self.b as u8;
        let u = self.unused as u8;
        let v = self.v as u8;
        let n = self.n as u8;
        let byte = c | (z << 1) | (i << 2) | (d << 3) | (b << 4) | (u << 5) | (v << 6) | (n << 7);
        assert(byte == c + 2 * z + 4 * i + 8 * d + 16 * b + 32 * u + 64 * v + 128 * n)
            by (bit_vector)
            requires
                c <= 1,
                z <= 1,
                i <= 1,
                d <= 1,
                b <= 1,
                u <= 1,
                v <= 1,
                n <= 1,
                byte == c | (z << 1) | (i << 2) | (d << 3) | (b << 4) | (u << 5) | (v << 6) | (n
                    << 7),
        ;
        byte
    }

    /// Unpack a processor status byte into the flags.
    pub fn from_byte(byte: u8) -> (f: Self)
        ensures
            f == unpack_flags(byte),
    {
        proof {
            lemma_byte_bits(byte);
        }
        StatusFlags {
            c: byte & 0b0000_0001 != 0,
            z: byte & 0b0000_0010 != 0,
            i: byte & 0b0000_0100 != 0,
            d: byte & 0b0000_1000 != 0,
            b: byte & 0b0001_0000 != 0,
            unused: byte & 0b0010_0000 != 0,
            v: byte & 0b0100_0000 != 0,
            n: byte & 0b1000_0000 != 0,
        }
    }

    /// All flags clear.
    pub(crate) fn cleared() -> (f: Self)
        ensures
            f == cleared_flags(),
    {
        StatusFlags {
            c: false,
            z: false,
            i: false,
            d: false,
            b: false,
            unused: false,
            v: false,
            n: false,
        }
    }
}

impl Default for StatusFlags {
    fn default() -> (f: Self)
        ensures
            f == cleared_flags(),
    {
        StatusFlags::cleared()
    }
}

/// Testing a single bit with a mask agrees with the arithmetic reading of the bit.
proof fn lemma_byte_bits(byte: u8)
    by (bit_vector)
    ensures
        (byte & 0b0000_0001 != 0) == (byte % 2 == 1),
        (byte & 0b0000_0010 != 0) == ((byte / 2) % 2 == 1),
        (byte & 0b0000_0100 != 0) == ((byte / 4) % 2 == 1),
        (byte & 0b0000_1000 != 0) == ((byte / 8) % 2 == 1),
        (byte & 0b0001_0000 != 0) == ((byte / 16) % 2 == 1),
        (byte & 0b0010_0000 != 0) == ((byte / 32) % 2 == 1),
        (byte & 0b0100_0000 != 0) == ((byte / 64) % 2 == 1),
        (byte & 0b1000_0000 != 0) == ((byte / 128) % 2 == 1),
{
}

} // verus!
