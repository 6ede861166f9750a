//! The processor status register.

use vstd::prelude::*;

verus! {

/// The six flags of the status register. Bits 4 and 5 of the byte form
/// are not stored: they read as set.
#[derive(Clone, Copy, PartialEq, Eq, Structural)]
pub struct Flags {
    /// Negative.
    pub n: bool,
    /// Overflow.
    pub v: bool,
    /// Decimal mode.
    pub d: bool,
    /// Interrupt disable.
    pub i: bool,
    /// Zero.
    pub z: bool,
    /// Carry.
    pub c: bool,
}

/// Bit `k` of a byte.
pub open spec fn bit(b: u8, k: u8) -> bool {
    b & (1u8 << k) != 0
}

/// The status byte that a push of `f` writes, with bit 4 (B) and bit 5
/// set.
pub open spec fn flags_byte(f: Flags) -> u8 {
    ((if f.n { 0x80u8 } else { 0 }) | (if f.v { 0x40u8 } else { 0 }) | 0x30u8 | (if f.d { 0x08u8 } else { 0 })
        | (if f.i { 0x04u8 } else { 0 }) | (if f.z { 0x02u8 } else { 0 }) | (if f.c { 0x01u8 } else { 0 })) as u8
}

/// The flags that a pull of the status byte `b` loads.
pub open spec fn flags_of_byte(b: u8) -> Flags {
    Flags { n: bit(b, 7), v: bit(b, 6), d: bit(b, 3), i: bit(b, 2), z: bit(b, 1), c: bit(b, 0) }
}

/// `f` with N and Z set from the value `val`.
pub open spec fn with_nz(f: Flags, val: u8) -> Flags {
    Flags { n: val >= 0x80, z: val == 0, ..f }
}

impl Flags {
    /// All flags clear.
    pub fn new() -> (r: Flags)
        ensures
            r == (Flags { n: false, v: false, d: false, i: false, z: false, c: false }),
    {
        Flags { n: false, v: false, d: false, i: false, z: false, c: false }
    }

    /// The carry flag.
    pub fn c(&self) -> (r: bool)
        ensures
            r == self.c,
    {
        self.c
    }

    /// Sets or clears the carry flag.
    pub fn set_c(&mut self, set: bool)
        ensures
            *final(self) == (Flags { c: set, ..*old(self) }),
    {
        self.c = set;
    }

    /// Sets N and Z from a result value.
    pub fn nz(&mut self, val: u8)
        ensures
            *final(self) == with_nz(*old(self), val),
    {
        self.n = val >= 0x80;
        self.z = val == 0;
    }

    /// The byte form of the flags, as pushed by PHP and BRK.
    pub fn to_byte(&self) -> (r: u8)
        ensures
            r == flags_byte(*self),
    {
        let n: u8 = if self.n { 0x80 } else { 0 };
        let v: u8 = if self.v { 0x40 } else { 0 };
        let d: u8 = if self.d { 0x08 } else { 0 };
        let i: u8 = if self.i { 0x04 } else { 0 };
        let z: u8 = if self.z { 0x02 } else { 0 };
        let c: u8 = if self.c { 0x01 } else { 0 };
        n | v | 0x30 | d | i | z | c
    }

    /// Loads the flags from their byte form, as PLP and RTI do.
    pub fn from_byte(&mut self, val: u8)
        ensures
            *final(self) == flags_of_byte(val),
    {
        self.n = val & 0x80 != 0;
        self.v = val & 0x40 != 0;
        self.d = val & 0x08 != 0;
        self.i = val & 0x04 != 0;
        self.z = val & 0x02 != 0;
        self.c = val & 0x01 != 0;
        assert(val & 0x80 == val & (1u8 << 7u8)) by (bit_vector);
        assert(val & 0x40 == val & (1u8 << 6u8)) by (bit_vector);
        assert(val & 0x08 == val & (1u8 << 3u8)) by (bit_vector);
        assert(val & 0x04 == val & (1u8 << 2u8)) by (bit_vector);
        assert(val & 0x02 == val & (1u8 << 1u8)) by (bit_vector);
        assert(val & 0x01 == val & (1u8 << 0u8)) by (bit_vector);
    }
}

/// Pulling a pushed status byte gives back the same flags.
pub proof fn lemma_flags_byte_roundtrip(f: Flags)
    ensures
        flags_of_byte(flags_byte(f)) == f,
{
    let b = flags_byte(f);
    let (n, v, d, i, z, c) = (f.n, f.v, f.d, f.i, f.z, f.c);
    assert(bit(b, 7) == n && bit(b, 6) == v && bit(b, 3) == d && bit(b, 2) == i && bit(b, 1) == z
        && bit(b, 0) == c) by (bit_vector)
        requires
            b == ((if n { 0x80u8 } else { 0 }) | (if v { 0x40u8 } else { 0 }) | 0x30u8 | (if d { 0x08u8 } else { 0 })
                | (if i { 0x04u8 } else { 0 }) | (if z { 0x02u8 } else { 0 }) | (if c { 0x01u8 } else { 0 })),
    ;
}

/// Loading a status byte and pushing it again gives the byte with bits 4
/// and 5 set.
pub proof fn lemma_byte_flags_roundtrip(b: u8)
    ensures
        flags_byte(flags_of_byte(b)) == b | 0x30,
{
    let f = flags_of_byte(b);
    assert(((if bit(b, 7) { 0x80u8 } else { 0 }) | (if bit(b, 6) { 0x40u8 } else { 0 }) | 0x30u8 | (if bit(b, 3) { 0x08u8 } else { 0 })
        | (if bit(b, 2) { 0x04u8 } else { 0 }) | (if bit(b, 1) { 0x02u8 } else { 0 }) | (if bit(b, 0) { 0x01u8 } else { 0 })) == b | 0x30) by (bit_vector);
}

/// Bit 4 (B) of a status byte is not loaded: clearing it, as the status
/// pushed by an interrupt has it, loads the same flags.
pub proof fn lemma_flags_ignore_b(b: u8)
    ensures
        flags_of_byte(b & 0xef) == flags_of_byte(b),
{
    assert(bit(b & 0xef, 7) == bit(b, 7) && bit(b & 0xef, 6) == bit(b, 6) && bit(b & 0xef, 3) == bit(b, 3)
        && bit(b & 0xef, 2) == bit(b, 2) && bit(b & 0xef, 1) == bit(b, 1) && bit(b & 0xef, 0) == bit(b, 0))
        by (bit_vector);
}

/// The status byte that a push writes always has bits 4 (B) and 5 set.
pub proof fn lemma_status_bits(f: Flags)
    ensures
        flags_byte(f) & 0x30 == 0x30,
        flags_byte(f) & 0x10 == 0x10,
{
    let b = flags_byte(f);
    let (n, v, d, i, z, c) = (f.n, f.v, f.d, f.i, f.z, f.c);
    assert(b & 0x30 == 0x30 && b & 0x10 == 0x10) by (bit_vector)
        requires
            b == ((if n { 0x80u8 } else { 0 }) | (if v { 0x40u8 } else { 0 }) | 0x30u8 | (if d { 0x08u8 } else { 0 })
                | (if i { 0x04u8 } else { 0 }) | (if z { 0x02u8 } else { 0 }) | (if c { 0x01u8 } else { 0 })),
    ;
}


/// Each bit of the status byte shows one flag: N bit 7, V bit 6, D bit 3,
/// I bit 2, Z bit 1, C bit 0.
pub proof fn lemma_flags_byte_bits(f: Flags)
    ensures
        (flags_byte(f) & 0x80 == 0x80) == f.n,
        (flags_byte(f) & 0x40 == 0x40) == f.v,
        (flags_byte(f) & 0x08 == 0x08) == f.d,
        (flags_byte(f) & 0x04 == 0x04) == f.i,
        (flags_byte(f) & 0x02 == 0x02) == f.z,
        (flags_byte(f) & 0x01 == 0x01) == f.c,
{
    let b = flags_byte(f);
    let (n, v, d, i, z, c) = (f.n, f.v, f.d, f.i, f.z, f.c);
    assert((b & 0x80 == 0x80) == n && (b & 0x40 == 0x40) == v && (b & 0x08 == 0x08) == d && (b & 0x04 == 0x04) == i
        && (b & 0x02 == 0x02) == z && (b & 0x01 == 0x01) == c) by (bit_vector)
        requires
            b == ((if n { 0x80u8 } else { 0 }) | (if v { 0x40u8 } else { 0 }) | 0x30u8 | (if d { 0x08u8 } else { 0 })
                | (if i { 0x04u8 } else { 0 }) | (if z { 0x02u8 } else { 0 }) | (if c { 0x01u8 } else { 0 })),
    ;
}


/// Two flag sets that agree on V, D and I give status bytes that agree on
/// bits 6, 3 and 2.
pub proof fn lemma_flags_byte_mask(f0: Flags, f1: Flags)
    ensures
        f1.v == f0.v && f1.d == f0.d && f1.i == f0.i ==> flags_byte(f1) & 0x4c == flags_byte(f0) & 0x4c,
{
    let b0 = flags_byte(f0);
    let b1 = flags_byte(f1);
    let (n0, v0, d0, i0, z0, c0) = (f0.n, f0.v, f0.d, f0.i, f0.z, f0.c);
    let (n1, v1, d1, i1, z1, c1) = (f1.n, f1.v, f1.d, f1.i, f1.z, f1.c);
    assert(v1 == v0 && d1 == d0 && i1 == i0 ==> b1 & 0x4c == b0 & 0x4c) by (bit_vector)
        requires
            b0 == ((if n0 { 0x80u8 } else { 0 }) | (if v0 { 0x40u8 } else { 0 }) | 0x30u8 | (if d0 { 0x08u8 } else { 0 })
                | (if i0 { 0x04u8 } else { 0 }) | (if z0 { 0x02u8 } else { 0 }) | (if c0 { 0x01u8 } else { 0 })),
            b1 == ((if n1 { 0x80u8 } else { 0 }) | (if v1 { 0x40u8 } else { 0 }) | 0x30u8 | (if d1 { 0x08u8 } else { 0 })
                | (if i1 { 0x04u8 } else { 0 }) | (if z1 { 0x02u8 } else { 0 }) | (if c1 { 0x01u8 } else { 0 })),
    ;
}

} // verus!
