//! 16-bit address arithmetic as the 6502 address bus sees it.
//!
//! Addresses wrap at 64K, and the low byte of an indexed address is
//! computed before the carry into the high byte ("page") is known.

use vstd::prelude::*;

verus! {

/// The address formed by a low and a high byte.
pub open spec fn word(lo: u8, hi: u8) -> u16 {
    (hi as int * 256 + lo as int) as u16
}

/// The low byte of an address.
pub open spec fn lo_of(a: u16) -> u8 {
    (a % 256) as u8
}

/// The high byte ("page") of an address.
pub open spec fn hi_of(a: u16) -> u8 {
    (a / 256) as u8
}

/// `a + off`, wrapping at 64K.
pub open spec fn offset(a: u16, off: int) -> u16 {
    ((a + off) % 0x10000) as u16
}

/// `a + off` with the carry out of the low byte dropped: the address stays
/// in the page of `a`.
pub open spec fn in_page(a: u16, off: int) -> u16 {
    (hi_of(a) as int * 256 + (lo_of(a) + off) % 256) as u16
}

/// Whether adding `off` to the low byte of `a` leaves the page of `a`.
pub open spec fn crosses(a: u16, off: int) -> bool {
    !(0 <= lo_of(a) + off < 256)
}

/// Builds an address from its low and high byte.
pub fn from_bytes(lo: u8, hi: u8) -> (r: u16)
    ensures
        r == word(lo, hi),
{
    assert(((hi as u16) << 8u16) | (lo as u16) == (hi as u16) * 256 + (lo as u16)) by (bit_vector);
    ((hi as u16) << 8u16) | (lo as u16)
}

/// The high byte of an address.
pub fn hi(a: u16) -> (r: u8)
    ensures
        r == hi_of(a),
{
    assert((a >> 8u16) == a / 256) by (bit_vector);
    (a >> 8u16) as u8
}

/// The low byte of an address.
pub fn lo(a: u16) -> (r: u8)
    ensures
        r == lo_of(a),
{
    assert(a as u8 == a % 256) by (bit_vector);
    a as u8
}

/// The zero-page address with the given low byte.
pub fn zp(lo: u8) -> (r: u16)
    ensures
        r == lo as u16,
{
    lo as u16
}

/// The stack-page address with the given low byte.
pub fn stack(lo: u8) -> (r: u16)
    ensures
        r == 0x100 + lo as u16,
{
    assert((lo as u16) | 0x100u16 == 0x100 + lo as u16) by (bit_vector);
    (lo as u16) | 0x100
}

/// The next address, wrapping at 64K.
pub fn inc_addr(a: u16) -> (r: u16)
    ensures
        r == offset(a, 1),
{
    a.wrapping_add(1)
}

/// `a + off`, wrapping at 64K.
pub fn add_addr(a: u16, off: u8) -> (r: u16)
    ensures
        r == offset(a, off as int),
{
    a.wrapping_add(off as u16)
}

/// Two offsets in a row add up.
pub proof fn lemma_offset_add(a: u16, x: int, y: int)
    ensures
        offset(offset(a, x), y) == offset(a, x + y),
{
    vstd::arithmetic::div_mod::lemma_add_mod_noop(a + x, y, 0x10000);
    vstd::arithmetic::div_mod::lemma_mod_twice(a + x, 0x10000);
    vstd::arithmetic::div_mod::lemma_add_mod_noop((a + x) % 0x10000, y, 0x10000);
    vstd::arithmetic::div_mod::lemma_mod_mod(y, 0x10000, 1);
}

/// A byte reinterpreted as a signed offset.
pub proof fn lemma_as_signed(b: u8)
    ensures
        (b as i8) as int == (if b >= 128 { b - 256 } else { b as int }),
{
    assert(b >= 128 ==> (b as i8) as int == b as int - 256) by (bit_vector);
    assert(b < 128 ==> (b as i8) as int == b as int) by (bit_vector);
}

/// `a + off` for a signed offset, wrapping at 64K.
pub fn add_signed(a: u16, off: i8) -> (r: u16)
    ensures
        r == offset(a, off as int),
{
    let o = #[verifier::truncate] (off as u16);
    proof { lemma_sign_extend(off); }
    let r = a.wrapping_add(o);
    assert(r == offset(a, off as int)) by {
        lemma_wrap_add(a as int, off as int);
    }
    r
}

/// Adding the 64K residue of `off` is adding `off`, modulo 64K.
proof fn lemma_wrap_add(a: int, off: int)
    requires
        0 <= a < 0x10000,
        -128 <= off < 128,
    ensures
        (a + off % 0x10000) % 0x10000 == (a + off) % 0x10000,
{
    if off < 0 {
        assert(off % 0x10000 == off + 0x10000);
        vstd::arithmetic::div_mod::lemma_mod_multiples_vanish(1, a + off, 0x10000);
    }
}

/// Page arithmetic on addresses with an offset of type `T`.
pub trait AddrMath<T> {
    /// Whether adding `offset` to the low byte carries into the high byte.
    fn check_carry(self, offset: T) -> bool;

    /// Adds `offset` to the low byte only, keeping the high byte.
    fn no_carry(self, offset: T) -> Self;
}

impl AddrMath<u16> for u16 {
    fn check_carry(self, offset: u16) -> (r: bool)
        ensures
            r == ((lo_of(self) + offset) % 0x10000 > 0xff),
    {
        assert(self & 0xff == self % 256) by (bit_vector);
        (self & 0xff).wrapping_add(offset) > 0xff
    }

    fn no_carry(self, offset: u16) -> (r: u16)
        ensures
            r == in_page(self, offset as int),
    {
        let lo_byte = (self & 0xff).wrapping_add(offset) & 0xff;
        assert(self & 0xff == self % 256) by (bit_vector);
        let s = (self & 0xff).wrapping_add(offset);
        assert(s & 0xff == s % 256) by (bit_vector);
        assert((self & 0xff00) | (s & 0xff) == (self / 256) * 256 + s % 256) by (bit_vector);
        assert(((self % 256 + offset) % 0x10000) % 256 == (self % 256 + offset) % 256) by {
            vstd::arithmetic::div_mod::lemma_mod_mod((self % 256 + offset) as int, 256, 256);
        }
        self & 0xff00 | lo_byte
    }
}

impl AddrMath<u8> for u16 {
    fn check_carry(self, offset: u8) -> (r: bool)
        ensures
            r == crosses(self, offset as int),
    {
        self.check_carry(offset as u16)
    }

    fn no_carry(self, offset: u8) -> (r: u16)
        ensures
            r == in_page(self, offset as int),
    {
        self.no_carry(offset as u16)
    }
}

impl AddrMath<i8> for u16 {
    fn check_carry(self, offset: i8) -> (r: bool)
        ensures
            r == crosses(self, offset as int),
    {
        assert(self & 0xff == self % 256) by (bit_vector);
        let off = #[verifier::truncate] (offset as u16);
        proof { lemma_sign_extend(offset); }
        (self & 0xff).wrapping_add(off) > 0xff
    }

    fn no_carry(self, offset: i8) -> (r: u16)
        ensures
            r == in_page(self, offset as int),
    {
        let off = #[verifier::truncate] (offset as u16);
        proof { lemma_sign_extend(offset); }
        let s = (self & 0xff).wrapping_add(off);
        assert(self & 0xff == self % 256) by (bit_vector);
        assert(s & 0xff == s % 256) by (bit_vector);
        assert((self & 0xff00) | (s & 0xff) == (self / 256) * 256 + s % 256) by (bit_vector);
        assert(s % 256 == (self % 256 + offset) % 256) by {
            lemma_wrap_mod((self % 256) as int, offset as int);
        }
        self & 0xff00 | (s & 0xff)
    }
}

/// Building addresses from bytes, and taking them apart.
pub trait AddrExt: Sized {
    fn from_bytes(lo: u8, hi: u8) -> Self;

    /// The zero-page address with the given low byte.
    fn zp(lo: u8) -> Self;

    /// The stack-page address with the given low byte.
    fn stack(lo: u8) -> Self;

    fn hi(self) -> u8;

    fn lo(self) -> u8;
}

impl AddrExt for u16 {
    fn from_bytes(lo: u8, hi: u8) -> (r: u16)
        ensures
            r == word(lo, hi),
    {
        from_bytes(lo, hi)
    }

    fn zp(lo: u8) -> (r: u16)
        ensures
            r == lo as u16,
    {
        zp(lo)
    }

    fn stack(lo: u8) -> (r: u16)
        ensures
            r == 0x100 + lo as u16,
    {
        stack(lo)
    }

    fn hi(self) -> (r: u8)
        ensures
            r == hi_of(self),
    {
        hi(self)
    }

    fn lo(self) -> (r: u8)
        ensures
            r == lo_of(self),
    {
        lo(self)
    }
}

/// The bytes of an address put together give the address back, and the
/// bytes of a word are the bytes it was made of.
pub proof fn lemma_word_bytes(a: u16, l: u8, h: u8)
    ensures
        word(lo_of(a), hi_of(a)) == a,
        lo_of(word(l, h)) == l,
        hi_of(word(l, h)) == h,
{
}

/// Within a page, adding to the low byte is plain addition; either way
/// the page of the result is that of `a`.
pub proof fn lemma_in_page(a: u16, off: int)
    ensures
        hi_of(in_page(a, off)) == hi_of(a),
        !crosses(a, off) ==> in_page(a, off) == offset(a, off),
{
}

/// An `i8` widened to `u16` is its value modulo 64K.
proof fn lemma_sign_extend(x: i8)
    ensures
        (#[verifier::truncate] (x as u16)) as int == (x as int) % 0x10000,
{
    assert(x < 0 ==> (#[verifier::truncate] (x as u16)) as int == (x as int) + 0x10000) by (bit_vector);
    assert(x >= 0 ==> (#[verifier::truncate] (x as u16)) as int == x as int) by (bit_vector);
}

/// Reducing modulo 64K before reducing modulo 256 changes nothing.
proof fn lemma_wrap_mod(lo: int, off: int)
    requires
        0 <= lo < 256,
        -128 <= off < 128,
    ensures
        (((lo + (off % 0x10000)) % 0x10000) % 256) == (lo + off) % 256,
{
    vstd::arithmetic::div_mod::lemma_mod_mod(lo + (off % 0x10000), 0x10000, 256);
    if off < 0 {
        assert(off % 0x10000 == off + 0x10000);
        vstd::arithmetic::div_mod::lemma_mod_add_multiples_vanish(lo + off, 256);
        assert((lo + off + 0x10000) % 256 == (lo + off) % 256) by {
            vstd::arithmetic::div_mod::lemma_mod_multiples_vanish(256, lo + off, 256);
        }
    }
}

} // verus!
