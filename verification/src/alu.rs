//! Arithmetic of the 6502 family, on plain values.

use vstd::prelude::*;

verus! {

/// The outcome of an addition or subtraction: result byte, carry out,
/// signed overflow, and the value from which N and Z are set.
#[derive(Clone, Copy, PartialEq, Eq, Structural)]
pub struct Sum {
    pub res: u8,
    pub c: bool,
    pub v: bool,
    pub nz: u8,
}

/// Whether a byte is negative as a signed value.
pub open spec fn neg(b: int) -> bool {
    b % 256 >= 128
}

/// Binary addition with carry in.
pub open spec fn adc_bin(a: u8, b: u8, c: bool) -> Sum {
    let s = a + b + (if c { 1int } else { 0 });
    let res = (s % 256) as u8;
    Sum { res, c: s > 255, v: neg(a as int) == neg(b as int) && neg(res as int) != neg(a as int), nz: res }
}

/// Binary subtraction with borrow in (carry clear).
pub open spec fn sbc_bin(a: u8, b: u8, c: bool) -> Sum {
    let s = a - b - (if c { 0int } else { 1 });
    let res = (s % 256) as u8;
    Sum { res, c: s >= 0, v: neg(a as int) != neg(b as int) && neg(res as int) != neg(a as int), nz: res }
}

/// Decimal addition as the NMOS 6502 does it. N and V come from the
/// intermediate sum before the high nibble is adjusted, and Z comes from
/// the binary sum.
pub open spec fn adc_dec_nmos(a: u8, b: u8, c: bool) -> Sum {
    let lo = a % 16 + b % 16 + (if c { 1int } else { 0 });
    let lo2 = if lo >= 10 { (lo + 6) % 16 + 16 } else { lo };
    let s = (a - a % 16) + (b - b % 16) + lo2;
    let s2 = if s >= 0xa0 { s + 0x60 } else { s };
    Sum {
        res: (s2 % 256) as u8,
        c: s2 >= 0x100,
        v: neg(a as int) == neg(b as int) && neg(s) != neg(b as int),
        nz: ((if neg(s) { 0x80int } else { 0 }) + (if adc_bin(a, b, c).res == 0 { 0int } else { 1 })) as u8,
    }
}

/// Decimal subtraction as the NMOS 6502 does it. Carry, N, Z and V come
/// from the binary difference.
pub open spec fn sbc_dec_nmos(a: u8, b: u8, c: bool) -> Sum {
    let borrow = if c { 0int } else { 1 };
    let lo = a % 16 - b % 16 - borrow;
    let lo2 = if lo < 0 { (lo - 6) % 16 - 16 } else { lo };
    let d = (a - a % 16) - (b - b % 16) + lo2;
    let d2 = if d < 0 { d - 0x60 } else { d };
    let bin = sbc_bin(a, b, c);
    Sum { res: (d2 % 256) as u8, c: bin.c, v: bin.v, nz: bin.res }
}

/// Decimal addition as the 65C02 does it: as on the NMOS part, but N and Z
/// come from the result.
pub open spec fn adc_dec_cmos(a: u8, b: u8, c: bool) -> Sum {
    let s = adc_dec_nmos(a, b, c);
    Sum { nz: s.res, ..s }
}

/// Decimal subtraction as the 65C02 does it. Carry and V come from the
/// binary difference, N and Z from the result.
pub open spec fn sbc_dec_cmos(a: u8, b: u8, c: bool) -> Sum {
    let borrow = if c { 0int } else { 1 };
    let lo = a % 16 - b % 16 - borrow;
    let d = a - b - borrow;
    let d2 = if d < 0 { d - 0x60 } else { d };
    let d3 = if lo < 0 { d2 - 0x06 } else { d2 };
    let bin = sbc_bin(a, b, c);
    let res = (d3 % 256) as u8;
    Sum { res, c: bin.c, v: bin.v, nz: res }
}

/// `b` shifted left one bit, with `c` shifted in.
pub open spec fn shl(b: u8, c: bool) -> u8 {
    ((b * 2 + (if c { 1int } else { 0 })) % 256) as u8
}

/// `b` shifted right one bit, with `c` shifted in at the top.
pub open spec fn shr(b: u8, c: bool) -> u8 {
    (b / 2 + (if c { 0x80int } else { 0 })) as u8
}

proof fn lemma_shifts(b: u8)
    ensures
        (b << 1u8) == shl(b, false),
        ((b << 1u8) | 1) == shl(b, true),
        (b >> 1u8) == shr(b, false),
        ((b >> 1u8) | 0x80) == shr(b, true),
        (b >> 7u8) == (if b >= 128 { 1u8 } else { 0u8 }),
        (b & 1) == b % 2,
{
    assert((b << 1u8) == ((b as u16 * 2) % 256) as u8) by (bit_vector);
    assert(((b << 1u8) | 1) == ((b as u16 * 2 + 1) % 256) as u8) by (bit_vector);
    assert((b >> 1u8) == b / 2) by (bit_vector);
    assert(((b >> 1u8) | 0x80) == b / 2 + 0x80) by (bit_vector);
    assert((b >> 7u8) == (if b >= 128 { 1u8 } else { 0u8 })) by (bit_vector);
    assert((b & 1) == b % 2) by (bit_vector);
}

/// Shift left: result and the bit shifted out.
pub fn asl(b: u8) -> (r: (u8, bool))
    ensures
        r == (shl(b, false), b >= 128),
{
    proof { lemma_shifts(b); }
    (b << 1, b >= 128)
}

/// Shift right: result and the bit shifted out.
pub fn lsr(b: u8) -> (r: (u8, bool))
    ensures
        r == (shr(b, false), b % 2 == 1),
{
    proof { lemma_shifts(b); }
    (b >> 1, b & 1 == 1)
}

/// Rotate left through carry.
pub fn rol(b: u8, c: bool) -> (r: (u8, bool))
    ensures
        r == (shl(b, c), b >= 128),
{
    proof { lemma_shifts(b); }
    let r = if c { (b << 1) | 1 } else { b << 1 };
    (r, b >= 128)
}

/// Rotate right through carry.
pub fn ror(b: u8, c: bool) -> (r: (u8, bool))
    ensures
        r == (shr(b, c), b % 2 == 1),
{
    proof { lemma_shifts(b); }
    let r = if c { (b >> 1) | 0x80 } else { b >> 1 };
    (r, b & 1 == 1)
}

/// Binary addition.
pub fn add_binary(a: u8, b: u8, c: bool) -> (r: Sum)
    ensures
        r == adc_bin(a, b, c),
{
    let s: u16 = a as u16 + b as u16 + if c { 1 } else { 0 };
    let res = (s & 0xff) as u8;
    assert(s & 0xff == s % 256) by (bit_vector);
    let v = (a < 128) == (b < 128) && (res < 128) != (a < 128);
    Sum { res, c: s > 255, v, nz: res }
}

/// Binary subtraction.
pub fn sub_binary(a: u8, b: u8, c: bool) -> (r: Sum)
    ensures
        r == sbc_bin(a, b, c),
{
    let borrow: i16 = if c { 0 } else { 1 };
    let s: i16 = a as i16 - b as i16 - borrow;
    let res: u8 = if s < 0 { (s + 256) as u8 } else { s as u8 };
    let v = (a < 128) != (b < 128) && (res < 128) != (a < 128);
    Sum { res, c: s >= 0, v, nz: res }
}

/// Decimal addition, NMOS flavour.
#[verifier::rlimit(30)]
pub fn add_decimal_nmos(a: u8, b: u8, c: bool) -> (r: Sum)
    ensures
        r == adc_dec_nmos(a, b, c),
{
    let bin = add_binary(a, b, c);
    let mut lo: u16 = (a % 16) as u16 + (b % 16) as u16 + if c { 1 } else { 0 };
    if lo >= 10 {
        lo = (lo + 6) % 16 + 16;
    }
    let mut s: u16 = (a - a % 16) as u16 + (b - b % 16) as u16 + lo;
    let v = (a < 128) == (b < 128) && ((s % 256) < 128) != (b < 128);
    let n = s % 256 >= 128;
    let nz: u8 = (if n { 0x80u8 } else { 0u8 }) + (if bin.res == 0 { 0u8 } else { 1u8 });
    if s >= 0xa0 {
        s = s + 0x60;
    }
    Sum { res: (s % 256) as u8, c: s >= 0x100, v, nz }
}

/// Decimal subtraction, NMOS flavour.
pub fn sub_decimal_nmos(a: u8, b: u8, c: bool) -> (r: Sum)
    ensures
        r == sbc_dec_nmos(a, b, c),
{
    let bin = sub_binary(a, b, c);
    let borrow: i16 = if c { 0 } else { 1 };
    let mut lo: i16 = (a % 16) as i16 - (b % 16) as i16 - borrow;
    if lo < 0 {
        let ghost l = lo as int;
        lo = ((lo + 26) % 16) - 16;
        proof { lemma_mod_shift(l - 6, 2); }
    }
    let mut d: i16 = (a - a % 16) as i16 - (b - b % 16) as i16 + lo;
    if d < 0 {
        d = d - 0x60;
    }
    let m = ((d + 512) % 256) as u8;
    proof { lemma_mod_shift(d as int, 2); }
    Sum { res: m, c: bin.c, v: bin.v, nz: bin.res }
}

/// Adding a multiple of 256 (and so of 16) does not change a residue.
proof fn lemma_mod_shift(x: int, k: int)
    requires
        0 <= k,
    ensures
        (x + 256 * k) % 256 == x % 256,
        (x + 16 * k) % 16 == x % 16,
{
    vstd::arithmetic::div_mod::lemma_mod_multiples_vanish(k, x, 256);
    vstd::arithmetic::div_mod::lemma_mod_multiples_vanish(k, x, 16);
}

/// Decimal subtraction, 65C02 flavour.
pub fn sub_decimal_cmos(a: u8, b: u8, c: bool) -> (r: Sum)
    ensures
        r == sbc_dec_cmos(a, b, c),
{
    let bin = sub_binary(a, b, c);
    let borrow: i16 = if c { 0 } else { 1 };
    let lo: i16 = (a % 16) as i16 - (b % 16) as i16 - borrow;
    let mut d: i16 = a as i16 - b as i16 - borrow;
    if d < 0 {
        d = d - 0x60;
    }
    if lo < 0 {
        d = d - 0x06;
    }
    let m = ((d + 512) % 256) as u8;
    proof { lemma_mod_shift(d as int, 2); }
    Sum { res: m, c: bin.c, v: bin.v, nz: m }
}

/// `b` holds two decimal digits.
pub open spec fn is_bcd(b: u8) -> bool {
    b % 16 < 10 && b / 16 < 10
}

/// The number that BCD byte `b` holds.
pub open spec fn bcd_value(b: u8) -> int {
    (b / 16) * 10 + b % 16
}

/// The BCD byte that holds `n`, for `0 <= n < 100`.
pub open spec fn to_bcd(n: int) -> u8 {
    ((n / 10) * 16 + n % 10) as u8
}

/// The carry into an addition as a number.
pub open spec fn carry_in(c: bool) -> int {
    if c { 1 } else { 0 }
}

/// Decimal ADC on two BCD bytes adds the numbers they hold: the result
/// holds the sum modulo 100, as a BCD byte, and carry is set when the sum
/// reaches 100. Both parts agree on this.
pub proof fn lemma_adc_decimal(a: u8, b: u8, c: bool)
    requires
        is_bcd(a),
        is_bcd(b),
    ensures
        adc_dec_nmos(a, b, c).res == to_bcd((bcd_value(a) + bcd_value(b) + carry_in(c)) % 100),
        adc_dec_nmos(a, b, c).c == (bcd_value(a) + bcd_value(b) + carry_in(c) >= 100),
        adc_dec_cmos(a, b, c).res == adc_dec_nmos(a, b, c).res,
        adc_dec_cmos(a, b, c).c == adc_dec_nmos(a, b, c).c,
{
    assert(is_bcd(a) && is_bcd(b) ==> adc_dec_nmos(a, b, c).res == to_bcd(
        (bcd_value(a) + bcd_value(b) + carry_in(c)) % 100,
    )) by (bit_vector);
    assert(is_bcd(a) && is_bcd(b) ==> adc_dec_nmos(a, b, c).c == (bcd_value(a) + bcd_value(b) + carry_in(c) >= 100))
        by (bit_vector);
}

/// Decimal SBC on two BCD bytes subtracts the numbers they hold: the
/// result holds the difference modulo 100, as a BCD byte, and carry (no
/// borrow) is set when the difference is not negative. Both parts agree
/// on this.
pub proof fn lemma_sbc_decimal(a: u8, b: u8, c: bool)
    requires
        is_bcd(a),
        is_bcd(b),
    ensures
        sbc_dec_nmos(a, b, c).res == to_bcd((bcd_value(a) - bcd_value(b) - (1 - carry_in(c))) % 100),
        sbc_dec_nmos(a, b, c).c == (bcd_value(a) - bcd_value(b) - (1 - carry_in(c)) >= 0),
        sbc_dec_cmos(a, b, c).res == sbc_dec_nmos(a, b, c).res,
        sbc_dec_cmos(a, b, c).c == sbc_dec_nmos(a, b, c).c,
{
    assert(is_bcd(a) && is_bcd(b) ==> sbc_dec_nmos(a, b, c).res == to_bcd(
        (bcd_value(a) - bcd_value(b) - (1 - carry_in(c))) % 100,
    )) by (bit_vector);
    assert(is_bcd(a) && is_bcd(b) ==> sbc_dec_nmos(a, b, c).c == (bcd_value(a) - bcd_value(b) - (1 - carry_in(c)) >= 0))
        by (bit_vector);
    assert(is_bcd(a) && is_bcd(b) ==> sbc_dec_cmos(a, b, c).res == sbc_dec_nmos(a, b, c).res) by (bit_vector);
}

/// Binary SBC is ADC of the complement of the operand: same result and
/// flags.
pub proof fn lemma_sbc_is_adc_of_complement(a: u8, b: u8, c: bool)
    ensures
        sbc_bin(a, b, c) == adc_bin(a, (255 - b) as u8, c),
{
    let s = a - b - (if c { 0int } else { 1 });
    assert((s + 256) % 256 == s % 256) by {
        vstd::arithmetic::div_mod::lemma_mod_add_multiples_vanish(s, 256);
    }
}

} // verus!
