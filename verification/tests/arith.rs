use robo6502::alu::{add_binary, add_decimal_nmos, asl, lsr, rol, ror, sub_binary, sub_decimal_cmos, sub_decimal_nmos};
use robo6502::flags::Flags;
use robo6502::mi::{add_addr, add_signed, from_bytes, hi, inc_addr, lo, stack, zp, AddrExt, AddrMath};
use robo6502::model::{dec8, inc8, sub8};

/// The number a BCD byte holds.
fn bcd(b: u8) -> u32 {
    (b >> 4) as u32 * 10 + (b & 0x0f) as u32
}

/// The BCD byte of `n < 100`.
fn to_bcd(n: u32) -> u8 {
    ((n / 10) * 16 + n % 10) as u8
}

#[test]
fn binary_add_and_subtract() {
    let s = add_binary(0x50, 0x50, false);
    assert_eq!((s.res, s.c, s.v), (0xa0, false, true));
    let s = add_binary(0xff, 0x01, false);
    assert_eq!((s.res, s.c, s.v, s.nz), (0x00, true, false, 0x00));
    let s = sub_binary(0x50, 0xb0, true);
    assert_eq!((s.res, s.c, s.v), (0xa0, false, true));
    let s = sub_binary(0x05, 0x03, false);
    assert_eq!((s.res, s.c), (0x01, true));
}

#[test]
fn subtract_is_add_of_complement() {
    for a in 0..=255u8 {
        for b in [0u8, 1, 0x7f, 0x80, 0xc3, 0xff] {
            for c in [false, true] {
                assert!(sub_binary(a, b, c) == add_binary(a, !b, c));
            }
        }
    }
}

#[test]
fn decimal_formulas() {
    let s = add_decimal_nmos(0x45, 0x38, false);
    assert_eq!((s.res, s.c), (0x83, false));
    let s = add_decimal_nmos(0x99, 0x01, false);
    assert_eq!((s.res, s.c), (0x00, true));
    // The NMOS part takes Z from the binary sum: 0x99 + 0x01 is not zero.
    assert_ne!(s.nz, 0);
    let s = sub_decimal_nmos(0x50, 0x01, true);
    assert_eq!((s.res, s.c), (0x49, true));
    let s = sub_decimal_cmos(0x00, 0x01, true);
    assert_eq!((s.res, s.c, s.nz), (0x99, false, 0x99));
}

#[test]
fn decimal_arithmetic_on_bcd() {
    for a in 0..100u32 {
        for b in 0..100u32 {
            for c in [false, true] {
                let ci = c as u32;
                let s = add_decimal_nmos(to_bcd(a), to_bcd(b), c);
                assert_eq!(bcd(s.res), (a + b + ci) % 100);
                assert_eq!(s.c, a + b + ci >= 100);
                let d = sub_decimal_nmos(to_bcd(a), to_bcd(b), c);
                let diff = a as i32 - b as i32 - (1 - ci as i32);
                assert_eq!(bcd(d.res) as i32, diff.rem_euclid(100));
                assert_eq!(d.c, diff >= 0);
                assert_eq!(sub_decimal_cmos(to_bcd(a), to_bcd(b), c).res, d.res);
            }
        }
    }
}

#[test]
fn shifts_and_rotates() {
    assert_eq!(asl(0x81), (0x02, true));
    assert_eq!(lsr(0x81), (0x40, true));
    assert_eq!(rol(0x80, true), (0x01, true));
    assert_eq!(ror(0x01, true), (0x80, true));
    assert_eq!(ror(0x02, false), (0x01, false));
}

#[test]
fn wrapping_bytes() {
    assert_eq!(inc8(0xff), 0x00);
    assert_eq!(dec8(0x00), 0xff);
    assert_eq!(sub8(0x03, 0x05), 0xfe);
}

#[test]
fn addresses_from_bytes() {
    assert_eq!(from_bytes(0x34, 0x12), 0x1234);
    assert_eq!(hi(0x1234), 0x12);
    assert_eq!(lo(0x1234), 0x34);
    assert_eq!(zp(0x80), 0x0080);
    assert_eq!(stack(0xfd), 0x01fd);
    assert_eq!(inc_addr(0xffff), 0x0000);
    assert_eq!(add_addr(0xfff0, 0x20), 0x0010);
    assert_eq!(add_signed(0x0300, -2), 0x02fe);
    assert_eq!(add_signed(0xffff, 1), 0x0000);
    assert_eq!(<u16 as AddrExt>::from_bytes(0xcd, 0xab), 0xabcd);
    assert_eq!(<u16 as AddrExt>::stack(0x10), 0x0110);
    assert_eq!(<u16 as AddrExt>::zp(0x10), 0x0010);
    assert_eq!(AddrExt::hi(0xabcdu16), 0xab);
    assert_eq!(AddrExt::lo(0xabcdu16), 0xcd);
    for a in [0x0000u16, 0x12ff, 0xabcd, 0xffff] {
        assert_eq!(from_bytes(lo(a), hi(a)), a);
    }
}

#[test]
fn page_arithmetic() {
    assert!(0x12f0u16.check_carry(0x20u8));
    assert!(!0x12f0u16.check_carry(0x0fu8));
    assert_eq!(0x12f0u16.no_carry(0x20u8), 0x1210);
    assert_eq!(0x12f0u16.no_carry(0x0fu8), 0x12ff);
    assert!(0x1200u16.check_carry(-1i8));
    assert_eq!(0x1200u16.no_carry(-1i8), 0x12ff);
    assert_eq!(0x12ffu16.no_carry(1u16), 0x1200);
    assert!(0x12ffu16.check_carry(1u16));
}

#[test]
fn status_byte() {
    let mut f = Flags::new();
    assert_eq!(f.to_byte(), 0x30);
    f.set_c(true);
    assert!(f.c());
    assert_eq!(f.to_byte(), 0x31);
    f.nz(0x80);
    assert_eq!(f.to_byte(), 0xb1);
    f.nz(0);
    assert_eq!(f.to_byte(), 0x33);
    for b in 0..=255u8 {
        let mut g = Flags::new();
        g.from_byte(b);
        assert_eq!(g.to_byte(), b | 0x30);
        let mut h = Flags::new();
        h.from_byte(b & 0xef);
        assert!(g == h);
    }
}
