//! The architectural model: what the CPU holds, what it does on the bus,
//! and the instruction set as data.

use vstd::prelude::*;

use crate::alu::{
    adc_bin, adc_dec_cmos, adc_dec_nmos, sbc_bin, sbc_dec_cmos, sbc_dec_nmos, shl, shr, Sum,
};
use crate::flags::{flags_byte, flags_of_byte, with_nz, Flags};
use crate::mi::{crosses, hi_of, in_page, lo_of, offset, word};
use crate::{NmiLength, Sys};
use crate::isa::{cmos_instr, nmos_instr};

verus! {

/// One thing the CPU did with the system, with what the system answered.
#[allow(inconsistent_fields)]
#[derive(Clone, Copy)]
pub enum Cycle {
    /// A read cycle; `data` is `None` when the system stopped the CPU.
    Read { addr: u16, data: Option<u8> },
    /// A write cycle; `done` is false when the system stopped the CPU.
    Write { addr: u16, data: u8, done: bool },
    /// The interrupt inputs were sampled: whether an NMI edge was reported,
    /// and the level of the IRQ input (which counts only while interrupts
    /// are enabled).
    Poll { nmi: bool, irq: bool },
    /// During an interrupt sequence, the NMI input was sampled to choose
    /// the vector.
    NmiCheck { nmi: bool },
    /// During an interrupt sequence of the NMOS part, the NMI input was
    /// looked at: its `level`, and the `length` of the pulse when it was
    /// asked for (`Plenty` otherwise). A pulse too short to be served is
    /// taken from the system and dropped: `dropped` holds what the poll of
    /// the NMI edge answered, `None` when there was no poll.
    NmiGlance { level: bool, length: NmiLength, dropped: Option<bool> },
    /// The SYNC output was set or cleared.
    Sync { on: bool },
}

/// The architectural state of the CPU.
#[derive(Clone, Copy)]
pub struct Regs {
    pub pc: u16,
    pub sp: u8,
    pub a: u8,
    pub x: u8,
    pub y: u8,
    pub p: Flags,
    /// An interrupt or reset is pending: the next instruction is replaced
    /// by the interrupt sequence.
    pub latch: bool,
    /// An NMI edge was seen and not yet served.
    pub nmi_edge: bool,
    /// A reset is pending.
    pub reset: bool,
    /// The CPU is jammed.
    pub halted: bool,
    /// Decimal mode is disabled (as on the NES).
    pub no_decimal: bool,
}

/// Whether a cycle was stopped by the system.
pub open spec fn stopped(c: Cycle) -> bool {
    match c {
        Cycle::Read { data, .. } => data is None,
        Cycle::Write { done, .. } => !done,
        _ => false,
    }
}

/// The trace `b1` extends `b0` by cycles that end with one the system
/// stopped.
pub open spec fn stopped_after(b0: Seq<Cycle>, b1: Seq<Cycle>) -> bool {
    &&& b1.len() > b0.len()
    &&& stopped(b1.last())
}

/// The cycles added to a trace since it was `old`.
pub open spec fn since(old: Seq<Cycle>, new: Seq<Cycle>) -> Seq<Cycle> {
    new.skip(old.len() as int)
}

/// The value read by cycle `k` of `t`, if it is a completed read of `addr`.
pub open spec fn rd(t: Seq<Cycle>, k: int, addr: u16) -> Option<u8> {
    if 0 <= k < t.len() {
        match t[k] {
            Cycle::Read { addr: a, data } => if a == addr { data } else { None },
            _ => None,
        }
    } else {
        None
    }
}

/// Cycle `k` of `t` is a completed write of `val` to `addr`.
pub open spec fn wr(t: Seq<Cycle>, k: int, addr: u16, val: u8) -> bool {
    0 <= k < t.len() && t[k] == (Cycle::Write { addr, data: val, done: true })
}

/// `r1` holds the registers and flags of `r0`.
pub open spec fn regs_kept(r0: Regs, r1: Regs) -> bool {
    &&& r1.pc == r0.pc
    &&& r1.sp == r0.sp
    &&& r1.a == r0.a
    &&& r1.x == r0.x
    &&& r1.y == r0.y
    &&& r1.p == r0.p
}

/// The state after sampling the interrupt inputs.
pub open spec fn after_poll(r: Regs, nmi: bool, irq: bool) -> Regs {
    let edge = r.nmi_edge || nmi;
    Regs { nmi_edge: edge, latch: edge || irq || r.reset, ..r }
}

/// The state after cycle `k` of `t`, if that cycle samples the interrupt
/// inputs in state `r` (IRQ counts only while interrupts are enabled).
pub open spec fn poll(r: Regs, t: Seq<Cycle>, k: int) -> Option<Regs> {
    if 0 <= k < t.len() {
        match t[k] {
            Cycle::Poll { nmi, irq } => Some(after_poll(r, nmi, irq && !r.p.i)),
            _ => None,
        }
    } else {
        None
    }
}

/// `a + 1`, wrapping.
pub open spec fn inc16(a: u16) -> u16 {
    offset(a, 1)
}

/// `b + d`, wrapping at 256.
pub open spec fn add8(b: u8, d: int) -> u8 {
    ((b + d) % 256) as u8
}

/// `b + 1`, wrapping.
pub fn inc8(b: u8) -> (r: u8)
    ensures
        r == add8(b, 1),
{
    b.wrapping_add(1)
}

/// `b - 1`, wrapping.
pub fn dec8(b: u8) -> (r: u8)
    ensures
        r == add8(b, -1),
{
    b.wrapping_sub(1)
}

/// `a - b`, wrapping.
pub fn sub8(a: u8, b: u8) -> (r: u8)
    ensures
        r == add8(a, -b),
{
    a.wrapping_sub(b)
}

/// The cycles added to a trace are found in the new trace past the old
/// length.
pub proof fn lemma_since(old: Seq<Cycle>, new: Seq<Cycle>)
    requires
        old.len() <= new.len(),
    ensures
        forall|k: int| 0 <= k < new.len() - old.len() ==> #[trigger] since(old, new)[k] == new[old.len() + k],
{
}

/// Two wrapping additions in a row add up.
pub proof fn lemma_add8_add(b: u8, x: int, y: int)
    ensures
        add8(add8(b, x), y) == add8(b, x + y),
{
    vstd::arithmetic::div_mod::lemma_add_mod_noop(b + x, y, 256);
    vstd::arithmetic::div_mod::lemma_mod_twice(b + x, 256);
    vstd::arithmetic::div_mod::lemma_add_mod_noop((b + x) % 256, y, 256);
    vstd::arithmetic::div_mod::lemma_mod_mod(y, 256, 1);
}

/// The stack-page address for stack pointer `sp`.
pub open spec fn stack_addr(sp: u8) -> u16 {
    (0x100 + sp) as u16
}

/// A register, as an operand.
#[derive(Clone, Copy, PartialEq, Eq, Structural)]
pub enum Reg {
    A,
    X,
    Y,
}

pub open spec fn reg(r: Regs, g: Reg) -> u8 {
    match g {
        Reg::A => r.a,
        Reg::X => r.x,
        Reg::Y => r.y,
    }
}

pub open spec fn set_reg(r: Regs, g: Reg, v: u8) -> Regs {
    match g {
        Reg::A => Regs { a: v, ..r },
        Reg::X => Regs { x: v, ..r },
        Reg::Y => Regs { y: v, ..r },
    }
}

/// Memory addressing modes. The flag of the indexed modes says that the
/// fix-up cycle happens even when the index does not cross a page.
#[derive(Clone, Copy, PartialEq, Eq, Structural)]
pub enum Mode {
    /// `$nn`
    Zp,
    /// `$nn,X`
    ZpX,
    /// `$nn,Y`
    ZpY,
    /// `$nnnn`
    Abs,
    /// `$nnnn,X`
    AbsX(bool),
    /// `$nnnn,Y`
    AbsY(bool),
    /// `($nn,X)`
    IzX,
    /// `($nn),Y`
    IzY(bool),
    /// `($nn)`
    Izp,
}

/// The program counter after the operand bytes of a mode.
pub open spec fn mode_pc(m: Mode, pc: u16) -> u16 {
    match m {
        Mode::Abs | Mode::AbsX(_) | Mode::AbsY(_) => offset(pc, 2),
        _ => inc16(pc),
    }
}

/// Zero page indexed: operand, dummy read of the base, address in page 0.
pub open spec fn ea_zpi(r: Regs, t: Seq<Cycle>, idx: u8) -> Option<(int, u16)> {
    match rd(t, 0, r.pc) {
        Some(b) => if rd(t, 1, b as u16) is Some { Some((2, in_page(b as u16, idx as int))) } else { None },
        None => None,
    }
}

/// Absolute indexed: two operand bytes, then a read of the uncorrected
/// address when the index crosses a page (or always, for `fix`).
pub open spec fn ea_abi(r: Regs, t: Seq<Cycle>, idx: u8, fix: bool) -> Option<(int, u16)> {
    match (rd(t, 0, r.pc), rd(t, 1, inc16(r.pc))) {
        (Some(lo), Some(hi)) => {
            let base = word(lo, hi);
            if fix || crosses(base, idx as int) {
                if rd(t, 2, in_page(base, idx as int)) is Some {
                    Some((3, offset(base, idx as int)))
                } else {
                    None
                }
            } else {
                Some((2, offset(base, idx as int)))
            }
        },
        _ => None,
    }
}

/// The vector at zero-page address `zp`, read at cycles `k` and `k + 1`;
/// the high byte wraps within page 0.
pub open spec fn zp_vector(t: Seq<Cycle>, k: int, zp: u16) -> Option<u16> {
    match (rd(t, k, zp), rd(t, k + 1, in_page(zp, 1))) {
        (Some(lo), Some(hi)) => Some(word(lo, hi)),
        _ => None,
    }
}

/// `b`, followed by a completed read of `addr` returning `d` when `fix`.
pub open spec fn fixup(b: Seq<Cycle>, fix: bool, addr: u16, d: u8) -> Seq<Cycle> {
    if fix { b.push(Cycle::Read { addr, data: Some(d) }) } else { b }
}

/// The cycles of absolute indexed addressing.
pub open spec fn abi_bus(b: Seq<Cycle>, pc: u16, lo: u8, hi: u8, d: u8, idx: u8, fix: bool) -> Seq<Cycle> {
    let base = word(lo, hi);
    fixup(
        b.push(Cycle::Read { addr: pc, data: Some(lo) }).push(Cycle::Read { addr: offset(pc, 1), data: Some(hi) }),
        fix || crosses(base, idx as int),
        in_page(base, idx as int),
        d,
    )
}

/// The cycles of `($nn),Y` addressing.
pub open spec fn izy_bus(b: Seq<Cycle>, pc: u16, zp: u8, lo: u8, hi: u8, d: u8, y: u8, fix: bool) -> Seq<Cycle> {
    let base = word(lo, hi);
    fixup(
        b.push(Cycle::Read { addr: pc, data: Some(zp) }).push(Cycle::Read { addr: zp as u16, data: Some(lo) }).push(
            Cycle::Read { addr: in_page(zp as u16, 1), data: Some(hi) },
        ),
        fix || crosses(base, y as int),
        in_page(base, y as int),
        d,
    )
}

/// The cycles that compute the effective address of mode `m`, if `t`
/// starts with them: how many there are, and the address.
pub open spec fn ea(m: Mode, r: Regs, t: Seq<Cycle>) -> Option<(int, u16)> {
    match m {
        Mode::Zp => match rd(t, 0, r.pc) {
            Some(b) => Some((1, b as u16)),
            None => None,
        },
        Mode::ZpX => ea_zpi(r, t, r.x),
        Mode::ZpY => ea_zpi(r, t, r.y),
        Mode::Abs => match (rd(t, 0, r.pc), rd(t, 1, inc16(r.pc))) {
            (Some(lo), Some(hi)) => Some((2, word(lo, hi))),
            _ => None,
        },
        Mode::AbsX(fix) => ea_abi(r, t, r.x, fix),
        Mode::AbsY(fix) => ea_abi(r, t, r.y, fix),
        Mode::IzX => match rd(t, 0, r.pc) {
            Some(b) => if rd(t, 1, b as u16) is Some {
                match zp_vector(t, 2, in_page(b as u16, r.x as int)) {
                    Some(a) => Some((4, a)),
                    None => None,
                }
            } else {
                None
            },
            None => None,
        },
        Mode::IzY(fix) => match rd(t, 0, r.pc) {
            Some(b) => match zp_vector(t, 1, b as u16) {
                Some(base) => if fix || crosses(base, r.y as int) {
                    if rd(t, 3, in_page(base, r.y as int)) is Some {
                        Some((4, offset(base, r.y as int)))
                    } else {
                        None
                    }
                } else {
                    Some((3, offset(base, r.y as int)))
                },
                None => None,
            },
            None => None,
        },
        Mode::Izp => match rd(t, 0, r.pc) {
            Some(b) => match zp_vector(t, 1, b as u16) {
                Some(a) => Some((3, a)),
                None => None,
            },
            None => None,
        },
    }
}

/// Operations that read a value into the CPU.
#[derive(Clone, Copy, PartialEq, Eq, Structural)]
pub enum Alu {
    Ora,
    And,
    Eor,
    Adc,
    Sbc,
    Cmp(Reg),
    Bit,
    /// `BIT #nn` (65C02): only Z is affected.
    BitImm,
    Ld(Reg),
    /// The value is read and dropped.
    Nop,
    /// `LAX`: load A and X.
    Lax,
    /// `LAS`: S, A and X take `S & value`.
    Las,
    /// `ANC #nn`: AND, then C takes N.
    Anc,
    /// `ALR #nn`: AND, then shift A right.
    Alr,
    /// `ARR #nn`: AND, then rotate A right, with odd flags.
    Arr,
    /// `XAA #nn`: A takes `X & value`.
    Xaa,
    /// `LAX #nn`: A and X take `A & value`.
    LaxImm,
    /// `AXS #nn`: X takes `(A & X) - value`.
    Axs,
}

/// Which variant of the CPU: the arithmetic and some bus cycles differ.
#[derive(Clone, Copy, PartialEq, Eq, Structural)]
pub enum Model {
    Nmos,
    Cmos,
}

/// Whether ADC and SBC use decimal arithmetic.
pub open spec fn decimal(r: Regs) -> bool {
    r.p.d && !r.no_decimal
}

pub open spec fn with_sum(r: Regs, s: Sum) -> Regs {
    Regs { a: s.res, p: Flags { c: s.c, v: s.v, ..with_nz(r.p, s.nz) }, ..r }
}

/// `ADC` of `v` into state `r`.
pub open spec fn adc(cpu: Model, r: Regs, v: u8) -> Regs {
    with_sum(
        r,
        if decimal(r) {
            match cpu {
                Model::Nmos => adc_dec_nmos(r.a, v, r.p.c),
                Model::Cmos => adc_dec_cmos(r.a, v, r.p.c),
            }
        } else {
            adc_bin(r.a, v, r.p.c)
        },
    )
}

/// `SBC` of `v` from state `r`.
pub open spec fn sbc(cpu: Model, r: Regs, v: u8) -> Regs {
    with_sum(
        r,
        if decimal(r) {
            match cpu {
                Model::Nmos => sbc_dec_nmos(r.a, v, r.p.c),
                Model::Cmos => sbc_dec_cmos(r.a, v, r.p.c),
            }
        } else {
            sbc_bin(r.a, v, r.p.c)
        },
    )
}

/// `A` takes `val`, and N and Z are set from it.
pub open spec fn load_a(r: Regs, val: u8) -> Regs {
    Regs { a: val, p: with_nz(r.p, val), ..r }
}

/// Compare register value `g` with `v`.
pub open spec fn compare(r: Regs, g: u8, v: u8) -> Regs {
    Regs { p: Flags { c: v <= g, ..with_nz(r.p, add8(g, -v)) }, ..r }
}

/// `ARR`: after the AND, A is rotated right; C and V come from bits 6 and
/// 5 of the result, or, in decimal mode, from a BCD fix-up.
pub open spec fn arr(r: Regs, v: u8) -> Regs {
    let a = r.a & v;
    let rot = shr(a, r.p.c);
    let p = with_nz(r.p, rot);
    if !r.p.d {
        Regs { a: rot, p: Flags { c: rot & 0x40 != 0, v: ((rot & 0x40) ^ ((rot & 0x20) << 1u8)) != 0, ..p }, ..r }
    } else {
        let lo_fix = if a % 16 >= 5 { ((rot + 6) % 16) as u8 | (rot & 0xf0) } else { rot };
        let c = a / 16 >= 5;
        Regs {
            a: if c { add8(lo_fix, 0x60) } else { lo_fix },
            p: Flags { c, v: ((rot ^ a) & 0x40) != 0, ..p },
            ..r
        }
    }
}

/// The effect of reading `v` for operation `op`.
pub open spec fn alu(cpu: Model, r: Regs, op: Alu, v: u8) -> Regs {
    match op {
        Alu::Ora => load_a(r, r.a | v),
        Alu::And => load_a(r, r.a & v),
        Alu::Eor => load_a(r, r.a ^ v),
        Alu::Adc => adc(cpu, r, v),
        Alu::Sbc => sbc(cpu, r, v),
        Alu::Cmp(g) => compare(r, reg(r, g), v),
        Alu::Bit => Regs { p: Flags { n: v & 0x80 != 0, v: v & 0x40 != 0, z: r.a & v == 0, ..r.p }, ..r },
        Alu::BitImm => Regs { p: Flags { z: r.a & v == 0, ..r.p }, ..r },
        Alu::Ld(g) => Regs { p: with_nz(r.p, v), ..set_reg(r, g, v) },
        Alu::Nop => r,
        Alu::Lax => Regs { x: v, ..load_a(r, v) },
        Alu::Las => Regs { sp: r.sp & v, a: r.sp & v, x: r.sp & v, ..r },
        Alu::Anc => {
            let r1 = load_a(r, r.a & v);
            Regs { p: Flags { c: r1.p.n, ..r1.p }, ..r1 }
        },
        Alu::Alr => {
            let a = r.a & v;
            Regs { a: shr(a, false), p: Flags { c: a % 2 == 1, ..with_nz(r.p, shr(a, false)) }, ..r }
        },
        Alu::Arr => arr(r, v),
        Alu::Xaa => load_a(r, r.x & v),
        Alu::LaxImm => Regs { x: v & r.a, ..load_a(r, v & r.a) },
        Alu::Axs => {
            let x = r.x & r.a;
            Regs { x: add8(x, -v), p: Flags { c: x >= v, ..with_nz(r.p, add8(x, -v)) }, ..r }
        },
    }
}

/// Read-modify-write operations.
#[derive(Clone, Copy, PartialEq, Eq, Structural)]
pub enum RmwOp {
    Asl,
    Lsr,
    Rol,
    Ror,
    Inc,
    Dec,
    /// `TSB` (65C02): Z from `A & value`, set the bits of A.
    Tsb,
    /// `TRB` (65C02): Z from `A & value`, clear the bits of A.
    Trb,
}

/// The state and the value to write back after modifying `v`.
pub open spec fn modify(r: Regs, op: RmwOp, v: u8) -> (Regs, u8) {
    match op {
        RmwOp::Asl => (Regs { p: Flags { c: v >= 128, ..with_nz(r.p, shl(v, false)) }, ..r }, shl(v, false)),
        RmwOp::Lsr => (Regs { p: Flags { c: v % 2 == 1, ..with_nz(r.p, shr(v, false)) }, ..r }, shr(v, false)),
        RmwOp::Rol => (Regs { p: Flags { c: v >= 128, ..with_nz(r.p, shl(v, r.p.c)) }, ..r }, shl(v, r.p.c)),
        RmwOp::Ror => (Regs { p: Flags { c: v % 2 == 1, ..with_nz(r.p, shr(v, r.p.c)) }, ..r }, shr(v, r.p.c)),
        RmwOp::Inc => (Regs { p: with_nz(r.p, add8(v, 1)), ..r }, add8(v, 1)),
        RmwOp::Dec => (Regs { p: with_nz(r.p, add8(v, -1)), ..r }, add8(v, -1)),
        RmwOp::Tsb => (Regs { p: Flags { z: r.a & v == 0, ..r.p }, ..r }, v | r.a),
        RmwOp::Trb => (Regs { p: Flags { z: r.a & v == 0, ..r.p }, ..r }, v & !r.a),
    }
}

/// Operations on registers only.
#[derive(Clone, Copy, PartialEq, Eq, Structural)]
pub enum Imp {
    Clc,
    Sec,
    Cli,
    Sei,
    Clv,
    Cld,
    Sed,
    Inx,
    Iny,
    Dex,
    Dey,
    Tax,
    Tay,
    Txa,
    Tya,
    Tsx,
    Txs,
    /// A shift or rotate of A, or `INC A` / `DEC A`.
    OnA(RmwOp),
    Nop,
}

pub open spec fn implied(r: Regs, op: Imp) -> Regs {
    match op {
        Imp::Clc => Regs { p: Flags { c: false, ..r.p }, ..r },
        Imp::Sec => Regs { p: Flags { c: true, ..r.p }, ..r },
        Imp::Cli => Regs { p: Flags { i: false, ..r.p }, ..r },
        Imp::Sei => Regs { p: Flags { i: true, ..r.p }, ..r },
        Imp::Clv => Regs { p: Flags { v: false, ..r.p }, ..r },
        Imp::Cld => Regs { p: Flags { d: false, ..r.p }, ..r },
        Imp::Sed => Regs { p: Flags { d: true, ..r.p }, ..r },
        Imp::Inx => Regs { x: add8(r.x, 1), p: with_nz(r.p, add8(r.x, 1)), ..r },
        Imp::Iny => Regs { y: add8(r.y, 1), p: with_nz(r.p, add8(r.y, 1)), ..r },
        Imp::Dex => Regs { x: add8(r.x, -1), p: with_nz(r.p, add8(r.x, -1)), ..r },
        Imp::Dey => Regs { y: add8(r.y, -1), p: with_nz(r.p, add8(r.y, -1)), ..r },
        Imp::Tax => Regs { x: r.a, p: with_nz(r.p, r.a), ..r },
        Imp::Tay => Regs { y: r.a, p: with_nz(r.p, r.a), ..r },
        Imp::Txa => Regs { a: r.x, p: with_nz(r.p, r.x), ..r },
        Imp::Tya => Regs { a: r.y, p: with_nz(r.p, r.y), ..r },
        Imp::Tsx => Regs { x: r.sp, p: with_nz(r.p, r.sp), ..r },
        Imp::Txs => Regs { sp: r.x, ..r },
        Imp::OnA(op) => {
            let (r1, v) = modify(r, op, r.a);
            Regs { a: v, ..r1 }
        },
        Imp::Nop => r,
    }
}

/// What a store writes.
#[derive(Clone, Copy, PartialEq, Eq, Structural)]
pub enum Src {
    A,
    X,
    Y,
    Zero,
    /// `SAX`: `A & X`.
    AX,
}

pub open spec fn src_val(r: Regs, s: Src) -> u8 {
    match s {
        Src::A => r.a,
        Src::X => r.x,
        Src::Y => r.y,
        Src::Zero => 0,
        Src::AX => r.a & r.x,
    }
}

/// Branch conditions.
#[derive(Clone, Copy, PartialEq, Eq, Structural)]
pub enum Cond {
    Pl,
    Mi,
    Vc,
    Vs,
    Cc,
    Cs,
    Ne,
    Eq,
    Always,
}

pub open spec fn taken(p: Flags, c: Cond) -> bool {
    match c {
        Cond::Pl => !p.n,
        Cond::Mi => p.n,
        Cond::Vc => !p.v,
        Cond::Vs => p.v,
        Cond::Cc => !p.c,
        Cond::Cs => p.c,
        Cond::Ne => !p.z,
        Cond::Eq => p.z,
        Cond::Always => true,
    }
}

/// The instruction set, as the cycles and effects of each opcode.
#[derive(Clone, Copy, PartialEq, Eq, Structural)]
pub enum Instr {
    /// BRK, and the interrupt and reset sequences.
    Brk,
    Jsr,
    Rti,
    Rts,
    JmpAbs,
    /// `JMP ($nnnn)`.
    JmpInd,
    /// `JMP ($nnnn,X)` (65C02).
    JmpIndX,
    Php,
    Plp,
    Push(Reg),
    Pull(Reg),
    Implied(Imp),
    Imm(Alu),
    Load(Mode, Alu),
    Store(Mode, Src),
    Rmw(Mode, RmwOp),
    /// ADC (`true`) or SBC (`false`) of memory on the 65C02: decimal mode
    /// takes one more cycle.
    Decimal(Mode, bool),
    /// ADC (`true`) or SBC (`false`) immediate on the 65C02.
    DecimalImm(bool),
    Branch(Cond),
    /// A one-cycle NOP (65C02).
    Nop1,
    /// The eight-cycle NOP `$5C` (65C02).
    Nop8,
    /// The four-cycle `NOP $nnnn,X` (65C02).
    NopAbsX,
    /// A read-modify-write followed by an ALU operation on the value
    /// written (NMOS: `SLO`, `RLA`, `SRE`, `RRA`, `DCP`, `ISC`).
    RmwAlu(Mode, RmwOp, Alu),
    /// A store of a register ANDed with the high address byte plus one
    /// (NMOS: `SHA`, `SHX`, `SHY`, `TAS`).
    Sh(Mode, ShSrc),
    /// Jams the CPU (NMOS `KIL`): it never completes.
    Kil,
}

/// What the `SH*` stores AND with the high address byte plus one.
#[derive(Clone, Copy, PartialEq, Eq, Structural)]
pub enum ShSrc {
    /// `SHA`: `A & X`.
    AX,
    /// `SHX`.
    X,
    /// `SHY`.
    Y,
    /// `TAS`: S takes `A & X`, which is stored as for `SHA`.
    Tas,
}

/// A branch offset as a signed displacement.
pub open spec fn signed(b: u8) -> int {
    if b >= 128 { b - 256 } else { b as int }
}

/// `r`, with reset asserted when `p`.
pub open spec fn with_reset(r: Regs, p: bool) -> Regs {
    if p {
        Regs { reset: true, latch: true, ..r }
    } else {
        r
    }
}

/// The state with a new program counter.
pub open spec fn at(r: Regs, pc: u16) -> Regs {
    Regs { pc, ..r }
}

/// The cycles of an instruction whose effective address comes from mode
/// `m`, followed by an interrupt poll and a read: the value read, with the
/// state after the poll (and the operand bytes).
pub open spec fn load_cycles(r: Regs, t: Seq<Cycle>, m: Mode) -> Option<(Regs, u8)> {
    match ea(m, r, t) {
        Some((k, a)) => match poll(r, t, k) {
            Some(r1) => match rd(t, k + 1, a) {
                Some(v) => if t.len() == k + 2 { Some((at(r1, mode_pc(m, r.pc)), v)) } else { None },
                None => None,
            },
            None => None,
        },
        None => None,
    }
}

/// The cycles of a store through mode `m` of `val`.
pub open spec fn store_cycles(r: Regs, t: Seq<Cycle>, m: Mode, val: u8) -> Option<Regs> {
    match ea(m, r, t) {
        Some((k, a)) => match poll(r, t, k) {
            Some(r1) => if wr(t, k + 1, a, val) && t.len() == k + 2 { Some(at(r1, mode_pc(m, r.pc))) } else { None },
            None => None,
        },
        None => None,
    }
}

/// The cycles of a read-modify-write of address `a`, from cycle `k` of
/// `t`: read, a dummy cycle (the NMOS part writes the unmodified value
/// back, the 65C02 reads it again), poll, write of the result.
pub open spec fn rmw_tail(cpu: Model, r: Regs, t: Seq<Cycle>, k: int, a: u16, op: RmwOp) -> Option<Regs> {
    match rd(t, k, a) {
        Some(v) => {
            let dummy = match cpu {
                Model::Nmos => wr(t, k + 1, a, v),
                Model::Cmos => rd(t, k + 1, a) is Some,
            };
            let r2 = modify(r, op, v).0;
            let w = modify(r, op, v).1;
            match poll(r2, t, k + 2) {
                Some(r3) => if dummy && wr(t, k + 3, a, w) && t.len() == k + 4 { Some(r3) } else { None },
                None => None,
            }
        },
        None => None,
    }
}

/// The cycles of a read-modify-write through mode `m`.
pub open spec fn rmw_cycles(cpu: Model, r: Regs, t: Seq<Cycle>, m: Mode, op: RmwOp) -> Option<Regs> {
    match ea(m, r, t) {
        Some((k, a)) => rmw_tail(cpu, at(r, mode_pc(m, r.pc)), t, k, a, op),
        None => None,
    }
}

/// ADC or SBC on the 65C02, which takes one more cycle, a read at the
/// program counter, in decimal mode.
pub open spec fn decimal_cycles(r: Regs, t: Seq<Cycle>, m: Mode, add: bool) -> Option<Regs> {
    let op = if add { Alu::Adc } else { Alu::Sbc };
    if !r.p.d {
        match load_cycles(r, t, m) {
            Some((r1, v)) => Some(alu(Model::Cmos, r1, op, v)),
            None => None,
        }
    } else {
        match ea(m, r, t) {
            Some((k, a)) => match rd(t, k, a) {
                Some(v) => match poll(r, t, k + 1) {
                    Some(r1) => if rd(t, k + 2, mode_pc(m, r.pc)) is Some && t.len() == k + 3 {
                        Some(alu(Model::Cmos, at(r1, mode_pc(m, r.pc)), op, v))
                    } else {
                        None
                    },
                    None => None,
                },
                None => None,
            },
            None => None,
        }
    }
}

/// ADC or SBC immediate on the 65C02.
pub open spec fn decimal_imm_cycles(r: Regs, t: Seq<Cycle>, add: bool) -> Option<Regs> {
    let op = if add { Alu::Adc } else { Alu::Sbc };
    if !r.p.d {
        match poll(r, t, 0) {
            Some(r1) => match rd(t, 1, r.pc) {
                Some(v) => if t.len() == 2 { Some(alu(Model::Cmos, at(r1, inc16(r.pc)), op, v)) } else { None },
                None => None,
            },
            None => None,
        }
    } else {
        match rd(t, 0, r.pc) {
            Some(v) => match poll(r, t, 1) {
                Some(r1) => if rd(t, 2, inc16(r.pc)) is Some && t.len() == 3 {
                    Some(alu(Model::Cmos, at(r1, inc16(r.pc)), op, v))
                } else {
                    None
                },
                None => None,
            },
            None => None,
        }
    }
}

/// A relative branch: the offset is fetched; when taken, one more cycle,
/// and one more (with another poll) when the target is in another page.
pub open spec fn branch_cycles(r: Regs, t: Seq<Cycle>, c: Cond) -> Option<Regs> {
    branch_taken_cycles(r, t, taken(r.p, c))
}

/// A relative branch that is taken or not.
pub open spec fn branch_taken_cycles(r: Regs, t: Seq<Cycle>, go: bool) -> Option<Regs> {
    match poll(r, t, 0) {
        Some(r1) => match rd(t, 1, r.pc) {
            Some(off) => {
                let pc1 = inc16(r.pc);
                let d = signed(off);
                if !go {
                    if t.len() == 2 { Some(at(r1, pc1)) } else { None }
                } else if rd(t, 2, pc1) is None {
                    None
                } else if crosses(pc1, d) {
                    match poll(r1, t, 3) {
                        Some(r2) => if rd(t, 4, in_page(pc1, d)) is Some && t.len() == 5 {
                            Some(at(r2, offset(pc1, d)))
                        } else {
                            None
                        },
                        None => None,
                    }
                } else if t.len() == 3 {
                    Some(at(r1, offset(pc1, d)))
                } else {
                    None
                }
            },
            None => None,
        },
        None => None,
    }
}

/// A push of `val`: dummy read at PC, poll, write to the stack.
pub open spec fn push_cycles(r: Regs, t: Seq<Cycle>, val: u8) -> Option<Regs> {
    if rd(t, 0, r.pc) is Some && t.len() == 3 {
        match poll(r, t, 1) {
            Some(r1) => if wr(t, 2, stack_addr(r.sp), val) { Some(Regs { sp: add8(r.sp, -1), ..r1 }) } else { None },
            None => None,
        }
    } else {
        None
    }
}

/// A pull: dummy reads at PC and at the stack, poll, read the value from
/// the stack.
pub open spec fn pull_cycles(r: Regs, t: Seq<Cycle>) -> Option<(Regs, u8)> {
    if rd(t, 0, r.pc) is Some && rd(t, 1, stack_addr(r.sp)) is Some && t.len() == 4 {
        match poll(r, t, 2) {
            Some(r1) => match rd(t, 3, stack_addr(add8(r.sp, 1))) {
                Some(v) => Some((Regs { sp: add8(r.sp, 1), ..r1 }, v)),
                None => None,
            },
            None => None,
        }
    } else {
        None
    }
}

/// `JSR`: low target byte, dummy stack read, push of the return address
/// (the address of the high target byte), poll, high target byte.
pub open spec fn jsr_cycles(r: Regs, t: Seq<Cycle>) -> Option<Regs> {
    let p1 = inc16(r.pc);
    match (rd(t, 0, r.pc), rd(t, 5, p1)) {
        (Some(lo), Some(hi)) => if rd(t, 1, stack_addr(r.sp)) is Some && wr(t, 2, stack_addr(r.sp), hi_of(p1))
            && wr(t, 3, stack_addr(add8(r.sp, -1)), lo_of(p1)) && t.len() == 6 {
            match poll(r, t, 4) {
                Some(r1) => Some(Regs { sp: add8(r.sp, -2), pc: word(lo, hi), ..r1 }),
                None => None,
            }
        } else {
            None
        },
        _ => None,
    }
}

/// `RTS`: pull of the return address, poll, dummy read there; PC is the
/// address after it.
pub open spec fn rts_cycles(r: Regs, t: Seq<Cycle>) -> Option<Regs> {
    match (rd(t, 2, stack_addr(add8(r.sp, 1))), rd(t, 3, stack_addr(add8(r.sp, 2)))) {
        (Some(lo), Some(hi)) => if rd(t, 0, r.pc) is Some && rd(t, 1, stack_addr(r.sp)) is Some
            && rd(t, 5, word(lo, hi)) is Some && t.len() == 6 {
            match poll(r, t, 4) {
                Some(r1) => Some(Regs { sp: add8(r.sp, 2), pc: inc16(word(lo, hi)), ..r1 }),
                None => None,
            }
        } else {
            None
        },
        _ => None,
    }
}

/// `RTI`: pull of the status, then of the return address; the poll sees
/// the pulled status.
pub open spec fn rti_cycles(r: Regs, t: Seq<Cycle>) -> Option<Regs> {
    match (rd(t, 2, stack_addr(add8(r.sp, 1))), rd(t, 3, stack_addr(add8(r.sp, 2))), rd(t, 5, stack_addr(add8(r.sp, 3)))) {
        (Some(b), Some(lo), Some(hi)) => if rd(t, 0, r.pc) is Some && rd(t, 1, stack_addr(r.sp)) is Some && t.len() == 6 {
            match poll(Regs { p: flags_of_byte(b), ..r }, t, 4) {
                Some(r1) => Some(Regs { sp: add8(r.sp, 3), pc: word(lo, hi), ..r1 }),
                None => None,
            }
        } else {
            None
        },
        _ => None,
    }
}

/// `JMP $nnnn`.
pub open spec fn jmp_abs_cycles(r: Regs, t: Seq<Cycle>) -> Option<Regs> {
    match (rd(t, 0, r.pc), rd(t, 2, inc16(r.pc))) {
        (Some(lo), Some(hi)) => if t.len() == 3 {
            match poll(r, t, 1) {
                Some(r1) => Some(at(r1, word(lo, hi))),
                None => None,
            }
        } else {
            None
        },
        _ => None,
    }
}

/// `JMP ($nnnn)`: the NMOS part fetches the high byte of the vector from
/// the same page; the 65C02 from the next address.
pub open spec fn jmp_ind_cycles(cpu: Model, r: Regs, t: Seq<Cycle>) -> Option<Regs> {
    match (rd(t, 0, r.pc), rd(t, 1, inc16(r.pc))) {
        (Some(lo), Some(hi)) => {
            let b = word(lo, hi);
            let b1 = match cpu {
                Model::Nmos => in_page(b, 1),
                Model::Cmos => inc16(b),
            };
            match (rd(t, 2, b), rd(t, 4, b1)) {
                (Some(l2), Some(h2)) => if t.len() == 5 {
                    match poll(r, t, 3) {
                        Some(r1) => Some(at(r1, word(l2, h2))),
                        None => None,
                    }
                } else {
                    None
                },
                _ => None,
            }
        },
        _ => None,
    }
}

/// `JMP ($nnnn,X)` (65C02): the high operand byte is read twice.
pub open spec fn jmp_ind_x_cycles(r: Regs, t: Seq<Cycle>) -> Option<Regs> {
    match (rd(t, 0, r.pc), rd(t, 1, inc16(r.pc))) {
        (Some(lo), Some(hi)) => {
            let b = offset(word(lo, hi), r.x as int);
            match (rd(t, 3, b), rd(t, 5, inc16(b))) {
                (Some(l2), Some(h2)) => if rd(t, 2, inc16(r.pc)) is Some && t.len() == 6 {
                    match poll(r, t, 4) {
                        Some(r1) => Some(at(r1, word(l2, h2))),
                        None => None,
                    }
                } else {
                    None
                },
                _ => None,
            }
        },
        _ => None,
    }
}

/// The cycles of one instruction of model `cpu` from state `r`, and the
/// state after it: `Some` exactly when `t` is the complete sequence of
/// cycles of `i`.
#[verifier::opaque]
pub open spec fn step(cpu: Model, i: Instr, r: Regs, t: Seq<Cycle>) -> Option<Regs> {
    match i {
        Instr::Implied(op) => match poll(r, t, 0) {
            Some(r1) => if rd(t, 1, r.pc) is Some && t.len() == 2 { Some(implied(r1, op)) } else { None },
            None => None,
        },
        Instr::Imm(op) => match poll(r, t, 0) {
            Some(r1) => match rd(t, 1, r.pc) {
                Some(v) => if t.len() == 2 { Some(alu(cpu, at(r1, inc16(r.pc)), op, v)) } else { None },
                None => None,
            },
            None => None,
        },
        Instr::Load(m, op) => match load_cycles(r, t, m) {
            Some((r1, v)) => Some(alu(cpu, r1, op, v)),
            None => None,
        },
        Instr::Store(m, s) => store_cycles(r, t, m, src_val(r, s)),
        Instr::Rmw(m, op) => rmw_cycles(cpu, r, t, m, op),
        Instr::Decimal(m, add) => decimal_cycles(r, t, m, add),
        Instr::DecimalImm(add) => decimal_imm_cycles(r, t, add),
        Instr::Branch(c) => branch_cycles(r, t, c),
        Instr::Php => push_cycles(r, t, flags_byte(r.p)),
        Instr::Push(g) => push_cycles(r, t, reg(r, g)),
        Instr::Plp => match pull_cycles(r, t) {
            Some((r1, v)) => Some(Regs { p: flags_of_byte(v), ..r1 }),
            None => None,
        },
        Instr::Pull(g) => match pull_cycles(r, t) {
            Some((r1, v)) => Some(Regs { p: with_nz(r1.p, v), ..set_reg(r1, g, v) }),
            None => None,
        },
        Instr::Jsr => jsr_cycles(r, t),
        Instr::Rts => rts_cycles(r, t),
        Instr::Rti => rti_cycles(r, t),
        Instr::JmpAbs => jmp_abs_cycles(r, t),
        Instr::JmpInd => jmp_ind_cycles(cpu, r, t),
        Instr::JmpIndX => jmp_ind_x_cycles(r, t),
        Instr::Nop1 => match poll(r, t, 0) {
            Some(r1) => if t.len() == 1 { Some(r1) } else { None },
            None => None,
        },
        Instr::Nop8 => match rd(t, 0, r.pc) {
            Some(lo) => if rd(t, 1, inc16(r.pc)) is Some && rd(t, 2, word(lo, 0xff)) is Some && rd(t, 3, 0xffff) is Some
                && rd(t, 4, 0xffff) is Some && rd(t, 5, 0xffff) is Some && rd(t, 7, 0xffff) is Some && t.len() == 8 {
                match poll(r, t, 6) {
                    Some(r1) => Some(at(r1, offset(r.pc, 2))),
                    None => None,
                }
            } else {
                None
            },
            None => None,
        },
        Instr::NopAbsX => match ea(Mode::Abs, r, t) {
            Some((k, a)) => match poll(r, t, 2) {
                Some(r1) => if rd(t, 3, in_page(a, r.x as int)) is Some && t.len() == 4 {
                    Some(at(r1, offset(r.pc, 2)))
                } else {
                    None
                },
                None => None,
            },
            None => None,
        },
        Instr::Brk => brk_cycles(cpu, r, t),
        Instr::RmwAlu(m, op, a) => rmw_alu_cycles(cpu, r, t, m, op, a),
        Instr::Sh(m, s) => sh_cycles(r, t, m, s),
        Instr::Kil => None,
    }
}

/// A read-modify-write through mode `m`, then ALU operation `a` on the
/// value written back.
pub open spec fn rmw_alu_cycles(cpu: Model, r: Regs, t: Seq<Cycle>, m: Mode, op: RmwOp, a: Alu) -> Option<Regs> {
    match ea(m, r, t) {
        Some((k, addr)) => {
            let r0 = at(r, mode_pc(m, r.pc));
            match (rmw_tail(cpu, r0, t, k, addr, op), rd(t, k, addr)) {
                (Some(r1), Some(v)) => Some(alu(cpu, r1, a, modify(r0, op, v).1)),
                _ => None,
            }
        },
        None => None,
    }
}

/// The operand cycles of an `SH*` store and the base address: two operand
/// bytes, or for `($nn),Y` the zero-page operand and the vector.
pub open spec fn sh_base(m: Mode, r: Regs, t: Seq<Cycle>) -> Option<(int, u16)> {
    match m {
        Mode::IzY(_) => match rd(t, 0, r.pc) {
            Some(b) => match zp_vector(t, 1, b as u16) {
                Some(base) => Some((3, base)),
                None => None,
            },
            None => None,
        },
        _ => match (rd(t, 0, r.pc), rd(t, 1, inc16(r.pc))) {
            (Some(lo), Some(hi)) => Some((2, word(lo, hi))),
            _ => None,
        },
    }
}

/// The value an `SH*` store ANDs with the high address byte plus one.
pub open spec fn sh_val(r: Regs, s: ShSrc) -> u8 {
    match s {
        ShSrc::X => r.x,
        ShSrc::Y => r.y,
        _ => r.a & r.x,
    }
}

/// An `SH*` store through mode `m` (indexed by X for `AbsX`, else by Y):
/// the operand cycles, a read of the uncorrected address, poll, and the
/// write. When the index crosses a page, the high byte of the address is
/// the value stored.
pub open spec fn sh_cycles(r: Regs, t: Seq<Cycle>, m: Mode, s: ShSrc) -> Option<Regs> {
    let idx = match m {
        Mode::AbsX(_) => r.x,
        _ => r.y,
    };
    let r0 = match s {
        ShSrc::Tas => Regs { sp: r.a & r.x, ..r },
        _ => r,
    };
    match sh_base(m, r, t) {
        Some((k, base)) => {
            let val = sh_val(r, s) & add8(hi_of(base), 1);
            let addr = if crosses(base, idx as int) {
                word(lo_of(offset(base, idx as int)), val)
            } else {
                offset(base, idx as int)
            };
            if rd(t, k, in_page(base, idx as int)) is Some && wr(t, k + 2, addr, val) && t.len() == k + 3 {
                match poll(r0, t, k + 1) {
                    Some(r1) => Some(at(r1, mode_pc(m, r.pc))),
                    None => None,
                }
            } else {
                None
            }
        },
        None => None,
    }
}

/// Cycle `j` of `t` is a look at the NMI input.
pub open spec fn glance(t: Seq<Cycle>, j: int, limit: Option<NmiLength>) -> bool {
    &&& 0 <= j < t.len()
    &&& t[j] matches Cycle::NmiGlance { level, length, dropped } && (dropped is Some <==> level && short(length, limit))
}

/// NMI lengths in their order.
pub open spec fn length_rank(l: NmiLength) -> int {
    match l {
        NmiLength::One => 1,
        NmiLength::Two => 2,
        NmiLength::Plenty => 3,
    }
}

/// A pulse of length `l` is shorter than `limit` (any pulse is, for `None`).
pub open spec fn short(l: NmiLength, limit: Option<NmiLength>) -> bool {
    match limit {
        None => true,
        Some(m) => length_rank(l) < length_rank(m),
    }
}

/// What the system records of a cycle of the CPU: its reads, its writes,
/// its polls of the NMI edge and its changes of SYNC.
pub open spec fn seen(c: Cycle) -> Seq<Cycle> {
    match c {
        Cycle::Read { .. } => seq![c],
        Cycle::Write { .. } => seq![c],
        Cycle::NmiCheck { .. } => seq![c],
        Cycle::Poll { nmi, .. } => seq![Cycle::NmiCheck { nmi }],
        Cycle::NmiGlance { dropped, .. } => match dropped {
            Some(nmi) => seq![Cycle::NmiCheck { nmi }],
            None => seq![],
        },
        Cycle::Sync { .. } => seq![c],
    }
}

/// What the system records of the cycles `t`.
pub open spec fn seen_all(t: Seq<Cycle>) -> Seq<Cycle>
    decreases t.len(),
{
    if t.len() == 0 {
        seq![]
    } else {
        seen_all(t.drop_last()) + seen(t.last())
    }
}

/// One cycle more adds what the system records of it.
pub proof fn lemma_seen_push(s: Seq<Cycle>, k: int, e: Cycle)
    requires
        0 <= k <= s.len(),
    ensures
        seen_all(s.push(e).skip(k)) == seen_all(s.skip(k)) + seen(e),
        seen_all(s.skip(s.len() as int)) == Seq::<Cycle>::empty(),
{
    assert(s.push(e).skip(k).drop_last() =~= s.skip(k));
    assert(s.skip(s.len() as int) =~= Seq::<Cycle>::empty());
}

/// The first cycles of the interrupt sequence (BRK, IRQ, NMI, reset):
/// the byte after the opcode is read, then PC is pushed (read instead,
/// for reset).
pub open spec fn brk_head(r: Regs, t: Seq<Cycle>) -> bool {
    let pc1 = brk_return(r);
    &&& rd(t, 0, r.pc) is Some
    &&& if r.reset {
        rd(t, 1, stack_addr(r.sp)) is Some && rd(t, 2, stack_addr(add8(r.sp, -1))) is Some
    } else {
        wr(t, 1, stack_addr(r.sp), hi_of(pc1)) && wr(t, 2, stack_addr(add8(r.sp, -1)), lo_of(pc1))
    }
}

/// The rest of the interrupt sequence from state `r` (as it was when the
/// sequence started), `u` being its cycles after the head: the vector is
/// chosen (reset, else NMI, else IRQ/BRK), the status is pushed (read, for
/// reset) and the vector is fetched. Unless an NMI is left pending, the
/// NMOS part looks at the NMI input after choosing the vector, after the
/// status push and after the low vector byte.
pub open spec fn brk_vector(cpu: Model, r: Regs, u: Seq<Cycle>) -> Option<Regs> {
    let (k, vector, edge) = if r.reset {
        (0int, 0xfffcu16, r.nmi_edge)
    } else if r.nmi_edge {
        (0int, 0xfffau16, false)
    } else if u.len() > 0 && u[0] == (Cycle::NmiCheck { nmi: true }) {
        (1int, 0xfffau16, false)
    } else if u.len() > 0 && u[0] == (Cycle::NmiCheck { nmi: false }) {
        (1int, 0xfffeu16, false)
    } else {
        (-1int, 0u16, false)
    };
    let g: int = match cpu {
        Model::Nmos => if edge { 0 } else { 1 },
        Model::Cmos => 0,
    };
    let glances = g == 0 || (glance(u, k, None) && glance(u, k + 2, Some(NmiLength::Plenty)) && glance(u, k + 4, Some(NmiLength::Two)));
    let push_p = if r.reset {
        rd(u, k + g, stack_addr(add8(r.sp, -2))) is Some
    } else {
        wr(u, k + g, stack_addr(add8(r.sp, -2)), brk_status(r))
    };
    match (rd(u, k + 2 * g + 1, vector), rd(u, k + 3 * g + 2, inc16(vector))) {
        (Some(lo), Some(hi)) => if k >= 0 && push_p && glances && u.len() == k + 3 * g + 3 {
            Some(Regs {
                pc: word(lo, hi),
                sp: add8(r.sp, -3),
                p: Flags { i: true, d: match cpu { Model::Nmos => r.p.d, Model::Cmos => false }, ..r.p },
                reset: false,
                latch: false,
                nmi_edge: edge,
                ..r
            })
        } else {
            None
        },
        _ => None,
    }
}

/// The interrupt sequence (BRK, IRQ, NMI, reset): pushes of PC and status
/// (reads instead, for reset), then the vector fetch. PC is incremented
/// only for BRK, and the B bit is clear in the status pushed for an
/// interrupt. The 65C02 also clears D.
pub open spec fn brk_cycles(cpu: Model, r: Regs, t: Seq<Cycle>) -> Option<Regs> {
    if brk_head(r, t) {
        brk_vector(cpu, r, t.skip(3))
    } else {
        None
    }
}

/// The opcode fetch that starts each instruction, with SYNC raised around
/// it: the opcode and the state after it. When an interrupt or reset is
/// pending, the byte read is dropped, PC stays, and BRK's sequence runs.
pub open spec fn fetch(r: Regs, t: Seq<Cycle>) -> Option<(u8, Regs)> {
    if t.len() >= 3 && t[0] == (Cycle::Sync { on: true }) && t[2] == (Cycle::Sync { on: false }) {
        match rd(t, 1, r.pc) {
            Some(b) => if r.latch { Some((0u8, r)) } else { Some((b, at(r, inc16(r.pc)))) },
            None => None,
        }
    } else {
        None
    }
}

/// What opcode `op` is on model `cpu`.
pub open spec fn instr_of(cpu: Model, op: u8) -> Instr {
    match cpu {
        Model::Cmos => cmos_instr(op),
        Model::Nmos => nmos_instr(op),
    }
}

/// The cycles of one whole instruction, opcode fetch included, from state
/// `r`, and the state after it.
pub open spec fn run(cpu: Model, r: Regs, t: Seq<Cycle>) -> Option<Regs> {
    match fetch(r, t) {
        Some((op, r1)) => step(cpu, instr_of(cpu, op), r1, t.skip(3)),
        None => None,
    }
}

/// How a run of the CPU stands with the system. `bus` holds the cycles of
/// every run and `attempt` where the current run began; from `live_at` on,
/// the run asks the system, and before it the run went through the cycles
/// `logged` that an earlier, stopped run had completed (`log` and `replay`
/// are the CPU's copy of them, and how far it has gone). `sys` is the
/// system, and `sys_base` what its record was when the run began.
#[verifier::opaque]
pub open spec fn tie_holds<S: Sys>(
    bus: Seq<Cycle>,
    log: Seq<Cycle>,
    replay: int,
    sys_base: Seq<Cycle>,
    attempt: int,
    live_at: int,
    logged: Seq<Cycle>,
    sys: S,
) -> bool {
    &&& 0 <= attempt <= live_at <= bus.len()
    &&& live_at - attempt <= logged.len()
    &&& bus.subrange(attempt, live_at) == logged.take(live_at - attempt)
    &&& (replay < log.len() ==> live_at == bus.len() && log == logged && replay == live_at - attempt)
    &&& sys.cycles() == sys_base + seen_all(bus.skip(live_at))
    &&& levels_read(bus.skip(live_at), sys_base, sys)
}

/// Cycle `e`, taken when the system's record was `rec`, reports the levels
/// of the interrupt inputs that `sys` gives: a poll the IRQ level once the
/// NMI edge is polled, a look at the NMI input the NMI level and (when it
/// is up) the length.
pub open spec fn level_ok<S: Sys>(e: Cycle, rec: Seq<Cycle>, sys: S) -> bool {
    match e {
        Cycle::Poll { nmi, irq } => irq == sys.lines_at(rec.push(Cycle::NmiCheck { nmi })).irq,
        Cycle::NmiGlance { level, length, .. } => {
            &&& level == sys.lines_at(rec).nmi
            &&& length == if level { sys.lines_at(rec).nmi_length } else { NmiLength::Plenty }
        },
        _ => true,
    }
}

/// Every cycle of `t`, asked of the system from record `rec0` on, reports
/// the levels of the interrupt inputs that `sys` gives at that point.
pub open spec fn levels_read<S: Sys>(t: Seq<Cycle>, rec0: Seq<Cycle>, sys: S) -> bool {
    forall|j: int| 0 <= j < t.len() ==> #[trigger] level_ok(t[j], rec0 + seen_all(t.take(j)), sys)
}

/// One more cycle `e` on the trace keeps the tie: taken from the log (then
/// the system is not asked), or asked of the system (then its record grows
/// by what it records of `e`, and the log is no longer being gone through).
pub proof fn lemma_tie_step<S: Sys>(
    bus: Seq<Cycle>,
    log: Seq<Cycle>,
    replay: int,
    sys_base: Seq<Cycle>,
    attempt: int,
    live_at: int,
    logged: Seq<Cycle>,
    s0: S,
    s1: S,
    e: Cycle,
    replayed: bool,
    log1: Seq<Cycle>,
    replay1: int,
)
    requires
        replayed ==> 0 <= replay < log.len() && e == log[replay] && log1 == log && replay1 == replay + 1 && s1 == s0,
        !replayed ==> {
            &&& !(replay1 < log1.len())
            &&& s1.cycles() == s0.cycles() + seen(e)
            &&& level_ok(e, s0.cycles(), s1)
            &&& forall|rec: Seq<Cycle>| #[trigger] s1.lines_at(rec) == s0.lines_at(rec)
        },
    ensures
        tie_holds(bus, log, replay, sys_base, attempt, live_at, logged, s0) ==> tie_holds(
            bus.push(e),
            log1,
            replay1,
            sys_base,
            attempt,
            if replayed { bus.len() + 1int } else { live_at },
            logged,
            s1,
        ),
{
    reveal(tie_holds);
    if tie_holds(bus, log, replay, sys_base, attempt, live_at, logged, s0) {
        lemma_seen_push(bus, live_at, e);
        lemma_seen_push(bus.push(e), bus.len() + 1int, e);
        if replayed {
            assert(bus.push(e).subrange(attempt, bus.len() + 1int) =~= logged.take(replay + 1)) by {
                assert(bus.subrange(attempt, live_at) =~= logged.take(replay));
            }
            assert(bus.push(e).skip(bus.len() + 1int) =~= Seq::<Cycle>::empty());
        } else {
            assert(bus.push(e).subrange(attempt, live_at) =~= bus.subrange(attempt, live_at));
            assert(s1.cycles() =~= sys_base + seen_all(bus.push(e).skip(live_at)));
            let t0 = bus.skip(live_at);
            let t1 = bus.push(e).skip(live_at);
            assert(t1 =~= t0.push(e));
            assert forall|j: int| 0 <= j < t1.len() implies #[trigger] level_ok(t1[j], sys_base + seen_all(t1.take(j)), s1) by {
                if j < t0.len() {
                    assert(t1[j] == t0[j]);
                    assert(t1.take(j) =~= t0.take(j));
                    assert(level_ok(t0[j], sys_base + seen_all(t0.take(j)), s0));
                } else {
                    assert(t1.take(j) =~= t0);
                    assert(t1[j] == e);
                }
            }
        }
    }
}

/// What the system records of `a` followed by `b` is what it records of
/// `a`, then of `b`.
pub proof fn lemma_seen_all_add(a: Seq<Cycle>, b: Seq<Cycle>)
    ensures
        seen_all(a + b) == seen_all(a) + seen_all(b),
    decreases b.len(),
{
    if b.len() == 0 {
        assert(a + b =~= a);
        assert(seen_all(a) + seen_all(b) =~= seen_all(a));
    } else {
        let b0 = b.drop_last();
        lemma_seen_all_add(a, b0);
        assert((a + b).drop_last() =~= a + b0);
        assert((a + b).last() == b.last());
        assert(seen_all(a + b) =~= seen_all(a) + seen_all(b));
    }
}

/// What the system records of the cycles of `b1` from the `k`-th on is
/// what it records of its prefix `b0` from there, then of the rest.
pub proof fn lemma_seen_since(b0: Seq<Cycle>, b1: Seq<Cycle>, k: int)
    requires
        0 <= k <= b0.len(),
        b0.is_prefix_of(b1),
    ensures
        seen_all(b1.skip(k)) == seen_all(b0.skip(k)) + seen_all(b1.skip(b0.len() as int)),
    decreases b1.len() - b0.len(),
{
    lemma_seen_push(b0, k, Cycle::Sync { on: true });
    if b1.len() == b0.len() {
        assert(b1 =~= b0);
        assert(seen_all(b0.skip(k)) + Seq::<Cycle>::empty() =~= seen_all(b0.skip(k)));
    } else {
        let b = b1.drop_last();
        let e = b1.last();
        assert(b.subrange(0, b0.len() as int) =~= b1.subrange(0, b0.len() as int));
        lemma_seen_since(b0, b, k);
        assert(b.push(e) =~= b1);
        lemma_seen_push(b, k, e);
        lemma_seen_push(b, b0.len() as int, e);
        assert(seen_all(b1.skip(k)) =~= seen_all(b0.skip(k)) + seen_all(b1.skip(b0.len() as int)));
    }
}

/// From the system's record `before` to the system `after`, a run whose
/// cycles are `t` asked the system for all of them but a first part, which
/// it took from `logged`, the cycles that an earlier, stopped run had
/// completed; and each cycle asked reports the interrupt levels that the
/// system gives.
pub open spec fn asked<S: Sys>(logged: Seq<Cycle>, t: Seq<Cycle>, before: Seq<Cycle>, after: S) -> bool {
    exists|j: int| {
        &&& 0 <= j <= t.len()
        &&& j <= logged.len()
        &&& t.take(j) == logged.take(j)
        &&& after.cycles() == before + #[trigger] seen_all(t.skip(j))
        &&& levels_read(t.skip(j), before, after)
    }
}

/// The address computation of a mode looks only at its own cycles: more
/// cycles after them do not change it.
pub proof fn lemma_ea_extend(m: Mode, r: Regs, t1: Seq<Cycle>, t2: Seq<Cycle>)
    requires
        ea(m, r, t1) matches Some((k, a)) && k == t1.len(),
        t1.len() <= t2.len(),
        forall|j: int| 0 <= j < t1.len() ==> t2[j] == t1[j],
    ensures
        ea(m, r, t2) == ea(m, r, t1),
{
    assert forall|j: int, a: u16| 0 <= j < t1.len() implies rd(t2, j, a) == rd(t1, j, a) by {
        assert(t2[j] == t1[j]);
    }
}

// ---- laws of the stack discipline ----

/// A pull reads back from where the matching push wrote, and the stack
/// pointer returns: when the system gives back the byte pushed, the
/// register (for `PLP`, the flags) is restored. `r1` may differ from the
/// state after the push in anything but the stack pointer.
pub proof fn lemma_push_pull(cpu: Model, g: Reg, r: Regs, t1: Seq<Cycle>, r1: Regs, t2: Seq<Cycle>)
    requires
        step(cpu, Instr::Push(g), r, t1) is Some,
        r1.sp == step(cpu, Instr::Push(g), r, t1).unwrap().sp,
        step(cpu, Instr::Pull(g), r1, t2) is Some,
    ensures
        wr(t1, 2, stack_addr(r.sp), reg(r, g)),
        rd(t2, 3, stack_addr(r.sp)) is Some,
        step(cpu, Instr::Pull(g), r1, t2).unwrap().sp == r.sp,
        rd(t2, 3, stack_addr(r.sp)) == Some(reg(r, g)) ==> reg(step(cpu, Instr::Pull(g), r1, t2).unwrap(), g) == reg(r, g),
{
    assert(step(cpu, Instr::Push(g), r, t1) == push_cycles(r, t1, reg(r, g))) by { reveal(step); }
    assert(step(cpu, Instr::Pull(g), r1, t2) == match pull_cycles(r1, t2) {
        Some((r3, v)) => Some(Regs { p: with_nz(r3.p, v), ..set_reg(r3, g, v) }),
        None => None,
    }) by { reveal(step); }
    lemma_add8_add(r.sp, -1, 1);
}

/// `PLP` reads back from where `PHP` wrote; the flags pushed come back.
pub proof fn lemma_php_plp(cpu: Model, r: Regs, t1: Seq<Cycle>, r1: Regs, t2: Seq<Cycle>)
    requires
        step(cpu, Instr::Php, r, t1) is Some,
        r1.sp == step(cpu, Instr::Php, r, t1).unwrap().sp,
        step(cpu, Instr::Plp, r1, t2) is Some,
    ensures
        wr(t1, 2, stack_addr(r.sp), flags_byte(r.p)),
        rd(t2, 3, stack_addr(r.sp)) is Some,
        step(cpu, Instr::Plp, r1, t2).unwrap().sp == r.sp,
        rd(t2, 3, stack_addr(r.sp)) == Some(flags_byte(r.p)) ==> step(cpu, Instr::Plp, r1, t2).unwrap().p == r.p,
{
    assert(step(cpu, Instr::Php, r, t1) == push_cycles(r, t1, flags_byte(r.p))) by { reveal(step); }
    assert(step(cpu, Instr::Plp, r1, t2) == match pull_cycles(r1, t2) {
        Some((r3, v)) => Some(Regs { p: flags_of_byte(v), ..r3 }),
        None => None,
    }) by { reveal(step); }
    lemma_add8_add(r.sp, -1, 1);
    crate::flags::lemma_flags_byte_roundtrip(r.p);
}

/// `RTS` pulls the return address from where `JSR` pushed it; when the
/// system gives those bytes back, execution continues after the `JSR`
/// (whose operand starts at the program counter of `r`).
pub proof fn lemma_jsr_rts(cpu: Model, r: Regs, t1: Seq<Cycle>, r1: Regs, t2: Seq<Cycle>)
    requires
        step(cpu, Instr::Jsr, r, t1) is Some,
        r1.sp == step(cpu, Instr::Jsr, r, t1).unwrap().sp,
        step(cpu, Instr::Rts, r1, t2) is Some,
    ensures
        wr(t1, 2, stack_addr(r.sp), hi_of(inc16(r.pc))),
        wr(t1, 3, stack_addr(add8(r.sp, -1)), lo_of(inc16(r.pc))),
        rd(t2, 2, stack_addr(add8(r.sp, -1))) is Some,
        rd(t2, 3, stack_addr(r.sp)) is Some,
        step(cpu, Instr::Rts, r1, t2).unwrap().sp == r.sp,
        rd(t2, 2, stack_addr(add8(r.sp, -1))) == Some(lo_of(inc16(r.pc))) && rd(t2, 3, stack_addr(r.sp)) == Some(
            hi_of(inc16(r.pc)),
        ) ==> step(cpu, Instr::Rts, r1, t2).unwrap().pc == offset(r.pc, 2),
{
    assert(step(cpu, Instr::Jsr, r, t1) == jsr_cycles(r, t1)) by { reveal(step); }
    assert(step(cpu, Instr::Rts, r1, t2) == rts_cycles(r1, t2)) by { reveal(step); }
    lemma_add8_add(r.sp, -2, 1);
    lemma_add8_add(r.sp, -2, 2);
    crate::mi::lemma_word_bytes(inc16(r.pc), 0, 0);
    crate::mi::lemma_offset_add(r.pc, 1, 1);
}

/// The return address that the interrupt sequence pushes: the address of
/// the interrupted instruction, or for `BRK` the address after its
/// padding byte.
pub open spec fn brk_return(r: Regs) -> u16 {
    if r.latch { r.pc } else { inc16(r.pc) }
}

/// The status byte that the interrupt sequence pushes: B is clear for an
/// interrupt and set for `BRK`.
pub open spec fn brk_status(r: Regs) -> u8 {
    if r.latch { flags_byte(r.p) & 0xef } else { flags_byte(r.p) }
}

/// `RTI` pulls the status and the return address from where `BRK` or an
/// interrupt pushed them; when the system gives those bytes back,
/// execution continues where it was, with the flags it had.
#[verifier::rlimit(50)]
pub proof fn lemma_brk_rti(cpu: Model, r: Regs, t1: Seq<Cycle>, r1: Regs, t2: Seq<Cycle>)
    requires
        !r.reset,
        step(cpu, Instr::Brk, r, t1) is Some,
        r1.sp == step(cpu, Instr::Brk, r, t1).unwrap().sp,
        step(cpu, Instr::Rti, r1, t2) is Some,
    ensures
        wr(t1, 1, stack_addr(r.sp), hi_of(brk_return(r))),
        wr(t1, 2, stack_addr(add8(r.sp, -1)), lo_of(brk_return(r))),
        exists|j: int| #[trigger] wr(t1, j, stack_addr(add8(r.sp, -2)), brk_status(r)),
        rd(t2, 2, stack_addr(add8(r.sp, -2))) is Some,
        rd(t2, 3, stack_addr(add8(r.sp, -1))) is Some,
        rd(t2, 5, stack_addr(r.sp)) is Some,
        step(cpu, Instr::Rti, r1, t2).unwrap().sp == r.sp,
        rd(t2, 2, stack_addr(add8(r.sp, -2))) == Some(brk_status(r)) && rd(t2, 3, stack_addr(add8(r.sp, -1))) == Some(
            lo_of(brk_return(r)),
        ) && rd(t2, 5, stack_addr(r.sp)) == Some(hi_of(brk_return(r))) ==> {
            let r2 = step(cpu, Instr::Rti, r1, t2).unwrap();
            r2.pc == brk_return(r) && r2.p == r.p
        },
{
    assert(step(cpu, Instr::Brk, r, t1) == brk_cycles(cpu, r, t1)) by { reveal(step); }
    assert(step(cpu, Instr::Rti, r1, t2) == rti_cycles(r1, t2)) by { reveal(step); }
    lemma_add8_add(r.sp, -1, -1);
    lemma_add8_add(r.sp, -2, -1);
    lemma_add8_add(r.sp, -3, 1);
    lemma_add8_add(r.sp, -3, 2);
    lemma_add8_add(r.sp, -3, 3);
    let u = t1.skip(3);
    let k: int = if r.nmi_edge { 0 } else { 1 };
    let g: int = match cpu {
        Model::Nmos => 1,
        Model::Cmos => 0,
    };
    assert(wr(u, k + g, stack_addr(add8(r.sp, -2)), brk_status(r)));
    assert(u[k + g] == t1[k + g + 3]);
    assert(wr(t1, k + g + 3, stack_addr(add8(r.sp, -2)), brk_status(r)));
    crate::mi::lemma_word_bytes(brk_return(r), 0, 0);
    crate::flags::lemma_flags_byte_roundtrip(r.p);
    crate::flags::lemma_flags_ignore_b(flags_byte(r.p));
}

/// An NMI seen while `BRK` chooses its vector takes the sequence over: the
/// NMI vector is fetched, and the status pushed is that of `BRK`, with B
/// set.
pub proof fn lemma_nmi_hijacks_brk(cpu: Model, r: Regs, t: Seq<Cycle>)
    requires
        !r.reset,
        !r.latch,
        !r.nmi_edge,
        step(cpu, Instr::Brk, r, t) is Some,
        t[3] == (Cycle::NmiCheck { nmi: true }),
    ensures
        exists|j: int| #[trigger] rd(t, j, 0xfffa) == Some(lo_of(step(cpu, Instr::Brk, r, t).unwrap().pc)),
        exists|j: int| #[trigger] wr(t, j, stack_addr(add8(r.sp, -2)), flags_byte(r.p)),
        flags_byte(r.p) & 0x10 == 0x10,
{
    assert(step(cpu, Instr::Brk, r, t) == brk_cycles(cpu, r, t)) by { reveal(step); }
    let u = t.skip(3);
    assert(u[0] == t[3]);
    let g: int = match cpu {
        Model::Nmos => 1,
        Model::Cmos => 0,
    };
    let r2 = step(cpu, Instr::Brk, r, t).unwrap();
    crate::mi::lemma_word_bytes(r2.pc, 0, 0);
    assert(rd(t, 2 * g + 5, 0xfffa) == rd(u, 2 * g + 2, 0xfffa));
    assert(u[1 + g] == t[g + 4]);
    assert(wr(t, g + 4, stack_addr(add8(r.sp, -2)), flags_byte(r.p)));
    crate::flags::lemma_status_bits(r.p);
}

/// While the NMOS `BRK` sequence pushes (no reset, no NMI edge already
/// latched), it looks at the NMI input three times: an NMI seen at the
/// first look, one seen at the second that is shorter than `Plenty`, and
/// one seen at the third that is shorter than `Two` are taken from the
/// system and lost; any other is left pending in the system. Either way BRK
/// ends with no NMI edge latched.
pub proof fn lemma_brk_glances(r: Regs, t: Seq<Cycle>)
    requires
        !r.reset,
        !r.nmi_edge,
        step(Model::Nmos, Instr::Brk, r, t) is Some,
    ensures
        glance(t, 4, None),
        glance(t, 6, Some(NmiLength::Plenty)),
        glance(t, 8, Some(NmiLength::Two)),
        !step(Model::Nmos, Instr::Brk, r, t).unwrap().nmi_edge,
{
    assert(step(Model::Nmos, Instr::Brk, r, t) == brk_cycles(Model::Nmos, r, t)) by { reveal(step); }
    let u = t.skip(3);
    assert(u[1] == t[4]);
    assert(u[3] == t[6]);
    assert(u[5] == t[8]);
}

/// Reset writes nothing (the stack pushes of its sequence become reads),
/// takes PC from the reset vector and sets I.
pub proof fn lemma_reset(cpu: Model, r: Regs, t: Seq<Cycle>)
    requires
        r.reset,
        r.latch,
        run(cpu, r, t) is Some,
    ensures
        forall|j: int| 0 <= j < t.len() ==> !(t[j] is Write),
        exists|j: int| #[trigger] rd(t, j, 0xfffc) == Some(lo_of(run(cpu, r, t).unwrap().pc)),
        exists|j: int| #[trigger] rd(t, j, 0xfffd) == Some(hi_of(run(cpu, r, t).unwrap().pc)),
        run(cpu, r, t).unwrap().p.i,
        !run(cpu, r, t).unwrap().reset,
        !run(cpu, r, t).unwrap().latch,
{
    let u = t.skip(3);
    assert(instr_of(cpu, 0) == Instr::Brk);
    assert(step(cpu, Instr::Brk, r, u) == brk_cycles(cpu, r, u)) by { reveal(step); }
    let g: int = match cpu {
        Model::Nmos => if r.nmi_edge { 0 } else { 1 },
        Model::Cmos => 0,
    };
    let v = u.skip(3);
    let r2 = run(cpu, r, t).unwrap();
    assert forall|j: int| 0 <= j < t.len() implies !(t[j] is Write) by {
        if j >= 3 {
            assert(t[j] == u[j - 3]);
            if j >= 6 {
                assert(u[j - 3] == v[j - 6]);
            }
        }
    }
    crate::mi::lemma_word_bytes(r2.pc, 0, 0);
    assert(rd(v, 2 * g + 1, 0xfffc) is Some);
    assert(rd(t, 2 * g + 7, 0xfffc) == rd(v, 2 * g + 1, 0xfffc));
    assert(rd(t, 3 * g + 8, 0xfffd) == rd(v, 3 * g + 2, 0xfffd));
}

// ---- laws of interrupt timing and of the NES variant ----

/// The cycle at which `CLI`, `SEI` and `PLP` sample the interrupt inputs.
pub open spec fn poll_slot(i: Instr) -> int {
    if i == Instr::Plp { 2 } else { 0 }
}

/// `CLI`, `SEI` and `PLP` sample the interrupt inputs before they change
/// I: whether an IRQ is latched for the next instruction depends on I as
/// it was.
pub proof fn lemma_flag_change_polls_first(cpu: Model, i: Instr, r: Regs, t: Seq<Cycle>)
    requires
        i == Instr::Implied(Imp::Cli) || i == Instr::Implied(Imp::Sei) || i == Instr::Plp,
        step(cpu, i, r, t) is Some,
    ensures
        exists|nmi: bool, irq: bool| {
            &&& #[trigger] t[poll_slot(i)] == (Cycle::Poll { nmi, irq })
            &&& step(cpu, i, r, t).unwrap().latch == (r.nmi_edge || nmi || (irq && !r.p.i) || r.reset)
        },
{
    reveal(step);
    let k = poll_slot(i);
    let c = t[k];
    if let Cycle::Poll { nmi, irq } = c {
        assert(t[k] == (Cycle::Poll { nmi, irq }));
    }
}

// ---- laws of the logic instructions ----

/// `BIT` tests the operand `m` against A: the status byte takes its N bit
/// (bit 7) and V bit (bit 6) from bits 7 and 6 of `m`, its Z bit is set
/// exactly when A and `m` have no bit in common, its D, I and C bits stay,
/// and A and every other register stay.
pub proof fn lemma_bit(cpu: Model, r: Regs, m: u8)
    ensures
        flags_byte(alu(cpu, r, Alu::Bit, m).p) & 0xc0 == m & 0xc0,
        (flags_byte(alu(cpu, r, Alu::Bit, m).p) & 0x02 == 0x02) == (r.a & m == 0),
        flags_byte(alu(cpu, r, Alu::Bit, m).p) & 0x0d == flags_byte(r.p) & 0x0d,
        alu(cpu, r, Alu::Bit, m).a == r.a,
        alu(cpu, r, Alu::Bit, m).x == r.x,
        alu(cpu, r, Alu::Bit, m).y == r.y,
        alu(cpu, r, Alu::Bit, m).sp == r.sp,
        alu(cpu, r, Alu::Bit, m).pc == r.pc,
{
    let f = r.p;
    let f1 = alu(cpu, r, Alu::Bit, m).p;
    let b0 = flags_byte(f);
    let b1 = flags_byte(f1);
    let (n0, v0, d, i, z0, c) = (f.n, f.v, f.d, f.i, f.z, f.c);
    let (n1, v1, z1) = (f1.n, f1.v, f1.z);
    assert(f1.d == d && f1.i == i && f1.c == c);
    assert(n1 == (m & 0x80 != 0) && v1 == (m & 0x40 != 0) && z1 == (r.a & m == 0));
    let a = r.a;
    assert(b1 & 0xc0 == m & 0xc0 && ((b1 & 0x02 == 0x02) == (a & m == 0)) && b1 & 0x0d == b0 & 0x0d) by (bit_vector)
        requires
            n1 == (m & 0x80 != 0),
            v1 == (m & 0x40 != 0),
            z1 == (a & m == 0),
            b1 == ((if n1 { 0x80u8 } else { 0 }) | (if v1 { 0x40u8 } else { 0 }) | 0x30u8 | (if d { 0x08u8 } else { 0 })
                | (if i { 0x04u8 } else { 0 }) | (if z1 { 0x02u8 } else { 0 }) | (if c { 0x01u8 } else { 0 })),
            b0 == ((if n0 { 0x80u8 } else { 0 }) | (if v0 { 0x40u8 } else { 0 }) | 0x30u8 | (if d { 0x08u8 } else { 0 })
                | (if i { 0x04u8 } else { 0 }) | (if z0 { 0x02u8 } else { 0 }) | (if c { 0x01u8 } else { 0 })),
    ;
}

/// `BIT #nn` (65C02) sets the Z bit of the status byte exactly when A and
/// the operand have no bit in common, and changes no other status bit and
/// no register.
pub proof fn lemma_bit_immediate(cpu: Model, r: Regs, m: u8)
    ensures
        (flags_byte(alu(cpu, r, Alu::BitImm, m).p) & 0x02 == 0x02) == (r.a & m == 0),
        flags_byte(alu(cpu, r, Alu::BitImm, m).p) & 0xfd == flags_byte(r.p) & 0xfd,
        alu(cpu, r, Alu::BitImm, m).a == r.a,
        alu(cpu, r, Alu::BitImm, m).x == r.x,
        alu(cpu, r, Alu::BitImm, m).y == r.y,
        alu(cpu, r, Alu::BitImm, m).sp == r.sp,
{
    let f = r.p;
    let f1 = alu(cpu, r, Alu::BitImm, m).p;
    let b0 = flags_byte(f);
    let b1 = flags_byte(f1);
    let (n, v, d, i, z0, c) = (f.n, f.v, f.d, f.i, f.z, f.c);
    let z1 = f1.z;
    assert(f1.n == n && f1.v == v && f1.d == d && f1.i == i && f1.c == c);
    let a = r.a;
    assert(((b1 & 0x02 == 0x02) == (a & m == 0)) && b1 & 0xfd == b0 & 0xfd) by (bit_vector)
        requires
            z1 == (a & m == 0),
            b1 == ((if n { 0x80u8 } else { 0 }) | (if v { 0x40u8 } else { 0 }) | 0x30u8 | (if d { 0x08u8 } else { 0 })
                | (if i { 0x04u8 } else { 0 }) | (if z1 { 0x02u8 } else { 0 }) | (if c { 0x01u8 } else { 0 })),
            b0 == ((if n { 0x80u8 } else { 0 }) | (if v { 0x40u8 } else { 0 }) | 0x30u8 | (if d { 0x08u8 } else { 0 })
                | (if i { 0x04u8 } else { 0 }) | (if z0 { 0x02u8 } else { 0 }) | (if c { 0x01u8 } else { 0 })),
    ;
}

/// `AND`, `ORA` and `EOR` put into A the bitwise and, or and exclusive or
/// of A and the operand `m`; the status byte's N bit is bit 7 of the new
/// A, its Z bit is set exactly when the new A is zero, its V, D, I and C
/// bits stay, and the other registers stay.
pub proof fn lemma_logic(cpu: Model, r: Regs, op: Alu, m: u8)
    requires
        op == Alu::And || op == Alu::Ora || op == Alu::Eor,
    ensures
        op == Alu::And ==> alu(cpu, r, op, m).a == r.a & m,
        op == Alu::Ora ==> alu(cpu, r, op, m).a == r.a | m,
        op == Alu::Eor ==> alu(cpu, r, op, m).a == r.a ^ m,
        flags_byte(alu(cpu, r, op, m).p) & 0x80 == alu(cpu, r, op, m).a & 0x80,
        (flags_byte(alu(cpu, r, op, m).p) & 0x02 == 0x02) == (alu(cpu, r, op, m).a == 0),
        flags_byte(alu(cpu, r, op, m).p) & 0x4d == flags_byte(r.p) & 0x4d,
        alu(cpu, r, op, m).x == r.x,
        alu(cpu, r, op, m).y == r.y,
        alu(cpu, r, op, m).sp == r.sp,
        alu(cpu, r, op, m).pc == r.pc,
{
    let r1 = alu(cpu, r, op, m);
    let f = r.p;
    let f1 = r1.p;
    let b0 = flags_byte(f);
    let b1 = flags_byte(f1);
    let (n0, v, d, i, z0, c) = (f.n, f.v, f.d, f.i, f.z, f.c);
    let (n1, z1) = (f1.n, f1.z);
    let a1 = r1.a;
    assert(f1.v == v && f1.d == d && f1.i == i && f1.c == c);
    assert(n1 == (a1 >= 0x80) && z1 == (a1 == 0));
    assert(b1 & 0x80 == a1 & 0x80 && ((b1 & 0x02 == 0x02) == (a1 == 0)) && b1 & 0x4d == b0 & 0x4d) by (bit_vector)
        requires
            n1 == (a1 >= 0x80),
            z1 == (a1 == 0),
            b1 == ((if n1 { 0x80u8 } else { 0 }) | (if v { 0x40u8 } else { 0 }) | 0x30u8 | (if d { 0x08u8 } else { 0 })
                | (if i { 0x04u8 } else { 0 }) | (if z1 { 0x02u8 } else { 0 }) | (if c { 0x01u8 } else { 0 })),
            b0 == ((if n0 { 0x80u8 } else { 0 }) | (if v { 0x40u8 } else { 0 }) | 0x30u8 | (if d { 0x08u8 } else { 0 })
                | (if i { 0x04u8 } else { 0 }) | (if z0 { 0x02u8 } else { 0 }) | (if c { 0x01u8 } else { 0 })),
    ;
}

/// `CMP`, `CPX` and `CPY` compare register `g` with the operand `m`
/// without changing any register: the status byte's C bit is set exactly
/// when the register is at least `m`, its Z bit exactly when they are
/// equal, its N bit is bit 7 of the register minus `m` (modulo 256), and
/// its V, D and I bits stay.
pub proof fn lemma_compare(cpu: Model, r: Regs, g: Reg, m: u8)
    ensures
        (flags_byte(alu(cpu, r, Alu::Cmp(g), m).p) & 0x01 == 0x01) == (reg(r, g) >= m),
        (flags_byte(alu(cpu, r, Alu::Cmp(g), m).p) & 0x02 == 0x02) == (reg(r, g) == m),
        (flags_byte(alu(cpu, r, Alu::Cmp(g), m).p) & 0x80 == 0x80) == ((reg(r, g) - m + 256) % 256 >= 128),
        flags_byte(alu(cpu, r, Alu::Cmp(g), m).p) & 0x4c == flags_byte(r.p) & 0x4c,
        alu(cpu, r, Alu::Cmp(g), m).a == r.a,
        alu(cpu, r, Alu::Cmp(g), m).x == r.x,
        alu(cpu, r, Alu::Cmp(g), m).y == r.y,
        alu(cpu, r, Alu::Cmp(g), m).sp == r.sp,
{
    let f1 = alu(cpu, r, Alu::Cmp(g), m).p;
    crate::flags::lemma_flags_byte_bits(r.p);
    crate::flags::lemma_flags_byte_bits(f1);
    let b0 = flags_byte(r.p);
    let b1 = flags_byte(f1);
    assert(b1 & 0x4c == b0 & 0x4c) by {
        crate::flags::lemma_flags_byte_mask(r.p, f1);
    }
}

/// The read-modify-write operations on the operand `m`: `ASL` doubles it
/// (C gets the bit shifted out), `LSR` halves it (C gets bit 0), `ROL` and
/// `ROR` do the same with C shifted in, `INC` and `DEC` add and take one
/// (modulo 256) and leave C. In each, the status byte's N bit is bit 7 of
/// the result, its Z bit is set exactly when the result is zero, and its
/// V, D and I bits stay; no register changes.
pub proof fn lemma_modify(r: Regs, op: RmwOp, m: u8)
    requires
        !(op is Tsb) && !(op is Trb),
    ensures
        op is Asl ==> modify(r, op, m).1 == (m * 2) % 256 && modify(r, op, m).0.p.c == (m >= 128),
        op is Lsr ==> modify(r, op, m).1 == m / 2 && modify(r, op, m).0.p.c == (m % 2 == 1),
        op is Rol ==> modify(r, op, m).1 == (m * 2 + (if r.p.c { 1int } else { 0 })) % 256 && modify(r, op, m).0.p.c == (m >= 128),
        op is Ror ==> modify(r, op, m).1 == m / 2 + (if r.p.c { 128int } else { 0 }) && modify(r, op, m).0.p.c == (m % 2 == 1),
        op is Inc ==> modify(r, op, m).1 == (m + 1) % 256 && modify(r, op, m).0.p.c == r.p.c,
        op is Dec ==> modify(r, op, m).1 == (m + 255) % 256 && modify(r, op, m).0.p.c == r.p.c,
        (flags_byte(modify(r, op, m).0.p) & 0x80 == 0x80) == (modify(r, op, m).1 >= 128),
        (flags_byte(modify(r, op, m).0.p) & 0x02 == 0x02) == (modify(r, op, m).1 == 0),
        flags_byte(modify(r, op, m).0.p) & 0x4c == flags_byte(r.p) & 0x4c,
        modify(r, op, m).0.a == r.a,
        modify(r, op, m).0.x == r.x,
        modify(r, op, m).0.y == r.y,
        modify(r, op, m).0.sp == r.sp,
{
    let f1 = modify(r, op, m).0.p;
    crate::flags::lemma_flags_byte_bits(f1);
    crate::flags::lemma_flags_byte_mask(r.p, f1);
}

/// With decimal mode disabled (the NES), ADC and SBC are binary whatever D
/// says.
pub proof fn lemma_no_decimal_is_binary(cpu: Model, r: Regs, v: u8)
    requires
        r.no_decimal,
    ensures
        adc(cpu, r, v) == with_sum(r, adc_bin(r.a, v, r.p.c)),
        sbc(cpu, r, v) == with_sum(r, sbc_bin(r.a, v, r.p.c)),
{
}

} // verus!
