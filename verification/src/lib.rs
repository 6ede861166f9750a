//! A cycle-accurate emulator of the NMOS 6502 and the CMOS 65C02.

use vstd::prelude::*;

pub use crate::cmos::Cmos;
pub use crate::nmos::Nmos;

pub mod alu;
pub mod cmos;
pub mod flags;
pub mod isa;
pub mod mi;
pub mod model;
pub mod nmos;

verus! {

/// How long an NMI signal stays asserted, as seen by the CPU.
#[derive(Copy, Clone, PartialEq, PartialOrd, Debug)]
pub enum NmiLength {
    One,
    Two,
    Plenty,
}

/// The levels on the interrupt inputs at one point of the system's record.
#[derive(Copy, Clone)]
pub struct InputLines {
    /// The IRQ input.
    pub irq: bool,
    /// The NMI input.
    pub nmi: bool,
    /// How long the NMI lasts.
    pub nmi_length: NmiLength,
}

/// A flag of the status register.
#[derive(Copy, Clone)]
pub enum Status {
    N,
    V,
    D,
    I,
    Z,
    C,
}

/// The value of flag `f` in `p`.
pub open spec fn flag_of(p: flags::Flags, f: Status) -> bool {
    match f {
        Status::N => p.n,
        Status::V => p.v,
        Status::D => p.d,
        Status::I => p.i,
        Status::Z => p.z,
        Status::C => p.c,
    }
}

/// `p` with flag `f` set to `set`.
pub open spec fn with_flag(p: flags::Flags, f: Status, set: bool) -> flags::Flags {
    match f {
        Status::N => flags::Flags { n: set, ..p },
        Status::V => flags::Flags { v: set, ..p },
        Status::D => flags::Flags { d: set, ..p },
        Status::I => flags::Flags { i: set, ..p },
        Status::Z => flags::Flags { z: set, ..p },
        Status::C => flags::Flags { c: set, ..p },
    }
}

/// Setting a flag changes that flag only.
pub proof fn lemma_flag_set(p: flags::Flags, f: Status, set: bool, g: Status)
    ensures
        flag_of(with_flag(p, f, set), f) == set,
        g != f ==> flag_of(with_flag(p, f, set), g) == flag_of(p, g),
{
}

/// A CPU: registers, interrupt inputs, and execution one instruction at a
/// time.
pub trait Cpu: Clone {
    fn is_nmos(&self) -> bool;

    /// Asserts reset: the next instruction is the reset sequence. An
    /// instruction that the system stopped is finished first.
    fn reset(&mut self);

    fn pc(&self) -> u16;

    fn set_pc(&mut self, val: u16);

    fn sp(&self) -> u8;

    fn set_sp(&mut self, val: u8);

    fn a(&self) -> u8;

    fn set_a(&mut self, val: u8);

    fn x(&self) -> u8;

    fn set_x(&mut self, val: u8);

    fn y(&self) -> u8;

    fn set_y(&mut self, val: u8);

    /// The status register in byte form.
    fn status(&self) -> u8;

    fn set_status(&mut self, val: u8);

    fn flag(&self, f: Status) -> bool;

    fn set_flag(&mut self, f: Status, set: bool);

    /// Runs one instruction, or the rest of one that the system stopped.
    /// `None` when the system stopped the CPU (or it jammed).
    fn run_instruction<S: Sys>(&mut self, sys: &mut S) -> Option<()>;

    /// Whether an instruction was stopped part way.
    fn partial_inst(&self) -> bool;

    /// Whether the CPU is jammed.
    fn halted(&self) -> bool;
}

/// The system's record of what it was asked, as `Sys::cycles` gives it.
pub type SysRecord = Seq<model::Cycle>;

/// The system around the CPU: memory, devices and interrupt lines. Every
/// bus cycle goes through it, and it can stop the CPU at any read or write
/// by returning `None`; the next run of the CPU goes on with that
/// instruction, from the cycle that was stopped.
pub trait Sys {
    /// The reads, writes, NMI polls and SYNC changes the system has been
    /// asked for, in order, with its answers: a read as `Cycle::Read`, a
    /// write as `Cycle::Write`, a poll of the NMI edge as `Cycle::NmiCheck`,
    /// a change of SYNC as `Cycle::Sync`.
    ///
    /// This is a record for proofs only: code run outside the verifier never
    /// calls it.
    spec fn cycles(&self) -> SysRecord;

    /// The levels on the interrupt inputs while the system's record is
    /// `rec`, as `irq`, `peek_nmi` and `nmi_length` report them (for proofs
    /// only). Calls of the CPU do not rewrite them: they change only with
    /// the record.
    spec fn lines_at(&self, rec: SysRecord) -> InputLines;

    /// A read cycle.
    fn read(&mut self, addr: u16) -> (r: Option<u8>)
        ensures
            final(self).cycles() == old(self).cycles().push(model::Cycle::Read { addr, data: r }),
            forall|rec: SysRecord| #[trigger] final(self).lines_at(rec) == old(self).lines_at(rec),
    ;

    /// A write cycle.
    fn write(&mut self, addr: u16, val: u8) -> (r: Option<()>)
        ensures
            final(self).cycles() == old(self).cycles().push(
                model::Cycle::Write { addr, data: val, done: r is Some },
            ),
            forall|rec: SysRecord| #[trigger] final(self).lines_at(rec) == old(self).lines_at(rec),
    ;

    /// The SYNC output: set during an opcode fetch.
    fn set_sync(&mut self, set: bool)
        ensures
            final(self).cycles() == old(self).cycles().push(model::Cycle::Sync { on: set }),
            forall|rec: SysRecord| #[trigger] final(self).lines_at(rec) == old(self).lines_at(rec),
    ;

    /// Whether an NMI edge occurred since the last poll; the edge is taken.
    fn poll_nmi(&mut self) -> (r: bool)
        ensures
            final(self).cycles() == old(self).cycles().push(model::Cycle::NmiCheck { nmi: r }),
            forall|rec: SysRecord| #[trigger] final(self).lines_at(rec) == old(self).lines_at(rec),
    ;

    /// Whether the NMI input is asserted, without consuming it.
    fn peek_nmi(&self) -> (r: bool)
        ensures
            r == self.lines_at(self.cycles()).nmi,
    ;

    /// How long the current NMI lasts.
    fn nmi_length(&self) -> (r: NmiLength)
        ensures
            r == self.lines_at(self.cycles()).nmi_length,
    ;

    /// Whether the IRQ input is asserted.
    fn irq(&self) -> (r: bool)
        ensures
            r == self.lines_at(self.cycles()).irq,
    ;
}

} // verus!
