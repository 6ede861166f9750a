//! The CMOS 65C02.

use vstd::prelude::*;

use crate::alu::{add_binary, add_decimal_nmos, asl, lsr, rol, ror, sub_binary, sub_decimal_cmos, Sum};
use crate::flags::{flags_byte, flags_of_byte, with_nz, Flags};
use crate::mi::{crosses, from_bytes, in_page, inc_addr, offset, stack, word, AddrMath};
use crate::model::{level_ok, levels_read, 
    lemma_seen_push, seen, seen_all, tie_holds,
    abi_bus, izy_bus, add8, fetch, after_poll, decimal_cycles, run, rmw_cycles, rmw_tail, alu, at, ea, mode_pc, modify, poll, rd, since, stack_addr, step, stopped_after,
    wr, Alu, Cycle, Instr, Mode, Model, Regs, RmwOp,
};
use crate::isa::cmos_instr;
use crate::{flag_of, with_flag, Cpu, Status, Sys};

pub mod cpu;
pub mod ops;



verus! {

/// A 65C02.
#[derive(Clone)]
pub struct Cmos {
    flags: Flags,
    op_step: u32,
    pc: u16,
    base1: u16,
    op: u8,
    lo_byte: u8,
    hi_byte: u8,
    a: u8,
    x: u8,
    y: u8,
    sp: u8,
    do_int: bool,
    nmi_edge: bool,
    reset: bool,
    /// The registers at the start of the instruction, kept while it is
    /// stopped: a resumed instruction runs again from there.
    start: Regs,
    /// The events of the instruction that the system has answered.
    log: Vec<Cycle>,
    /// Reset was asserted while an instruction was stopped: it takes
    /// effect once that instruction is finished.
    reset_pending: bool,
    /// How many of the logged events the current run has gone through.
    replay: usize,
    bus: Ghost<Seq<Cycle>>,
    /// The system's record when the current run began.
    sys_base: Ghost<Seq<Cycle>>,
    /// Where in `bus` the current run began.
    attempt: Ghost<int>,
    /// Where in `bus` the current run began to ask the system.
    live_at: Ghost<int>,
    /// The log as it was when the current run began.
    logged: Ghost<Seq<Cycle>>,
}

impl Cmos {
    /// The architectural state.
    pub closed spec fn view(&self) -> Regs {
        Regs {
            pc: self.pc,
            sp: self.sp,
            a: self.a,
            x: self.x,
            y: self.y,
            p: self.flags,
            latch: self.do_int,
            nmi_edge: self.nmi_edge,
            reset: self.reset,
            halted: false,
            no_decimal: false,
        }
    }

    /// The cycles of every run so far, in order. A run that resumes a
    /// stopped instruction goes through it from its start: the cycles served
    /// from the log appear again.
    pub closed spec fn bus(&self) -> Seq<Cycle> {
        self.bus@
    }

    /// The system's record is what it was when the current run began,
    /// followed by what it records of the cycles of the run that were not
    /// taken from the log; and those cycles report the interrupt levels that
    /// the system gives.
    pub closed spec fn tied<S: Sys>(&self, sys: S) -> bool {
        tie_holds(
            self.bus@,
            self.log@,
            self.replay as int,
            self.sys_base@,
            self.attempt@,
            self.live_at@,
            self.logged@,
            sys,
        )
    }

    /// No stopped instruction is being run again: every cycle is asked of
    /// the system.
    pub closed spec fn live(&self) -> bool {
        self.replay >= self.log.len()
    }

    /// A CPU tied to the system `y0` and not running a stopped instruction
    /// again (as after `run_instruction`, or `new` with a fresh system),
    /// that kept the tie until `s1` with the system `y1`, asked the system
    /// for each of its new cycles, in order, and each reports the interrupt
    /// levels the system gives; it is still tied and live.
    pub proof fn lemma_asked_in_order<S: Sys>(s0: Cmos, s1: Cmos, y0: S, y1: S)
        requires
            s0.tied(y0),
            s0.live(),
            s1.keeps_tie(s0, y0, y1),
            s0.bus().is_prefix_of(s1.bus()),
        ensures
            s1.tied(y1),
            s1.live(),
            y1.cycles() == y0.cycles() + seen_all(since(s0.bus(), s1.bus())),
            levels_read(since(s0.bus(), s1.bus()), y0.cycles(), y1),
    {
        reveal(tie_holds);
        let la = s0.live_at@;
        crate::model::lemma_seen_since(s0.bus@, s1.bus@, la);
        let base = s0.sys_base@;
        let u0 = s0.bus@.skip(la);
        let u1 = s1.bus@.skip(la);
        let d = since(s0.bus(), s1.bus());
        assert(u1 =~= u0 + d);
        assert forall|j: int| 0 <= j < d.len() implies #[trigger] level_ok(d[j], y0.cycles() + seen_all(d.take(j)), y1) by {
            let jj = u0.len() + j;
            assert(u1[jj] == d[j]);
            assert(u1.take(jj) =~= u0 + d.take(j));
            crate::model::lemma_seen_all_add(u0, d.take(j));
            assert(level_ok(u1[jj], base + seen_all(u1.take(jj)), y1));
            assert(base + seen_all(u1.take(jj)) =~= y0.cycles() + seen_all(d.take(j)));
        }
    }

    /// A CPU as built: no cycles, no log, not tied to any run.
    pub closed spec fn fresh(&self) -> bool {
        &&& self.bus@ == Seq::<Cycle>::empty()
        &&& self.log@ == Seq::<Cycle>::empty()
        &&& self.replay == 0
        &&& self.sys_base@ == Seq::<Cycle>::empty()
        &&& self.attempt@ == 0
        &&& self.live_at@ == 0
        &&& self.logged@ == Seq::<Cycle>::empty()
    }

    /// A fresh CPU is tied to a system whose record is empty.
    pub proof fn lemma_fresh_tied<S: Sys>(c: Cmos, y: S)
        requires
            c.fresh(),
            y.cycles() == Seq::<Cycle>::empty(),
        ensures
            c.tied(y),
            c.live(),
    {
        reveal(tie_holds);
        assert(c.bus@.skip(0) =~= Seq::<Cycle>::empty());
        assert(y.cycles() =~= c.sys_base@ + seen_all(c.bus@.skip(0)));
    }

    /// A CPU whose tie is untouched stays tied to the same system.
    pub proof fn lemma_tie_same<S: Sys>(a: Cmos, b: Cmos, y: S)
        requires
            b.tie_same(a),
            a.tied(y),
        ensures
            b.tied(y),
            b.live() == a.live(),
    {
    }

    /// From `old` to `self`, with the system going from `y0` to `y1`, the
    /// tie is kept.
    pub closed spec fn keeps_tie<S: Sys>(&self, old: Cmos, y0: S, y1: S) -> bool {
        &&& old.tied(y0) ==> self.tied(y1)
        &&& self.sys_base == old.sys_base
        &&& self.attempt == old.attempt
        &&& self.logged == old.logged
        &&& old.live() ==> self.live() && self.live_at == old.live_at
    }

    spec fn ghosts_same(&self, old: Cmos) -> bool {
        &&& self.sys_base == old.sys_base
        &&& self.attempt == old.attempt
        &&& self.logged == old.logged
        &&& self.live_at == old.live_at
    }

    /// From `old` to `self`, nothing the tie looks at changed.
    pub closed spec fn tie_same(&self, old: Cmos) -> bool {
        &&& self.ghosts_same(old)
        &&& self.replay == old.replay
        &&& self.log@ == old.log@
        &&& self.bus@ == old.bus@
    }

    /// Reset was asserted while an instruction was stopped; it takes effect
    /// once that instruction is finished.
    pub closed spec fn pending_reset(&self) -> bool {
        self.reset_pending
    }

    /// The events that the stopped instruction had completed, which the
    /// next run takes from its log.
    pub closed spec fn stopped_log(&self) -> Seq<Cycle> {
        if self.op_step != 0 {
            self.log@
        } else {
            Seq::empty()
        }
    }

    /// The opcode of the instruction being executed.
    pub closed spec fn opcode(&self) -> u8 {
        self.op
    }

    /// From `s0` to `s1` the CPU ran instruction `i`: completely when `r`
    /// is `Some`, or until the system stopped it.
    pub open spec fn ran(s0: Cmos, s1: Cmos, r: Option<()>, i: Instr) -> bool {
        &&& s0.bus().is_prefix_of(s1.bus())
        &&& match r {
            Some(_) => step(Model::Cmos, i, s0@, since(s0.bus(), s1.bus())) == Some(s1@),
            None => stopped_after(s0.bus(), s1.bus()),
        }
    }

    spec fn scratch_kept(&self, old: Cmos) -> bool {
        &&& self.base1 == old.base1
        &&& self.lo_byte == old.lo_byte
        &&& self.hi_byte == old.hi_byte
        &&& self.op == old.op
    }

    // ---- bus cycles ----

    /// The next event of the log of the stopped instruction being run
    /// again, if any is left.
    fn next_logged(&self) -> (r: Option<Cycle>)
        ensures
            r is Some <==> self.replay < self.log.len(),
            r matches Some(c) ==> c == self.log@[self.replay as int],
    {
        if self.replay < self.log.len() {
            Some(self.log[self.replay])
        } else {
            None
        }
    }

    /// Goes back to the system: the rest of the log, if any, is dropped.
    fn go_live(&mut self)
        ensures
            final(self).ghosts_same(*old(self)),
            final(self).bus@ == old(self).bus@,
            final(self)@ == old(self)@,
            final(self).scratch_kept(*old(self)),
            final(self).op_step == old(self).op_step,
            final(self).log@ == (if old(self).replay <= old(self).log.len() {
                old(self).log@.take(old(self).replay as int)
            } else {
                old(self).log@
            }),
            final(self).replay == old(self).replay,
    {
        self.log.truncate(self.replay);
    }

    /// Logs a completed event, so that a run that resumes this instruction
    /// does not repeat it to the system.
    fn log_event(&mut self, c: Cycle)
        ensures
            final(self).ghosts_same(*old(self)),
            final(self).bus@ == old(self).bus@,
            final(self)@ == old(self)@,
            final(self).scratch_kept(*old(self)),
            final(self).op_step == old(self).op_step,
            final(self).log@ == old(self).log@.push(c),
            final(self).replay == final(self).log.len(),
    {
        self.log.push(c);
        self.replay = self.log.len();
    }

    /// A read cycle (served from the log when the instruction is run
    /// again after a stop).
    #[verifier::rlimit(40)]
    fn read<S: Sys>(&mut self, sys: &mut S, addr: u16) -> (r: Option<u8>)
        ensures
            final(self).bus@ == old(self).bus@.push(Cycle::Read { addr, data: r }),
            final(self)@ == old(self)@,
            final(self).scratch_kept(*old(self)),
            final(self).keeps_tie(*old(self), *old(sys), *final(sys)),
    {
        let ghost mut replayed = false;
        let val = match self.next_logged() {
            Some(Cycle::Read { addr: a, data: Some(v) }) if a == addr => {
                proof { replayed = true; }
                self.replay = self.replay + 1;
                Some(v)
            },
            _ => {
                self.go_live();
                let v = sys.read(addr);
                if let Some(b) = v {
                    self.log_event(Cycle::Read { addr, data: Some(b) });
                }
                v
            },
        };
        proof {
            let e = Cycle::Read { addr, data: val };
            if !replayed {
                assert(sys.cycles() =~= old(sys).cycles() + seen(e));
            }
            crate::model::lemma_tie_step(
                old(self).bus@, old(self).log@, old(self).replay as int, old(self).sys_base@, old(self).attempt@,
                old(self).live_at@, old(self).logged@, *old(sys), *sys, e, replayed, self.log@, self.replay as int,
            );
            self.bus@ = self.bus@.push(e);
            if replayed {
                self.live_at@ = self.bus@.len() as int;
            }
        }
        if val.is_some() {
            self.op_step = self.op_step.wrapping_add(1);
        }
        val
    }

    /// A write cycle (taken as done, from the log, when the instruction is
    /// run again after a stop).
    #[verifier::rlimit(40)]
    fn write<S: Sys>(&mut self, sys: &mut S, addr: u16, val: u8) -> (r: Option<()>)
        ensures
            final(self).bus@ == old(self).bus@.push(Cycle::Write { addr, data: val, done: r is Some }),
            final(self)@ == old(self)@,
            final(self).scratch_kept(*old(self)),
            final(self).keeps_tie(*old(self), *old(sys), *final(sys)),
    {
        let ghost mut replayed = false;
        let done = match self.next_logged() {
            Some(Cycle::Write { addr: a, data: d, done: true }) if a == addr && d == val => {
                proof { replayed = true; }
                self.replay = self.replay + 1;
                Some(())
            },
            _ => {
                self.go_live();
                let w = sys.write(addr, val);
                if w.is_some() {
                    self.log_event(Cycle::Write { addr, data: val, done: true });
                }
                w
            },
        };
        proof {
            let e = Cycle::Write { addr, data: val, done: done is Some };
            if !replayed {
                assert(sys.cycles() =~= old(sys).cycles() + seen(e));
            }
            crate::model::lemma_tie_step(
                old(self).bus@, old(self).log@, old(self).replay as int, old(self).sys_base@, old(self).attempt@,
                old(self).live_at@, old(self).logged@, *old(sys), *sys, e, replayed, self.log@, self.replay as int,
            );
            self.bus@ = self.bus@.push(e);
            if replayed {
                self.live_at@ = self.bus@.len() as int;
            }
        }
        if done.is_some() {
            self.op_step = self.op_step.wrapping_add(1);
        }
        done
    }

    #[verifier::rlimit(40)]
    fn poll_signals<S: Sys>(&mut self, sys: &mut S)
        ensures
            exists|nmi: bool, irq: bool| {
                &&& final(self).bus@ == old(self).bus@.push(Cycle::Poll { nmi, irq })
                &&& final(self)@ == after_poll(old(self)@, nmi, irq && !old(self).flags.i)
            },
            final(self).scratch_kept(*old(self)),
            final(self).keeps_tie(*old(self), *old(sys), *final(sys)),
    {
        let ghost mut replayed = false;
        let (nmi, irq) = match self.next_logged() {
            Some(Cycle::Poll { nmi, irq }) => {
                proof { replayed = true; }
                self.replay = self.replay + 1;
                (nmi, irq)
            },
            _ => {
                self.go_live();
                let nmi = sys.poll_nmi();
                let irq = sys.irq();
                self.log_event(Cycle::Poll { nmi, irq });
                (nmi, irq)
            },
        };
        if nmi {
            self.nmi_edge = true;
        }
        self.do_int = self.nmi_edge || (irq && !self.flags.i) || self.reset;
        proof {
            let e = Cycle::Poll { nmi, irq };
            if !replayed {
                assert(sys.cycles() =~= old(sys).cycles() + seen(e));
            }
            crate::model::lemma_tie_step(
                old(self).bus@, old(self).log@, old(self).replay as int, old(self).sys_base@, old(self).attempt@,
                old(self).live_at@, old(self).logged@, *old(sys), *sys, e, replayed, self.log@, self.replay as int,
            );
            self.bus@ = self.bus@.push(e);
            if replayed {
                self.live_at@ = self.bus@.len() as int;
            }
            assert(self@ == after_poll(old(self)@, nmi, irq && !old(self).flags.i));
        }
    }

    /// Interrupts are polled during the single cycle of the one-cycle NOPs.
    fn poll_prev_signals<S: Sys>(&mut self, sys: &mut S)
        ensures
            final(self).keeps_tie(*old(self), *old(sys), *final(sys)),
            exists|nmi: bool, irq: bool| {
                &&& final(self).bus@ == old(self).bus@.push(Cycle::Poll { nmi, irq })
                &&& final(self)@ == after_poll(old(self)@, nmi, irq && !old(self).flags.i)
            },
            final(self).scratch_kept(*old(self)),
    {
        self.poll_signals(sys)
    }

    fn load<S: Sys>(&mut self, sys: &mut S, addr: u16) -> (r: Option<u8>)
        ensures
            final(self).keeps_tie(*old(self), *old(sys), *final(sys)),
            exists|nmi: bool, irq: bool| {
                &&& final(self).bus@ == old(self).bus@.push(Cycle::Poll { nmi, irq }).push(Cycle::Read { addr, data: r })
                &&& final(self)@ == after_poll(old(self)@, nmi, irq && !old(self).flags.i)
            },
            final(self).scratch_kept(*old(self)),
    {
        self.poll_signals(sys);
        self.read(sys, addr)
    }

    fn store<S: Sys>(&mut self, sys: &mut S, addr: u16, val: u8) -> (r: Option<()>)
        ensures
            final(self).keeps_tie(*old(self), *old(sys), *final(sys)),
            exists|nmi: bool, irq: bool| {
                &&& final(self).bus@ == old(self).bus@.push(Cycle::Poll { nmi, irq }).push(
                    Cycle::Write { addr, data: val, done: r is Some },
                )
                &&& final(self)@ == after_poll(old(self)@, nmi, irq && !old(self).flags.i)
            },
            final(self).scratch_kept(*old(self)),
    {
        self.poll_signals(sys);
        self.write(sys, addr, val)
    }

    fn fetch_operand<S: Sys>(&mut self, sys: &mut S) -> (r: Option<u8>)
        ensures
            final(self).keeps_tie(*old(self), *old(sys), *final(sys)),
            final(self).bus@ == old(self).bus@.push(Cycle::Read { addr: old(self).pc, data: r }),
            final(self)@ == (if r is Some { at(old(self)@, offset(old(self).pc, 1)) } else { old(self)@ }),
            final(self).scratch_kept(*old(self)),
    {
        let val = self.read(sys, self.pc)?;
        self.pc = inc_addr(self.pc);
        Some(val)
    }

    fn read_stack<S: Sys>(&mut self, sys: &mut S) -> (r: Option<u8>)
        ensures
            final(self).keeps_tie(*old(self), *old(sys), *final(sys)),
            final(self).bus@ == old(self).bus@.push(Cycle::Read { addr: stack_addr(old(self).sp), data: r }),
            final(self)@ == old(self)@,
            final(self).scratch_kept(*old(self)),
    {
        self.read(sys, stack(self.sp))
    }

    fn write_stack<S: Sys>(&mut self, sys: &mut S, val: u8) -> (r: Option<()>)
        ensures
            final(self).keeps_tie(*old(self), *old(sys), *final(sys)),
            final(self).bus@ == old(self).bus@.push(
                Cycle::Write { addr: stack_addr(old(self).sp), data: val, done: r is Some },
            ),
            final(self)@ == old(self)@,
            final(self).scratch_kept(*old(self)),
    {
        self.write(sys, stack(self.sp), val)
    }
}

// ---- addressing ----
impl Cmos {
    /// Poll, then a dummy read at PC.
    fn implicit<S: Sys>(&mut self, sys: &mut S) -> (r: Option<()>)
        ensures
            final(self).keeps_tie(*old(self), *old(sys), *final(sys)),
            exists|nmi: bool, irq: bool, d: Option<u8>| {
                &&& final(self).bus@ == old(self).bus@.push(Cycle::Poll { nmi, irq }).push(
                    Cycle::Read { addr: old(self).pc, data: d },
                )
                &&& (d is Some <==> r is Some)
                &&& final(self)@ == after_poll(old(self)@, nmi, irq && !old(self).flags.i)
            },
            final(self).scratch_kept(*old(self)),
    {
        self.poll_signals(sys);
        self.read(sys, self.pc)?;
        Some(())
    }

    /// Poll, then the operand fetch.
    fn immediate<S: Sys>(&mut self, sys: &mut S) -> (r: Option<u8>)
        ensures
            final(self).keeps_tie(*old(self), *old(sys), *final(sys)),
            exists|nmi: bool, irq: bool| {
                &&& final(self).bus@ == old(self).bus@.push(Cycle::Poll { nmi, irq }).push(
                    Cycle::Read { addr: old(self).pc, data: r },
                )
                &&& final(self)@ == if r is Some {
                    at(after_poll(old(self)@, nmi, irq && !old(self).flags.i), offset(old(self).pc, 1))
                } else {
                    after_poll(old(self)@, nmi, irq && !old(self).flags.i)
                }
            },
            final(self).scratch_kept(*old(self)),
    {
        self.poll_signals(sys);
        self.fetch_operand(sys)
    }

    fn addr_zp<S: Sys>(&mut self, sys: &mut S) -> (r: Option<u16>)
        ensures
            final(self).keeps_tie(*old(self), *old(sys), *final(sys)),
            final(self).bus@ == old(self).bus@.push(
                Cycle::Read { addr: old(self).pc, data: if let Some(a) = r { Some(a as u8) } else { None } },
            ),
            r matches Some(a) ==> a < 256,
            final(self)@ == (if r is Some { at(old(self)@, offset(old(self).pc, 1)) } else { old(self)@ }),
            final(self).scratch_kept(*old(self)),
    {
        let b = self.fetch_operand(sys)?;
        Some(b as u16)
    }

    fn addr_zpi<S: Sys>(&mut self, sys: &mut S, reg: u8) -> (r: Option<u16>)
        ensures
            final(self).keeps_tie(*old(self), *old(sys), *final(sys)),
            r matches Some(a) ==> exists|b: u8, d: u8| {
                &&& final(self).bus@ == old(self).bus@.push(Cycle::Read { addr: old(self).pc, data: Some(b) }).push(
                    Cycle::Read { addr: b as u16, data: Some(d) },
                )
                &&& a == in_page(b as u16, reg as int)
            },
            r is None ==> stopped_after(old(self).bus@, final(self).bus@) && old(self).bus@.is_prefix_of(final(self).bus@),
            final(self)@ == (if r is Some { at(old(self)@, offset(old(self).pc, 1)) } else { final(self)@ }),
            final(self).lo_byte == old(self).lo_byte,
            final(self).hi_byte == old(self).hi_byte,
            final(self).op == old(self).op,
    {
        self.base1 = self.addr_zp(sys)?;
        self.read(sys, self.base1)?;
        Some(self.base1.no_carry(reg))
    }
}

// ---- addressing, continued ----
impl Cmos {
    fn addr_abs<S: Sys>(&mut self, sys: &mut S) -> (r: Option<u16>)
        ensures
            final(self).keeps_tie(*old(self), *old(sys), *final(sys)),
            r matches Some(a) ==> exists|lo: u8, hi: u8| {
                &&& final(self).bus@ == old(self).bus@.push(Cycle::Read { addr: old(self).pc, data: Some(lo) }).push(
                    Cycle::Read { addr: offset(old(self).pc, 1), data: Some(hi) },
                )
                &&& a == word(lo, hi)
                &&& final(self).lo_byte == lo
                &&& final(self).hi_byte == hi
            },
            r is None ==> stopped_after(old(self).bus@, final(self).bus@) && old(self).bus@.is_prefix_of(final(self).bus@),
            r is Some ==> final(self)@ == at(old(self)@, offset(old(self).pc, 2)),
            final(self).base1 == old(self).base1,
            final(self).op == old(self).op,
    {
        self.lo_byte = self.fetch_operand(sys)?;
        self.hi_byte = self.fetch_operand(sys)?;
        proof { crate::mi::lemma_offset_add(old(self).pc, 1, 1); }
        Some(from_bytes(self.lo_byte, self.hi_byte))
    }

    fn addr_abi<S: Sys>(&mut self, sys: &mut S, reg: u8, write: bool) -> (r: Option<u16>)
        ensures
            final(self).keeps_tie(*old(self), *old(sys), *final(sys)),
            r matches Some(a) ==> exists|lo: u8, hi: u8, d: u8| {
                &&& final(self).bus@ == #[trigger] abi_bus(old(self).bus@, old(self).pc, lo, hi, d, reg, write)
                &&& a == offset(word(lo, hi), reg as int)
            },
            r is None ==> stopped_after(old(self).bus@, final(self).bus@) && old(self).bus@.is_prefix_of(final(self).bus@),
            r is Some ==> final(self)@ == at(old(self)@, offset(old(self).pc, 2)),
            final(self).op == old(self).op,
    {
        self.base1 = self.addr_abs(sys)?;
        let ghost b2 = self.bus@;
        let mut d: u8 = 0;
        if write || self.base1.check_carry(reg) {
            d = self.read(sys, self.base1.no_carry(reg))?;
        } else {
            self.op_step = self.op_step.wrapping_add(1);
        }
        proof {
            assert(self.bus@ == abi_bus(old(self).bus@, old(self).pc, self.lo_byte, self.hi_byte, d, reg, write));
        }
        Some(crate::mi::add_addr(self.base1, reg))
    }

    /// The 16-bit vector at zero-page address `zp`; its high byte wraps
    /// within page 0.
    fn fetch_vector_zp<S: Sys>(&mut self, sys: &mut S, zp: u16) -> (r: Option<u16>)
        ensures
            final(self).keeps_tie(*old(self), *old(sys), *final(sys)),
            r matches Some(a) ==> exists|lo: u8, hi: u8| {
                &&& final(self).bus@ == old(self).bus@.push(Cycle::Read { addr: zp, data: Some(lo) }).push(
                    Cycle::Read { addr: in_page(zp, 1), data: Some(hi) },
                )
                &&& a == word(lo, hi)
                &&& final(self).lo_byte == lo
                &&& final(self).hi_byte == hi
            },
            r is None ==> stopped_after(old(self).bus@, final(self).bus@) && old(self).bus@.is_prefix_of(final(self).bus@),
            final(self)@ == old(self)@,
            final(self).base1 == old(self).base1,
            final(self).op == old(self).op,
    {
        self.lo_byte = self.read(sys, zp)?;
        self.hi_byte = self.read(sys, zp.no_carry(1u16))?;
        Some(from_bytes(self.lo_byte, self.hi_byte))
    }

    fn addr_izx<S: Sys>(&mut self, sys: &mut S) -> (r: Option<u16>)
        ensures
            final(self).keeps_tie(*old(self), *old(sys), *final(sys)),
            old(self).bus@.is_prefix_of(final(self).bus@),
            r matches Some(a) ==> {
                let t = since(old(self).bus@, final(self).bus@);
                &&& ea(Mode::IzX, old(self)@, t) == Some((t.len() as int, a))
                &&& final(self)@ == at(old(self)@, mode_pc(Mode::IzX, old(self).pc))
            },
            r is None ==> stopped_after(old(self).bus@, final(self).bus@),
            final(self).op == old(self).op,
    {
        self.base1 = self.addr_zp(sys)?;
        self.read(sys, self.base1)?;
        self.base1 = self.base1.no_carry(self.x);
        self.fetch_vector_zp(sys, self.base1)
    }

    fn addr_izy<S: Sys>(&mut self, sys: &mut S, write: bool) -> (r: Option<u16>)
        ensures
            final(self).keeps_tie(*old(self), *old(sys), *final(sys)),
            r matches Some(a) ==> exists|b: u8, lo: u8, hi: u8, d: u8| {
                &&& final(self).bus@ == #[trigger] izy_bus(old(self).bus@, old(self).pc, b, lo, hi, d, old(self).y, write)
                &&& a == offset(word(lo, hi), old(self).y as int)
            },
            r is None ==> stopped_after(old(self).bus@, final(self).bus@) && old(self).bus@.is_prefix_of(final(self).bus@),
            r is Some ==> final(self)@ == at(old(self)@, offset(old(self).pc, 1)),
            final(self).op == old(self).op,
    {
        self.base1 = self.addr_zp(sys)?;
        let ghost b = self.base1;
        self.base1 = self.fetch_vector_zp(sys, self.base1)?;
        let ghost b3 = self.bus@;
        let mut d: u8 = 0;
        if write || self.base1.check_carry(self.y) {
            d = self.read(sys, self.base1.no_carry(self.y))?;
        } else {
            self.op_step = self.op_step.wrapping_add(1);
        }
        proof {
            assert(self.bus@ == izy_bus(old(self).bus@, old(self).pc, b as u8, self.lo_byte, self.hi_byte, d, self.y, write));
        }
        Some(crate::mi::add_addr(self.base1, self.y))
    }

    /// `($nn)` (65C02): the vector at a zero-page address.
    fn addr_izp<S: Sys>(&mut self, sys: &mut S) -> (r: Option<u16>)
        ensures
            final(self).keeps_tie(*old(self), *old(sys), *final(sys)),
            r matches Some(a) ==> exists|b: u8, lo: u8, hi: u8| {
                &&& final(self).bus@ == old(self).bus@.push(Cycle::Read { addr: old(self).pc, data: Some(b) }).push(
                    Cycle::Read { addr: b as u16, data: Some(lo) },
                ).push(Cycle::Read { addr: in_page(b as u16, 1), data: Some(hi) })
                &&& a == word(lo, hi)
            },
            r is None ==> stopped_after(old(self).bus@, final(self).bus@) && old(self).bus@.is_prefix_of(final(self).bus@),
            r is Some ==> final(self)@ == at(old(self)@, offset(old(self).pc, 1)),
            final(self).op == old(self).op,
    {
        self.base1 = self.addr_zp(sys)?;
        self.fetch_vector_zp(sys, self.base1)
    }

    /// Read-modify-write at `addr`, the effective address of mode `m` of
    /// the instruction that started in state `s0`. The 65C02 reads the
    /// location a second time before writing the result.
    #[verifier::rlimit(50)]
    fn rmw<S: Sys>(&mut self, sys: &mut S, addr: u16, op: RmwOp, Ghost(s0): Ghost<Cmos>, Ghost(m): Ghost<Mode>) -> (r: Option<()>)
        requires
            s0.bus@.is_prefix_of(old(self).bus@),
            ea(m, s0@, since(s0.bus@, old(self).bus@)) == Some((old(self).bus@.len() - s0.bus@.len(), addr)),
            old(self)@ == at(s0@, mode_pc(m, s0.pc)),
        ensures
            final(self).keeps_tie(*old(self), *old(sys), *final(sys)),
            s0.bus@.is_prefix_of(final(self).bus@),
            r is Some ==> rmw_cycles(Model::Cmos, s0@, since(s0.bus@, final(self).bus@), m, op) == Some(final(self)@),
            r is None ==> stopped_after(old(self).bus@, final(self).bus@),
            final(self).op == old(self).op,
    {
        let ghost b1 = self.bus@;
        let v = self.read(sys, addr)?;
        self.lo_byte = v;
        let d = self.read(sys, addr)?;
        let ghost r1 = self@;
        self.lo_byte = self.modify(op, self.lo_byte);
        let ghost r2 = self@;
        let ghost b2 = self.bus@;
        let r = self.store(sys, addr, self.lo_byte);
        proof {
            if r is Some {
                let t1 = since(s0.bus@, b1);
                let t = since(s0.bus@, self.bus@);
                let k = t1.len() as int;
                assert forall|j: int| 0 <= j < t1.len() implies t[j] == t1[j] by {
                    assert(self.bus@[s0.bus@.len() + j] == b1[s0.bus@.len() + j]);
                }
                crate::model::lemma_ea_extend(m, s0@, t1, t);
                assert(t.len() == k + 4);
                assert(t[k] == (Cycle::Read { addr, data: Some(v) }));
                assert(t[k + 1] == (Cycle::Read { addr, data: Some(d) }));
                assert(t[k + 3] == (Cycle::Write { addr, data: self.lo_byte, done: true }));
                assert((r2, self.lo_byte) == modify(r1, op, v));
                assert(crate::model::poll(r2, t, k + 2) == Some(self@));
                assert(rmw_tail(Model::Cmos, r1, t, k, addr, op) == Some(self@));
            }
        }
        r
    }

    /// ADC or SBC at `addr`, the effective address of mode `m` of the
    /// instruction that started in state `s0`. In decimal mode the value is
    /// read first, and the extra cycle is a read at PC.
    fn decimal<S: Sys>(&mut self, sys: &mut S, addr: u16, add: bool, Ghost(s0): Ghost<Cmos>, Ghost(m): Ghost<Mode>) -> (r: Option<()>)
        requires
            s0.bus@.is_prefix_of(old(self).bus@),
            ea(m, s0@, since(s0.bus@, old(self).bus@)) == Some((old(self).bus@.len() - s0.bus@.len(), addr)),
            old(self)@ == at(s0@, mode_pc(m, s0.pc)),
        ensures
            final(self).keeps_tie(*old(self), *old(sys), *final(sys)),
            s0.bus@.is_prefix_of(final(self).bus@),
            r is Some ==> decimal_cycles(s0@, since(s0.bus@, final(self).bus@), m, add) == Some(final(self)@),
            r is None ==> stopped_after(old(self).bus@, final(self).bus@),
            final(self).op == old(self).op,
    {
        let ghost b1 = self.bus@;
        if !self.flags.d {
            let val = self.load(sys, addr)?;
            self.add_sub(add, val);
        } else {
            let val = self.read(sys, addr)?;
            self.load(sys, self.pc)?;
            self.add_sub(add, val);
        }
        proof {
            let t1 = since(s0.bus@, b1);
            let t = since(s0.bus@, self.bus@);
            let k = t1.len() as int;
            assert forall|j: int| 0 <= j < t1.len() implies t[j] == t1[j] by {
                assert(self.bus@[s0.bus@.len() + j] == b1[s0.bus@.len() + j]);
            }
            crate::model::lemma_ea_extend(m, s0@, t1, t);
            assert(t[k] == self.bus@[b1.len() as int]);
            assert(t[k + 1] == self.bus@[b1.len() as int + 1]);
            if old(self).flags.d {
                assert(t[k + 2] == self.bus@[b1.len() as int + 2]);
            }
        }
        Some(())
    }
}

// ---- control flow and signals ----
impl Cmos {
    /// The address held in the operand bytes fetched last.
    fn addr(&self) -> (r: u16)
        ensures
            r == word(self.lo_byte, self.hi_byte),
    {
        from_bytes(self.lo_byte, self.hi_byte)
    }

    /// A relative branch, taken or not.
    #[verifier::rlimit(50)]
    fn branch<S: Sys>(&mut self, sys: &mut S, taken: bool) -> (r: Option<()>)
        ensures
            final(self).keeps_tie(*old(self), *old(sys), *final(sys)),
            old(self).bus@.is_prefix_of(final(self).bus@),
            r is Some ==> crate::model::branch_taken_cycles(old(self)@, since(old(self).bus@, final(self).bus@), taken)
                == Some(final(self)@),
            r is None ==> stopped_after(old(self).bus@, final(self).bus@),
            final(self).op == old(self).op,
    {
        self.poll_signals(sys);
        let ghost r1 = self@;
        self.lo_byte = self.fetch_operand(sys)?;
        let ghost pc1 = self.pc;
        if taken {
            let ghost b2 = self.bus@;
            self.read(sys, self.pc)?;
            let offset = self.lo_byte as i8;
            proof { crate::mi::lemma_as_signed(self.lo_byte); }
            if self.pc.check_carry(offset) {
                self.poll_signals(sys);
                self.read(sys, self.pc.no_carry(offset))?;
            }
            self.pc = crate::mi::add_signed(self.pc, offset);
        }
        proof {
            let t = since(old(self).bus@, self.bus@);
            assert(t[0] == self.bus@[old(self).bus@.len() as int]);
            assert(t[1] == self.bus@[old(self).bus@.len() as int + 1]);
        }
        Some(())
    }

    /// The vector of the interrupt sequence: reset, else NMI (an NMI seen
    /// now is served too), else IRQ/BRK.
    #[verifier::rlimit(40)]
    fn signal_vector<S: Sys>(&mut self, sys: &mut S) -> (r: u16)
        ensures
            old(self).reset ==> r == 0xfffc && final(self).bus@ == old(self).bus@ && final(self)@ == old(self)@,
            !old(self).reset && old(self).nmi_edge ==> r == 0xfffa && final(self).bus@ == old(self).bus@
                && final(self)@ == (Regs { nmi_edge: false, ..old(self)@ }),
            !old(self).reset && !old(self).nmi_edge ==> exists|nmi: bool| {
                &&& final(self).bus@ == old(self).bus@.push(Cycle::NmiCheck { nmi })
                &&& r == if nmi { 0xfffau16 } else { 0xfffeu16 }
                &&& final(self)@ == old(self)@
            },
            final(self).scratch_kept(*old(self)),
            final(self).keeps_tie(*old(self), *old(sys), *final(sys)),
    {
        let ghost mut replayed = false;
        if self.reset {
            0xfffc
        } else if self.nmi_edge {
            self.nmi_edge = false;
            0xfffa
        } else {
            let nmi = match self.next_logged() {
                Some(Cycle::NmiCheck { nmi }) => {
                    proof { replayed = true; }
                    self.replay = self.replay + 1;
                    nmi
                },
                _ => {
                    self.go_live();
                    let nmi = sys.poll_nmi();
                    self.log_event(Cycle::NmiCheck { nmi });
                    nmi
                },
            };
            proof {
                let e = Cycle::NmiCheck { nmi };
                if !replayed {
                    assert(sys.cycles() =~= old(sys).cycles() + seen(e));
                }
                crate::model::lemma_tie_step(
                    old(self).bus@, old(self).log@, old(self).replay as int, old(self).sys_base@, old(self).attempt@,
                    old(self).live_at@, old(self).logged@, *old(sys), *sys, e, replayed, self.log@, self.replay as int,
                );
                self.bus@ = self.bus@.push(e);
                if replayed {
                    self.live_at@ = self.bus@.len() as int;
                }
            }
            if nmi {
                0xfffa
            } else {
                0xfffe
            }
        }
    }

    fn clear_signals(&mut self)
        ensures
            final(self).tie_same(*old(self)),
            final(self)@ == (Regs { reset: false, latch: false, ..old(self)@ }),
            final(self).bus@ == old(self).bus@,
            final(self).scratch_kept(*old(self)),
    {
        self.reset = false;
        self.do_int = false;
    }
}

// ---- ALU ----
#[allow(non_snake_case)]
impl Cmos {
    fn ORA(&mut self, val: u8)
        ensures
            final(self).tie_same(*old(self)),
            final(self)@ == alu(Model::Cmos, old(self)@, Alu::Ora, val),
            final(self).bus@ == old(self).bus@,
            final(self).scratch_kept(*old(self)),
    {
        self.a = self.a | val;
        self.flags.nz(self.a);
    }

    fn AND(&mut self, val: u8)
        ensures
            final(self).tie_same(*old(self)),
            final(self)@ == alu(Model::Cmos, old(self)@, Alu::And, val),
            final(self).bus@ == old(self).bus@,
            final(self).scratch_kept(*old(self)),
    {
        self.a = self.a & val;
        self.flags.nz(self.a);
    }

    fn EOR(&mut self, val: u8)
        ensures
            final(self).tie_same(*old(self)),
            final(self)@ == alu(Model::Cmos, old(self)@, Alu::Eor, val),
            final(self).bus@ == old(self).bus@,
            final(self).scratch_kept(*old(self)),
    {
        self.a = self.a ^ val;
        self.flags.nz(self.a);
    }

    fn set_sum(&mut self, s: Sum)
        ensures
            final(self).tie_same(*old(self)),
            final(self)@ == crate::model::with_sum(old(self)@, s),
            final(self).bus@ == old(self).bus@,
            final(self).scratch_kept(*old(self)),
    {
        self.a = s.res;
        self.flags.nz(s.nz);
        self.flags.c = s.c;
        self.flags.v = s.v;
    }

    fn ADC(&mut self, val: u8)
        ensures
            final(self).tie_same(*old(self)),
            final(self)@ == alu(Model::Cmos, old(self)@, Alu::Adc, val),
            final(self).bus@ == old(self).bus@,
            final(self).scratch_kept(*old(self)),
    {
        if self.flags.d {
            let s = add_decimal_nmos(self.a, val, self.flags.c);
            self.set_sum(Sum { nz: s.res, ..s });
        } else {
            let s = add_binary(self.a, val, self.flags.c);
            self.set_sum(s);
        }
    }

    fn SBC(&mut self, val: u8)
        ensures
            final(self).tie_same(*old(self)),
            final(self)@ == alu(Model::Cmos, old(self)@, Alu::Sbc, val),
            final(self).bus@ == old(self).bus@,
            final(self).scratch_kept(*old(self)),
    {
        if self.flags.d {
            let s = sub_decimal_cmos(self.a, val, self.flags.c);
            self.set_sum(s);
        } else {
            let s = sub_binary(self.a, val, self.flags.c);
            self.set_sum(s);
        }
    }

    /// ADC (`add`) or SBC.
    fn add_sub(&mut self, add: bool, val: u8)
        ensures
            final(self).tie_same(*old(self)),
            final(self)@ == alu(Model::Cmos, old(self)@, if add { Alu::Adc } else { Alu::Sbc }, val),
            final(self).bus@ == old(self).bus@,
            final(self).scratch_kept(*old(self)),
    {
        if add {
            self.ADC(val)
        } else {
            self.SBC(val)
        }
    }

    fn CMP(&mut self, reg: u8, val: u8)
        ensures
            final(self).tie_same(*old(self)),
            final(self)@ == crate::model::compare(old(self)@, reg, val),
            final(self).bus@ == old(self).bus@,
            final(self).scratch_kept(*old(self)),
    {
        let r = reg.wrapping_sub(val);
        self.flags.nz(r);
        self.flags.c = val <= reg;
    }

    fn BIT(&mut self, val: u8)
        ensures
            final(self).tie_same(*old(self)),
            final(self)@ == alu(Model::Cmos, old(self)@, Alu::Bit, val),
            final(self).bus@ == old(self).bus@,
            final(self).scratch_kept(*old(self)),
    {
        self.flags.z = self.a & val == 0;
        self.flags.v = val & 0x40 != 0;
        self.flags.n = val & 0x80 != 0;
    }

    fn ASL(&mut self, val: u8) -> (r: u8)
        ensures
            final(self).tie_same(*old(self)),
            (final(self)@, r) == modify(old(self)@, RmwOp::Asl, val),
            final(self).bus@ == old(self).bus@,
            final(self).scratch_kept(*old(self)),
    {
        let (r, c) = asl(val);
        self.flags.c = c;
        self.flags.nz(r);
        r
    }

    fn LSR(&mut self, val: u8) -> (r: u8)
        ensures
            final(self).tie_same(*old(self)),
            (final(self)@, r) == modify(old(self)@, RmwOp::Lsr, val),
            final(self).bus@ == old(self).bus@,
            final(self).scratch_kept(*old(self)),
    {
        let (r, c) = lsr(val);
        self.flags.c = c;
        self.flags.nz(r);
        r
    }

    fn ROL(&mut self, val: u8) -> (r: u8)
        ensures
            final(self).tie_same(*old(self)),
            (final(self)@, r) == modify(old(self)@, RmwOp::Rol, val),
            final(self).bus@ == old(self).bus@,
            final(self).scratch_kept(*old(self)),
    {
        let (r, c) = rol(val, self.flags.c);
        self.flags.c = c;
        self.flags.nz(r);
        r
    }

    fn ROR(&mut self, val: u8) -> (r: u8)
        ensures
            final(self).tie_same(*old(self)),
            (final(self)@, r) == modify(old(self)@, RmwOp::Ror, val),
            final(self).bus@ == old(self).bus@,
            final(self).scratch_kept(*old(self)),
    {
        let (r, c) = ror(val, self.flags.c);
        self.flags.c = c;
        self.flags.nz(r);
        r
    }

    fn INC(&mut self, val: u8) -> (r: u8)
        ensures
            final(self).tie_same(*old(self)),
            (final(self)@, r) == modify(old(self)@, RmwOp::Inc, val),
            final(self).bus@ == old(self).bus@,
            final(self).scratch_kept(*old(self)),
    {
        let r = val.wrapping_add(1);
        self.flags.nz(r);
        r
    }

    fn DEC(&mut self, val: u8) -> (r: u8)
        ensures
            final(self).tie_same(*old(self)),
            (final(self)@, r) == modify(old(self)@, RmwOp::Dec, val),
            final(self).bus@ == old(self).bus@,
            final(self).scratch_kept(*old(self)),
    {
        let r = val.wrapping_sub(1);
        self.flags.nz(r);
        r
    }

    fn TSB(&mut self, val: u8) -> (r: u8)
        ensures
            final(self).tie_same(*old(self)),
            (final(self)@, r) == modify(old(self)@, RmwOp::Tsb, val),
            final(self).bus@ == old(self).bus@,
            final(self).scratch_kept(*old(self)),
    {
        self.flags.z = self.a & val == 0;
        val | self.a
    }

    fn TRB(&mut self, val: u8) -> (r: u8)
        ensures
            final(self).tie_same(*old(self)),
            (final(self)@, r) == modify(old(self)@, RmwOp::Trb, val),
            final(self).bus@ == old(self).bus@,
            final(self).scratch_kept(*old(self)),
    {
        self.flags.z = self.a & val == 0;
        val & !self.a
    }

    /// The modify step of a read-modify-write: sets the flags and returns
    /// the value to write back.
    fn modify(&mut self, op: RmwOp, val: u8) -> (r: u8)
        ensures
            final(self).tie_same(*old(self)),
            (final(self)@, r) == modify(old(self)@, op, val),
            final(self).bus@ == old(self).bus@,
            final(self).scratch_kept(*old(self)),
    {
        match op {
            RmwOp::Asl => self.ASL(val),
            RmwOp::Lsr => self.LSR(val),
            RmwOp::Rol => self.ROL(val),
            RmwOp::Ror => self.ROR(val),
            RmwOp::Inc => self.INC(val),
            RmwOp::Dec => self.DEC(val),
            RmwOp::Tsb => self.TSB(val),
            RmwOp::Trb => self.TRB(val),
        }
    }
}

// ---- running instructions ----
impl Cmos {
    /// A 65C02 in its power-on state: registers clear, Z set.
    pub fn new() -> (r: Cmos)
        ensures
            r@ == (Regs {
                pc: 0,
                sp: 0,
                a: 0,
                x: 0,
                y: 0,
                p: Flags { n: false, v: false, d: false, i: false, z: true, c: false },
                latch: false,
                nmi_edge: false,
                reset: false,
                halted: false,
                no_decimal: false,
            }),
            r.bus() == Seq::<Cycle>::empty(),
            !r.partial(),
            r.live(),
            r.fresh(),
    {
        let r = Cmos {
            flags: Flags { n: false, v: false, d: false, i: false, z: true, c: false },
            op_step: 0,
            pc: 0,
            base1: 0,
            op: 0,
            lo_byte: 0,
            hi_byte: 0,
            a: 0,
            x: 0,
            y: 0,
            sp: 0,
            do_int: false,
            nmi_edge: false,
            reset: false,
            start: Regs {
                pc: 0,
                sp: 0,
                a: 0,
                x: 0,
                y: 0,
                p: Flags { n: false, v: false, d: false, i: false, z: true, c: false },
                latch: false,
                nmi_edge: false,
                reset: false,
                halted: false,
                no_decimal: false,
            },
            log: Vec::new(),
            reset_pending: false,
            replay: 0,
            bus: Ghost(Seq::empty()),
            sys_base: Ghost(Seq::empty()),
            attempt: Ghost(0),
            live_at: Ghost(0),
            logged: Ghost(Seq::empty()),
        };
        proof {
            reveal(tie_holds);
            assert(r.bus@.skip(0) =~= Seq::<Cycle>::empty());
        }
        r
    }

    /// Whether an instruction was stopped part way.
    pub closed spec fn partial(&self) -> bool {
        self.op_step != 0
    }

    #[verifier::rlimit(40)]
    fn set_sync<S: Sys>(&mut self, sys: &mut S, on: bool)
        ensures
            final(self).bus@ == old(self).bus@.push(Cycle::Sync { on }),
            final(self)@ == old(self)@,
            final(self).scratch_kept(*old(self)),
            final(self).keeps_tie(*old(self), *old(sys), *final(sys)),
    {
        let ghost mut replayed = false;
        match self.next_logged() {
            Some(Cycle::Sync { on: o }) if o == on => {
                proof { replayed = true; }
                self.replay = self.replay + 1;
            },
            _ => {
                self.go_live();
                sys.set_sync(on);
                self.log_event(Cycle::Sync { on });
            },
        }
        proof {
            let e = Cycle::Sync { on };
            if !replayed {
                assert(sys.cycles() =~= old(sys).cycles() + seen(e));
            }
            crate::model::lemma_tie_step(
                old(self).bus@, old(self).log@, old(self).replay as int, old(self).sys_base@, old(self).attempt@,
                old(self).live_at@, old(self).logged@, *old(sys), *sys, e, replayed, self.log@, self.replay as int,
            );
            self.bus@ = self.bus@.push(e);
            if replayed {
                self.live_at@ = self.bus@.len() as int;
            }
        }
    }

    /// While an instruction is stopped: the state in which it started.
    pub closed spec fn resume_point(&self) -> Regs {
        Regs { halted: false, no_decimal: false, ..self.start }
    }

    /// The state the next run starts from: the current one, or, while an
    /// instruction is stopped, the one in which it started.
    pub open spec fn next_start(&self) -> Regs {
        if self.partial() {
            self.resume_point()
        } else {
            self@
        }
    }

    /// Keeps the current state as the start of the instruction about to
    /// run, with an empty log.
    fn save_start(&mut self)
        ensures
            final(self).resume_point() == old(self)@,
            final(self)@ == old(self)@,
            final(self).bus@ == old(self).bus@,
            final(self).log@ == Seq::<Cycle>::empty(),
    {
        self.start = Regs {
            pc: self.pc,
            sp: self.sp,
            a: self.a,
            x: self.x,
            y: self.y,
            p: self.flags,
            latch: self.do_int,
            nmi_edge: self.nmi_edge,
            reset: self.reset,
            halted: false,
            no_decimal: false,
        };
        self.log.truncate(0);
    }

    /// Goes back to the state in which the stopped instruction started, to
    /// run it again.
    fn restore_start(&mut self)
        ensures
            final(self)@ == old(self).resume_point(),
            final(self).resume_point() == old(self).resume_point(),
            final(self).bus@ == old(self).bus@,
            final(self).log@ == old(self).log@,
    {
        self.pc = self.start.pc;
        self.sp = self.start.sp;
        self.a = self.start.a;
        self.x = self.start.x;
        self.y = self.start.y;
        self.flags = self.start.p;
        self.do_int = self.start.latch;
        self.nmi_edge = self.start.nmi_edge;
        self.reset = self.start.reset;
    }

    /// Fetches an opcode (or, with an interrupt pending, starts the
    /// interrupt sequence) and runs the instruction.
    #[verifier::rlimit(100)]
    fn fetch_exec<S: Sys>(&mut self, sys: &mut S) -> (r: Option<()>)
        ensures
            final(self).keeps_tie(*old(self), *old(sys), *final(sys)),
            old(self).bus@.is_prefix_of(final(self).bus@),
            r is Some ==> run(Model::Cmos, old(self)@, since(old(self).bus@, final(self).bus@)) == Some(final(self)@),
            r is None ==> stopped_after(old(self).bus@, final(self).bus@),
    {
        self.set_sync(sys, true);
        let ghost b1 = self.bus@;
        if self.do_int {
            self.read(sys, self.pc)?;
            self.op = 0x00;
        } else {
            self.op = self.fetch_operand(sys)?;
        }
        self.set_sync(sys, false);
        let ghost s1 = *self;
        let r = self.exec(sys);
        proof {
            let n = old(self).bus@.len() as int;
            let t = since(old(self).bus@, self.bus@);
            assert(s1.bus@.len() == n + 3);
            assert(s1.bus@.is_prefix_of(self.bus@));
            assert(self.bus@.subrange(0, s1.bus@.len() as int) =~= s1.bus@);
            assert(self.bus@[n] == s1.bus@[n]);
            assert(self.bus@[n + 1] == s1.bus@[n + 1]);
            assert(self.bus@[n + 2] == s1.bus@[n + 2]);
            assert(s1.bus@[n] == b1[n]);
            assert(t[0] == self.bus@[n]);
            assert(t[1] == self.bus@[n + 1]);
            assert(t[2] == self.bus@[n + 2]);
            assert(old(self).bus@.is_prefix_of(self.bus@)) by {
                assert(self.bus@.subrange(0, n) =~= old(self).bus@) by {
                    assert forall|j: int| 0 <= j < n implies self.bus@[j] == old(self).bus@[j] by {
                        assert(self.bus@[j] == s1.bus@[j]);
                    }
                }
            }
            assert(t.skip(3) =~= since(s1.bus@, self.bus@));
            assert(fetch(old(self)@, t) == Some((s1.op, s1@)));
            if r is None && !stopped_after(s1.bus@, self.bus@) {
                assert(t =~= since(old(self).bus@, s1.bus@));
            }
        }
        r
    }

    /// Runs the instruction whose opcode was fetched.
    pub(crate) fn exec<S: Sys>(&mut self, sys: &mut S) -> (r: Option<()>)
        ensures
            final(self).keeps_tie(*old(self), *old(sys), *final(sys)),
            Cmos::ran(*old(self), *final(self), r, cmos_instr(old(self).opcode())),
    {
        match self.op {
            0x00 => self.op_00(sys),
            0x01 => self.op_01(sys),
            0x02 => self.op_02(sys),
            0x03 => self.op_03(sys),
            0x04 => self.op_04(sys),
            0x05 => self.op_05(sys),
            0x06 => self.op_06(sys),
            0x07 => self.op_07(sys),
            0x08 => self.op_08(sys),
            0x09 => self.op_09(sys),
            0x0a => self.op_0a(sys),
            0x0b => self.op_0b(sys),
            0x0c => self.op_0c(sys),
            0x0d => self.op_0d(sys),
            0x0e => self.op_0e(sys),
            0x0f => self.op_0f(sys),
            0x10 => self.op_10(sys),
            0x11 => self.op_11(sys),
            0x12 => self.op_12(sys),
            0x13 => self.op_13(sys),
            0x14 => self.op_14(sys),
            0x15 => self.op_15(sys),
            0x16 => self.op_16(sys),
            0x17 => self.op_17(sys),
            0x18 => self.op_18(sys),
            0x19 => self.op_19(sys),
            0x1a => self.op_1a(sys),
            0x1b => self.op_1b(sys),
            0x1c => self.op_1c(sys),
            0x1d => self.op_1d(sys),
            0x1e => self.op_1e(sys),
            0x1f => self.op_1f(sys),
            0x20 => self.op_20(sys),
            0x21 => self.op_21(sys),
            0x22 => self.op_22(sys),
            0x23 => self.op_23(sys),
            0x24 => self.op_24(sys),
            0x25 => self.op_25(sys),
            0x26 => self.op_26(sys),
            0x27 => self.op_27(sys),
            0x28 => self.op_28(sys),
            0x29 => self.op_29(sys),
            0x2a => self.op_2a(sys),
            0x2b => self.op_2b(sys),
            0x2c => self.op_2c(sys),
            0x2d => self.op_2d(sys),
            0x2e => self.op_2e(sys),
            0x2f => self.op_2f(sys),
            0x30 => self.op_30(sys),
            0x31 => self.op_31(sys),
            0x32 => self.op_32(sys),
            0x33 => self.op_33(sys),
            0x34 => self.op_34(sys),
            0x35 => self.op_35(sys),
            0x36 => self.op_36(sys),
            0x37 => self.op_37(sys),
            0x38 => self.op_38(sys),
            0x39 => self.op_39(sys),
            0x3a => self.op_3a(sys),
            0x3b => self.op_3b(sys),
            0x3c => self.op_3c(sys),
            0x3d => self.op_3d(sys),
            0x3e => self.op_3e(sys),
            0x3f => self.op_3f(sys),
            0x40 => self.op_40(sys),
            0x41 => self.op_41(sys),
            0x42 => self.op_42(sys),
            0x43 => self.op_43(sys),
            0x44 => self.op_44(sys),
            0x45 => self.op_45(sys),
            0x46 => self.op_46(sys),
            0x47 => self.op_47(sys),
            0x48 => self.op_48(sys),
            0x49 => self.op_49(sys),
            0x4a => self.op_4a(sys),
            0x4b => self.op_4b(sys),
            0x4c => self.op_4c(sys),
            0x4d => self.op_4d(sys),
            0x4e => self.op_4e(sys),
            0x4f => self.op_4f(sys),
            0x50 => self.op_50(sys),
            0x51 => self.op_51(sys),
            0x52 => self.op_52(sys),
            0x53 => self.op_53(sys),
            0x54 => self.op_54(sys),
            0x55 => self.op_55(sys),
            0x56 => self.op_56(sys),
            0x57 => self.op_57(sys),
            0x58 => self.op_58(sys),
            0x59 => self.op_59(sys),
            0x5a => self.op_5a(sys),
            0x5b => self.op_5b(sys),
            0x5c => self.op_5c(sys),
            0x5d => self.op_5d(sys),
            0x5e => self.op_5e(sys),
            0x5f => self.op_5f(sys),
            0x60 => self.op_60(sys),
            0x61 => self.op_61(sys),
            0x62 => self.op_62(sys),
            0x63 => self.op_63(sys),
            0x64 => self.op_64(sys),
            0x65 => self.op_65(sys),
            0x66 => self.op_66(sys),
            0x67 => self.op_67(sys),
            0x68 => self.op_68(sys),
            0x69 => self.op_69(sys),
            0x6a => self.op_6a(sys),
            0x6b => self.op_6b(sys),
            0x6c => self.op_6c(sys),
            0x6d => self.op_6d(sys),
            0x6e => self.op_6e(sys),
            0x6f => self.op_6f(sys),
            0x70 => self.op_70(sys),
            0x71 => self.op_71(sys),
            0x72 => self.op_72(sys),
            0x73 => self.op_73(sys),
            0x74 => self.op_74(sys),
            0x75 => self.op_75(sys),
            0x76 => self.op_76(sys),
            0x77 => self.op_77(sys),
            0x78 => self.op_78(sys),
            0x79 => self.op_79(sys),
            0x7a => self.op_7a(sys),
            0x7b => self.op_7b(sys),
            0x7c => self.op_7c(sys),
            0x7d => self.op_7d(sys),
            0x7e => self.op_7e(sys),
            0x7f => self.op_7f(sys),
            0x80 => self.op_80(sys),
            0x81 => self.op_81(sys),
            0x82 => self.op_82(sys),
            0x83 => self.op_83(sys),
            0x84 => self.op_84(sys),
            0x85 => self.op_85(sys),
            0x86 => self.op_86(sys),
            0x87 => self.op_87(sys),
            0x88 => self.op_88(sys),
            0x89 => self.op_89(sys),
            0x8a => self.op_8a(sys),
            0x8b => self.op_8b(sys),
            0x8c => self.op_8c(sys),
            0x8d => self.op_8d(sys),
            0x8e => self.op_8e(sys),
            0x8f => self.op_8f(sys),
            0x90 => self.op_90(sys),
            0x91 => self.op_91(sys),
            0x92 => self.op_92(sys),
            0x93 => self.op_93(sys),
            0x94 => self.op_94(sys),
            0x95 => self.op_95(sys),
            0x96 => self.op_96(sys),
            0x97 => self.op_97(sys),
            0x98 => self.op_98(sys),
            0x99 => self.op_99(sys),
            0x9a => self.op_9a(sys),
            0x9b => self.op_9b(sys),
            0x9c => self.op_9c(sys),
            0x9d => self.op_9d(sys),
            0x9e => self.op_9e(sys),
            0x9f => self.op_9f(sys),
            0xa0 => self.op_a0(sys),
            0xa1 => self.op_a1(sys),
            0xa2 => self.op_a2(sys),
            0xa3 => self.op_a3(sys),
            0xa4 => self.op_a4(sys),
            0xa5 => self.op_a5(sys),
            0xa6 => self.op_a6(sys),
            0xa7 => self.op_a7(sys),
            0xa8 => self.op_a8(sys),
            0xa9 => self.op_a9(sys),
            0xaa => self.op_aa(sys),
            0xab => self.op_ab(sys),
            0xac => self.op_ac(sys),
            0xad => self.op_ad(sys),
            0xae => self.op_ae(sys),
            0xaf => self.op_af(sys),
            0xb0 => self.op_b0(sys),
            0xb1 => self.op_b1(sys),
            0xb2 => self.op_b2(sys),
            0xb3 => self.op_b3(sys),
            0xb4 => self.op_b4(sys),
            0xb5 => self.op_b5(sys),
            0xb6 => self.op_b6(sys),
            0xb7 => self.op_b7(sys),
            0xb8 => self.op_b8(sys),
            0xb9 => self.op_b9(sys),
            0xba => self.op_ba(sys),
            0xbb => self.op_bb(sys),
            0xbc => self.op_bc(sys),
            0xbd => self.op_bd(sys),
            0xbe => self.op_be(sys),
            0xbf => self.op_bf(sys),
            0xc0 => self.op_c0(sys),
            0xc1 => self.op_c1(sys),
            0xc2 => self.op_c2(sys),
            0xc3 => self.op_c3(sys),
            0xc4 => self.op_c4(sys),
            0xc5 => self.op_c5(sys),
            0xc6 => self.op_c6(sys),
            0xc7 => self.op_c7(sys),
            0xc8 => self.op_c8(sys),
            0xc9 => self.op_c9(sys),
            0xca => self.op_ca(sys),
            0xcb => self.op_cb(sys),
            0xcc => self.op_cc(sys),
            0xcd => self.op_cd(sys),
            0xce => self.op_ce(sys),
            0xcf => self.op_cf(sys),
            0xd0 => self.op_d0(sys),
            0xd1 => self.op_d1(sys),
            0xd2 => self.op_d2(sys),
            0xd3 => self.op_d3(sys),
            0xd4 => self.op_d4(sys),
            0xd5 => self.op_d5(sys),
            0xd6 => self.op_d6(sys),
            0xd7 => self.op_d7(sys),
            0xd8 => self.op_d8(sys),
            0xd9 => self.op_d9(sys),
            0xda => self.op_da(sys),
            0xdb => self.op_db(sys),
            0xdc => self.op_dc(sys),
            0xdd => self.op_dd(sys),
            0xde => self.op_de(sys),
            0xdf => self.op_df(sys),
            0xe0 => self.op_e0(sys),
            0xe1 => self.op_e1(sys),
            0xe2 => self.op_e2(sys),
            0xe3 => self.op_e3(sys),
            0xe4 => self.op_e4(sys),
            0xe5 => self.op_e5(sys),
            0xe6 => self.op_e6(sys),
            0xe7 => self.op_e7(sys),
            0xe8 => self.op_e8(sys),
            0xe9 => self.op_e9(sys),
            0xea => self.op_ea(sys),
            0xeb => self.op_eb(sys),
            0xec => self.op_ec(sys),
            0xed => self.op_ed(sys),
            0xee => self.op_ee(sys),
            0xef => self.op_ef(sys),
            0xf0 => self.op_f0(sys),
            0xf1 => self.op_f1(sys),
            0xf2 => self.op_f2(sys),
            0xf3 => self.op_f3(sys),
            0xf4 => self.op_f4(sys),
            0xf5 => self.op_f5(sys),
            0xf6 => self.op_f6(sys),
            0xf7 => self.op_f7(sys),
            0xf8 => self.op_f8(sys),
            0xf9 => self.op_f9(sys),
            0xfa => self.op_fa(sys),
            0xfb => self.op_fb(sys),
            0xfc => self.op_fc(sys),
            0xfd => self.op_fd(sys),
            0xfe => self.op_fe(sys),
            _ => self.op_ff(sys),
        }
    }
}

} // verus!
