//! The `Cpu` interface of the 65C02.

use vstd::prelude::*;

use crate::cmos::Cmos;
use crate::flags::{flags_byte, flags_of_byte};
use crate::model::{asked, levels_read, with_reset, lemma_seen_push, run, seen_all, since, stopped_after, tie_holds, Cycle, Model, Regs};
use crate::{flag_of, with_flag, Cpu, Status, Sys};

verus! {

impl Cpu for Cmos {
    fn is_nmos(&self) -> (r: bool)
        ensures
            !r,
    {
        false
    }

    /// Asserts reset: the next instruction is the reset sequence. An
    /// instruction left stopped is finished first.
    fn reset(&mut self)
        ensures
            final(self)@ == (Regs { reset: true, latch: true, ..old(self)@ }),
            final(self).bus() == old(self).bus(),
            final(self).live() == old(self).live(),
            final(self).tie_same(*old(self)),
            final(self).partial() == old(self).partial(),
            old(self).partial() ==> final(self).resume_point() == old(self).resume_point() && final(self).pending_reset(),
    {
        if self.op_step != 0 {
            self.reset_pending = true;
        }
        self.reset = true;
        self.do_int = true;
    }

    fn pc(&self) -> (r: u16)
        ensures
            r == self@.pc,
    {
        self.pc
    }

    fn set_pc(&mut self, val: u16)
        ensures
            final(self)@ == (Regs { pc: val, ..old(self)@ }),
            final(self).bus() == old(self).bus(),
            final(self).live() == old(self).live(),
            final(self).tie_same(*old(self)),
    {
        self.pc = val;
    }

    fn sp(&self) -> (r: u8)
        ensures
            r == self@.sp,
    {
        self.sp
    }

    fn set_sp(&mut self, val: u8)
        ensures
            final(self)@ == (Regs { sp: val, ..old(self)@ }),
            final(self).bus() == old(self).bus(),
            final(self).live() == old(self).live(),
            final(self).tie_same(*old(self)),
    {
        self.sp = val;
    }

    fn a(&self) -> (r: u8)
        ensures
            r == self@.a,
    {
        self.a
    }

    fn set_a(&mut self, val: u8)
        ensures
            final(self)@ == (Regs { a: val, ..old(self)@ }),
            final(self).bus() == old(self).bus(),
            final(self).live() == old(self).live(),
            final(self).tie_same(*old(self)),
    {
        self.a = val;
    }

    fn x(&self) -> (r: u8)
        ensures
            r == self@.x,
    {
        self.x
    }

    fn set_x(&mut self, val: u8)
        ensures
            final(self)@ == (Regs { x: val, ..old(self)@ }),
            final(self).bus() == old(self).bus(),
            final(self).live() == old(self).live(),
            final(self).tie_same(*old(self)),
    {
        self.x = val;
    }

    fn y(&self) -> (r: u8)
        ensures
            r == self@.y,
    {
        self.y
    }

    fn set_y(&mut self, val: u8)
        ensures
            final(self)@ == (Regs { y: val, ..old(self)@ }),
            final(self).bus() == old(self).bus(),
            final(self).live() == old(self).live(),
            final(self).tie_same(*old(self)),
    {
        self.y = val;
    }

    fn status(&self) -> (r: u8)
        ensures
            r == flags_byte(self@.p),
    {
        self.flags.to_byte()
    }

    fn set_status(&mut self, val: u8)
        ensures
            final(self)@ == (Regs { p: flags_of_byte(val), ..old(self)@ }),
            final(self).bus() == old(self).bus(),
            final(self).live() == old(self).live(),
            final(self).tie_same(*old(self)),
    {
        self.flags.from_byte(val);
    }

    fn flag(&self, f: Status) -> (r: bool)
        ensures
            r == flag_of(self@.p, f),
    {
        match f {
            Status::N => self.flags.n,
            Status::V => self.flags.v,
            Status::D => self.flags.d,
            Status::I => self.flags.i,
            Status::Z => self.flags.z,
            Status::C => self.flags.c,
        }
    }

    #[verifier::rlimit(50)]
    fn set_flag(&mut self, f: Status, set: bool)
        ensures
            final(self)@ == (Regs { p: with_flag(old(self)@.p, f, set), ..old(self)@ }),
            final(self).bus() == old(self).bus(),
            final(self).live() == old(self).live(),
            final(self).tie_same(*old(self)),
    {
        match f {
            Status::N => self.flags.n = set,
            Status::V => self.flags.v = set,
            Status::D => self.flags.d = set,
            Status::I => self.flags.i = set,
            Status::Z => self.flags.z = set,
            Status::C => self.flags.c = set,
        }
    }

    /// Runs one instruction: fetches an opcode (or, with an interrupt
    /// pending, starts the interrupt sequence) and runs it. When the last
    /// run was stopped part way, the instruction is run again from the
    /// state in which it started, and the cycles it completed are served
    /// from a log instead of being repeated to the system.
    fn run_instruction<S: Sys>(&mut self, sys: &mut S) -> (r: Option<()>)
        ensures
            old(self).bus().is_prefix_of(final(self).bus()),
            final(self).live(),
            final(self).tied(*final(sys)),
            r is Some ==> run(Model::Cmos, old(self).next_start(), since(old(self).bus(), final(self).bus())) is Some
                && final(self)@ == with_reset(
                run(Model::Cmos, old(self).next_start(), since(old(self).bus(), final(self).bus())).unwrap(),
                old(self).pending_reset(),
            ) && !final(self).partial() && !final(self).pending_reset(),
            r is None ==> final(self).pending_reset() == old(self).pending_reset(),
            r is None ==> (stopped_after(old(self).bus(), final(self).bus()))
                && (final(self).partial() ==> final(self).resume_point() == old(self).next_start()),
            asked(old(self).stopped_log(), since(old(self).bus(), final(self).bus()), old(sys).cycles(), *final(sys)),
            !old(self).partial() ==> final(sys).cycles() == old(sys).cycles() + seen_all(since(old(self).bus(), final(self).bus()))
                && levels_read(since(old(self).bus(), final(self).bus()), old(sys).cycles(), *final(sys)),
    {
        let pending = self.reset_pending;
        if self.op_step != 0 {
            self.restore_start();
        } else {
            self.save_start();
        }
        let start = self.start;
        self.replay = 0;
        proof {
            // The run begins: the system is asked from the end of the log on.
            self.sys_base@ = sys.cycles();
            self.attempt@ = self.bus@.len() as int;
            self.live_at@ = self.bus@.len() as int;
            self.logged@ = self.log@;
            reveal(tie_holds);
            lemma_seen_push(self.bus@, self.bus@.len() as int, Cycle::Sync { on: true });
            assert(self.bus@.subrange(self.attempt@, self.live_at@) =~= self.logged@.take(0));
            assert(sys.cycles() =~= self.sys_base@ + seen_all(self.bus@.skip(self.live_at@)));
            assert(self.bus@.skip(self.live_at@) =~= Seq::<Cycle>::empty());
            assert(self.tied(*sys));
        }
        let ghost s1 = *self;
        self.op_step = 0;
        let r = self.fetch_exec(sys);
        // The start of the instruction is kept for a run that resumes it.
        self.start = start;
        self.reset_pending = pending;
        if r.is_some() {
            self.op_step = 0;
            if pending {
                // The reset asserted while the instruction was stopped.
                self.reset = true;
                self.do_int = true;
                self.reset_pending = false;
            }
        }
        proof {
            reveal(tie_holds);
            let t = since(old(self).bus@, self.bus@);
            let j = self.live_at@ - self.attempt@;
            assert(t.take(j) =~= self.bus@.subrange(self.attempt@, self.live_at@));
            assert(t.skip(j) =~= self.bus@.skip(self.live_at@));
            assert(old(self).stopped_log() == self.logged@);
            assert(sys.cycles() == old(sys).cycles() + seen_all(t.skip(j)));
            if !old(self).partial() {
                assert(t.skip(0) =~= t);
            }
        }
        // A later direct call asks the system for every cycle.
        self.replay = self.log.len();
        proof {
            reveal(tie_holds);
        }
        r
    }

    fn partial_inst(&self) -> (r: bool)
        ensures
            r == self.partial(),
    {
        self.op_step != 0
    }

    fn halted(&self) -> (r: bool)
        ensures
            r == self@.halted,
    {
        false
    }
}

} // verus!
