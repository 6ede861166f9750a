//! The opcodes of the 65C02, one function each.

use vstd::prelude::*;

use crate::cmos::Cmos;
use crate::mi::{add_addr, from_bytes, hi, inc_addr, lo, stack, AddrMath};
use crate::model::{lemma_since, regs_kept, dec8, inc8, since, step, Alu, Cond, Imp, Instr, Mode, Reg, RmwOp, Src};
use crate::Sys;

verus! {

impl Cmos {
    /// `BRK`
    #[verifier::rlimit(100)]
    pub fn op_00<S: Sys>(&mut self, sys: &mut S) -> (r: Option<()>)
        ensures
            final(self).keeps_tie(*old(self), *old(sys), *final(sys)),
            Cmos::ran(*old(self), *final(self), r, Instr::Brk),
    {
        proof { reveal(step); }
        // PC is incremented for BRK but not NMI/IRQ
        if self.do_int {
            self.read(sys, self.pc)?;
        } else {
            self.fetch_operand(sys)?;
        }

        // The stack writes become reads for RES
        if self.reset {
            self.read_stack(sys)?;
        } else {
            self.write_stack(sys, hi(self.pc))?;
        }
        self.sp = dec8(self.sp);

        if self.reset {
            self.read_stack(sys)?;
        } else {
            self.write_stack(sys, lo(self.pc))?;
        }
        self.sp = dec8(self.sp);

        self.base1 = self.signal_vector(sys);

        if self.reset {
            self.read_stack(sys)?;
        } else if self.do_int {
            // Clear B flag in saved status for NMI/IRQ
            self.write_stack(sys, self.flags.to_byte() & 0b1110_1111)?;
        } else {
            self.write_stack(sys, self.flags.to_byte())?;
        }
        self.sp = dec8(self.sp);

        self.lo_byte = self.read(sys, self.base1)?;
        self.hi_byte = self.read(sys, inc_addr(self.base1))?;
        self.pc = from_bytes(self.lo_byte, self.hi_byte);

        self.flags.i = true;
        self.flags.d = false;
        self.clear_signals();

        proof {
            let t = since(old(self).bus@, self.bus@);
            crate::model::lemma_add8_add(old(self).sp, -1, -1);
            crate::model::lemma_add8_add(old(self).sp, -2, -1);
            lemma_since(old(self).bus@, self.bus@);
        }
        Some(())
    }

    /// `ORA ($nn,X)`
    pub fn op_01<S: Sys>(&mut self, sys: &mut S) -> (r: Option<()>)
        ensures
            final(self).keeps_tie(*old(self), *old(sys), *final(sys)),
            Cmos::ran(*old(self), *final(self), r, Instr::Load(Mode::IzX, Alu::Ora)),
    {
        proof { reveal(step); }
        self.base1 = self.addr_izx(sys)?;
        let val = self.load(sys, self.base1)?;
        self.ORA(val);
        Some(())
    }

    /// `NOP #nn`
    pub fn op_02<S: Sys>(&mut self, sys: &mut S) -> (r: Option<()>)
        ensures
            final(self).keeps_tie(*old(self), *old(sys), *final(sys)),
            Cmos::ran(*old(self), *final(self), r, Instr::Imm(Alu::Nop)),
    {
        proof { reveal(step); }
        self.immediate(sys)?;
        Some(())
    }

    /// `NOP` (single-cycle)
    pub fn op_03<S: Sys>(&mut self, sys: &mut S) -> (r: Option<()>)
        ensures
            final(self).keeps_tie(*old(self), *old(sys), *final(sys)),
            Cmos::ran(*old(self), *final(self), r, Instr::Nop1),
            r is Some,
    {
        proof { reveal(step); }
        self.poll_prev_signals(sys);
        Some(())
    }

    /// `TSB $nn`
    pub fn op_04<S: Sys>(&mut self, sys: &mut S) -> (r: Option<()>)
        ensures
            final(self).keeps_tie(*old(self), *old(sys), *final(sys)),
            Cmos::ran(*old(self), *final(self), r, Instr::Rmw(Mode::Zp, RmwOp::Tsb)),
    {
        proof { reveal(step); }
        self.base1 = self.addr_zp(sys)?;
        self.rmw(sys, self.base1, RmwOp::Tsb, Ghost(*old(self)), Ghost(Mode::Zp))
    }

    /// `ORA $nn`
    pub fn op_05<S: Sys>(&mut self, sys: &mut S) -> (r: Option<()>)
        ensures
            final(self).keeps_tie(*old(self), *old(sys), *final(sys)),
            Cmos::ran(*old(self), *final(self), r, Instr::Load(Mode::Zp, Alu::Ora)),
    {
        proof { reveal(step); }
        self.base1 = self.addr_zp(sys)?;
        let val = self.load(sys, self.base1)?;
        self.ORA(val);
        Some(())
    }

    /// `ASL $nn`
    pub fn op_06<S: Sys>(&mut self, sys: &mut S) -> (r: Option<()>)
        ensures
            final(self).keeps_tie(*old(self), *old(sys), *final(sys)),
            Cmos::ran(*old(self), *final(self), r, Instr::Rmw(Mode::Zp, RmwOp::Asl)),
    {
        proof { reveal(step); }
        self.base1 = self.addr_zp(sys)?;
        self.rmw(sys, self.base1, RmwOp::Asl, Ghost(*old(self)), Ghost(Mode::Zp))
    }

    /// `NOP` (single-cycle)
    pub fn op_07<S: Sys>(&mut self, sys: &mut S) -> (r: Option<()>)
        ensures
            final(self).keeps_tie(*old(self), *old(sys), *final(sys)),
            Cmos::ran(*old(self), *final(self), r, Instr::Nop1),
            r is Some,
    {
        proof { reveal(step); }
        self.poll_prev_signals(sys);
        Some(())
    }

    /// `PHP`
    #[verifier::rlimit(50)]
    pub fn op_08<S: Sys>(&mut self, sys: &mut S) -> (r: Option<()>)
        ensures
            final(self).keeps_tie(*old(self), *old(sys), *final(sys)),
            Cmos::ran(*old(self), *final(self), r, Instr::Php),
    {
        proof { reveal(step); }
        self.read(sys, self.pc)?;
        self.store(sys, stack(self.sp), self.flags.to_byte())?;
        self.sp = dec8(self.sp);
        proof {
            let t = since(old(self).bus@, self.bus@);
            lemma_since(old(self).bus@, self.bus@);
        }
        Some(())
    }

    /// `ORA #nn`
    pub fn op_09<S: Sys>(&mut self, sys: &mut S) -> (r: Option<()>)
        ensures
            final(self).keeps_tie(*old(self), *old(sys), *final(sys)),
            Cmos::ran(*old(self), *final(self), r, Instr::Imm(Alu::Ora)),
    {
        proof { reveal(step); }
        let val = self.immediate(sys)?;
        self.ORA(val);
        Some(())
    }

    /// `ASL A`
    pub fn op_0a<S: Sys>(&mut self, sys: &mut S) -> (r: Option<()>)
        ensures
            final(self).keeps_tie(*old(self), *old(sys), *final(sys)),
            Cmos::ran(*old(self), *final(self), r, Instr::Implied(Imp::OnA(RmwOp::Asl))),
    {
        proof { reveal(step); }
        self.implicit(sys)?;
        self.a = self.ASL(self.a);
        Some(())
    }

    /// `NOP` (single-cycle)
    pub fn op_0b<S: Sys>(&mut self, sys: &mut S) -> (r: Option<()>)
        ensures
            final(self).keeps_tie(*old(self), *old(sys), *final(sys)),
            Cmos::ran(*old(self), *final(self), r, Instr::Nop1),
            r is Some,
    {
        proof { reveal(step); }
        self.poll_prev_signals(sys);
        Some(())
    }

    /// `TSB $nnnn`
    pub fn op_0c<S: Sys>(&mut self, sys: &mut S) -> (r: Option<()>)
        ensures
            final(self).keeps_tie(*old(self), *old(sys), *final(sys)),
            Cmos::ran(*old(self), *final(self), r, Instr::Rmw(Mode::Abs, RmwOp::Tsb)),
    {
        proof { reveal(step); }
        self.base1 = self.addr_abs(sys)?;
        self.rmw(sys, self.base1, RmwOp::Tsb, Ghost(*old(self)), Ghost(Mode::Abs))
    }

    /// `ORA $nnnn`
    pub fn op_0d<S: Sys>(&mut self, sys: &mut S) -> (r: Option<()>)
        ensures
            final(self).keeps_tie(*old(self), *old(sys), *final(sys)),
            Cmos::ran(*old(self), *final(self), r, Instr::Load(Mode::Abs, Alu::Ora)),
    {
        proof { reveal(step); }
        self.base1 = self.addr_abs(sys)?;
        let val = self.load(sys, self.base1)?;
        self.ORA(val);
        Some(())
    }

    /// `ASL $nnnn`
    pub fn op_0e<S: Sys>(&mut self, sys: &mut S) -> (r: Option<()>)
        ensures
            final(self).keeps_tie(*old(self), *old(sys), *final(sys)),
            Cmos::ran(*old(self), *final(self), r, Instr::Rmw(Mode::Abs, RmwOp::Asl)),
    {
        proof { reveal(step); }
        self.base1 = self.addr_abs(sys)?;
        self.rmw(sys, self.base1, RmwOp::Asl, Ghost(*old(self)), Ghost(Mode::Abs))
    }

    /// `NOP` (single-cycle)
    pub fn op_0f<S: Sys>(&mut self, sys: &mut S) -> (r: Option<()>)
        ensures
            final(self).keeps_tie(*old(self), *old(sys), *final(sys)),
            Cmos::ran(*old(self), *final(self), r, Instr::Nop1),
            r is Some,
    {
        proof { reveal(step); }
        self.poll_prev_signals(sys);
        Some(())
    }

    /// `BPL`
    pub fn op_10<S: Sys>(&mut self, sys: &mut S) -> (r: Option<()>)
        ensures
            final(self).keeps_tie(*old(self), *old(sys), *final(sys)),
            Cmos::ran(*old(self), *final(self), r, Instr::Branch(Cond::Pl)),
    {
        proof { reveal(step); }
        self.branch(sys, !self.flags.n)
    }

    /// `ORA ($nn),Y`
    pub fn op_11<S: Sys>(&mut self, sys: &mut S) -> (r: Option<()>)
        ensures
            final(self).keeps_tie(*old(self), *old(sys), *final(sys)),
            Cmos::ran(*old(self), *final(self), r, Instr::Load(Mode::IzY(false), Alu::Ora)),
    {
        proof { reveal(step); }
        self.base1 = self.addr_izy(sys, false)?;
        let val = self.load(sys, self.base1)?;
        self.ORA(val);
        Some(())
    }

    /// `ORA ($nn)`
    pub fn op_12<S: Sys>(&mut self, sys: &mut S) -> (r: Option<()>)
        ensures
            final(self).keeps_tie(*old(self), *old(sys), *final(sys)),
            Cmos::ran(*old(self), *final(self), r, Instr::Load(Mode::Izp, Alu::Ora)),
    {
        proof { reveal(step); }
        self.base1 = self.addr_izp(sys)?;
        let val = self.load(sys, self.base1)?;
        self.ORA(val);
        Some(())
    }

    /// `NOP` (single-cycle)
    pub fn op_13<S: Sys>(&mut self, sys: &mut S) -> (r: Option<()>)
        ensures
            final(self).keeps_tie(*old(self), *old(sys), *final(sys)),
            Cmos::ran(*old(self), *final(self), r, Instr::Nop1),
            r is Some,
    {
        proof { reveal(step); }
        self.poll_prev_signals(sys);
        Some(())
    }

    /// `TRB $nn`
    pub fn op_14<S: Sys>(&mut self, sys: &mut S) -> (r: Option<()>)
        ensures
            final(self).keeps_tie(*old(self), *old(sys), *final(sys)),
            Cmos::ran(*old(self), *final(self), r, Instr::Rmw(Mode::Zp, RmwOp::Trb)),
    {
        proof { reveal(step); }
        self.base1 = self.addr_zp(sys)?;
        self.rmw(sys, self.base1, RmwOp::Trb, Ghost(*old(self)), Ghost(Mode::Zp))
    }

    /// `ORA $nn,X`
    pub fn op_15<S: Sys>(&mut self, sys: &mut S) -> (r: Option<()>)
        ensures
            final(self).keeps_tie(*old(self), *old(sys), *final(sys)),
            Cmos::ran(*old(self), *final(self), r, Instr::Load(Mode::ZpX, Alu::Ora)),
    {
        proof { reveal(step); }
        self.base1 = self.addr_zpi(sys, self.x)?;
        let val = self.load(sys, self.base1)?;
        self.ORA(val);
        Some(())
    }

    /// `ASL $nn,X`
    pub fn op_16<S: Sys>(&mut self, sys: &mut S) -> (r: Option<()>)
        ensures
            final(self).keeps_tie(*old(self), *old(sys), *final(sys)),
            Cmos::ran(*old(self), *final(self), r, Instr::Rmw(Mode::ZpX, RmwOp::Asl)),
    {
        proof { reveal(step); }
        self.base1 = self.addr_zpi(sys, self.x)?;
        self.rmw(sys, self.base1, RmwOp::Asl, Ghost(*old(self)), Ghost(Mode::ZpX))
    }

    /// `NOP` (single-cycle)
    pub fn op_17<S: Sys>(&mut self, sys: &mut S) -> (r: Option<()>)
        ensures
            final(self).keeps_tie(*old(self), *old(sys), *final(sys)),
            Cmos::ran(*old(self), *final(self), r, Instr::Nop1),
            r is Some,
    {
        proof { reveal(step); }
        self.poll_prev_signals(sys);
        Some(())
    }

    /// `CLC`
    pub fn op_18<S: Sys>(&mut self, sys: &mut S) -> (r: Option<()>)
        ensures
            final(self).keeps_tie(*old(self), *old(sys), *final(sys)),
            Cmos::ran(*old(self), *final(self), r, Instr::Implied(Imp::Clc)),
    {
        proof { reveal(step); }
        self.implicit(sys)?;
        self.flags.c = false;
        Some(())
    }

    /// `ORA $nnnn,Y`
    pub fn op_19<S: Sys>(&mut self, sys: &mut S) -> (r: Option<()>)
        ensures
            final(self).keeps_tie(*old(self), *old(sys), *final(sys)),
            Cmos::ran(*old(self), *final(self), r, Instr::Load(Mode::AbsY(false), Alu::Ora)),
    {
        proof { reveal(step); }
        self.base1 = self.addr_abi(sys, self.y, false)?;
        let val = self.load(sys, self.base1)?;
        self.ORA(val);
        Some(())
    }

    /// `INC A`
    pub fn op_1a<S: Sys>(&mut self, sys: &mut S) -> (r: Option<()>)
        ensures
            final(self).keeps_tie(*old(self), *old(sys), *final(sys)),
            Cmos::ran(*old(self), *final(self), r, Instr::Implied(Imp::OnA(RmwOp::Inc))),
    {
        proof { reveal(step); }
        self.implicit(sys)?;
        self.a = self.INC(self.a);
        Some(())
    }

    /// `NOP` (single-cycle)
    pub fn op_1b<S: Sys>(&mut self, sys: &mut S) -> (r: Option<()>)
        ensures
            final(self).keeps_tie(*old(self), *old(sys), *final(sys)),
            Cmos::ran(*old(self), *final(self), r, Instr::Nop1),
            r is Some,
    {
        proof { reveal(step); }
        self.poll_prev_signals(sys);
        Some(())
    }

    /// `TRB $nnnn`
    pub fn op_1c<S: Sys>(&mut self, sys: &mut S) -> (r: Option<()>)
        ensures
            final(self).keeps_tie(*old(self), *old(sys), *final(sys)),
            Cmos::ran(*old(self), *final(self), r, Instr::Rmw(Mode::Abs, RmwOp::Trb)),
    {
        proof { reveal(step); }
        self.base1 = self.addr_abs(sys)?;
        self.rmw(sys, self.base1, RmwOp::Trb, Ghost(*old(self)), Ghost(Mode::Abs))
    }

    /// `ORA $nnnn,X`
    pub fn op_1d<S: Sys>(&mut self, sys: &mut S) -> (r: Option<()>)
        ensures
            final(self).keeps_tie(*old(self), *old(sys), *final(sys)),
            Cmos::ran(*old(self), *final(self), r, Instr::Load(Mode::AbsX(false), Alu::Ora)),
    {
        proof { reveal(step); }
        self.base1 = self.addr_abi(sys, self.x, false)?;
        let val = self.load(sys, self.base1)?;
        self.ORA(val);
        Some(())
    }

    /// `ASL $nnnn,X`
    pub fn op_1e<S: Sys>(&mut self, sys: &mut S) -> (r: Option<()>)
        ensures
            final(self).keeps_tie(*old(self), *old(sys), *final(sys)),
            Cmos::ran(*old(self), *final(self), r, Instr::Rmw(Mode::AbsX(false), RmwOp::Asl)),
    {
        proof { reveal(step); }
        // One cycle less if no px
        self.base1 = self.addr_abi(sys, self.x, false)?;
        self.rmw(sys, self.base1, RmwOp::Asl, Ghost(*old(self)), Ghost(Mode::AbsX(false)))
    }

    /// `NOP` (single-cycle)
    pub fn op_1f<S: Sys>(&mut self, sys: &mut S) -> (r: Option<()>)
        ensures
            final(self).keeps_tie(*old(self), *old(sys), *final(sys)),
            Cmos::ran(*old(self), *final(self), r, Instr::Nop1),
            r is Some,
    {
        proof { reveal(step); }
        self.poll_prev_signals(sys);
        Some(())
    }

    /// `JSR $nnnn`
    #[verifier::rlimit(50)]
    pub fn op_20<S: Sys>(&mut self, sys: &mut S) -> (r: Option<()>)
        ensures
            final(self).keeps_tie(*old(self), *old(sys), *final(sys)),
            Cmos::ran(*old(self), *final(self), r, Instr::Jsr),
    {
        proof { reveal(step); }
        self.lo_byte = self.fetch_operand(sys)?;
        self.read_stack(sys)?;
        self.write_stack(sys, hi(self.pc))?;
        self.sp = dec8(self.sp);
        self.write_stack(sys, lo(self.pc))?;
        self.sp = dec8(self.sp);
        self.poll_signals(sys);
        self.hi_byte = self.fetch_operand(sys)?;
        self.pc = from_bytes(self.lo_byte, self.hi_byte);
        proof {
            let t = since(old(self).bus@, self.bus@);
            crate::model::lemma_add8_add(old(self).sp, -1, -1);
            lemma_since(old(self).bus@, self.bus@);
        }
        Some(())
    }

    /// `AND ($nn,X)`
    pub fn op_21<S: Sys>(&mut self, sys: &mut S) -> (r: Option<()>)
        ensures
            final(self).keeps_tie(*old(self), *old(sys), *final(sys)),
            Cmos::ran(*old(self), *final(self), r, Instr::Load(Mode::IzX, Alu::And)),
    {
        proof { reveal(step); }
        self.base1 = self.addr_izx(sys)?;
        let val = self.load(sys, self.base1)?;
        self.AND(val);
        Some(())
    }

    /// `NOP #nn`
    pub fn op_22<S: Sys>(&mut self, sys: &mut S) -> (r: Option<()>)
        ensures
            final(self).keeps_tie(*old(self), *old(sys), *final(sys)),
            Cmos::ran(*old(self), *final(self), r, Instr::Imm(Alu::Nop)),
    {
        proof { reveal(step); }
        self.immediate(sys)?;
        Some(())
    }

    /// `NOP` (single-cycle)
    pub fn op_23<S: Sys>(&mut self, sys: &mut S) -> (r: Option<()>)
        ensures
            final(self).keeps_tie(*old(self), *old(sys), *final(sys)),
            Cmos::ran(*old(self), *final(self), r, Instr::Nop1),
            r is Some,
    {
        proof { reveal(step); }
        self.poll_prev_signals(sys);
        Some(())
    }

    /// `BIT $nn`
    pub fn op_24<S: Sys>(&mut self, sys: &mut S) -> (r: Option<()>)
        ensures
            final(self).keeps_tie(*old(self), *old(sys), *final(sys)),
            Cmos::ran(*old(self), *final(self), r, Instr::Load(Mode::Zp, Alu::Bit)),
    {
        proof { reveal(step); }
        self.base1 = self.addr_zp(sys)?;
        let val = self.load(sys, self.base1)?;
        self.BIT(val);
        Some(())
    }

    /// `AND $nn`
    pub fn op_25<S: Sys>(&mut self, sys: &mut S) -> (r: Option<()>)
        ensures
            final(self).keeps_tie(*old(self), *old(sys), *final(sys)),
            Cmos::ran(*old(self), *final(self), r, Instr::Load(Mode::Zp, Alu::And)),
    {
        proof { reveal(step); }
        self.base1 = self.addr_zp(sys)?;
        let val = self.load(sys, self.base1)?;
        self.AND(val);
        Some(())
    }

    /// `ROL $nn`
    pub fn op_26<S: Sys>(&mut self, sys: &mut S) -> (r: Option<()>)
        ensures
            final(self).keeps_tie(*old(self), *old(sys), *final(sys)),
            Cmos::ran(*old(self), *final(self), r, Instr::Rmw(Mode::Zp, RmwOp::Rol)),
    {
        proof { reveal(step); }
        self.base1 = self.addr_zp(sys)?;
        self.rmw(sys, self.base1, RmwOp::Rol, Ghost(*old(self)), Ghost(Mode::Zp))
    }

    /// `NOP` (single-cycle)
    pub fn op_27<S: Sys>(&mut self, sys: &mut S) -> (r: Option<()>)
        ensures
            final(self).keeps_tie(*old(self), *old(sys), *final(sys)),
            Cmos::ran(*old(self), *final(self), r, Instr::Nop1),
            r is Some,
    {
        proof { reveal(step); }
        self.poll_prev_signals(sys);
        Some(())
    }

    /// `PLP`
    #[verifier::rlimit(50)]
    pub fn op_28<S: Sys>(&mut self, sys: &mut S) -> (r: Option<()>)
        ensures
            final(self).keeps_tie(*old(self), *old(sys), *final(sys)),
            Cmos::ran(*old(self), *final(self), r, Instr::Plp),
    {
        proof { reveal(step); }
        self.read(sys, self.pc)?;
        self.read_stack(sys)?;
        self.sp = inc8(self.sp);
        let p = self.load(sys, stack(self.sp))?;
        self.flags.from_byte(p);
        proof {
            let t = since(old(self).bus@, self.bus@);
            lemma_since(old(self).bus@, self.bus@);
        }
        Some(())
    }

    /// `AND #nn`
    pub fn op_29<S: Sys>(&mut self, sys: &mut S) -> (r: Option<()>)
        ensures
            final(self).keeps_tie(*old(self), *old(sys), *final(sys)),
            Cmos::ran(*old(self), *final(self), r, Instr::Imm(Alu::And)),
    {
        proof { reveal(step); }
        let val = self.immediate(sys)?;
        self.AND(val);
        Some(())
    }

    /// `ROL A`
    pub fn op_2a<S: Sys>(&mut self, sys: &mut S) -> (r: Option<()>)
        ensures
            final(self).keeps_tie(*old(self), *old(sys), *final(sys)),
            Cmos::ran(*old(self), *final(self), r, Instr::Implied(Imp::OnA(RmwOp::Rol))),
    {
        proof { reveal(step); }
        self.implicit(sys)?;
        self.a = self.ROL(self.a);
        Some(())
    }

    /// `NOP` (single-cycle)
    pub fn op_2b<S: Sys>(&mut self, sys: &mut S) -> (r: Option<()>)
        ensures
            final(self).keeps_tie(*old(self), *old(sys), *final(sys)),
            Cmos::ran(*old(self), *final(self), r, Instr::Nop1),
            r is Some,
    {
        proof { reveal(step); }
        self.poll_prev_signals(sys);
        Some(())
    }

    /// `BIT $nnnn`
    pub fn op_2c<S: Sys>(&mut self, sys: &mut S) -> (r: Option<()>)
        ensures
            final(self).keeps_tie(*old(self), *old(sys), *final(sys)),
            Cmos::ran(*old(self), *final(self), r, Instr::Load(Mode::Abs, Alu::Bit)),
    {
        proof { reveal(step); }
        self.base1 = self.addr_abs(sys)?;
        let val = self.load(sys, self.base1)?;
        self.BIT(val);
        Some(())
    }

    /// `AND $nnnn`
    pub fn op_2d<S: Sys>(&mut self, sys: &mut S) -> (r: Option<()>)
        ensures
            final(self).keeps_tie(*old(self), *old(sys), *final(sys)),
            Cmos::ran(*old(self), *final(self), r, Instr::Load(Mode::Abs, Alu::And)),
    {
        proof { reveal(step); }
        self.base1 = self.addr_abs(sys)?;
        let val = self.load(sys, self.base1)?;
        self.AND(val);
        Some(())
    }

    /// `ROL $nnnn`
    pub fn op_2e<S: Sys>(&mut self, sys: &mut S) -> (r: Option<()>)
        ensures
            final(self).keeps_tie(*old(self), *old(sys), *final(sys)),
            Cmos::ran(*old(self), *final(self), r, Instr::Rmw(Mode::Abs, RmwOp::Rol)),
    {
        proof { reveal(step); }
        self.base1 = self.addr_abs(sys)?;
        self.rmw(sys, self.base1, RmwOp::Rol, Ghost(*old(self)), Ghost(Mode::Abs))
    }

    /// `NOP` (single-cycle)
    pub fn op_2f<S: Sys>(&mut self, sys: &mut S) -> (r: Option<()>)
        ensures
            final(self).keeps_tie(*old(self), *old(sys), *final(sys)),
            Cmos::ran(*old(self), *final(self), r, Instr::Nop1),
            r is Some,
    {
        proof { reveal(step); }
        self.poll_prev_signals(sys);
        Some(())
    }

    /// `BMI`
    pub fn op_30<S: Sys>(&mut self, sys: &mut S) -> (r: Option<()>)
        ensures
            final(self).keeps_tie(*old(self), *old(sys), *final(sys)),
            Cmos::ran(*old(self), *final(self), r, Instr::Branch(Cond::Mi)),
    {
        proof { reveal(step); }
        self.branch(sys, self.flags.n)
    }

    /// `AND ($nn),Y`
    pub fn op_31<S: Sys>(&mut self, sys: &mut S) -> (r: Option<()>)
        ensures
            final(self).keeps_tie(*old(self), *old(sys), *final(sys)),
            Cmos::ran(*old(self), *final(self), r, Instr::Load(Mode::IzY(false), Alu::And)),
    {
        proof { reveal(step); }
        self.base1 = self.addr_izy(sys, false)?;
        let val = self.load(sys, self.base1)?;
        self.AND(val);
        Some(())
    }

    /// `AND ($nn)`
    pub fn op_32<S: Sys>(&mut self, sys: &mut S) -> (r: Option<()>)
        ensures
            final(self).keeps_tie(*old(self), *old(sys), *final(sys)),
            Cmos::ran(*old(self), *final(self), r, Instr::Load(Mode::Izp, Alu::And)),
    {
        proof { reveal(step); }
        self.base1 = self.addr_izp(sys)?;
        let val = self.load(sys, self.base1)?;
        self.AND(val);
        Some(())
    }

    /// `NOP` (single-cycle)
    pub fn op_33<S: Sys>(&mut self, sys: &mut S) -> (r: Option<()>)
        ensures
            final(self).keeps_tie(*old(self), *old(sys), *final(sys)),
            Cmos::ran(*old(self), *final(self), r, Instr::Nop1),
            r is Some,
    {
        proof { reveal(step); }
        self.poll_prev_signals(sys);
        Some(())
    }

    /// `BIT $nn,X`
    pub fn op_34<S: Sys>(&mut self, sys: &mut S) -> (r: Option<()>)
        ensures
            final(self).keeps_tie(*old(self), *old(sys), *final(sys)),
            Cmos::ran(*old(self), *final(self), r, Instr::Load(Mode::ZpX, Alu::Bit)),
    {
        proof { reveal(step); }
        self.base1 = self.addr_zpi(sys, self.x)?;
        let val = self.load(sys, self.base1)?;
        self.BIT(val);
        Some(())
    }

    /// `AND $nn,X`
    pub fn op_35<S: Sys>(&mut self, sys: &mut S) -> (r: Option<()>)
        ensures
            final(self).keeps_tie(*old(self), *old(sys), *final(sys)),
            Cmos::ran(*old(self), *final(self), r, Instr::Load(Mode::ZpX, Alu::And)),
    {
        proof { reveal(step); }
        self.base1 = self.addr_zpi(sys, self.x)?;
        let val = self.load(sys, self.base1)?;
        self.AND(val);
        Some(())
    }

    /// `ROL $nn,X`
    pub fn op_36<S: Sys>(&mut self, sys: &mut S) -> (r: Option<()>)
        ensures
            final(self).keeps_tie(*old(self), *old(sys), *final(sys)),
            Cmos::ran(*old(self), *final(self), r, Instr::Rmw(Mode::ZpX, RmwOp::Rol)),
    {
        proof { reveal(step); }
        self.base1 = self.addr_zpi(sys, self.x)?;
        self.rmw(sys, self.base1, RmwOp::Rol, Ghost(*old(self)), Ghost(Mode::ZpX))
    }

    /// `NOP` (single-cycle)
    pub fn op_37<S: Sys>(&mut self, sys: &mut S) -> (r: Option<()>)
        ensures
            final(self).keeps_tie(*old(self), *old(sys), *final(sys)),
            Cmos::ran(*old(self), *final(self), r, Instr::Nop1),
            r is Some,
    {
        proof { reveal(step); }
        self.poll_prev_signals(sys);
        Some(())
    }

    /// `SEC`
    pub fn op_38<S: Sys>(&mut self, sys: &mut S) -> (r: Option<()>)
        ensures
            final(self).keeps_tie(*old(self), *old(sys), *final(sys)),
            Cmos::ran(*old(self), *final(self), r, Instr::Implied(Imp::Sec)),
    {
        proof { reveal(step); }
        self.implicit(sys)?;
        self.flags.c = true;
        Some(())
    }

    /// `AND $nnnn,Y`
    pub fn op_39<S: Sys>(&mut self, sys: &mut S) -> (r: Option<()>)
        ensures
            final(self).keeps_tie(*old(self), *old(sys), *final(sys)),
            Cmos::ran(*old(self), *final(self), r, Instr::Load(Mode::AbsY(false), Alu::And)),
    {
        proof { reveal(step); }
        self.base1 = self.addr_abi(sys, self.y, false)?;
        let val = self.load(sys, self.base1)?;
        self.AND(val);
        Some(())
    }

    /// `DEC A`
    pub fn op_3a<S: Sys>(&mut self, sys: &mut S) -> (r: Option<()>)
        ensures
            final(self).keeps_tie(*old(self), *old(sys), *final(sys)),
            Cmos::ran(*old(self), *final(self), r, Instr::Implied(Imp::OnA(RmwOp::Dec))),
    {
        proof { reveal(step); }
        self.implicit(sys)?;
        self.a = self.DEC(self.a);
        Some(())
    }

    /// `NOP` (single-cycle)
    pub fn op_3b<S: Sys>(&mut self, sys: &mut S) -> (r: Option<()>)
        ensures
            final(self).keeps_tie(*old(self), *old(sys), *final(sys)),
            Cmos::ran(*old(self), *final(self), r, Instr::Nop1),
            r is Some,
    {
        proof { reveal(step); }
        self.poll_prev_signals(sys);
        Some(())
    }

    /// `BIT $nnnn,X`
    pub fn op_3c<S: Sys>(&mut self, sys: &mut S) -> (r: Option<()>)
        ensures
            final(self).keeps_tie(*old(self), *old(sys), *final(sys)),
            Cmos::ran(*old(self), *final(self), r, Instr::Load(Mode::AbsX(false), Alu::Bit)),
    {
        proof { reveal(step); }
        self.base1 = self.addr_abi(sys, self.x, false)?;
        let val = self.load(sys, self.base1)?;
        self.BIT(val);
        Some(())
    }

    /// `AND $nnnn,X`
    pub fn op_3d<S: Sys>(&mut self, sys: &mut S) -> (r: Option<()>)
        ensures
            final(self).keeps_tie(*old(self), *old(sys), *final(sys)),
            Cmos::ran(*old(self), *final(self), r, Instr::Load(Mode::AbsX(false), Alu::And)),
    {
        proof { reveal(step); }
        self.base1 = self.addr_abi(sys, self.x, false)?;
        let val = self.load(sys, self.base1)?;
        self.AND(val);
        Some(())
    }

    /// `ROL $nnnn,X`
    pub fn op_3e<S: Sys>(&mut self, sys: &mut S) -> (r: Option<()>)
        ensures
            final(self).keeps_tie(*old(self), *old(sys), *final(sys)),
            Cmos::ran(*old(self), *final(self), r, Instr::Rmw(Mode::AbsX(false), RmwOp::Rol)),
    {
        proof { reveal(step); }
        // One cycle less if no px
        self.base1 = self.addr_abi(sys, self.x, false)?;
        self.rmw(sys, self.base1, RmwOp::Rol, Ghost(*old(self)), Ghost(Mode::AbsX(false)))
    }

    /// `NOP` (single-cycle)
    pub fn op_3f<S: Sys>(&mut self, sys: &mut S) -> (r: Option<()>)
        ensures
            final(self).keeps_tie(*old(self), *old(sys), *final(sys)),
            Cmos::ran(*old(self), *final(self), r, Instr::Nop1),
            r is Some,
    {
        proof { reveal(step); }
        self.poll_prev_signals(sys);
        Some(())
    }

    /// `RTI`
    #[verifier::rlimit(50)]
    pub fn op_40<S: Sys>(&mut self, sys: &mut S) -> (r: Option<()>)
        ensures
            final(self).keeps_tie(*old(self), *old(sys), *final(sys)),
            Cmos::ran(*old(self), *final(self), r, Instr::Rti),
    {
        proof { reveal(step); }
        self.read(sys, self.pc)?;
        self.read_stack(sys)?;
        self.sp = inc8(self.sp);
        let p = self.read_stack(sys)?;
        self.sp = inc8(self.sp);
        self.flags.from_byte(p);
        self.lo_byte = self.read_stack(sys)?;
        self.sp = inc8(self.sp);
        self.poll_signals(sys);
        self.hi_byte = self.read_stack(sys)?;
        self.pc = from_bytes(self.lo_byte, self.hi_byte);
        proof {
            let t = since(old(self).bus@, self.bus@);
            crate::model::lemma_add8_add(old(self).sp, 1, 1);
            crate::model::lemma_add8_add(old(self).sp, 2, 1);
            lemma_since(old(self).bus@, self.bus@);
        }
        Some(())
    }

    /// `EOR ($nn,X)`
    pub fn op_41<S: Sys>(&mut self, sys: &mut S) -> (r: Option<()>)
        ensures
            final(self).keeps_tie(*old(self), *old(sys), *final(sys)),
            Cmos::ran(*old(self), *final(self), r, Instr::Load(Mode::IzX, Alu::Eor)),
    {
        proof { reveal(step); }
        self.base1 = self.addr_izx(sys)?;
        let val = self.load(sys, self.base1)?;
        self.EOR(val);
        Some(())
    }

    /// `NOP #nn`
    pub fn op_42<S: Sys>(&mut self, sys: &mut S) -> (r: Option<()>)
        ensures
            final(self).keeps_tie(*old(self), *old(sys), *final(sys)),
            Cmos::ran(*old(self), *final(self), r, Instr::Imm(Alu::Nop)),
    {
        proof { reveal(step); }
        self.immediate(sys)?;
        Some(())
    }

    /// `NOP` (single-cycle)
    pub fn op_43<S: Sys>(&mut self, sys: &mut S) -> (r: Option<()>)
        ensures
            final(self).keeps_tie(*old(self), *old(sys), *final(sys)),
            Cmos::ran(*old(self), *final(self), r, Instr::Nop1),
            r is Some,
    {
        proof { reveal(step); }
        self.poll_prev_signals(sys);
        Some(())
    }

    /// `NOP $nn`
    pub fn op_44<S: Sys>(&mut self, sys: &mut S) -> (r: Option<()>)
        ensures
            final(self).keeps_tie(*old(self), *old(sys), *final(sys)),
            Cmos::ran(*old(self), *final(self), r, Instr::Load(Mode::Zp, Alu::Nop)),
    {
        proof { reveal(step); }
        self.base1 = self.addr_zp(sys)?;
        self.load(sys, self.base1)?;
        Some(())
    }

    /// `EOR $nn`
    pub fn op_45<S: Sys>(&mut self, sys: &mut S) -> (r: Option<()>)
        ensures
            final(self).keeps_tie(*old(self), *old(sys), *final(sys)),
            Cmos::ran(*old(self), *final(self), r, Instr::Load(Mode::Zp, Alu::Eor)),
    {
        proof { reveal(step); }
        self.base1 = self.addr_zp(sys)?;
        let val = self.load(sys, self.base1)?;
        self.EOR(val);
        Some(())
    }

    /// `LSR $nn`
    pub fn op_46<S: Sys>(&mut self, sys: &mut S) -> (r: Option<()>)
        ensures
            final(self).keeps_tie(*old(self), *old(sys), *final(sys)),
            Cmos::ran(*old(self), *final(self), r, Instr::Rmw(Mode::Zp, RmwOp::Lsr)),
    {
        proof { reveal(step); }
        self.base1 = self.addr_zp(sys)?;
        self.rmw(sys, self.base1, RmwOp::Lsr, Ghost(*old(self)), Ghost(Mode::Zp))
    }

    /// `NOP` (single-cycle)
    pub fn op_47<S: Sys>(&mut self, sys: &mut S) -> (r: Option<()>)
        ensures
            final(self).keeps_tie(*old(self), *old(sys), *final(sys)),
            Cmos::ran(*old(self), *final(self), r, Instr::Nop1),
            r is Some,
    {
        proof { reveal(step); }
        self.poll_prev_signals(sys);
        Some(())
    }

    /// `PHA`
    #[verifier::rlimit(50)]
    pub fn op_48<S: Sys>(&mut self, sys: &mut S) -> (r: Option<()>)
        ensures
            final(self).keeps_tie(*old(self), *old(sys), *final(sys)),
            Cmos::ran(*old(self), *final(self), r, Instr::Push(Reg::A)),
    {
        proof { reveal(step); }
        self.read(sys, self.pc)?;
        self.store(sys, stack(self.sp), self.a)?;
        self.sp = dec8(self.sp);
        proof {
            let t = since(old(self).bus@, self.bus@);
            lemma_since(old(self).bus@, self.bus@);
        }
        Some(())
    }

    /// `EOR #nn`
    pub fn op_49<S: Sys>(&mut self, sys: &mut S) -> (r: Option<()>)
        ensures
            final(self).keeps_tie(*old(self), *old(sys), *final(sys)),
            Cmos::ran(*old(self), *final(self), r, Instr::Imm(Alu::Eor)),
    {
        proof { reveal(step); }
        let val = self.immediate(sys)?;
        self.EOR(val);
        Some(())
    }

    /// `LSR A`
    pub fn op_4a<S: Sys>(&mut self, sys: &mut S) -> (r: Option<()>)
        ensures
            final(self).keeps_tie(*old(self), *old(sys), *final(sys)),
            Cmos::ran(*old(self), *final(self), r, Instr::Implied(Imp::OnA(RmwOp::Lsr))),
    {
        proof { reveal(step); }
        self.implicit(sys)?;
        self.a = self.LSR(self.a);
        Some(())
    }

    /// `NOP` (single-cycle)
    pub fn op_4b<S: Sys>(&mut self, sys: &mut S) -> (r: Option<()>)
        ensures
            final(self).keeps_tie(*old(self), *old(sys), *final(sys)),
            Cmos::ran(*old(self), *final(self), r, Instr::Nop1),
            r is Some,
    {
        proof { reveal(step); }
        self.poll_prev_signals(sys);
        Some(())
    }

    /// `JMP $nnnn`
    #[verifier::rlimit(50)]
    pub fn op_4c<S: Sys>(&mut self, sys: &mut S) -> (r: Option<()>)
        ensures
            final(self).keeps_tie(*old(self), *old(sys), *final(sys)),
            Cmos::ran(*old(self), *final(self), r, Instr::JmpAbs),
    {
        proof { reveal(step); }
        self.lo_byte = self.fetch_operand(sys)?;
        self.poll_signals(sys);
        self.hi_byte = self.fetch_operand(sys)?;
        self.pc = from_bytes(self.lo_byte, self.hi_byte);
        proof {
            let t = since(old(self).bus@, self.bus@);
            lemma_since(old(self).bus@, self.bus@);
        }
        Some(())
    }

    /// `EOR $nnnn`
    pub fn op_4d<S: Sys>(&mut self, sys: &mut S) -> (r: Option<()>)
        ensures
            final(self).keeps_tie(*old(self), *old(sys), *final(sys)),
            Cmos::ran(*old(self), *final(self), r, Instr::Load(Mode::Abs, Alu::Eor)),
    {
        proof { reveal(step); }
        self.base1 = self.addr_abs(sys)?;
        let val = self.load(sys, self.base1)?;
        self.EOR(val);
        Some(())
    }

    /// `LSR $nnnn`
    pub fn op_4e<S: Sys>(&mut self, sys: &mut S) -> (r: Option<()>)
        ensures
            final(self).keeps_tie(*old(self), *old(sys), *final(sys)),
            Cmos::ran(*old(self), *final(self), r, Instr::Rmw(Mode::Abs, RmwOp::Lsr)),
    {
        proof { reveal(step); }
        self.base1 = self.addr_abs(sys)?;
        self.rmw(sys, self.base1, RmwOp::Lsr, Ghost(*old(self)), Ghost(Mode::Abs))
    }

    /// `NOP` (single-cycle)
    pub fn op_4f<S: Sys>(&mut self, sys: &mut S) -> (r: Option<()>)
        ensures
            final(self).keeps_tie(*old(self), *old(sys), *final(sys)),
            Cmos::ran(*old(self), *final(self), r, Instr::Nop1),
            r is Some,
    {
        proof { reveal(step); }
        self.poll_prev_signals(sys);
        Some(())
    }

    /// `BVC`
    pub fn op_50<S: Sys>(&mut self, sys: &mut S) -> (r: Option<()>)
        ensures
            final(self).keeps_tie(*old(self), *old(sys), *final(sys)),
            Cmos::ran(*old(self), *final(self), r, Instr::Branch(Cond::Vc)),
    {
        proof { reveal(step); }
        self.branch(sys, !self.flags.v)
    }

    /// `EOR ($nn),Y`
    pub fn op_51<S: Sys>(&mut self, sys: &mut S) -> (r: Option<()>)
        ensures
            final(self).keeps_tie(*old(self), *old(sys), *final(sys)),
            Cmos::ran(*old(self), *final(self), r, Instr::Load(Mode::IzY(false), Alu::Eor)),
    {
        proof { reveal(step); }
        self.base1 = self.addr_izy(sys, false)?;
        let val = self.load(sys, self.base1)?;
        self.EOR(val);
        Some(())
    }

    /// `EOR ($nn)`
    pub fn op_52<S: Sys>(&mut self, sys: &mut S) -> (r: Option<()>)
        ensures
            final(self).keeps_tie(*old(self), *old(sys), *final(sys)),
            Cmos::ran(*old(self), *final(self), r, Instr::Load(Mode::Izp, Alu::Eor)),
    {
        proof { reveal(step); }
        self.base1 = self.addr_izp(sys)?;
        let val = self.load(sys, self.base1)?;
        self.EOR(val);
        Some(())
    }

    /// `NOP` (single-cycle)
    pub fn op_53<S: Sys>(&mut self, sys: &mut S) -> (r: Option<()>)
        ensures
            final(self).keeps_tie(*old(self), *old(sys), *final(sys)),
            Cmos::ran(*old(self), *final(self), r, Instr::Nop1),
            r is Some,
    {
        proof { reveal(step); }
        self.poll_prev_signals(sys);
        Some(())
    }

    /// `NOP $nn,X`
    pub fn op_54<S: Sys>(&mut self, sys: &mut S) -> (r: Option<()>)
        ensures
            final(self).keeps_tie(*old(self), *old(sys), *final(sys)),
            Cmos::ran(*old(self), *final(self), r, Instr::Load(Mode::ZpX, Alu::Nop)),
    {
        proof { reveal(step); }
        self.base1 = self.addr_zpi(sys, self.x)?;
        self.load(sys, self.base1)?;
        Some(())
    }

    /// `EOR $nn,X`
    pub fn op_55<S: Sys>(&mut self, sys: &mut S) -> (r: Option<()>)
        ensures
            final(self).keeps_tie(*old(self), *old(sys), *final(sys)),
            Cmos::ran(*old(self), *final(self), r, Instr::Load(Mode::ZpX, Alu::Eor)),
    {
        proof { reveal(step); }
        self.base1 = self.addr_zpi(sys, self.x)?;
        let val = self.load(sys, self.base1)?;
        self.EOR(val);
        Some(())
    }

    /// `LSR $nn,X`
    pub fn op_56<S: Sys>(&mut self, sys: &mut S) -> (r: Option<()>)
        ensures
            final(self).keeps_tie(*old(self), *old(sys), *final(sys)),
            Cmos::ran(*old(self), *final(self), r, Instr::Rmw(Mode::ZpX, RmwOp::Lsr)),
    {
        proof { reveal(step); }
        self.base1 = self.addr_zpi(sys, self.x)?;
        self.rmw(sys, self.base1, RmwOp::Lsr, Ghost(*old(self)), Ghost(Mode::ZpX))
    }

    /// `NOP` (single-cycle)
    pub fn op_57<S: Sys>(&mut self, sys: &mut S) -> (r: Option<()>)
        ensures
            final(self).keeps_tie(*old(self), *old(sys), *final(sys)),
            Cmos::ran(*old(self), *final(self), r, Instr::Nop1),
            r is Some,
    {
        proof { reveal(step); }
        self.poll_prev_signals(sys);
        Some(())
    }

    /// `CLI`
    pub fn op_58<S: Sys>(&mut self, sys: &mut S) -> (r: Option<()>)
        ensures
            final(self).keeps_tie(*old(self), *old(sys), *final(sys)),
            Cmos::ran(*old(self), *final(self), r, Instr::Implied(Imp::Cli)),
    {
        proof { reveal(step); }
        self.implicit(sys)?;
        self.flags.i = false;
        Some(())
    }

    /// `EOR $nnnn,Y`
    pub fn op_59<S: Sys>(&mut self, sys: &mut S) -> (r: Option<()>)
        ensures
            final(self).keeps_tie(*old(self), *old(sys), *final(sys)),
            Cmos::ran(*old(self), *final(self), r, Instr::Load(Mode::AbsY(false), Alu::Eor)),
    {
        proof { reveal(step); }
        self.base1 = self.addr_abi(sys, self.y, false)?;
        let val = self.load(sys, self.base1)?;
        self.EOR(val);
        Some(())
    }

    /// `PHY`
    #[verifier::rlimit(50)]
    pub fn op_5a<S: Sys>(&mut self, sys: &mut S) -> (r: Option<()>)
        ensures
            final(self).keeps_tie(*old(self), *old(sys), *final(sys)),
            Cmos::ran(*old(self), *final(self), r, Instr::Push(Reg::Y)),
    {
        proof { reveal(step); }
        self.read(sys, self.pc)?;
        self.store(sys, stack(self.sp), self.y)?;
        self.sp = dec8(self.sp);
        proof {
            let t = since(old(self).bus@, self.bus@);
            lemma_since(old(self).bus@, self.bus@);
        }
        Some(())
    }

    /// `NOP` (single-cycle)
    pub fn op_5b<S: Sys>(&mut self, sys: &mut S) -> (r: Option<()>)
        ensures
            final(self).keeps_tie(*old(self), *old(sys), *final(sys)),
            Cmos::ran(*old(self), *final(self), r, Instr::Nop1),
            r is Some,
    {
        proof { reveal(step); }
        self.poll_prev_signals(sys);
        Some(())
    }

    /// `NOP` (eight-cycle)
    #[verifier::rlimit(100)]
    pub fn op_5c<S: Sys>(&mut self, sys: &mut S) -> (r: Option<()>)
        ensures
            final(self).keeps_tie(*old(self), *old(sys), *final(sys)),
            Cmos::ran(*old(self), *final(self), r, Instr::Nop8),
    {
        proof { reveal(step); }
        let a = self.addr_abs(sys)?;
        proof { crate::mi::lemma_word_bytes(a, self.lo_byte, self.hi_byte); }
        self.base1 = from_bytes(lo(a), 0xff);
        self.read(sys, self.base1)?;
        self.read(sys, 0xffff)?;
        self.read(sys, 0xffff)?;
        self.read(sys, 0xffff)?;
        self.load(sys, 0xffff)?;
        proof {
            let t = since(old(self).bus@, self.bus@);
            lemma_since(old(self).bus@, self.bus@);
        }
        Some(())
    }

    /// `EOR $nnnn,X`
    pub fn op_5d<S: Sys>(&mut self, sys: &mut S) -> (r: Option<()>)
        ensures
            final(self).keeps_tie(*old(self), *old(sys), *final(sys)),
            Cmos::ran(*old(self), *final(self), r, Instr::Load(Mode::AbsX(false), Alu::Eor)),
    {
        proof { reveal(step); }
        self.base1 = self.addr_abi(sys, self.x, false)?;
        let val = self.load(sys, self.base1)?;
        self.EOR(val);
        Some(())
    }

    /// `LSR $nnnn,X`
    pub fn op_5e<S: Sys>(&mut self, sys: &mut S) -> (r: Option<()>)
        ensures
            final(self).keeps_tie(*old(self), *old(sys), *final(sys)),
            Cmos::ran(*old(self), *final(self), r, Instr::Rmw(Mode::AbsX(false), RmwOp::Lsr)),
    {
        proof { reveal(step); }
        // One cycle less if no px
        self.base1 = self.addr_abi(sys, self.x, false)?;
        self.rmw(sys, self.base1, RmwOp::Lsr, Ghost(*old(self)), Ghost(Mode::AbsX(false)))
    }

    /// `NOP` (single-cycle)
    pub fn op_5f<S: Sys>(&mut self, sys: &mut S) -> (r: Option<()>)
        ensures
            final(self).keeps_tie(*old(self), *old(sys), *final(sys)),
            Cmos::ran(*old(self), *final(self), r, Instr::Nop1),
            r is Some,
    {
        proof { reveal(step); }
        self.poll_prev_signals(sys);
        Some(())
    }

    /// `RTS`
    #[verifier::rlimit(50)]
    pub fn op_60<S: Sys>(&mut self, sys: &mut S) -> (r: Option<()>)
        ensures
            final(self).keeps_tie(*old(self), *old(sys), *final(sys)),
            Cmos::ran(*old(self), *final(self), r, Instr::Rts),
    {
        proof { reveal(step); }
        self.read(sys, self.pc)?;
        self.read_stack(sys)?;
        self.sp = inc8(self.sp);
        self.lo_byte = self.read_stack(sys)?;
        self.sp = inc8(self.sp);
        self.hi_byte = self.read_stack(sys)?;
        self.pc = from_bytes(self.lo_byte, self.hi_byte);
        self.poll_signals(sys);
        self.fetch_operand(sys)?;
        proof {
            let t = since(old(self).bus@, self.bus@);
            crate::model::lemma_add8_add(old(self).sp, 1, 1);
            lemma_since(old(self).bus@, self.bus@);
        }
        Some(())
    }

    /// `ADC ($nn,X)`
    pub fn op_61<S: Sys>(&mut self, sys: &mut S) -> (r: Option<()>)
        ensures
            final(self).keeps_tie(*old(self), *old(sys), *final(sys)),
            Cmos::ran(*old(self), *final(self), r, Instr::Decimal(Mode::IzX, true)),
    {
        proof { reveal(step); }
        self.base1 = self.addr_izx(sys)?;
        self.decimal(sys, self.base1, true, Ghost(*old(self)), Ghost(Mode::IzX))
    }

    /// `NOP #nn`
    pub fn op_62<S: Sys>(&mut self, sys: &mut S) -> (r: Option<()>)
        ensures
            final(self).keeps_tie(*old(self), *old(sys), *final(sys)),
            Cmos::ran(*old(self), *final(self), r, Instr::Imm(Alu::Nop)),
    {
        proof { reveal(step); }
        self.immediate(sys)?;
        Some(())
    }

    /// `NOP` (single-cycle)
    pub fn op_63<S: Sys>(&mut self, sys: &mut S) -> (r: Option<()>)
        ensures
            final(self).keeps_tie(*old(self), *old(sys), *final(sys)),
            Cmos::ran(*old(self), *final(self), r, Instr::Nop1),
            r is Some,
    {
        proof { reveal(step); }
        self.poll_prev_signals(sys);
        Some(())
    }

    /// `STZ $nn`
    pub fn op_64<S: Sys>(&mut self, sys: &mut S) -> (r: Option<()>)
        ensures
            final(self).keeps_tie(*old(self), *old(sys), *final(sys)),
            Cmos::ran(*old(self), *final(self), r, Instr::Store(Mode::Zp, Src::Zero)),
    {
        proof { reveal(step); }
        self.base1 = self.addr_zp(sys)?;
        self.store(sys, self.base1, 0)?;
        Some(())
    }

    /// `ADC $nn`
    pub fn op_65<S: Sys>(&mut self, sys: &mut S) -> (r: Option<()>)
        ensures
            final(self).keeps_tie(*old(self), *old(sys), *final(sys)),
            Cmos::ran(*old(self), *final(self), r, Instr::Decimal(Mode::Zp, true)),
    {
        proof { reveal(step); }
        self.base1 = self.addr_zp(sys)?;
        self.decimal(sys, self.base1, true, Ghost(*old(self)), Ghost(Mode::Zp))
    }

    /// `ROR $nn`
    pub fn op_66<S: Sys>(&mut self, sys: &mut S) -> (r: Option<()>)
        ensures
            final(self).keeps_tie(*old(self), *old(sys), *final(sys)),
            Cmos::ran(*old(self), *final(self), r, Instr::Rmw(Mode::Zp, RmwOp::Ror)),
    {
        proof { reveal(step); }
        self.base1 = self.addr_zp(sys)?;
        self.rmw(sys, self.base1, RmwOp::Ror, Ghost(*old(self)), Ghost(Mode::Zp))
    }

    /// `NOP` (single-cycle)
    pub fn op_67<S: Sys>(&mut self, sys: &mut S) -> (r: Option<()>)
        ensures
            final(self).keeps_tie(*old(self), *old(sys), *final(sys)),
            Cmos::ran(*old(self), *final(self), r, Instr::Nop1),
            r is Some,
    {
        proof { reveal(step); }
        self.poll_prev_signals(sys);
        Some(())
    }

    /// `PLA`
    #[verifier::rlimit(50)]
    pub fn op_68<S: Sys>(&mut self, sys: &mut S) -> (r: Option<()>)
        ensures
            final(self).keeps_tie(*old(self), *old(sys), *final(sys)),
            Cmos::ran(*old(self), *final(self), r, Instr::Pull(Reg::A)),
    {
        proof { reveal(step); }
        self.read(sys, self.pc)?;
        self.read_stack(sys)?;
        self.sp = inc8(self.sp);
        self.a = self.load(sys, stack(self.sp))?;
        self.flags.nz(self.a);
        proof {
            let t = since(old(self).bus@, self.bus@);
            lemma_since(old(self).bus@, self.bus@);
        }
        Some(())
    }

    /// `ADC #nn`
    #[verifier::rlimit(50)]
    pub fn op_69<S: Sys>(&mut self, sys: &mut S) -> (r: Option<()>)
        ensures
            final(self).keeps_tie(*old(self), *old(sys), *final(sys)),
            Cmos::ran(*old(self), *final(self), r, Instr::DecimalImm(true)),
    {
        proof { reveal(step); }
        if !self.flags.d {
            self.poll_signals(sys);
        }
        self.lo_byte = self.fetch_operand(sys)?;
        if self.flags.d {
            self.load(sys, self.pc)?;
        }
        self.ADC(self.lo_byte);
        proof {
            let t = since(old(self).bus@, self.bus@);
            lemma_since(old(self).bus@, self.bus@);
        }
        Some(())
    }

    /// `ROR A`
    pub fn op_6a<S: Sys>(&mut self, sys: &mut S) -> (r: Option<()>)
        ensures
            final(self).keeps_tie(*old(self), *old(sys), *final(sys)),
            Cmos::ran(*old(self), *final(self), r, Instr::Implied(Imp::OnA(RmwOp::Ror))),
    {
        proof { reveal(step); }
        self.implicit(sys)?;
        self.a = self.ROR(self.a);
        Some(())
    }

    /// `NOP` (single-cycle)
    pub fn op_6b<S: Sys>(&mut self, sys: &mut S) -> (r: Option<()>)
        ensures
            final(self).keeps_tie(*old(self), *old(sys), *final(sys)),
            Cmos::ran(*old(self), *final(self), r, Instr::Nop1),
            r is Some,
    {
        proof { reveal(step); }
        self.poll_prev_signals(sys);
        Some(())
    }

    /// `JMP ($nnnn)`
    #[verifier::rlimit(50)]
    pub fn op_6c<S: Sys>(&mut self, sys: &mut S) -> (r: Option<()>)
        ensures
            final(self).keeps_tie(*old(self), *old(sys), *final(sys)),
            Cmos::ran(*old(self), *final(self), r, Instr::JmpInd),
    {
        proof { reveal(step); }
        self.base1 = self.addr_abs(sys)?;
        self.lo_byte = self.read(sys, self.base1)?;
        // CMOS: the vector can cross a page.
        self.hi_byte = self.load(sys, inc_addr(self.base1))?;
        self.pc = from_bytes(self.lo_byte, self.hi_byte);
        proof {
            let t = since(old(self).bus@, self.bus@);
            lemma_since(old(self).bus@, self.bus@);
        }
        Some(())
    }

    /// `ADC $nnnn`
    pub fn op_6d<S: Sys>(&mut self, sys: &mut S) -> (r: Option<()>)
        ensures
            final(self).keeps_tie(*old(self), *old(sys), *final(sys)),
            Cmos::ran(*old(self), *final(self), r, Instr::Decimal(Mode::Abs, true)),
    {
        proof { reveal(step); }
        self.base1 = self.addr_abs(sys)?;
        self.decimal(sys, self.base1, true, Ghost(*old(self)), Ghost(Mode::Abs))
    }

    /// `ROR $nnnn`
    pub fn op_6e<S: Sys>(&mut self, sys: &mut S) -> (r: Option<()>)
        ensures
            final(self).keeps_tie(*old(self), *old(sys), *final(sys)),
            Cmos::ran(*old(self), *final(self), r, Instr::Rmw(Mode::Abs, RmwOp::Ror)),
    {
        proof { reveal(step); }
        self.base1 = self.addr_abs(sys)?;
        self.rmw(sys, self.base1, RmwOp::Ror, Ghost(*old(self)), Ghost(Mode::Abs))
    }

    /// `NOP` (single-cycle)
    pub fn op_6f<S: Sys>(&mut self, sys: &mut S) -> (r: Option<()>)
        ensures
            final(self).keeps_tie(*old(self), *old(sys), *final(sys)),
            Cmos::ran(*old(self), *final(self), r, Instr::Nop1),
            r is Some,
    {
        proof { reveal(step); }
        self.poll_prev_signals(sys);
        Some(())
    }

    /// `BVS`
    pub fn op_70<S: Sys>(&mut self, sys: &mut S) -> (r: Option<()>)
        ensures
            final(self).keeps_tie(*old(self), *old(sys), *final(sys)),
            Cmos::ran(*old(self), *final(self), r, Instr::Branch(Cond::Vs)),
    {
        proof { reveal(step); }
        self.branch(sys, self.flags.v)
    }

    /// `ADC ($nn),Y`
    pub fn op_71<S: Sys>(&mut self, sys: &mut S) -> (r: Option<()>)
        ensures
            final(self).keeps_tie(*old(self), *old(sys), *final(sys)),
            Cmos::ran(*old(self), *final(self), r, Instr::Decimal(Mode::IzY(false), true)),
    {
        proof { reveal(step); }
        self.base1 = self.addr_izy(sys, false)?;
        self.decimal(sys, self.base1, true, Ghost(*old(self)), Ghost(Mode::IzY(false)))
    }

    /// `ADC ($nn)`
    pub fn op_72<S: Sys>(&mut self, sys: &mut S) -> (r: Option<()>)
        ensures
            final(self).keeps_tie(*old(self), *old(sys), *final(sys)),
            Cmos::ran(*old(self), *final(self), r, Instr::Decimal(Mode::Izp, true)),
    {
        proof { reveal(step); }
        self.base1 = self.addr_izp(sys)?;
        self.decimal(sys, self.base1, true, Ghost(*old(self)), Ghost(Mode::Izp))
    }

    /// `NOP` (single-cycle)
    pub fn op_73<S: Sys>(&mut self, sys: &mut S) -> (r: Option<()>)
        ensures
            final(self).keeps_tie(*old(self), *old(sys), *final(sys)),
            Cmos::ran(*old(self), *final(self), r, Instr::Nop1),
            r is Some,
    {
        proof { reveal(step); }
        self.poll_prev_signals(sys);
        Some(())
    }

    /// `STZ $nn,X`
    pub fn op_74<S: Sys>(&mut self, sys: &mut S) -> (r: Option<()>)
        ensures
            final(self).keeps_tie(*old(self), *old(sys), *final(sys)),
            Cmos::ran(*old(self), *final(self), r, Instr::Store(Mode::ZpX, Src::Zero)),
    {
        proof { reveal(step); }
        self.base1 = self.addr_zpi(sys, self.x)?;
        self.store(sys, self.base1, 0)?;
        Some(())
    }

    /// `ADC $nn,X`
    pub fn op_75<S: Sys>(&mut self, sys: &mut S) -> (r: Option<()>)
        ensures
            final(self).keeps_tie(*old(self), *old(sys), *final(sys)),
            Cmos::ran(*old(self), *final(self), r, Instr::Decimal(Mode::ZpX, true)),
    {
        proof { reveal(step); }
        self.base1 = self.addr_zpi(sys, self.x)?;
        self.decimal(sys, self.base1, true, Ghost(*old(self)), Ghost(Mode::ZpX))
    }

    /// `ROR $nn,X`
    pub fn op_76<S: Sys>(&mut self, sys: &mut S) -> (r: Option<()>)
        ensures
            final(self).keeps_tie(*old(self), *old(sys), *final(sys)),
            Cmos::ran(*old(self), *final(self), r, Instr::Rmw(Mode::ZpX, RmwOp::Ror)),
    {
        proof { reveal(step); }
        self.base1 = self.addr_zpi(sys, self.x)?;
        self.rmw(sys, self.base1, RmwOp::Ror, Ghost(*old(self)), Ghost(Mode::ZpX))
    }

    /// `NOP` (single-cycle)
    pub fn op_77<S: Sys>(&mut self, sys: &mut S) -> (r: Option<()>)
        ensures
            final(self).keeps_tie(*old(self), *old(sys), *final(sys)),
            Cmos::ran(*old(self), *final(self), r, Instr::Nop1),
            r is Some,
    {
        proof { reveal(step); }
        self.poll_prev_signals(sys);
        Some(())
    }

    /// `SEI`
    pub fn op_78<S: Sys>(&mut self, sys: &mut S) -> (r: Option<()>)
        ensures
            final(self).keeps_tie(*old(self), *old(sys), *final(sys)),
            Cmos::ran(*old(self), *final(self), r, Instr::Implied(Imp::Sei)),
    {
        proof { reveal(step); }
        self.implicit(sys)?;
        self.flags.i = true;
        Some(())
    }

    /// `ADC $nnnn,Y`
    pub fn op_79<S: Sys>(&mut self, sys: &mut S) -> (r: Option<()>)
        ensures
            final(self).keeps_tie(*old(self), *old(sys), *final(sys)),
            Cmos::ran(*old(self), *final(self), r, Instr::Decimal(Mode::AbsY(false), true)),
    {
        proof { reveal(step); }
        self.base1 = self.addr_abi(sys, self.y, false)?;
        self.decimal(sys, self.base1, true, Ghost(*old(self)), Ghost(Mode::AbsY(false)))
    }

    /// `PLY`
    #[verifier::rlimit(50)]
    pub fn op_7a<S: Sys>(&mut self, sys: &mut S) -> (r: Option<()>)
        ensures
            final(self).keeps_tie(*old(self), *old(sys), *final(sys)),
            Cmos::ran(*old(self), *final(self), r, Instr::Pull(Reg::Y)),
    {
        proof { reveal(step); }
        self.read(sys, self.pc)?;
        self.read_stack(sys)?;
        self.sp = inc8(self.sp);
        self.y = self.load(sys, stack(self.sp))?;
        self.flags.nz(self.y);
        proof {
            let t = since(old(self).bus@, self.bus@);
            lemma_since(old(self).bus@, self.bus@);
        }
        Some(())
    }

    /// `NOP` (single-cycle)
    pub fn op_7b<S: Sys>(&mut self, sys: &mut S) -> (r: Option<()>)
        ensures
            final(self).keeps_tie(*old(self), *old(sys), *final(sys)),
            Cmos::ran(*old(self), *final(self), r, Instr::Nop1),
            r is Some,
    {
        proof { reveal(step); }
        self.poll_prev_signals(sys);
        Some(())
    }

    /// `JMP ($nnnn,X)`
    #[verifier::rlimit(50)]
    pub fn op_7c<S: Sys>(&mut self, sys: &mut S) -> (r: Option<()>)
        ensures
            final(self).keeps_tie(*old(self), *old(sys), *final(sys)),
            Cmos::ran(*old(self), *final(self), r, Instr::JmpIndX),
    {
        proof { reveal(step); }
        self.lo_byte = self.fetch_operand(sys)?;
        self.hi_byte = self.read(sys, self.pc)?;
        self.base1 = add_addr(self.addr(), self.x);
        self.fetch_operand(sys)?;
        self.lo_byte = self.read(sys, self.base1)?;
        self.hi_byte = self.load(sys, inc_addr(self.base1))?;
        self.pc = from_bytes(self.lo_byte, self.hi_byte);
        proof {
            let t = since(old(self).bus@, self.bus@);
            lemma_since(old(self).bus@, self.bus@);
        }
        Some(())
    }

    /// `ADC $nnnn,X`
    pub fn op_7d<S: Sys>(&mut self, sys: &mut S) -> (r: Option<()>)
        ensures
            final(self).keeps_tie(*old(self), *old(sys), *final(sys)),
            Cmos::ran(*old(self), *final(self), r, Instr::Decimal(Mode::AbsX(false), true)),
    {
        proof { reveal(step); }
        self.base1 = self.addr_abi(sys, self.x, false)?;
        self.decimal(sys, self.base1, true, Ghost(*old(self)), Ghost(Mode::AbsX(false)))
    }

    /// `ROR $nnnn,X`
    pub fn op_7e<S: Sys>(&mut self, sys: &mut S) -> (r: Option<()>)
        ensures
            final(self).keeps_tie(*old(self), *old(sys), *final(sys)),
            Cmos::ran(*old(self), *final(self), r, Instr::Rmw(Mode::AbsX(false), RmwOp::Ror)),
    {
        proof { reveal(step); }
        self.base1 = self.addr_abi(sys, self.x, false)?;
        self.rmw(sys, self.base1, RmwOp::Ror, Ghost(*old(self)), Ghost(Mode::AbsX(false)))
    }

    /// `NOP` (single-cycle)
    pub fn op_7f<S: Sys>(&mut self, sys: &mut S) -> (r: Option<()>)
        ensures
            final(self).keeps_tie(*old(self), *old(sys), *final(sys)),
            Cmos::ran(*old(self), *final(self), r, Instr::Nop1),
            r is Some,
    {
        proof { reveal(step); }
        self.poll_prev_signals(sys);
        Some(())
    }

    /// `BRA`
    pub fn op_80<S: Sys>(&mut self, sys: &mut S) -> (r: Option<()>)
        ensures
            final(self).keeps_tie(*old(self), *old(sys), *final(sys)),
            Cmos::ran(*old(self), *final(self), r, Instr::Branch(Cond::Always)),
    {
        proof { reveal(step); }
        self.branch(sys, true)
    }

    /// `STA ($nn,X)`
    pub fn op_81<S: Sys>(&mut self, sys: &mut S) -> (r: Option<()>)
        ensures
            final(self).keeps_tie(*old(self), *old(sys), *final(sys)),
            Cmos::ran(*old(self), *final(self), r, Instr::Store(Mode::IzX, Src::A)),
    {
        proof { reveal(step); }
        self.base1 = self.addr_izx(sys)?;
        self.store(sys, self.base1, self.a)
    }

    /// `NOP #nn`
    pub fn op_82<S: Sys>(&mut self, sys: &mut S) -> (r: Option<()>)
        ensures
            final(self).keeps_tie(*old(self), *old(sys), *final(sys)),
            Cmos::ran(*old(self), *final(self), r, Instr::Imm(Alu::Nop)),
    {
        proof { reveal(step); }
        self.immediate(sys)?;
        Some(())
    }

    /// `NOP` (single-cycle)
    pub fn op_83<S: Sys>(&mut self, sys: &mut S) -> (r: Option<()>)
        ensures
            final(self).keeps_tie(*old(self), *old(sys), *final(sys)),
            Cmos::ran(*old(self), *final(self), r, Instr::Nop1),
            r is Some,
    {
        proof { reveal(step); }
        self.poll_prev_signals(sys);
        Some(())
    }

    /// `STY $nn`
    pub fn op_84<S: Sys>(&mut self, sys: &mut S) -> (r: Option<()>)
        ensures
            final(self).keeps_tie(*old(self), *old(sys), *final(sys)),
            Cmos::ran(*old(self), *final(self), r, Instr::Store(Mode::Zp, Src::Y)),
    {
        proof { reveal(step); }
        self.base1 = self.addr_zp(sys)?;
        self.store(sys, self.base1, self.y)
    }

    /// `STA $nn`
    pub fn op_85<S: Sys>(&mut self, sys: &mut S) -> (r: Option<()>)
        ensures
            final(self).keeps_tie(*old(self), *old(sys), *final(sys)),
            Cmos::ran(*old(self), *final(self), r, Instr::Store(Mode::Zp, Src::A)),
    {
        proof { reveal(step); }
        self.base1 = self.addr_zp(sys)?;
        self.store(sys, self.base1, self.a)
    }

    /// `STX $nn`
    pub fn op_86<S: Sys>(&mut self, sys: &mut S) -> (r: Option<()>)
        ensures
            final(self).keeps_tie(*old(self), *old(sys), *final(sys)),
            Cmos::ran(*old(self), *final(self), r, Instr::Store(Mode::Zp, Src::X)),
    {
        proof { reveal(step); }
        self.base1 = self.addr_zp(sys)?;
        self.store(sys, self.base1, self.x)
    }

    /// `NOP` (single-cycle)
    pub fn op_87<S: Sys>(&mut self, sys: &mut S) -> (r: Option<()>)
        ensures
            final(self).keeps_tie(*old(self), *old(sys), *final(sys)),
            Cmos::ran(*old(self), *final(self), r, Instr::Nop1),
            r is Some,
    {
        proof { reveal(step); }
        self.poll_prev_signals(sys);
        Some(())
    }

    /// `DEY`
    pub fn op_88<S: Sys>(&mut self, sys: &mut S) -> (r: Option<()>)
        ensures
            final(self).keeps_tie(*old(self), *old(sys), *final(sys)),
            Cmos::ran(*old(self), *final(self), r, Instr::Implied(Imp::Dey)),
    {
        proof { reveal(step); }
        self.implicit(sys)?;
        self.y = dec8(self.y);
        self.flags.nz(self.y);
        Some(())
    }

    /// `BIT #nn`
    pub fn op_89<S: Sys>(&mut self, sys: &mut S) -> (r: Option<()>)
        ensures
            final(self).keeps_tie(*old(self), *old(sys), *final(sys)),
            Cmos::ran(*old(self), *final(self), r, Instr::Imm(Alu::BitImm)),
    {
        proof { reveal(step); }
        let val = self.immediate(sys)?;
        self.flags.z = self.a & val == 0;
        Some(())
    }

    /// `TXA`
    pub fn op_8a<S: Sys>(&mut self, sys: &mut S) -> (r: Option<()>)
        ensures
            final(self).keeps_tie(*old(self), *old(sys), *final(sys)),
            Cmos::ran(*old(self), *final(self), r, Instr::Implied(Imp::Txa)),
    {
        proof { reveal(step); }
        self.implicit(sys)?;
        self.a = self.x;
        self.flags.nz(self.a);
        Some(())
    }

    /// `NOP` (single-cycle)
    pub fn op_8b<S: Sys>(&mut self, sys: &mut S) -> (r: Option<()>)
        ensures
            final(self).keeps_tie(*old(self), *old(sys), *final(sys)),
            Cmos::ran(*old(self), *final(self), r, Instr::Nop1),
            r is Some,
    {
        proof { reveal(step); }
        self.poll_prev_signals(sys);
        Some(())
    }

    /// `STY $nnnn`
    pub fn op_8c<S: Sys>(&mut self, sys: &mut S) -> (r: Option<()>)
        ensures
            final(self).keeps_tie(*old(self), *old(sys), *final(sys)),
            Cmos::ran(*old(self), *final(self), r, Instr::Store(Mode::Abs, Src::Y)),
    {
        proof { reveal(step); }
        self.base1 = self.addr_abs(sys)?;
        self.store(sys, self.base1, self.y)
    }

    /// `STA $nnnn`
    pub fn op_8d<S: Sys>(&mut self, sys: &mut S) -> (r: Option<()>)
        ensures
            final(self).keeps_tie(*old(self), *old(sys), *final(sys)),
            Cmos::ran(*old(self), *final(self), r, Instr::Store(Mode::Abs, Src::A)),
    {
        proof { reveal(step); }
        self.base1 = self.addr_abs(sys)?;
        self.store(sys, self.base1, self.a)
    }

    /// `STX $nnnn`
    pub fn op_8e<S: Sys>(&mut self, sys: &mut S) -> (r: Option<()>)
        ensures
            final(self).keeps_tie(*old(self), *old(sys), *final(sys)),
            Cmos::ran(*old(self), *final(self), r, Instr::Store(Mode::Abs, Src::X)),
    {
        proof { reveal(step); }
        self.base1 = self.addr_abs(sys)?;
        self.store(sys, self.base1, self.x)
    }

    /// `NOP` (single-cycle)
    pub fn op_8f<S: Sys>(&mut self, sys: &mut S) -> (r: Option<()>)
        ensures
            final(self).keeps_tie(*old(self), *old(sys), *final(sys)),
            Cmos::ran(*old(self), *final(self), r, Instr::Nop1),
            r is Some,
    {
        proof { reveal(step); }
        self.poll_prev_signals(sys);
        Some(())
    }

    /// `BCC`
    pub fn op_90<S: Sys>(&mut self, sys: &mut S) -> (r: Option<()>)
        ensures
            final(self).keeps_tie(*old(self), *old(sys), *final(sys)),
            Cmos::ran(*old(self), *final(self), r, Instr::Branch(Cond::Cc)),
    {
        proof { reveal(step); }
        self.branch(sys, !self.flags.c)
    }

    /// `STA ($nn),Y`
    pub fn op_91<S: Sys>(&mut self, sys: &mut S) -> (r: Option<()>)
        ensures
            final(self).keeps_tie(*old(self), *old(sys), *final(sys)),
            Cmos::ran(*old(self), *final(self), r, Instr::Store(Mode::IzY(true), Src::A)),
    {
        proof { reveal(step); }
        self.base1 = self.addr_izy(sys, true)?;
        self.store(sys, self.base1, self.a)
    }

    /// `STA ($nn)`
    pub fn op_92<S: Sys>(&mut self, sys: &mut S) -> (r: Option<()>)
        ensures
            final(self).keeps_tie(*old(self), *old(sys), *final(sys)),
            Cmos::ran(*old(self), *final(self), r, Instr::Store(Mode::Izp, Src::A)),
    {
        proof { reveal(step); }
        self.base1 = self.addr_izp(sys)?;
        self.store(sys, self.base1, self.a)
    }

    /// `NOP` (single-cycle)
    pub fn op_93<S: Sys>(&mut self, sys: &mut S) -> (r: Option<()>)
        ensures
            final(self).keeps_tie(*old(self), *old(sys), *final(sys)),
            Cmos::ran(*old(self), *final(self), r, Instr::Nop1),
            r is Some,
    {
        proof { reveal(step); }
        self.poll_prev_signals(sys);
        Some(())
    }

    /// `STY $nn,X`
    pub fn op_94<S: Sys>(&mut self, sys: &mut S) -> (r: Option<()>)
        ensures
            final(self).keeps_tie(*old(self), *old(sys), *final(sys)),
            Cmos::ran(*old(self), *final(self), r, Instr::Store(Mode::ZpX, Src::Y)),
    {
        proof { reveal(step); }
        self.base1 = self.addr_zpi(sys, self.x)?;
        self.store(sys, self.base1, self.y)
    }

    /// `STA $nn,X`
    pub fn op_95<S: Sys>(&mut self, sys: &mut S) -> (r: Option<()>)
        ensures
            final(self).keeps_tie(*old(self), *old(sys), *final(sys)),
            Cmos::ran(*old(self), *final(self), r, Instr::Store(Mode::ZpX, Src::A)),
    {
        proof { reveal(step); }
        self.base1 = self.addr_zpi(sys, self.x)?;
        self.store(sys, self.base1, self.a)
    }

    /// `STX $nn,Y`
    pub fn op_96<S: Sys>(&mut self, sys: &mut S) -> (r: Option<()>)
        ensures
            final(self).keeps_tie(*old(self), *old(sys), *final(sys)),
            Cmos::ran(*old(self), *final(self), r, Instr::Store(Mode::ZpY, Src::X)),
    {
        proof { reveal(step); }
        self.base1 = self.addr_zpi(sys, self.y)?;
        self.store(sys, self.base1, self.x)
    }

    /// `NOP` (single-cycle)
    pub fn op_97<S: Sys>(&mut self, sys: &mut S) -> (r: Option<()>)
        ensures
            final(self).keeps_tie(*old(self), *old(sys), *final(sys)),
            Cmos::ran(*old(self), *final(self), r, Instr::Nop1),
            r is Some,
    {
        proof { reveal(step); }
        self.poll_prev_signals(sys);
        Some(())
    }

    /// `TYA`
    pub fn op_98<S: Sys>(&mut self, sys: &mut S) -> (r: Option<()>)
        ensures
            final(self).keeps_tie(*old(self), *old(sys), *final(sys)),
            Cmos::ran(*old(self), *final(self), r, Instr::Implied(Imp::Tya)),
    {
        proof { reveal(step); }
        self.implicit(sys)?;
        self.a = self.y;
        self.flags.nz(self.a);
        Some(())
    }

    /// `STA $nnnn,Y`
    pub fn op_99<S: Sys>(&mut self, sys: &mut S) -> (r: Option<()>)
        ensures
            final(self).keeps_tie(*old(self), *old(sys), *final(sys)),
            Cmos::ran(*old(self), *final(self), r, Instr::Store(Mode::AbsY(true), Src::A)),
    {
        proof { reveal(step); }
        self.base1 = self.addr_abi(sys, self.y, true)?;
        self.store(sys, self.base1, self.a)
    }

    /// `TXS`
    pub fn op_9a<S: Sys>(&mut self, sys: &mut S) -> (r: Option<()>)
        ensures
            final(self).keeps_tie(*old(self), *old(sys), *final(sys)),
            Cmos::ran(*old(self), *final(self), r, Instr::Implied(Imp::Txs)),
    {
        proof { reveal(step); }
        self.implicit(sys)?;
        self.sp = self.x;
        Some(())
    }

    /// `NOP` (single-cycle)
    pub fn op_9b<S: Sys>(&mut self, sys: &mut S) -> (r: Option<()>)
        ensures
            final(self).keeps_tie(*old(self), *old(sys), *final(sys)),
            Cmos::ran(*old(self), *final(self), r, Instr::Nop1),
            r is Some,
    {
        proof { reveal(step); }
        self.poll_prev_signals(sys);
        Some(())
    }

    /// `STZ $nnnn`
    pub fn op_9c<S: Sys>(&mut self, sys: &mut S) -> (r: Option<()>)
        ensures
            final(self).keeps_tie(*old(self), *old(sys), *final(sys)),
            Cmos::ran(*old(self), *final(self), r, Instr::Store(Mode::Abs, Src::Zero)),
    {
        proof { reveal(step); }
        self.base1 = self.addr_abs(sys)?;
        self.store(sys, self.base1, 0)
    }

    /// `STA $nnnn,X`
    pub fn op_9d<S: Sys>(&mut self, sys: &mut S) -> (r: Option<()>)
        ensures
            final(self).keeps_tie(*old(self), *old(sys), *final(sys)),
            Cmos::ran(*old(self), *final(self), r, Instr::Store(Mode::AbsX(true), Src::A)),
    {
        proof { reveal(step); }
        self.base1 = self.addr_abi(sys, self.x, true)?;
        self.store(sys, self.base1, self.a)
    }

    /// `STZ $nnnn,X`
    pub fn op_9e<S: Sys>(&mut self, sys: &mut S) -> (r: Option<()>)
        ensures
            final(self).keeps_tie(*old(self), *old(sys), *final(sys)),
            Cmos::ran(*old(self), *final(self), r, Instr::Store(Mode::AbsX(true), Src::Zero)),
    {
        proof { reveal(step); }
        self.base1 = self.addr_abi(sys, self.x, true)?;
        self.store(sys, self.base1, 0)
    }

    /// `NOP` (single-cycle)
    pub fn op_9f<S: Sys>(&mut self, sys: &mut S) -> (r: Option<()>)
        ensures
            final(self).keeps_tie(*old(self), *old(sys), *final(sys)),
            Cmos::ran(*old(self), *final(self), r, Instr::Nop1),
            r is Some,
    {
        proof { reveal(step); }
        self.poll_prev_signals(sys);
        Some(())
    }

    /// `LDY #nn`
    pub fn op_a0<S: Sys>(&mut self, sys: &mut S) -> (r: Option<()>)
        ensures
            final(self).keeps_tie(*old(self), *old(sys), *final(sys)),
            Cmos::ran(*old(self), *final(self), r, Instr::Imm(Alu::Ld(Reg::Y))),
    {
        proof { reveal(step); }
        self.y = self.immediate(sys)?;
        self.flags.nz(self.y);
        Some(())
    }

    /// `LDA ($nn,X)`
    pub fn op_a1<S: Sys>(&mut self, sys: &mut S) -> (r: Option<()>)
        ensures
            final(self).keeps_tie(*old(self), *old(sys), *final(sys)),
            Cmos::ran(*old(self), *final(self), r, Instr::Load(Mode::IzX, Alu::Ld(Reg::A))),
    {
        proof { reveal(step); }
        self.base1 = self.addr_izx(sys)?;
        self.a = self.load(sys, self.base1)?;
        self.flags.nz(self.a);
        Some(())
    }

    /// `LDX #nn`
    pub fn op_a2<S: Sys>(&mut self, sys: &mut S) -> (r: Option<()>)
        ensures
            final(self).keeps_tie(*old(self), *old(sys), *final(sys)),
            Cmos::ran(*old(self), *final(self), r, Instr::Imm(Alu::Ld(Reg::X))),
    {
        proof { reveal(step); }
        self.x = self.immediate(sys)?;
        self.flags.nz(self.x);
        Some(())
    }

    /// `NOP` (single-cycle)
    pub fn op_a3<S: Sys>(&mut self, sys: &mut S) -> (r: Option<()>)
        ensures
            final(self).keeps_tie(*old(self), *old(sys), *final(sys)),
            Cmos::ran(*old(self), *final(self), r, Instr::Nop1),
            r is Some,
    {
        proof { reveal(step); }
        self.poll_prev_signals(sys);
        Some(())
    }

    /// `LDY $nn`
    pub fn op_a4<S: Sys>(&mut self, sys: &mut S) -> (r: Option<()>)
        ensures
            final(self).keeps_tie(*old(self), *old(sys), *final(sys)),
            Cmos::ran(*old(self), *final(self), r, Instr::Load(Mode::Zp, Alu::Ld(Reg::Y))),
    {
        proof { reveal(step); }
        self.base1 = self.addr_zp(sys)?;
        self.y = self.load(sys, self.base1)?;
        self.flags.nz(self.y);
        Some(())
    }

    /// `LDA $nn`
    pub fn op_a5<S: Sys>(&mut self, sys: &mut S) -> (r: Option<()>)
        ensures
            final(self).keeps_tie(*old(self), *old(sys), *final(sys)),
            Cmos::ran(*old(self), *final(self), r, Instr::Load(Mode::Zp, Alu::Ld(Reg::A))),
    {
        proof { reveal(step); }
        self.base1 = self.addr_zp(sys)?;
        self.a = self.load(sys, self.base1)?;
        self.flags.nz(self.a);
        Some(())
    }

    /// `LDX $nn`
    pub fn op_a6<S: Sys>(&mut self, sys: &mut S) -> (r: Option<()>)
        ensures
            final(self).keeps_tie(*old(self), *old(sys), *final(sys)),
            Cmos::ran(*old(self), *final(self), r, Instr::Load(Mode::Zp, Alu::Ld(Reg::X))),
    {
        proof { reveal(step); }
        self.base1 = self.addr_zp(sys)?;
        self.x = self.load(sys, self.base1)?;
        self.flags.nz(self.x);
        Some(())
    }

    /// `NOP` (single-cycle)
    pub fn op_a7<S: Sys>(&mut self, sys: &mut S) -> (r: Option<()>)
        ensures
            final(self).keeps_tie(*old(self), *old(sys), *final(sys)),
            Cmos::ran(*old(self), *final(self), r, Instr::Nop1),
            r is Some,
    {
        proof { reveal(step); }
        self.poll_prev_signals(sys);
        Some(())
    }

    /// `TAY`
    pub fn op_a8<S: Sys>(&mut self, sys: &mut S) -> (r: Option<()>)
        ensures
            final(self).keeps_tie(*old(self), *old(sys), *final(sys)),
            Cmos::ran(*old(self), *final(self), r, Instr::Implied(Imp::Tay)),
    {
        proof { reveal(step); }
        self.implicit(sys)?;
        self.y = self.a;
        self.flags.nz(self.y);
        Some(())
    }

    /// `LDA #nn`
    pub fn op_a9<S: Sys>(&mut self, sys: &mut S) -> (r: Option<()>)
        ensures
            final(self).keeps_tie(*old(self), *old(sys), *final(sys)),
            Cmos::ran(*old(self), *final(self), r, Instr::Imm(Alu::Ld(Reg::A))),
            r is None ==> regs_kept(old(self)@, final(self)@),
    {
        proof { reveal(step); }
        self.a = self.immediate(sys)?;
        self.flags.nz(self.a);
        Some(())
    }

    /// `TAX`
    pub fn op_aa<S: Sys>(&mut self, sys: &mut S) -> (r: Option<()>)
        ensures
            final(self).keeps_tie(*old(self), *old(sys), *final(sys)),
            Cmos::ran(*old(self), *final(self), r, Instr::Implied(Imp::Tax)),
    {
        proof { reveal(step); }
        self.implicit(sys)?;
        self.x = self.a;
        self.flags.nz(self.x);
        Some(())
    }

    /// `NOP` (single-cycle)
    pub fn op_ab<S: Sys>(&mut self, sys: &mut S) -> (r: Option<()>)
        ensures
            final(self).keeps_tie(*old(self), *old(sys), *final(sys)),
            Cmos::ran(*old(self), *final(self), r, Instr::Nop1),
            r is Some,
    {
        proof { reveal(step); }
        self.poll_prev_signals(sys);
        Some(())
    }

    /// `LDY $nnnn`
    pub fn op_ac<S: Sys>(&mut self, sys: &mut S) -> (r: Option<()>)
        ensures
            final(self).keeps_tie(*old(self), *old(sys), *final(sys)),
            Cmos::ran(*old(self), *final(self), r, Instr::Load(Mode::Abs, Alu::Ld(Reg::Y))),
    {
        proof { reveal(step); }
        self.base1 = self.addr_abs(sys)?;
        self.y = self.load(sys, self.base1)?;
        self.flags.nz(self.y);
        Some(())
    }

    /// `LDA $nnnn`
    pub fn op_ad<S: Sys>(&mut self, sys: &mut S) -> (r: Option<()>)
        ensures
            final(self).keeps_tie(*old(self), *old(sys), *final(sys)),
            Cmos::ran(*old(self), *final(self), r, Instr::Load(Mode::Abs, Alu::Ld(Reg::A))),
    {
        proof { reveal(step); }
        self.base1 = self.addr_abs(sys)?;
        self.a = self.load(sys, self.base1)?;
        self.flags.nz(self.a);
        Some(())
    }

    /// `LDX $nnnn`
    pub fn op_ae<S: Sys>(&mut self, sys: &mut S) -> (r: Option<()>)
        ensures
            final(self).keeps_tie(*old(self), *old(sys), *final(sys)),
            Cmos::ran(*old(self), *final(self), r, Instr::Load(Mode::Abs, Alu::Ld(Reg::X))),
    {
        proof { reveal(step); }
        self.base1 = self.addr_abs(sys)?;
        self.x = self.load(sys, self.base1)?;
        self.flags.nz(self.x);
        Some(())
    }

    /// `NOP` (single-cycle)
    pub fn op_af<S: Sys>(&mut self, sys: &mut S) -> (r: Option<()>)
        ensures
            final(self).keeps_tie(*old(self), *old(sys), *final(sys)),
            Cmos::ran(*old(self), *final(self), r, Instr::Nop1),
            r is Some,
    {
        proof { reveal(step); }
        self.poll_prev_signals(sys);
        Some(())
    }

    /// `BCS`
    pub fn op_b0<S: Sys>(&mut self, sys: &mut S) -> (r: Option<()>)
        ensures
            final(self).keeps_tie(*old(self), *old(sys), *final(sys)),
            Cmos::ran(*old(self), *final(self), r, Instr::Branch(Cond::Cs)),
    {
        proof { reveal(step); }
        self.branch(sys, self.flags.c)
    }

    /// `LDA ($nn),Y`
    pub fn op_b1<S: Sys>(&mut self, sys: &mut S) -> (r: Option<()>)
        ensures
            final(self).keeps_tie(*old(self), *old(sys), *final(sys)),
            Cmos::ran(*old(self), *final(self), r, Instr::Load(Mode::IzY(false), Alu::Ld(Reg::A))),
    {
        proof { reveal(step); }
        self.base1 = self.addr_izy(sys, false)?;
        self.a = self.load(sys, self.base1)?;
        self.flags.nz(self.a);
        Some(())
    }

    /// `LDA ($nn)`
    pub fn op_b2<S: Sys>(&mut self, sys: &mut S) -> (r: Option<()>)
        ensures
            final(self).keeps_tie(*old(self), *old(sys), *final(sys)),
            Cmos::ran(*old(self), *final(self), r, Instr::Load(Mode::Izp, Alu::Ld(Reg::A))),
    {
        proof { reveal(step); }
        self.base1 = self.addr_izp(sys)?;
        self.a = self.load(sys, self.base1)?;
        self.flags.nz(self.a);
        Some(())
    }

    /// `NOP` (single-cycle)
    pub fn op_b3<S: Sys>(&mut self, sys: &mut S) -> (r: Option<()>)
        ensures
            final(self).keeps_tie(*old(self), *old(sys), *final(sys)),
            Cmos::ran(*old(self), *final(self), r, Instr::Nop1),
            r is Some,
    {
        proof { reveal(step); }
        self.poll_prev_signals(sys);
        Some(())
    }

    /// `LDY $nn,X`
    pub fn op_b4<S: Sys>(&mut self, sys: &mut S) -> (r: Option<()>)
        ensures
            final(self).keeps_tie(*old(self), *old(sys), *final(sys)),
            Cmos::ran(*old(self), *final(self), r, Instr::Load(Mode::ZpX, Alu::Ld(Reg::Y))),
    {
        proof { reveal(step); }
        self.base1 = self.addr_zpi(sys, self.x)?;
        self.y = self.load(sys, self.base1)?;
        self.flags.nz(self.y);
        Some(())
    }

    /// `LDA $nn,X`
    pub fn op_b5<S: Sys>(&mut self, sys: &mut S) -> (r: Option<()>)
        ensures
            final(self).keeps_tie(*old(self), *old(sys), *final(sys)),
            Cmos::ran(*old(self), *final(self), r, Instr::Load(Mode::ZpX, Alu::Ld(Reg::A))),
    {
        proof { reveal(step); }
        self.base1 = self.addr_zpi(sys, self.x)?;
        self.a = self.load(sys, self.base1)?;
        self.flags.nz(self.a);
        Some(())
    }

    /// `LDX $nn,Y`
    pub fn op_b6<S: Sys>(&mut self, sys: &mut S) -> (r: Option<()>)
        ensures
            final(self).keeps_tie(*old(self), *old(sys), *final(sys)),
            Cmos::ran(*old(self), *final(self), r, Instr::Load(Mode::ZpY, Alu::Ld(Reg::X))),
    {
        proof { reveal(step); }
        self.base1 = self.addr_zpi(sys, self.y)?;
        self.x = self.load(sys, self.base1)?;
        self.flags.nz(self.x);
        Some(())
    }

    /// `NOP` (single-cycle)
    pub fn op_b7<S: Sys>(&mut self, sys: &mut S) -> (r: Option<()>)
        ensures
            final(self).keeps_tie(*old(self), *old(sys), *final(sys)),
            Cmos::ran(*old(self), *final(self), r, Instr::Nop1),
            r is Some,
    {
        proof { reveal(step); }
        self.poll_prev_signals(sys);
        Some(())
    }

    /// `CLV`
    pub fn op_b8<S: Sys>(&mut self, sys: &mut S) -> (r: Option<()>)
        ensures
            final(self).keeps_tie(*old(self), *old(sys), *final(sys)),
            Cmos::ran(*old(self), *final(self), r, Instr::Implied(Imp::Clv)),
    {
        proof { reveal(step); }
        self.implicit(sys)?;
        self.flags.v = false;
        Some(())
    }

    /// `LDA $nnnn,Y`
    pub fn op_b9<S: Sys>(&mut self, sys: &mut S) -> (r: Option<()>)
        ensures
            final(self).keeps_tie(*old(self), *old(sys), *final(sys)),
            Cmos::ran(*old(self), *final(self), r, Instr::Load(Mode::AbsY(false), Alu::Ld(Reg::A))),
    {
        proof { reveal(step); }
        self.base1 = self.addr_abi(sys, self.y, false)?;
        self.a = self.load(sys, self.base1)?;
        self.flags.nz(self.a);
        Some(())
    }

    /// `TSX`
    pub fn op_ba<S: Sys>(&mut self, sys: &mut S) -> (r: Option<()>)
        ensures
            final(self).keeps_tie(*old(self), *old(sys), *final(sys)),
            Cmos::ran(*old(self), *final(self), r, Instr::Implied(Imp::Tsx)),
    {
        proof { reveal(step); }
        self.implicit(sys)?;
        self.x = self.sp;
        self.flags.nz(self.x);
        Some(())
    }

    /// `NOP` (single-cycle)
    pub fn op_bb<S: Sys>(&mut self, sys: &mut S) -> (r: Option<()>)
        ensures
            final(self).keeps_tie(*old(self), *old(sys), *final(sys)),
            Cmos::ran(*old(self), *final(self), r, Instr::Nop1),
            r is Some,
    {
        proof { reveal(step); }
        self.poll_prev_signals(sys);
        Some(())
    }

    /// `LDY $nnnn,X`
    pub fn op_bc<S: Sys>(&mut self, sys: &mut S) -> (r: Option<()>)
        ensures
            final(self).keeps_tie(*old(self), *old(sys), *final(sys)),
            Cmos::ran(*old(self), *final(self), r, Instr::Load(Mode::AbsX(false), Alu::Ld(Reg::Y))),
    {
        proof { reveal(step); }
        self.base1 = self.addr_abi(sys, self.x, false)?;
        self.y = self.load(sys, self.base1)?;
        self.flags.nz(self.y);
        Some(())
    }

    /// `LDA $nnnn,X`
    pub fn op_bd<S: Sys>(&mut self, sys: &mut S) -> (r: Option<()>)
        ensures
            final(self).keeps_tie(*old(self), *old(sys), *final(sys)),
            Cmos::ran(*old(self), *final(self), r, Instr::Load(Mode::AbsX(false), Alu::Ld(Reg::A))),
    {
        proof { reveal(step); }
        self.base1 = self.addr_abi(sys, self.x, false)?;
        self.a = self.load(sys, self.base1)?;
        self.flags.nz(self.a);
        Some(())
    }

    /// `LDX $nnnn,Y`
    pub fn op_be<S: Sys>(&mut self, sys: &mut S) -> (r: Option<()>)
        ensures
            final(self).keeps_tie(*old(self), *old(sys), *final(sys)),
            Cmos::ran(*old(self), *final(self), r, Instr::Load(Mode::AbsY(false), Alu::Ld(Reg::X))),
    {
        proof { reveal(step); }
        self.base1 = self.addr_abi(sys, self.y, false)?;
        self.x = self.load(sys, self.base1)?;
        self.flags.nz(self.x);
        Some(())
    }

    /// `NOP` (single-cycle)
    pub fn op_bf<S: Sys>(&mut self, sys: &mut S) -> (r: Option<()>)
        ensures
            final(self).keeps_tie(*old(self), *old(sys), *final(sys)),
            Cmos::ran(*old(self), *final(self), r, Instr::Nop1),
            r is Some,
    {
        proof { reveal(step); }
        self.poll_prev_signals(sys);
        Some(())
    }

    /// `CPY #nn`
    pub fn op_c0<S: Sys>(&mut self, sys: &mut S) -> (r: Option<()>)
        ensures
            final(self).keeps_tie(*old(self), *old(sys), *final(sys)),
            Cmos::ran(*old(self), *final(self), r, Instr::Imm(Alu::Cmp(Reg::Y))),
    {
        proof { reveal(step); }
        let val = self.immediate(sys)?;
        self.CMP(self.y, val);
        Some(())
    }

    /// `CMP ($nn,X)`
    pub fn op_c1<S: Sys>(&mut self, sys: &mut S) -> (r: Option<()>)
        ensures
            final(self).keeps_tie(*old(self), *old(sys), *final(sys)),
            Cmos::ran(*old(self), *final(self), r, Instr::Load(Mode::IzX, Alu::Cmp(Reg::A))),
    {
        proof { reveal(step); }
        self.base1 = self.addr_izx(sys)?;
        let val = self.load(sys, self.base1)?;
        self.CMP(self.a, val);
        Some(())
    }

    /// `NOP #nn`
    pub fn op_c2<S: Sys>(&mut self, sys: &mut S) -> (r: Option<()>)
        ensures
            final(self).keeps_tie(*old(self), *old(sys), *final(sys)),
            Cmos::ran(*old(self), *final(self), r, Instr::Imm(Alu::Nop)),
    {
        proof { reveal(step); }
        self.immediate(sys)?;
        Some(())
    }

    /// `NOP` (single-cycle)
    pub fn op_c3<S: Sys>(&mut self, sys: &mut S) -> (r: Option<()>)
        ensures
            final(self).keeps_tie(*old(self), *old(sys), *final(sys)),
            Cmos::ran(*old(self), *final(self), r, Instr::Nop1),
            r is Some,
    {
        proof { reveal(step); }
        self.poll_prev_signals(sys);
        Some(())
    }

    /// `CPY $nn`
    pub fn op_c4<S: Sys>(&mut self, sys: &mut S) -> (r: Option<()>)
        ensures
            final(self).keeps_tie(*old(self), *old(sys), *final(sys)),
            Cmos::ran(*old(self), *final(self), r, Instr::Load(Mode::Zp, Alu::Cmp(Reg::Y))),
    {
        proof { reveal(step); }
        self.base1 = self.addr_zp(sys)?;
        let val = self.load(sys, self.base1)?;
        self.CMP(self.y, val);
        Some(())
    }

    /// `CMP $nn`
    pub fn op_c5<S: Sys>(&mut self, sys: &mut S) -> (r: Option<()>)
        ensures
            final(self).keeps_tie(*old(self), *old(sys), *final(sys)),
            Cmos::ran(*old(self), *final(self), r, Instr::Load(Mode::Zp, Alu::Cmp(Reg::A))),
    {
        proof { reveal(step); }
        self.base1 = self.addr_zp(sys)?;
        let val = self.load(sys, self.base1)?;
        self.CMP(self.a, val);
        Some(())
    }

    /// `DEC $nn`
    pub fn op_c6<S: Sys>(&mut self, sys: &mut S) -> (r: Option<()>)
        ensures
            final(self).keeps_tie(*old(self), *old(sys), *final(sys)),
            Cmos::ran(*old(self), *final(self), r, Instr::Rmw(Mode::Zp, RmwOp::Dec)),
    {
        proof { reveal(step); }
        self.base1 = self.addr_zp(sys)?;
        self.rmw(sys, self.base1, RmwOp::Dec, Ghost(*old(self)), Ghost(Mode::Zp))
    }

    /// `NOP` (single-cycle)
    pub fn op_c7<S: Sys>(&mut self, sys: &mut S) -> (r: Option<()>)
        ensures
            final(self).keeps_tie(*old(self), *old(sys), *final(sys)),
            Cmos::ran(*old(self), *final(self), r, Instr::Nop1),
            r is Some,
    {
        proof { reveal(step); }
        self.poll_prev_signals(sys);
        Some(())
    }

    /// `INY`
    pub fn op_c8<S: Sys>(&mut self, sys: &mut S) -> (r: Option<()>)
        ensures
            final(self).keeps_tie(*old(self), *old(sys), *final(sys)),
            Cmos::ran(*old(self), *final(self), r, Instr::Implied(Imp::Iny)),
    {
        proof { reveal(step); }
        self.implicit(sys)?;
        self.y = inc8(self.y);
        self.flags.nz(self.y);
        Some(())
    }

    /// `CMP #nn`
    pub fn op_c9<S: Sys>(&mut self, sys: &mut S) -> (r: Option<()>)
        ensures
            final(self).keeps_tie(*old(self), *old(sys), *final(sys)),
            Cmos::ran(*old(self), *final(self), r, Instr::Imm(Alu::Cmp(Reg::A))),
    {
        proof { reveal(step); }
        let val = self.immediate(sys)?;
        self.CMP(self.a, val);
        Some(())
    }

    /// `DEX`
    pub fn op_ca<S: Sys>(&mut self, sys: &mut S) -> (r: Option<()>)
        ensures
            final(self).keeps_tie(*old(self), *old(sys), *final(sys)),
            Cmos::ran(*old(self), *final(self), r, Instr::Implied(Imp::Dex)),
    {
        proof { reveal(step); }
        self.implicit(sys)?;
        self.x = dec8(self.x);
        self.flags.nz(self.x);
        Some(())
    }

    /// `NOP` (single-cycle)
    pub fn op_cb<S: Sys>(&mut self, sys: &mut S) -> (r: Option<()>)
        ensures
            final(self).keeps_tie(*old(self), *old(sys), *final(sys)),
            Cmos::ran(*old(self), *final(self), r, Instr::Nop1),
            r is Some,
    {
        proof { reveal(step); }
        self.poll_prev_signals(sys);
        Some(())
    }

    /// `CPY $nnnn`
    pub fn op_cc<S: Sys>(&mut self, sys: &mut S) -> (r: Option<()>)
        ensures
            final(self).keeps_tie(*old(self), *old(sys), *final(sys)),
            Cmos::ran(*old(self), *final(self), r, Instr::Load(Mode::Abs, Alu::Cmp(Reg::Y))),
    {
        proof { reveal(step); }
        self.base1 = self.addr_abs(sys)?;
        let val = self.load(sys, self.base1)?;
        self.CMP(self.y, val);
        Some(())
    }

    /// `CMP $nnnn`
    pub fn op_cd<S: Sys>(&mut self, sys: &mut S) -> (r: Option<()>)
        ensures
            final(self).keeps_tie(*old(self), *old(sys), *final(sys)),
            Cmos::ran(*old(self), *final(self), r, Instr::Load(Mode::Abs, Alu::Cmp(Reg::A))),
    {
        proof { reveal(step); }
        self.base1 = self.addr_abs(sys)?;
        let val = self.load(sys, self.base1)?;
        self.CMP(self.a, val);
        Some(())
    }

    /// `DEC $nnnn`
    pub fn op_ce<S: Sys>(&mut self, sys: &mut S) -> (r: Option<()>)
        ensures
            final(self).keeps_tie(*old(self), *old(sys), *final(sys)),
            Cmos::ran(*old(self), *final(self), r, Instr::Rmw(Mode::Abs, RmwOp::Dec)),
    {
        proof { reveal(step); }
        self.base1 = self.addr_abs(sys)?;
        self.rmw(sys, self.base1, RmwOp::Dec, Ghost(*old(self)), Ghost(Mode::Abs))
    }

    /// `NOP` (single-cycle)
    pub fn op_cf<S: Sys>(&mut self, sys: &mut S) -> (r: Option<()>)
        ensures
            final(self).keeps_tie(*old(self), *old(sys), *final(sys)),
            Cmos::ran(*old(self), *final(self), r, Instr::Nop1),
            r is Some,
    {
        proof { reveal(step); }
        self.poll_prev_signals(sys);
        Some(())
    }

    /// `BNE`
    pub fn op_d0<S: Sys>(&mut self, sys: &mut S) -> (r: Option<()>)
        ensures
            final(self).keeps_tie(*old(self), *old(sys), *final(sys)),
            Cmos::ran(*old(self), *final(self), r, Instr::Branch(Cond::Ne)),
    {
        proof { reveal(step); }
        self.branch(sys, !self.flags.z)
    }

    /// `CMP ($nn),Y`
    pub fn op_d1<S: Sys>(&mut self, sys: &mut S) -> (r: Option<()>)
        ensures
            final(self).keeps_tie(*old(self), *old(sys), *final(sys)),
            Cmos::ran(*old(self), *final(self), r, Instr::Load(Mode::IzY(false), Alu::Cmp(Reg::A))),
    {
        proof { reveal(step); }
        self.base1 = self.addr_izy(sys, false)?;
        let val = self.load(sys, self.base1)?;
        self.CMP(self.a, val);
        Some(())
    }

    /// `CMP ($nn)`
    pub fn op_d2<S: Sys>(&mut self, sys: &mut S) -> (r: Option<()>)
        ensures
            final(self).keeps_tie(*old(self), *old(sys), *final(sys)),
            Cmos::ran(*old(self), *final(self), r, Instr::Load(Mode::Izp, Alu::Cmp(Reg::A))),
    {
        proof { reveal(step); }
        self.base1 = self.addr_izp(sys)?;
        let val = self.load(sys, self.base1)?;
        self.CMP(self.a, val);
        Some(())
    }

    /// `NOP` (single-cycle)
    pub fn op_d3<S: Sys>(&mut self, sys: &mut S) -> (r: Option<()>)
        ensures
            final(self).keeps_tie(*old(self), *old(sys), *final(sys)),
            Cmos::ran(*old(self), *final(self), r, Instr::Nop1),
            r is Some,
    {
        proof { reveal(step); }
        self.poll_prev_signals(sys);
        Some(())
    }

    /// `NOP $nn,X`
    pub fn op_d4<S: Sys>(&mut self, sys: &mut S) -> (r: Option<()>)
        ensures
            final(self).keeps_tie(*old(self), *old(sys), *final(sys)),
            Cmos::ran(*old(self), *final(self), r, Instr::Load(Mode::ZpX, Alu::Nop)),
    {
        proof { reveal(step); }
        self.base1 = self.addr_zpi(sys, self.x)?;
        self.load(sys, self.base1)?;
        Some(())
    }

    /// `CMP $nn,X`
    pub fn op_d5<S: Sys>(&mut self, sys: &mut S) -> (r: Option<()>)
        ensures
            final(self).keeps_tie(*old(self), *old(sys), *final(sys)),
            Cmos::ran(*old(self), *final(self), r, Instr::Load(Mode::ZpX, Alu::Cmp(Reg::A))),
    {
        proof { reveal(step); }
        self.base1 = self.addr_zpi(sys, self.x)?;
        let val = self.load(sys, self.base1)?;
        self.CMP(self.a, val);
        Some(())
    }

    /// `DEC $nn,X`
    pub fn op_d6<S: Sys>(&mut self, sys: &mut S) -> (r: Option<()>)
        ensures
            final(self).keeps_tie(*old(self), *old(sys), *final(sys)),
            Cmos::ran(*old(self), *final(self), r, Instr::Rmw(Mode::ZpX, RmwOp::Dec)),
    {
        proof { reveal(step); }
        self.base1 = self.addr_zpi(sys, self.x)?;
        self.rmw(sys, self.base1, RmwOp::Dec, Ghost(*old(self)), Ghost(Mode::ZpX))
    }

    /// `NOP` (single-cycle)
    pub fn op_d7<S: Sys>(&mut self, sys: &mut S) -> (r: Option<()>)
        ensures
            final(self).keeps_tie(*old(self), *old(sys), *final(sys)),
            Cmos::ran(*old(self), *final(self), r, Instr::Nop1),
            r is Some,
    {
        proof { reveal(step); }
        self.poll_prev_signals(sys);
        Some(())
    }

    /// `CLD`
    pub fn op_d8<S: Sys>(&mut self, sys: &mut S) -> (r: Option<()>)
        ensures
            final(self).keeps_tie(*old(self), *old(sys), *final(sys)),
            Cmos::ran(*old(self), *final(self), r, Instr::Implied(Imp::Cld)),
    {
        proof { reveal(step); }
        self.implicit(sys)?;
        self.flags.d = false;
        Some(())
    }

    /// `CMP $nnnn,Y`
    pub fn op_d9<S: Sys>(&mut self, sys: &mut S) -> (r: Option<()>)
        ensures
            final(self).keeps_tie(*old(self), *old(sys), *final(sys)),
            Cmos::ran(*old(self), *final(self), r, Instr::Load(Mode::AbsY(false), Alu::Cmp(Reg::A))),
    {
        proof { reveal(step); }
        self.base1 = self.addr_abi(sys, self.y, false)?;
        let val = self.load(sys, self.base1)?;
        self.CMP(self.a, val);
        Some(())
    }

    /// `PHX`
    #[verifier::rlimit(50)]
    pub fn op_da<S: Sys>(&mut self, sys: &mut S) -> (r: Option<()>)
        ensures
            final(self).keeps_tie(*old(self), *old(sys), *final(sys)),
            Cmos::ran(*old(self), *final(self), r, Instr::Push(Reg::X)),
    {
        proof { reveal(step); }
        self.read(sys, self.pc)?;
        self.store(sys, stack(self.sp), self.x)?;
        self.sp = dec8(self.sp);
        proof {
            let t = since(old(self).bus@, self.bus@);
            lemma_since(old(self).bus@, self.bus@);
        }
        Some(())
    }

    /// `NOP` (single-cycle)
    pub fn op_db<S: Sys>(&mut self, sys: &mut S) -> (r: Option<()>)
        ensures
            final(self).keeps_tie(*old(self), *old(sys), *final(sys)),
            Cmos::ran(*old(self), *final(self), r, Instr::Nop1),
            r is Some,
    {
        proof { reveal(step); }
        self.poll_prev_signals(sys);
        Some(())
    }

    /// `NOP $nnnn,X` (4-cycle)
    #[verifier::rlimit(50)]
    pub fn op_dc<S: Sys>(&mut self, sys: &mut S) -> (r: Option<()>)
        ensures
            final(self).keeps_tie(*old(self), *old(sys), *final(sys)),
            Cmos::ran(*old(self), *final(self), r, Instr::NopAbsX),
    {
        proof { reveal(step); }
        self.base1 = self.addr_abs(sys)?;
        self.load(sys, self.base1.no_carry(self.x))?;
        proof {
            let t = since(old(self).bus@, self.bus@);
            lemma_since(old(self).bus@, self.bus@);
        }
        Some(())
    }

    /// `CMP $nnnn,X`
    pub fn op_dd<S: Sys>(&mut self, sys: &mut S) -> (r: Option<()>)
        ensures
            final(self).keeps_tie(*old(self), *old(sys), *final(sys)),
            Cmos::ran(*old(self), *final(self), r, Instr::Load(Mode::AbsX(false), Alu::Cmp(Reg::A))),
    {
        proof { reveal(step); }
        self.base1 = self.addr_abi(sys, self.x, false)?;
        let val = self.load(sys, self.base1)?;
        self.CMP(self.a, val);
        Some(())
    }

    /// `DEC $nnnn,X`
    pub fn op_de<S: Sys>(&mut self, sys: &mut S) -> (r: Option<()>)
        ensures
            final(self).keeps_tie(*old(self), *old(sys), *final(sys)),
            Cmos::ran(*old(self), *final(self), r, Instr::Rmw(Mode::AbsX(true), RmwOp::Dec)),
    {
        proof { reveal(step); }
        self.base1 = self.addr_abi(sys, self.x, true)?;
        self.rmw(sys, self.base1, RmwOp::Dec, Ghost(*old(self)), Ghost(Mode::AbsX(true)))
    }

    /// `NOP` (single-cycle)
    pub fn op_df<S: Sys>(&mut self, sys: &mut S) -> (r: Option<()>)
        ensures
            final(self).keeps_tie(*old(self), *old(sys), *final(sys)),
            Cmos::ran(*old(self), *final(self), r, Instr::Nop1),
            r is Some,
    {
        proof { reveal(step); }
        self.poll_prev_signals(sys);
        Some(())
    }

    /// `CPX #nn`
    pub fn op_e0<S: Sys>(&mut self, sys: &mut S) -> (r: Option<()>)
        ensures
            final(self).keeps_tie(*old(self), *old(sys), *final(sys)),
            Cmos::ran(*old(self), *final(self), r, Instr::Imm(Alu::Cmp(Reg::X))),
    {
        proof { reveal(step); }
        let val = self.immediate(sys)?;
        self.CMP(self.x, val);
        Some(())
    }

    /// `SBC ($nn,X)`
    pub fn op_e1<S: Sys>(&mut self, sys: &mut S) -> (r: Option<()>)
        ensures
            final(self).keeps_tie(*old(self), *old(sys), *final(sys)),
            Cmos::ran(*old(self), *final(self), r, Instr::Decimal(Mode::IzX, false)),
    {
        proof { reveal(step); }
        self.base1 = self.addr_izx(sys)?;
        self.decimal(sys, self.base1, false, Ghost(*old(self)), Ghost(Mode::IzX))
    }

    /// `NOP #nn`
    pub fn op_e2<S: Sys>(&mut self, sys: &mut S) -> (r: Option<()>)
        ensures
            final(self).keeps_tie(*old(self), *old(sys), *final(sys)),
            Cmos::ran(*old(self), *final(self), r, Instr::Imm(Alu::Nop)),
    {
        proof { reveal(step); }
        self.immediate(sys)?;
        Some(())
    }

    /// `NOP` (single-cycle)
    pub fn op_e3<S: Sys>(&mut self, sys: &mut S) -> (r: Option<()>)
        ensures
            final(self).keeps_tie(*old(self), *old(sys), *final(sys)),
            Cmos::ran(*old(self), *final(self), r, Instr::Nop1),
            r is Some,
    {
        proof { reveal(step); }
        self.poll_prev_signals(sys);
        Some(())
    }

    /// `CPX $nn`
    pub fn op_e4<S: Sys>(&mut self, sys: &mut S) -> (r: Option<()>)
        ensures
            final(self).keeps_tie(*old(self), *old(sys), *final(sys)),
            Cmos::ran(*old(self), *final(self), r, Instr::Load(Mode::Zp, Alu::Cmp(Reg::X))),
    {
        proof { reveal(step); }
        self.base1 = self.addr_zp(sys)?;
        let val = self.load(sys, self.base1)?;
        self.CMP(self.x, val);
        Some(())
    }

    /// `SBC $nn`
    pub fn op_e5<S: Sys>(&mut self, sys: &mut S) -> (r: Option<()>)
        ensures
            final(self).keeps_tie(*old(self), *old(sys), *final(sys)),
            Cmos::ran(*old(self), *final(self), r, Instr::Decimal(Mode::Zp, false)),
    {
        proof { reveal(step); }
        self.base1 = self.addr_zp(sys)?;
        self.decimal(sys, self.base1, false, Ghost(*old(self)), Ghost(Mode::Zp))
    }

    /// `INC $nn`
    pub fn op_e6<S: Sys>(&mut self, sys: &mut S) -> (r: Option<()>)
        ensures
            final(self).keeps_tie(*old(self), *old(sys), *final(sys)),
            Cmos::ran(*old(self), *final(self), r, Instr::Rmw(Mode::Zp, RmwOp::Inc)),
    {
        proof { reveal(step); }
        self.base1 = self.addr_zp(sys)?;
        self.rmw(sys, self.base1, RmwOp::Inc, Ghost(*old(self)), Ghost(Mode::Zp))
    }

    /// `NOP` (single-cycle)
    pub fn op_e7<S: Sys>(&mut self, sys: &mut S) -> (r: Option<()>)
        ensures
            final(self).keeps_tie(*old(self), *old(sys), *final(sys)),
            Cmos::ran(*old(self), *final(self), r, Instr::Nop1),
            r is Some,
    {
        proof { reveal(step); }
        self.poll_prev_signals(sys);
        Some(())
    }

    /// `INX`
    pub fn op_e8<S: Sys>(&mut self, sys: &mut S) -> (r: Option<()>)
        ensures
            final(self).keeps_tie(*old(self), *old(sys), *final(sys)),
            Cmos::ran(*old(self), *final(self), r, Instr::Implied(Imp::Inx)),
    {
        proof { reveal(step); }
        self.implicit(sys)?;
        self.x = inc8(self.x);
        self.flags.nz(self.x);
        Some(())
    }

    /// `SBC #nn`
    #[verifier::rlimit(50)]
    pub fn op_e9<S: Sys>(&mut self, sys: &mut S) -> (r: Option<()>)
        ensures
            final(self).keeps_tie(*old(self), *old(sys), *final(sys)),
            Cmos::ran(*old(self), *final(self), r, Instr::DecimalImm(false)),
    {
        proof { reveal(step); }
        if !self.flags.d {
            self.poll_signals(sys);
        }
        self.lo_byte = self.fetch_operand(sys)?;
        if self.flags.d {
            self.load(sys, self.pc)?;
        }
        self.SBC(self.lo_byte);
        proof {
            let t = since(old(self).bus@, self.bus@);
            lemma_since(old(self).bus@, self.bus@);
        }
        Some(())
    }

    /// `NOP`
    pub fn op_ea<S: Sys>(&mut self, sys: &mut S) -> (r: Option<()>)
        ensures
            final(self).keeps_tie(*old(self), *old(sys), *final(sys)),
            Cmos::ran(*old(self), *final(self), r, Instr::Implied(Imp::Nop)),
    {
        proof { reveal(step); }
        self.implicit(sys)
    }

    /// `NOP` (single-cycle)
    pub fn op_eb<S: Sys>(&mut self, sys: &mut S) -> (r: Option<()>)
        ensures
            final(self).keeps_tie(*old(self), *old(sys), *final(sys)),
            Cmos::ran(*old(self), *final(self), r, Instr::Nop1),
            r is Some,
    {
        proof { reveal(step); }
        self.poll_prev_signals(sys);
        Some(())
    }

    /// `CPX $nnnn`
    pub fn op_ec<S: Sys>(&mut self, sys: &mut S) -> (r: Option<()>)
        ensures
            final(self).keeps_tie(*old(self), *old(sys), *final(sys)),
            Cmos::ran(*old(self), *final(self), r, Instr::Load(Mode::Abs, Alu::Cmp(Reg::X))),
    {
        proof { reveal(step); }
        self.base1 = self.addr_abs(sys)?;
        let val = self.load(sys, self.base1)?;
        self.CMP(self.x, val);
        Some(())
    }

    /// `SBC $nnnn`
    pub fn op_ed<S: Sys>(&mut self, sys: &mut S) -> (r: Option<()>)
        ensures
            final(self).keeps_tie(*old(self), *old(sys), *final(sys)),
            Cmos::ran(*old(self), *final(self), r, Instr::Decimal(Mode::Abs, false)),
    {
        proof { reveal(step); }
        self.base1 = self.addr_abs(sys)?;
        self.decimal(sys, self.base1, false, Ghost(*old(self)), Ghost(Mode::Abs))
    }

    /// `INC $nnnn`
    pub fn op_ee<S: Sys>(&mut self, sys: &mut S) -> (r: Option<()>)
        ensures
            final(self).keeps_tie(*old(self), *old(sys), *final(sys)),
            Cmos::ran(*old(self), *final(self), r, Instr::Rmw(Mode::Abs, RmwOp::Inc)),
    {
        proof { reveal(step); }
        self.base1 = self.addr_abs(sys)?;
        self.rmw(sys, self.base1, RmwOp::Inc, Ghost(*old(self)), Ghost(Mode::Abs))
    }

    /// `NOP` (single-cycle)
    pub fn op_ef<S: Sys>(&mut self, sys: &mut S) -> (r: Option<()>)
        ensures
            final(self).keeps_tie(*old(self), *old(sys), *final(sys)),
            Cmos::ran(*old(self), *final(self), r, Instr::Nop1),
            r is Some,
    {
        proof { reveal(step); }
        self.poll_prev_signals(sys);
        Some(())
    }

    /// `BEQ`
    pub fn op_f0<S: Sys>(&mut self, sys: &mut S) -> (r: Option<()>)
        ensures
            final(self).keeps_tie(*old(self), *old(sys), *final(sys)),
            Cmos::ran(*old(self), *final(self), r, Instr::Branch(Cond::Eq)),
    {
        proof { reveal(step); }
        self.branch(sys, self.flags.z)
    }

    /// `SBC ($nn),Y`
    pub fn op_f1<S: Sys>(&mut self, sys: &mut S) -> (r: Option<()>)
        ensures
            final(self).keeps_tie(*old(self), *old(sys), *final(sys)),
            Cmos::ran(*old(self), *final(self), r, Instr::Decimal(Mode::IzY(false), false)),
    {
        proof { reveal(step); }
        self.base1 = self.addr_izy(sys, false)?;
        self.decimal(sys, self.base1, false, Ghost(*old(self)), Ghost(Mode::IzY(false)))
    }

    /// `SBC ($nn)`
    pub fn op_f2<S: Sys>(&mut self, sys: &mut S) -> (r: Option<()>)
        ensures
            final(self).keeps_tie(*old(self), *old(sys), *final(sys)),
            Cmos::ran(*old(self), *final(self), r, Instr::Decimal(Mode::Izp, false)),
    {
        proof { reveal(step); }
        self.base1 = self.addr_izp(sys)?;
        self.decimal(sys, self.base1, false, Ghost(*old(self)), Ghost(Mode::Izp))
    }

    /// `NOP` (single-cycle)
    pub fn op_f3<S: Sys>(&mut self, sys: &mut S) -> (r: Option<()>)
        ensures
            final(self).keeps_tie(*old(self), *old(sys), *final(sys)),
            Cmos::ran(*old(self), *final(self), r, Instr::Nop1),
            r is Some,
    {
        proof { reveal(step); }
        self.poll_prev_signals(sys);
        Some(())
    }

    /// `NOP $nn,X`
    pub fn op_f4<S: Sys>(&mut self, sys: &mut S) -> (r: Option<()>)
        ensures
            final(self).keeps_tie(*old(self), *old(sys), *final(sys)),
            Cmos::ran(*old(self), *final(self), r, Instr::Load(Mode::ZpX, Alu::Nop)),
    {
        proof { reveal(step); }
        self.base1 = self.addr_zpi(sys, self.x)?;
        self.load(sys, self.base1)?;
        Some(())
    }

    /// `SBC $nn,X`
    pub fn op_f5<S: Sys>(&mut self, sys: &mut S) -> (r: Option<()>)
        ensures
            final(self).keeps_tie(*old(self), *old(sys), *final(sys)),
            Cmos::ran(*old(self), *final(self), r, Instr::Decimal(Mode::ZpX, false)),
    {
        proof { reveal(step); }
        self.base1 = self.addr_zpi(sys, self.x)?;
        self.decimal(sys, self.base1, false, Ghost(*old(self)), Ghost(Mode::ZpX))
    }

    /// `INC $nn,X`
    pub fn op_f6<S: Sys>(&mut self, sys: &mut S) -> (r: Option<()>)
        ensures
            final(self).keeps_tie(*old(self), *old(sys), *final(sys)),
            Cmos::ran(*old(self), *final(self), r, Instr::Rmw(Mode::ZpX, RmwOp::Inc)),
    {
        proof { reveal(step); }
        self.base1 = self.addr_zpi(sys, self.x)?;
        self.rmw(sys, self.base1, RmwOp::Inc, Ghost(*old(self)), Ghost(Mode::ZpX))
    }

    /// `NOP` (single-cycle)
    pub fn op_f7<S: Sys>(&mut self, sys: &mut S) -> (r: Option<()>)
        ensures
            final(self).keeps_tie(*old(self), *old(sys), *final(sys)),
            Cmos::ran(*old(self), *final(self), r, Instr::Nop1),
            r is Some,
    {
        proof { reveal(step); }
        self.poll_prev_signals(sys);
        Some(())
    }

    /// `SED`
    pub fn op_f8<S: Sys>(&mut self, sys: &mut S) -> (r: Option<()>)
        ensures
            final(self).keeps_tie(*old(self), *old(sys), *final(sys)),
            Cmos::ran(*old(self), *final(self), r, Instr::Implied(Imp::Sed)),
    {
        proof { reveal(step); }
        self.implicit(sys)?;
        self.flags.d = true;
        Some(())
    }

    /// `SBC $nnnn,Y`
    pub fn op_f9<S: Sys>(&mut self, sys: &mut S) -> (r: Option<()>)
        ensures
            final(self).keeps_tie(*old(self), *old(sys), *final(sys)),
            Cmos::ran(*old(self), *final(self), r, Instr::Decimal(Mode::AbsY(false), false)),
    {
        proof { reveal(step); }
        self.base1 = self.addr_abi(sys, self.y, false)?;
        self.decimal(sys, self.base1, false, Ghost(*old(self)), Ghost(Mode::AbsY(false)))
    }

    /// `PLX`
    #[verifier::rlimit(50)]
    pub fn op_fa<S: Sys>(&mut self, sys: &mut S) -> (r: Option<()>)
        ensures
            final(self).keeps_tie(*old(self), *old(sys), *final(sys)),
            Cmos::ran(*old(self), *final(self), r, Instr::Pull(Reg::X)),
    {
        proof { reveal(step); }
        self.read(sys, self.pc)?;
        self.read_stack(sys)?;
        self.sp = inc8(self.sp);
        self.x = self.load(sys, stack(self.sp))?;
        self.flags.nz(self.x);
        proof {
            let t = since(old(self).bus@, self.bus@);
            lemma_since(old(self).bus@, self.bus@);
        }
        Some(())
    }

    /// `NOP` (single-cycle)
    pub fn op_fb<S: Sys>(&mut self, sys: &mut S) -> (r: Option<()>)
        ensures
            final(self).keeps_tie(*old(self), *old(sys), *final(sys)),
            Cmos::ran(*old(self), *final(self), r, Instr::Nop1),
            r is Some,
    {
        proof { reveal(step); }
        self.poll_prev_signals(sys);
        Some(())
    }

    /// `NOP $nnnn,X` (4-cycle)
    #[verifier::rlimit(50)]
    pub fn op_fc<S: Sys>(&mut self, sys: &mut S) -> (r: Option<()>)
        ensures
            final(self).keeps_tie(*old(self), *old(sys), *final(sys)),
            Cmos::ran(*old(self), *final(self), r, Instr::NopAbsX),
    {
        proof { reveal(step); }
        self.base1 = self.addr_abs(sys)?;
        self.load(sys, self.base1.no_carry(self.x))?;
        proof {
            let t = since(old(self).bus@, self.bus@);
            lemma_since(old(self).bus@, self.bus@);
        }
        Some(())
    }

    /// `SBC $nnnn,X`
    pub fn op_fd<S: Sys>(&mut self, sys: &mut S) -> (r: Option<()>)
        ensures
            final(self).keeps_tie(*old(self), *old(sys), *final(sys)),
            Cmos::ran(*old(self), *final(self), r, Instr::Decimal(Mode::AbsX(false), false)),
    {
        proof { reveal(step); }
        self.base1 = self.addr_abi(sys, self.x, false)?;
        self.decimal(sys, self.base1, false, Ghost(*old(self)), Ghost(Mode::AbsX(false)))
    }

    /// `INC $nnnn,X`
    pub fn op_fe<S: Sys>(&mut self, sys: &mut S) -> (r: Option<()>)
        ensures
            final(self).keeps_tie(*old(self), *old(sys), *final(sys)),
            Cmos::ran(*old(self), *final(self), r, Instr::Rmw(Mode::AbsX(true), RmwOp::Inc)),
    {
        proof { reveal(step); }
        self.base1 = self.addr_abi(sys, self.x, true)?;
        self.rmw(sys, self.base1, RmwOp::Inc, Ghost(*old(self)), Ghost(Mode::AbsX(true)))
    }

    /// `NOP` (single-cycle)
    pub fn op_ff<S: Sys>(&mut self, sys: &mut S) -> (r: Option<()>)
        ensures
            final(self).keeps_tie(*old(self), *old(sys), *final(sys)),
            Cmos::ran(*old(self), *final(self), r, Instr::Nop1),
            r is Some,
    {
        proof { reveal(step); }
        self.poll_prev_signals(sys);
        Some(())
    }
}

} // verus!
