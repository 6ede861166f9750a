//! The opcodes of the NMOS 6502, one function each.

use vstd::prelude::*;

use crate::mi::{from_bytes, hi, inc_addr, lo, stack, AddrMath};
use crate::model::{lemma_since, regs_kept, dec8, inc8, since, step, Alu, Cond, Imp, Instr, Mode, Reg, RmwOp, ShSrc, Src};
use crate::nmos::Nmos;
use crate::Sys;

verus! {

impl Nmos {
    /// `BRK`
    #[verifier::rlimit(100)]
    pub fn op_00<S: Sys>(&mut self, sys: &mut S) -> (r: Option<()>)
        ensures
            final(self).keeps_tie(*old(self), *old(sys), *final(sys)),
            Nmos::ran(*old(self), *final(self), r, Instr::Brk),
    {
        proof { reveal(step); }
        self.interrupt_head(sys)?;
        let ghost b1 = self.bus@;
        let r = self.interrupt_vector(sys, Ghost(old(self)@));
        proof {
            let n = old(self).bus@.len() as int;
            let t = since(old(self).bus@, self.bus@);
            let t1 = since(old(self).bus@, b1);
            if r is Some {
                assert(self.bus@.subrange(0, b1.len() as int) =~= b1);
                assert(t[0] == t1[0]);
                assert(t[1] == t1[1]);
                assert(t[2] == t1[2]);
                assert(t.skip(3) =~= since(b1, self.bus@));
            }
        }
        r
    }

    /// `ORA ($nn,X)`
    pub fn op_01<S: Sys>(&mut self, sys: &mut S) -> (r: Option<()>)
        ensures
            final(self).keeps_tie(*old(self), *old(sys), *final(sys)),
            Nmos::ran(*old(self), *final(self), r, Instr::Load(Mode::IzX, Alu::Ora)),
    {
        self.load_op(sys, Mode::IzX, Alu::Ora)
    }

    /// `KIL`
    pub fn op_02<S: Sys>(&mut self, sys: &mut S) -> (r: Option<()>)
        ensures
            final(self).keeps_tie(*old(self), *old(sys), *final(sys)),
            Nmos::ran(*old(self), *final(self), r, Instr::Kil),
    {
        proof { reveal(step); }
        self.halt()
    }

    /// `SLO ($nn,X)`
    pub fn op_03<S: Sys>(&mut self, sys: &mut S) -> (r: Option<()>)
        ensures
            final(self).keeps_tie(*old(self), *old(sys), *final(sys)),
            Nmos::ran(*old(self), *final(self), r, Instr::RmwAlu(Mode::IzX, RmwOp::Asl, Alu::Ora)),
    {
        self.rmw_alu_op(sys, Mode::IzX, RmwOp::Asl, Alu::Ora)
    }

    /// `*NOP $nn`
    pub fn op_04<S: Sys>(&mut self, sys: &mut S) -> (r: Option<()>)
        ensures
            final(self).keeps_tie(*old(self), *old(sys), *final(sys)),
            Nmos::ran(*old(self), *final(self), r, Instr::Load(Mode::Zp, Alu::Nop)),
    {
        self.load_op(sys, Mode::Zp, Alu::Nop)
    }

    /// `ORA $nn`
    pub fn op_05<S: Sys>(&mut self, sys: &mut S) -> (r: Option<()>)
        ensures
            final(self).keeps_tie(*old(self), *old(sys), *final(sys)),
            Nmos::ran(*old(self), *final(self), r, Instr::Load(Mode::Zp, Alu::Ora)),
    {
        self.load_op(sys, Mode::Zp, Alu::Ora)
    }

    /// `ASL $nn`
    pub fn op_06<S: Sys>(&mut self, sys: &mut S) -> (r: Option<()>)
        ensures
            final(self).keeps_tie(*old(self), *old(sys), *final(sys)),
            Nmos::ran(*old(self), *final(self), r, Instr::Rmw(Mode::Zp, RmwOp::Asl)),
    {
        self.rmw_op(sys, Mode::Zp, RmwOp::Asl)
    }

    /// `SLO $nn`
    pub fn op_07<S: Sys>(&mut self, sys: &mut S) -> (r: Option<()>)
        ensures
            final(self).keeps_tie(*old(self), *old(sys), *final(sys)),
            Nmos::ran(*old(self), *final(self), r, Instr::RmwAlu(Mode::Zp, RmwOp::Asl, Alu::Ora)),
    {
        self.rmw_alu_op(sys, Mode::Zp, RmwOp::Asl, Alu::Ora)
    }

    /// `PHP`
    #[verifier::rlimit(50)]
    pub fn op_08<S: Sys>(&mut self, sys: &mut S) -> (r: Option<()>)
        ensures
            final(self).keeps_tie(*old(self), *old(sys), *final(sys)),
            Nmos::ran(*old(self), *final(self), r, Instr::Php),
    {
        proof { reveal(step); }
        self.read(sys, self.pc)?;
        self.store(sys, stack(self.sp), self.flags.to_byte())?;
        self.sp = dec8(self.sp);
        proof {
            let t = since(old(self).bus@, self.bus@);
            lemma_since(old(self).bus@, self.bus@);
        }
        Some(())
    }

    /// `ORA #nn`
    pub fn op_09<S: Sys>(&mut self, sys: &mut S) -> (r: Option<()>)
        ensures
            final(self).keeps_tie(*old(self), *old(sys), *final(sys)),
            Nmos::ran(*old(self), *final(self), r, Instr::Imm(Alu::Ora)),
    {
        self.imm_op(sys, Alu::Ora)
    }

    /// `ASL A`
    pub fn op_0a<S: Sys>(&mut self, sys: &mut S) -> (r: Option<()>)
        ensures
            final(self).keeps_tie(*old(self), *old(sys), *final(sys)),
            Nmos::ran(*old(self), *final(self), r, Instr::Implied(Imp::OnA(RmwOp::Asl))),
    {
        self.implied_op(sys, Imp::OnA(RmwOp::Asl))
    }

    /// `ANC #nn`
    pub fn op_0b<S: Sys>(&mut self, sys: &mut S) -> (r: Option<()>)
        ensures
            final(self).keeps_tie(*old(self), *old(sys), *final(sys)),
            Nmos::ran(*old(self), *final(self), r, Instr::Imm(Alu::Anc)),
    {
        self.imm_op(sys, Alu::Anc)
    }

    /// `NOP* $nnnn`
    pub fn op_0c<S: Sys>(&mut self, sys: &mut S) -> (r: Option<()>)
        ensures
            final(self).keeps_tie(*old(self), *old(sys), *final(sys)),
            Nmos::ran(*old(self), *final(self), r, Instr::Load(Mode::Abs, Alu::Nop)),
    {
        self.load_op(sys, Mode::Abs, Alu::Nop)
    }

    /// `ORA $nnnn`
    pub fn op_0d<S: Sys>(&mut self, sys: &mut S) -> (r: Option<()>)
        ensures
            final(self).keeps_tie(*old(self), *old(sys), *final(sys)),
            Nmos::ran(*old(self), *final(self), r, Instr::Load(Mode::Abs, Alu::Ora)),
    {
        self.load_op(sys, Mode::Abs, Alu::Ora)
    }

    /// `ASL $nnnn`
    pub fn op_0e<S: Sys>(&mut self, sys: &mut S) -> (r: Option<()>)
        ensures
            final(self).keeps_tie(*old(self), *old(sys), *final(sys)),
            Nmos::ran(*old(self), *final(self), r, Instr::Rmw(Mode::Abs, RmwOp::Asl)),
    {
        self.rmw_op(sys, Mode::Abs, RmwOp::Asl)
    }

    /// `SLO $nnnn`
    pub fn op_0f<S: Sys>(&mut self, sys: &mut S) -> (r: Option<()>)
        ensures
            final(self).keeps_tie(*old(self), *old(sys), *final(sys)),
            Nmos::ran(*old(self), *final(self), r, Instr::RmwAlu(Mode::Abs, RmwOp::Asl, Alu::Ora)),
    {
        self.rmw_alu_op(sys, Mode::Abs, RmwOp::Asl, Alu::Ora)
    }

    /// `BPL`
    pub fn op_10<S: Sys>(&mut self, sys: &mut S) -> (r: Option<()>)
        ensures
            final(self).keeps_tie(*old(self), *old(sys), *final(sys)),
            Nmos::ran(*old(self), *final(self), r, Instr::Branch(Cond::Pl)),
    {
        self.branch_op(sys, Cond::Pl)
    }

    /// `ORA ($nn),Y`
    pub fn op_11<S: Sys>(&mut self, sys: &mut S) -> (r: Option<()>)
        ensures
            final(self).keeps_tie(*old(self), *old(sys), *final(sys)),
            Nmos::ran(*old(self), *final(self), r, Instr::Load(Mode::IzY(false), Alu::Ora)),
    {
        self.load_op(sys, Mode::IzY(false), Alu::Ora)
    }

    /// `KIL`
    pub fn op_12<S: Sys>(&mut self, sys: &mut S) -> (r: Option<()>)
        ensures
            final(self).keeps_tie(*old(self), *old(sys), *final(sys)),
            Nmos::ran(*old(self), *final(self), r, Instr::Kil),
    {
        proof { reveal(step); }
        self.halt()
    }

    /// `SLO ($nn),Y`
    pub fn op_13<S: Sys>(&mut self, sys: &mut S) -> (r: Option<()>)
        ensures
            final(self).keeps_tie(*old(self), *old(sys), *final(sys)),
            Nmos::ran(*old(self), *final(self), r, Instr::RmwAlu(Mode::IzY(true), RmwOp::Asl, Alu::Ora)),
    {
        self.rmw_alu_op(sys, Mode::IzY(true), RmwOp::Asl, Alu::Ora)
    }

    /// `NOP* $nn,X`
    pub fn op_14<S: Sys>(&mut self, sys: &mut S) -> (r: Option<()>)
        ensures
            final(self).keeps_tie(*old(self), *old(sys), *final(sys)),
            Nmos::ran(*old(self), *final(self), r, Instr::Load(Mode::ZpX, Alu::Nop)),
    {
        self.load_op(sys, Mode::ZpX, Alu::Nop)
    }

    /// `ORA $nn,X`
    pub fn op_15<S: Sys>(&mut self, sys: &mut S) -> (r: Option<()>)
        ensures
            final(self).keeps_tie(*old(self), *old(sys), *final(sys)),
            Nmos::ran(*old(self), *final(self), r, Instr::Load(Mode::ZpX, Alu::Ora)),
    {
        self.load_op(sys, Mode::ZpX, Alu::Ora)
    }

    /// `ASL $nn,X`
    pub fn op_16<S: Sys>(&mut self, sys: &mut S) -> (r: Option<()>)
        ensures
            final(self).keeps_tie(*old(self), *old(sys), *final(sys)),
            Nmos::ran(*old(self), *final(self), r, Instr::Rmw(Mode::ZpX, RmwOp::Asl)),
    {
        self.rmw_op(sys, Mode::ZpX, RmwOp::Asl)
    }

    /// `SLO $nn,X`
    pub fn op_17<S: Sys>(&mut self, sys: &mut S) -> (r: Option<()>)
        ensures
            final(self).keeps_tie(*old(self), *old(sys), *final(sys)),
            Nmos::ran(*old(self), *final(self), r, Instr::RmwAlu(Mode::ZpX, RmwOp::Asl, Alu::Ora)),
    {
        self.rmw_alu_op(sys, Mode::ZpX, RmwOp::Asl, Alu::Ora)
    }

    /// `CLC`
    pub fn op_18<S: Sys>(&mut self, sys: &mut S) -> (r: Option<()>)
        ensures
            final(self).keeps_tie(*old(self), *old(sys), *final(sys)),
            Nmos::ran(*old(self), *final(self), r, Instr::Implied(Imp::Clc)),
    {
        self.implied_op(sys, Imp::Clc)
    }

    /// `ORA $nnnn,Y`
    pub fn op_19<S: Sys>(&mut self, sys: &mut S) -> (r: Option<()>)
        ensures
            final(self).keeps_tie(*old(self), *old(sys), *final(sys)),
            Nmos::ran(*old(self), *final(self), r, Instr::Load(Mode::AbsY(false), Alu::Ora)),
    {
        self.load_op(sys, Mode::AbsY(false), Alu::Ora)
    }

    /// `NOP*`
    pub fn op_1a<S: Sys>(&mut self, sys: &mut S) -> (r: Option<()>)
        ensures
            final(self).keeps_tie(*old(self), *old(sys), *final(sys)),
            Nmos::ran(*old(self), *final(self), r, Instr::Implied(Imp::Nop)),
    {
        self.implied_op(sys, Imp::Nop)
    }

    /// `SLO $nnnn,Y`
    pub fn op_1b<S: Sys>(&mut self, sys: &mut S) -> (r: Option<()>)
        ensures
            final(self).keeps_tie(*old(self), *old(sys), *final(sys)),
            Nmos::ran(*old(self), *final(self), r, Instr::RmwAlu(Mode::AbsY(true), RmwOp::Asl, Alu::Ora)),
    {
        self.rmw_alu_op(sys, Mode::AbsY(true), RmwOp::Asl, Alu::Ora)
    }

    /// `NOP* $nnnn,X`
    pub fn op_1c<S: Sys>(&mut self, sys: &mut S) -> (r: Option<()>)
        ensures
            final(self).keeps_tie(*old(self), *old(sys), *final(sys)),
            Nmos::ran(*old(self), *final(self), r, Instr::Load(Mode::AbsX(false), Alu::Nop)),
    {
        self.load_op(sys, Mode::AbsX(false), Alu::Nop)
    }

    /// `ORA $nnnn,X`
    pub fn op_1d<S: Sys>(&mut self, sys: &mut S) -> (r: Option<()>)
        ensures
            final(self).keeps_tie(*old(self), *old(sys), *final(sys)),
            Nmos::ran(*old(self), *final(self), r, Instr::Load(Mode::AbsX(false), Alu::Ora)),
    {
        self.load_op(sys, Mode::AbsX(false), Alu::Ora)
    }

    /// `ASL $nnnn,X`
    pub fn op_1e<S: Sys>(&mut self, sys: &mut S) -> (r: Option<()>)
        ensures
            final(self).keeps_tie(*old(self), *old(sys), *final(sys)),
            Nmos::ran(*old(self), *final(self), r, Instr::Rmw(Mode::AbsX(true), RmwOp::Asl)),
    {
        self.rmw_op(sys, Mode::AbsX(true), RmwOp::Asl)
    }

    /// `SLO $nnnn,X`
    pub fn op_1f<S: Sys>(&mut self, sys: &mut S) -> (r: Option<()>)
        ensures
            final(self).keeps_tie(*old(self), *old(sys), *final(sys)),
            Nmos::ran(*old(self), *final(self), r, Instr::RmwAlu(Mode::AbsX(true), RmwOp::Asl, Alu::Ora)),
    {
        self.rmw_alu_op(sys, Mode::AbsX(true), RmwOp::Asl, Alu::Ora)
    }

    /// `JSR $nnnn`
    #[verifier::rlimit(50)]
    pub fn op_20<S: Sys>(&mut self, sys: &mut S) -> (r: Option<()>)
        ensures
            final(self).keeps_tie(*old(self), *old(sys), *final(sys)),
            Nmos::ran(*old(self), *final(self), r, Instr::Jsr),
    {
        proof { reveal(step); }
        self.lo_byte = self.fetch_operand(sys)?;
        self.read_stack(sys)?;
        self.write_stack(sys, hi(self.pc))?;
        self.sp = dec8(self.sp);
        self.write_stack(sys, lo(self.pc))?;
        self.sp = dec8(self.sp);
        self.poll_signals(sys);
        let hi_byte = self.fetch_operand(sys)?;
        self.pc = from_bytes(self.lo_byte, hi_byte);
        proof {
            let t = since(old(self).bus@, self.bus@);
            crate::model::lemma_add8_add(old(self).sp, -1, -1);
            lemma_since(old(self).bus@, self.bus@);
        }
        Some(())
    }

    /// `AND ($nn,X)`
    pub fn op_21<S: Sys>(&mut self, sys: &mut S) -> (r: Option<()>)
        ensures
            final(self).keeps_tie(*old(self), *old(sys), *final(sys)),
            Nmos::ran(*old(self), *final(self), r, Instr::Load(Mode::IzX, Alu::And)),
    {
        self.load_op(sys, Mode::IzX, Alu::And)
    }

    /// `KIL`
    pub fn op_22<S: Sys>(&mut self, sys: &mut S) -> (r: Option<()>)
        ensures
            final(self).keeps_tie(*old(self), *old(sys), *final(sys)),
            Nmos::ran(*old(self), *final(self), r, Instr::Kil),
    {
        proof { reveal(step); }
        self.halt()
    }

    /// `RLA ($nn,X)`
    pub fn op_23<S: Sys>(&mut self, sys: &mut S) -> (r: Option<()>)
        ensures
            final(self).keeps_tie(*old(self), *old(sys), *final(sys)),
            Nmos::ran(*old(self), *final(self), r, Instr::RmwAlu(Mode::IzX, RmwOp::Rol, Alu::And)),
    {
        self.rmw_alu_op(sys, Mode::IzX, RmwOp::Rol, Alu::And)
    }

    /// `BIT $nn`
    pub fn op_24<S: Sys>(&mut self, sys: &mut S) -> (r: Option<()>)
        ensures
            final(self).keeps_tie(*old(self), *old(sys), *final(sys)),
            Nmos::ran(*old(self), *final(self), r, Instr::Load(Mode::Zp, Alu::Bit)),
    {
        self.load_op(sys, Mode::Zp, Alu::Bit)
    }

    /// `AND $nn`
    pub fn op_25<S: Sys>(&mut self, sys: &mut S) -> (r: Option<()>)
        ensures
            final(self).keeps_tie(*old(self), *old(sys), *final(sys)),
            Nmos::ran(*old(self), *final(self), r, Instr::Load(Mode::Zp, Alu::And)),
    {
        self.load_op(sys, Mode::Zp, Alu::And)
    }

    /// `ROL $nn`
    pub fn op_26<S: Sys>(&mut self, sys: &mut S) -> (r: Option<()>)
        ensures
            final(self).keeps_tie(*old(self), *old(sys), *final(sys)),
            Nmos::ran(*old(self), *final(self), r, Instr::Rmw(Mode::Zp, RmwOp::Rol)),
    {
        self.rmw_op(sys, Mode::Zp, RmwOp::Rol)
    }

    /// `RLA $nn`
    pub fn op_27<S: Sys>(&mut self, sys: &mut S) -> (r: Option<()>)
        ensures
            final(self).keeps_tie(*old(self), *old(sys), *final(sys)),
            Nmos::ran(*old(self), *final(self), r, Instr::RmwAlu(Mode::Zp, RmwOp::Rol, Alu::And)),
    {
        self.rmw_alu_op(sys, Mode::Zp, RmwOp::Rol, Alu::And)
    }

    /// `PLP`
    #[verifier::rlimit(50)]
    pub fn op_28<S: Sys>(&mut self, sys: &mut S) -> (r: Option<()>)
        ensures
            final(self).keeps_tie(*old(self), *old(sys), *final(sys)),
            Nmos::ran(*old(self), *final(self), r, Instr::Plp),
    {
        proof { reveal(step); }
        self.read(sys, self.pc)?;
        self.read_stack(sys)?;
        self.sp = inc8(self.sp);
        let p = self.load(sys, stack(self.sp))?;
        self.flags.from_byte(p);
        proof {
            let t = since(old(self).bus@, self.bus@);
            lemma_since(old(self).bus@, self.bus@);
        }
        Some(())
    }

    /// `AND #nn`
    pub fn op_29<S: Sys>(&mut self, sys: &mut S) -> (r: Option<()>)
        ensures
            final(self).keeps_tie(*old(self), *old(sys), *final(sys)),
            Nmos::ran(*old(self), *final(self), r, Instr::Imm(Alu::And)),
    {
        self.imm_op(sys, Alu::And)
    }

    /// `ROL A`
    pub fn op_2a<S: Sys>(&mut self, sys: &mut S) -> (r: Option<()>)
        ensures
            final(self).keeps_tie(*old(self), *old(sys), *final(sys)),
            Nmos::ran(*old(self), *final(self), r, Instr::Implied(Imp::OnA(RmwOp::Rol))),
    {
        self.implied_op(sys, Imp::OnA(RmwOp::Rol))
    }

    /// `ANC #nn`
    pub fn op_2b<S: Sys>(&mut self, sys: &mut S) -> (r: Option<()>)
        ensures
            final(self).keeps_tie(*old(self), *old(sys), *final(sys)),
            Nmos::ran(*old(self), *final(self), r, Instr::Imm(Alu::Anc)),
    {
        self.imm_op(sys, Alu::Anc)
    }

    /// `BIT $nnnn`
    pub fn op_2c<S: Sys>(&mut self, sys: &mut S) -> (r: Option<()>)
        ensures
            final(self).keeps_tie(*old(self), *old(sys), *final(sys)),
            Nmos::ran(*old(self), *final(self), r, Instr::Load(Mode::Abs, Alu::Bit)),
    {
        self.load_op(sys, Mode::Abs, Alu::Bit)
    }

    /// `AND $nnnn`
    pub fn op_2d<S: Sys>(&mut self, sys: &mut S) -> (r: Option<()>)
        ensures
            final(self).keeps_tie(*old(self), *old(sys), *final(sys)),
            Nmos::ran(*old(self), *final(self), r, Instr::Load(Mode::Abs, Alu::And)),
    {
        self.load_op(sys, Mode::Abs, Alu::And)
    }

    /// `ROL $nnnn`
    pub fn op_2e<S: Sys>(&mut self, sys: &mut S) -> (r: Option<()>)
        ensures
            final(self).keeps_tie(*old(self), *old(sys), *final(sys)),
            Nmos::ran(*old(self), *final(self), r, Instr::Rmw(Mode::Abs, RmwOp::Rol)),
    {
        self.rmw_op(sys, Mode::Abs, RmwOp::Rol)
    }

    /// `RLA $nnnn`
    pub fn op_2f<S: Sys>(&mut self, sys: &mut S) -> (r: Option<()>)
        ensures
            final(self).keeps_tie(*old(self), *old(sys), *final(sys)),
            Nmos::ran(*old(self), *final(self), r, Instr::RmwAlu(Mode::Abs, RmwOp::Rol, Alu::And)),
    {
        self.rmw_alu_op(sys, Mode::Abs, RmwOp::Rol, Alu::And)
    }

    /// `BMI`
    pub fn op_30<S: Sys>(&mut self, sys: &mut S) -> (r: Option<()>)
        ensures
            final(self).keeps_tie(*old(self), *old(sys), *final(sys)),
            Nmos::ran(*old(self), *final(self), r, Instr::Branch(Cond::Mi)),
    {
        self.branch_op(sys, Cond::Mi)
    }

    /// `AND ($nn),Y`
    pub fn op_31<S: Sys>(&mut self, sys: &mut S) -> (r: Option<()>)
        ensures
            final(self).keeps_tie(*old(self), *old(sys), *final(sys)),
            Nmos::ran(*old(self), *final(self), r, Instr::Load(Mode::IzY(false), Alu::And)),
    {
        self.load_op(sys, Mode::IzY(false), Alu::And)
    }

    /// `KIL`
    pub fn op_32<S: Sys>(&mut self, sys: &mut S) -> (r: Option<()>)
        ensures
            final(self).keeps_tie(*old(self), *old(sys), *final(sys)),
            Nmos::ran(*old(self), *final(self), r, Instr::Kil),
    {
        proof { reveal(step); }
        self.halt()
    }

    /// `RLA ($nn),Y`
    pub fn op_33<S: Sys>(&mut self, sys: &mut S) -> (r: Option<()>)
        ensures
            final(self).keeps_tie(*old(self), *old(sys), *final(sys)),
            Nmos::ran(*old(self), *final(self), r, Instr::RmwAlu(Mode::IzY(true), RmwOp::Rol, Alu::And)),
    {
        self.rmw_alu_op(sys, Mode::IzY(true), RmwOp::Rol, Alu::And)
    }

    /// `NOP* $nn,X`
    pub fn op_34<S: Sys>(&mut self, sys: &mut S) -> (r: Option<()>)
        ensures
            final(self).keeps_tie(*old(self), *old(sys), *final(sys)),
            Nmos::ran(*old(self), *final(self), r, Instr::Load(Mode::ZpX, Alu::Nop)),
    {
        self.load_op(sys, Mode::ZpX, Alu::Nop)
    }

    /// `AND $nn,X`
    pub fn op_35<S: Sys>(&mut self, sys: &mut S) -> (r: Option<()>)
        ensures
            final(self).keeps_tie(*old(self), *old(sys), *final(sys)),
            Nmos::ran(*old(self), *final(self), r, Instr::Load(Mode::ZpX, Alu::And)),
    {
        self.load_op(sys, Mode::ZpX, Alu::And)
    }

    /// `ROL $nn,X`
    pub fn op_36<S: Sys>(&mut self, sys: &mut S) -> (r: Option<()>)
        ensures
            final(self).keeps_tie(*old(self), *old(sys), *final(sys)),
            Nmos::ran(*old(self), *final(self), r, Instr::Rmw(Mode::ZpX, RmwOp::Rol)),
    {
        self.rmw_op(sys, Mode::ZpX, RmwOp::Rol)
    }

    /// `RLA $nn,X`
    pub fn op_37<S: Sys>(&mut self, sys: &mut S) -> (r: Option<()>)
        ensures
            final(self).keeps_tie(*old(self), *old(sys), *final(sys)),
            Nmos::ran(*old(self), *final(self), r, Instr::RmwAlu(Mode::ZpX, RmwOp::Rol, Alu::And)),
    {
        self.rmw_alu_op(sys, Mode::ZpX, RmwOp::Rol, Alu::And)
    }

    /// `SEC`
    pub fn op_38<S: Sys>(&mut self, sys: &mut S) -> (r: Option<()>)
        ensures
            final(self).keeps_tie(*old(self), *old(sys), *final(sys)),
            Nmos::ran(*old(self), *final(self), r, Instr::Implied(Imp::Sec)),
    {
        self.implied_op(sys, Imp::Sec)
    }

    /// `AND $nnnn,Y`
    pub fn op_39<S: Sys>(&mut self, sys: &mut S) -> (r: Option<()>)
        ensures
            final(self).keeps_tie(*old(self), *old(sys), *final(sys)),
            Nmos::ran(*old(self), *final(self), r, Instr::Load(Mode::AbsY(false), Alu::And)),
    {
        self.load_op(sys, Mode::AbsY(false), Alu::And)
    }

    /// `NOP*`
    pub fn op_3a<S: Sys>(&mut self, sys: &mut S) -> (r: Option<()>)
        ensures
            final(self).keeps_tie(*old(self), *old(sys), *final(sys)),
            Nmos::ran(*old(self), *final(self), r, Instr::Implied(Imp::Nop)),
    {
        self.implied_op(sys, Imp::Nop)
    }

    /// `RLA $nnnn,Y`
    pub fn op_3b<S: Sys>(&mut self, sys: &mut S) -> (r: Option<()>)
        ensures
            final(self).keeps_tie(*old(self), *old(sys), *final(sys)),
            Nmos::ran(*old(self), *final(self), r, Instr::RmwAlu(Mode::AbsY(true), RmwOp::Rol, Alu::And)),
    {
        self.rmw_alu_op(sys, Mode::AbsY(true), RmwOp::Rol, Alu::And)
    }

    /// `NOP* $nnnn,X`
    pub fn op_3c<S: Sys>(&mut self, sys: &mut S) -> (r: Option<()>)
        ensures
            final(self).keeps_tie(*old(self), *old(sys), *final(sys)),
            Nmos::ran(*old(self), *final(self), r, Instr::Load(Mode::AbsX(false), Alu::Nop)),
    {
        self.load_op(sys, Mode::AbsX(false), Alu::Nop)
    }

    /// `AND $nnnn,X`
    pub fn op_3d<S: Sys>(&mut self, sys: &mut S) -> (r: Option<()>)
        ensures
            final(self).keeps_tie(*old(self), *old(sys), *final(sys)),
            Nmos::ran(*old(self), *final(self), r, Instr::Load(Mode::AbsX(false), Alu::And)),
    {
        self.load_op(sys, Mode::AbsX(false), Alu::And)
    }

    /// `ROL $nnnn,X`
    pub fn op_3e<S: Sys>(&mut self, sys: &mut S) -> (r: Option<()>)
        ensures
            final(self).keeps_tie(*old(self), *old(sys), *final(sys)),
            Nmos::ran(*old(self), *final(self), r, Instr::Rmw(Mode::AbsX(true), RmwOp::Rol)),
    {
        self.rmw_op(sys, Mode::AbsX(true), RmwOp::Rol)
    }

    /// `RLA $nnnn,X`
    pub fn op_3f<S: Sys>(&mut self, sys: &mut S) -> (r: Option<()>)
        ensures
            final(self).keeps_tie(*old(self), *old(sys), *final(sys)),
            Nmos::ran(*old(self), *final(self), r, Instr::RmwAlu(Mode::AbsX(true), RmwOp::Rol, Alu::And)),
    {
        self.rmw_alu_op(sys, Mode::AbsX(true), RmwOp::Rol, Alu::And)
    }

    /// `RTI`
    #[verifier::rlimit(50)]
    pub fn op_40<S: Sys>(&mut self, sys: &mut S) -> (r: Option<()>)
        ensures
            final(self).keeps_tie(*old(self), *old(sys), *final(sys)),
            Nmos::ran(*old(self), *final(self), r, Instr::Rti),
    {
        proof { reveal(step); }
        self.read(sys, self.pc)?;
        self.read_stack(sys)?;
        self.sp = inc8(self.sp);
        let p = self.read_stack(sys)?;
        self.sp = inc8(self.sp);
        self.flags.from_byte(p);
        self.lo_byte = self.read_stack(sys)?;
        self.sp = inc8(self.sp);
        self.poll_signals(sys);
        let hi_byte = self.read_stack(sys)?;
        self.pc = from_bytes(self.lo_byte, hi_byte);
        proof {
            let t = since(old(self).bus@, self.bus@);
            crate::model::lemma_add8_add(old(self).sp, 1, 1);
            crate::model::lemma_add8_add(old(self).sp, 2, 1);
            lemma_since(old(self).bus@, self.bus@);
        }
        Some(())
    }

    /// `EOR ($nn,X)`
    pub fn op_41<S: Sys>(&mut self, sys: &mut S) -> (r: Option<()>)
        ensures
            final(self).keeps_tie(*old(self), *old(sys), *final(sys)),
            Nmos::ran(*old(self), *final(self), r, Instr::Load(Mode::IzX, Alu::Eor)),
    {
        self.load_op(sys, Mode::IzX, Alu::Eor)
    }

    /// `KIL`
    pub fn op_42<S: Sys>(&mut self, sys: &mut S) -> (r: Option<()>)
        ensures
            final(self).keeps_tie(*old(self), *old(sys), *final(sys)),
            Nmos::ran(*old(self), *final(self), r, Instr::Kil),
    {
        proof { reveal(step); }
        self.halt()
    }

    /// `SRE ($nn,X)`
    pub fn op_43<S: Sys>(&mut self, sys: &mut S) -> (r: Option<()>)
        ensures
            final(self).keeps_tie(*old(self), *old(sys), *final(sys)),
            Nmos::ran(*old(self), *final(self), r, Instr::RmwAlu(Mode::IzX, RmwOp::Lsr, Alu::Eor)),
    {
        self.rmw_alu_op(sys, Mode::IzX, RmwOp::Lsr, Alu::Eor)
    }

    /// `NOP* $nn`
    pub fn op_44<S: Sys>(&mut self, sys: &mut S) -> (r: Option<()>)
        ensures
            final(self).keeps_tie(*old(self), *old(sys), *final(sys)),
            Nmos::ran(*old(self), *final(self), r, Instr::Load(Mode::Zp, Alu::Nop)),
    {
        self.load_op(sys, Mode::Zp, Alu::Nop)
    }

    /// `EOR $nn`
    pub fn op_45<S: Sys>(&mut self, sys: &mut S) -> (r: Option<()>)
        ensures
            final(self).keeps_tie(*old(self), *old(sys), *final(sys)),
            Nmos::ran(*old(self), *final(self), r, Instr::Load(Mode::Zp, Alu::Eor)),
    {
        self.load_op(sys, Mode::Zp, Alu::Eor)
    }

    /// `LSR $nn`
    pub fn op_46<S: Sys>(&mut self, sys: &mut S) -> (r: Option<()>)
        ensures
            final(self).keeps_tie(*old(self), *old(sys), *final(sys)),
            Nmos::ran(*old(self), *final(self), r, Instr::Rmw(Mode::Zp, RmwOp::Lsr)),
    {
        self.rmw_op(sys, Mode::Zp, RmwOp::Lsr)
    }

    /// `SRE $nn`
    pub fn op_47<S: Sys>(&mut self, sys: &mut S) -> (r: Option<()>)
        ensures
            final(self).keeps_tie(*old(self), *old(sys), *final(sys)),
            Nmos::ran(*old(self), *final(self), r, Instr::RmwAlu(Mode::Zp, RmwOp::Lsr, Alu::Eor)),
    {
        self.rmw_alu_op(sys, Mode::Zp, RmwOp::Lsr, Alu::Eor)
    }

    /// `PHA`
    #[verifier::rlimit(50)]
    pub fn op_48<S: Sys>(&mut self, sys: &mut S) -> (r: Option<()>)
        ensures
            final(self).keeps_tie(*old(self), *old(sys), *final(sys)),
            Nmos::ran(*old(self), *final(self), r, Instr::Push(Reg::A)),
    {
        proof { reveal(step); }
        self.read(sys, self.pc)?;
        self.store(sys, stack(self.sp), self.a)?;
        self.sp = dec8(self.sp);
        proof {
            let t = since(old(self).bus@, self.bus@);
            lemma_since(old(self).bus@, self.bus@);
        }
        Some(())
    }

    /// `EOR #nn`
    pub fn op_49<S: Sys>(&mut self, sys: &mut S) -> (r: Option<()>)
        ensures
            final(self).keeps_tie(*old(self), *old(sys), *final(sys)),
            Nmos::ran(*old(self), *final(self), r, Instr::Imm(Alu::Eor)),
    {
        self.imm_op(sys, Alu::Eor)
    }

    /// `LSR A`
    pub fn op_4a<S: Sys>(&mut self, sys: &mut S) -> (r: Option<()>)
        ensures
            final(self).keeps_tie(*old(self), *old(sys), *final(sys)),
            Nmos::ran(*old(self), *final(self), r, Instr::Implied(Imp::OnA(RmwOp::Lsr))),
    {
        self.implied_op(sys, Imp::OnA(RmwOp::Lsr))
    }

    /// `ALR #nn`
    pub fn op_4b<S: Sys>(&mut self, sys: &mut S) -> (r: Option<()>)
        ensures
            final(self).keeps_tie(*old(self), *old(sys), *final(sys)),
            Nmos::ran(*old(self), *final(self), r, Instr::Imm(Alu::Alr)),
    {
        self.imm_op(sys, Alu::Alr)
    }

    /// `JMP $nnnn`
    #[verifier::rlimit(50)]
    pub fn op_4c<S: Sys>(&mut self, sys: &mut S) -> (r: Option<()>)
        ensures
            final(self).keeps_tie(*old(self), *old(sys), *final(sys)),
            Nmos::ran(*old(self), *final(self), r, Instr::JmpAbs),
    {
        proof { reveal(step); }
        self.lo_byte = self.fetch_operand(sys)?;
        self.poll_signals(sys);
        let hi_byte = self.fetch_operand(sys)?;
        self.pc = from_bytes(self.lo_byte, hi_byte);
        proof {
            let t = since(old(self).bus@, self.bus@);
            lemma_since(old(self).bus@, self.bus@);
        }
        Some(())
    }

    /// `EOR $nnnn`
    pub fn op_4d<S: Sys>(&mut self, sys: &mut S) -> (r: Option<()>)
        ensures
            final(self).keeps_tie(*old(self), *old(sys), *final(sys)),
            Nmos::ran(*old(self), *final(self), r, Instr::Load(Mode::Abs, Alu::Eor)),
    {
        self.load_op(sys, Mode::Abs, Alu::Eor)
    }

    /// `LSR $nnnn`
    pub fn op_4e<S: Sys>(&mut self, sys: &mut S) -> (r: Option<()>)
        ensures
            final(self).keeps_tie(*old(self), *old(sys), *final(sys)),
            Nmos::ran(*old(self), *final(self), r, Instr::Rmw(Mode::Abs, RmwOp::Lsr)),
    {
        self.rmw_op(sys, Mode::Abs, RmwOp::Lsr)
    }

    /// `SRE $nnnn`
    pub fn op_4f<S: Sys>(&mut self, sys: &mut S) -> (r: Option<()>)
        ensures
            final(self).keeps_tie(*old(self), *old(sys), *final(sys)),
            Nmos::ran(*old(self), *final(self), r, Instr::RmwAlu(Mode::Abs, RmwOp::Lsr, Alu::Eor)),
    {
        self.rmw_alu_op(sys, Mode::Abs, RmwOp::Lsr, Alu::Eor)
    }

    /// `BVC`
    pub fn op_50<S: Sys>(&mut self, sys: &mut S) -> (r: Option<()>)
        ensures
            final(self).keeps_tie(*old(self), *old(sys), *final(sys)),
            Nmos::ran(*old(self), *final(self), r, Instr::Branch(Cond::Vc)),
    {
        self.branch_op(sys, Cond::Vc)
    }

    /// `EOR ($nn),Y`
    pub fn op_51<S: Sys>(&mut self, sys: &mut S) -> (r: Option<()>)
        ensures
            final(self).keeps_tie(*old(self), *old(sys), *final(sys)),
            Nmos::ran(*old(self), *final(self), r, Instr::Load(Mode::IzY(false), Alu::Eor)),
    {
        self.load_op(sys, Mode::IzY(false), Alu::Eor)
    }

    /// `KIL`
    pub fn op_52<S: Sys>(&mut self, sys: &mut S) -> (r: Option<()>)
        ensures
            final(self).keeps_tie(*old(self), *old(sys), *final(sys)),
            Nmos::ran(*old(self), *final(self), r, Instr::Kil),
    {
        proof { reveal(step); }
        self.halt()
    }

    /// `SRE ($nn),Y`
    pub fn op_53<S: Sys>(&mut self, sys: &mut S) -> (r: Option<()>)
        ensures
            final(self).keeps_tie(*old(self), *old(sys), *final(sys)),
            Nmos::ran(*old(self), *final(self), r, Instr::RmwAlu(Mode::IzY(true), RmwOp::Lsr, Alu::Eor)),
    {
        self.rmw_alu_op(sys, Mode::IzY(true), RmwOp::Lsr, Alu::Eor)
    }

    /// `NOP* $nn,X`
    pub fn op_54<S: Sys>(&mut self, sys: &mut S) -> (r: Option<()>)
        ensures
            final(self).keeps_tie(*old(self), *old(sys), *final(sys)),
            Nmos::ran(*old(self), *final(self), r, Instr::Load(Mode::ZpX, Alu::Nop)),
    {
        self.load_op(sys, Mode::ZpX, Alu::Nop)
    }

    /// `EOR $nn,X`
    pub fn op_55<S: Sys>(&mut self, sys: &mut S) -> (r: Option<()>)
        ensures
            final(self).keeps_tie(*old(self), *old(sys), *final(sys)),
            Nmos::ran(*old(self), *final(self), r, Instr::Load(Mode::ZpX, Alu::Eor)),
    {
        self.load_op(sys, Mode::ZpX, Alu::Eor)
    }

    /// `LSR $nn,X`
    pub fn op_56<S: Sys>(&mut self, sys: &mut S) -> (r: Option<()>)
        ensures
            final(self).keeps_tie(*old(self), *old(sys), *final(sys)),
            Nmos::ran(*old(self), *final(self), r, Instr::Rmw(Mode::ZpX, RmwOp::Lsr)),
    {
        self.rmw_op(sys, Mode::ZpX, RmwOp::Lsr)
    }

    /// `SRE $nn,X`
    pub fn op_57<S: Sys>(&mut self, sys: &mut S) -> (r: Option<()>)
        ensures
            final(self).keeps_tie(*old(self), *old(sys), *final(sys)),
            Nmos::ran(*old(self), *final(self), r, Instr::RmwAlu(Mode::ZpX, RmwOp::Lsr, Alu::Eor)),
    {
        self.rmw_alu_op(sys, Mode::ZpX, RmwOp::Lsr, Alu::Eor)
    }

    /// `CLI`
    pub fn op_58<S: Sys>(&mut self, sys: &mut S) -> (r: Option<()>)
        ensures
            final(self).keeps_tie(*old(self), *old(sys), *final(sys)),
            Nmos::ran(*old(self), *final(self), r, Instr::Implied(Imp::Cli)),
    {
        self.implied_op(sys, Imp::Cli)
    }

    /// `EOR $nnnn,Y`
    pub fn op_59<S: Sys>(&mut self, sys: &mut S) -> (r: Option<()>)
        ensures
            final(self).keeps_tie(*old(self), *old(sys), *final(sys)),
            Nmos::ran(*old(self), *final(self), r, Instr::Load(Mode::AbsY(false), Alu::Eor)),
    {
        self.load_op(sys, Mode::AbsY(false), Alu::Eor)
    }

    /// `NOP*`
    pub fn op_5a<S: Sys>(&mut self, sys: &mut S) -> (r: Option<()>)
        ensures
            final(self).keeps_tie(*old(self), *old(sys), *final(sys)),
            Nmos::ran(*old(self), *final(self), r, Instr::Implied(Imp::Nop)),
    {
        self.implied_op(sys, Imp::Nop)
    }

    /// `SRE $nnnn,Y`
    pub fn op_5b<S: Sys>(&mut self, sys: &mut S) -> (r: Option<()>)
        ensures
            final(self).keeps_tie(*old(self), *old(sys), *final(sys)),
            Nmos::ran(*old(self), *final(self), r, Instr::RmwAlu(Mode::AbsY(true), RmwOp::Lsr, Alu::Eor)),
    {
        self.rmw_alu_op(sys, Mode::AbsY(true), RmwOp::Lsr, Alu::Eor)
    }

    /// `NOP* $nnnn,X`
    pub fn op_5c<S: Sys>(&mut self, sys: &mut S) -> (r: Option<()>)
        ensures
            final(self).keeps_tie(*old(self), *old(sys), *final(sys)),
            Nmos::ran(*old(self), *final(self), r, Instr::Load(Mode::AbsX(false), Alu::Nop)),
    {
        self.load_op(sys, Mode::AbsX(false), Alu::Nop)
    }

    /// `EOR $nnnn,X`
    pub fn op_5d<S: Sys>(&mut self, sys: &mut S) -> (r: Option<()>)
        ensures
            final(self).keeps_tie(*old(self), *old(sys), *final(sys)),
            Nmos::ran(*old(self), *final(self), r, Instr::Load(Mode::AbsX(false), Alu::Eor)),
    {
        self.load_op(sys, Mode::AbsX(false), Alu::Eor)
    }

    /// `LSR $nnnn,X`
    pub fn op_5e<S: Sys>(&mut self, sys: &mut S) -> (r: Option<()>)
        ensures
            final(self).keeps_tie(*old(self), *old(sys), *final(sys)),
            Nmos::ran(*old(self), *final(self), r, Instr::Rmw(Mode::AbsX(true), RmwOp::Lsr)),
    {
        self.rmw_op(sys, Mode::AbsX(true), RmwOp::Lsr)
    }

    /// `SRE $nnnn,X`
    pub fn op_5f<S: Sys>(&mut self, sys: &mut S) -> (r: Option<()>)
        ensures
            final(self).keeps_tie(*old(self), *old(sys), *final(sys)),
            Nmos::ran(*old(self), *final(self), r, Instr::RmwAlu(Mode::AbsX(true), RmwOp::Lsr, Alu::Eor)),
    {
        self.rmw_alu_op(sys, Mode::AbsX(true), RmwOp::Lsr, Alu::Eor)
    }

    /// `RTS`
    #[verifier::rlimit(50)]
    pub fn op_60<S: Sys>(&mut self, sys: &mut S) -> (r: Option<()>)
        ensures
            final(self).keeps_tie(*old(self), *old(sys), *final(sys)),
            Nmos::ran(*old(self), *final(self), r, Instr::Rts),
    {
        proof { reveal(step); }
        self.read(sys, self.pc)?;
        self.read_stack(sys)?;
        self.sp = inc8(self.sp);
        self.lo_byte = self.read_stack(sys)?;
        self.sp = inc8(self.sp);
        let hi_byte = self.read_stack(sys)?;
        self.pc = from_bytes(self.lo_byte, hi_byte);
        self.poll_signals(sys);
        self.fetch_operand(sys)?;
        proof {
            let t = since(old(self).bus@, self.bus@);
            crate::model::lemma_add8_add(old(self).sp, 1, 1);
            lemma_since(old(self).bus@, self.bus@);
        }
        Some(())
    }

    /// `ADC ($nn,X)`
    pub fn op_61<S: Sys>(&mut self, sys: &mut S) -> (r: Option<()>)
        ensures
            final(self).keeps_tie(*old(self), *old(sys), *final(sys)),
            Nmos::ran(*old(self), *final(self), r, Instr::Load(Mode::IzX, Alu::Adc)),
    {
        self.load_op(sys, Mode::IzX, Alu::Adc)
    }

    /// `KIL`
    pub fn op_62<S: Sys>(&mut self, sys: &mut S) -> (r: Option<()>)
        ensures
            final(self).keeps_tie(*old(self), *old(sys), *final(sys)),
            Nmos::ran(*old(self), *final(self), r, Instr::Kil),
    {
        proof { reveal(step); }
        self.halt()
    }

    /// `RRA ($nn,X)`
    pub fn op_63<S: Sys>(&mut self, sys: &mut S) -> (r: Option<()>)
        ensures
            final(self).keeps_tie(*old(self), *old(sys), *final(sys)),
            Nmos::ran(*old(self), *final(self), r, Instr::RmwAlu(Mode::IzX, RmwOp::Ror, Alu::Adc)),
    {
        self.rmw_alu_op(sys, Mode::IzX, RmwOp::Ror, Alu::Adc)
    }

    /// `NOP* $nn`
    pub fn op_64<S: Sys>(&mut self, sys: &mut S) -> (r: Option<()>)
        ensures
            final(self).keeps_tie(*old(self), *old(sys), *final(sys)),
            Nmos::ran(*old(self), *final(self), r, Instr::Load(Mode::Zp, Alu::Nop)),
    {
        self.load_op(sys, Mode::Zp, Alu::Nop)
    }

    /// `ADC $nn`
    pub fn op_65<S: Sys>(&mut self, sys: &mut S) -> (r: Option<()>)
        ensures
            final(self).keeps_tie(*old(self), *old(sys), *final(sys)),
            Nmos::ran(*old(self), *final(self), r, Instr::Load(Mode::Zp, Alu::Adc)),
    {
        self.load_op(sys, Mode::Zp, Alu::Adc)
    }

    /// `ROR $nn`
    pub fn op_66<S: Sys>(&mut self, sys: &mut S) -> (r: Option<()>)
        ensures
            final(self).keeps_tie(*old(self), *old(sys), *final(sys)),
            Nmos::ran(*old(self), *final(self), r, Instr::Rmw(Mode::Zp, RmwOp::Ror)),
    {
        self.rmw_op(sys, Mode::Zp, RmwOp::Ror)
    }

    /// `RRA $nn`
    pub fn op_67<S: Sys>(&mut self, sys: &mut S) -> (r: Option<()>)
        ensures
            final(self).keeps_tie(*old(self), *old(sys), *final(sys)),
            Nmos::ran(*old(self), *final(self), r, Instr::RmwAlu(Mode::Zp, RmwOp::Ror, Alu::Adc)),
    {
        self.rmw_alu_op(sys, Mode::Zp, RmwOp::Ror, Alu::Adc)
    }

    /// `PLA`
    #[verifier::rlimit(50)]
    pub fn op_68<S: Sys>(&mut self, sys: &mut S) -> (r: Option<()>)
        ensures
            final(self).keeps_tie(*old(self), *old(sys), *final(sys)),
            Nmos::ran(*old(self), *final(self), r, Instr::Pull(Reg::A)),
    {
        proof { reveal(step); }
        self.read(sys, self.pc)?;
        self.read_stack(sys)?;
        self.sp = inc8(self.sp);
        self.a = self.load(sys, stack(self.sp))?;
        self.flags.nz(self.a);
        proof {
            let t = since(old(self).bus@, self.bus@);
            lemma_since(old(self).bus@, self.bus@);
        }
        Some(())
    }

    /// `ADC #nn`
    pub fn op_69<S: Sys>(&mut self, sys: &mut S) -> (r: Option<()>)
        ensures
            final(self).keeps_tie(*old(self), *old(sys), *final(sys)),
            Nmos::ran(*old(self), *final(self), r, Instr::Imm(Alu::Adc)),
    {
        self.imm_op(sys, Alu::Adc)
    }

    /// `ROR A`
    pub fn op_6a<S: Sys>(&mut self, sys: &mut S) -> (r: Option<()>)
        ensures
            final(self).keeps_tie(*old(self), *old(sys), *final(sys)),
            Nmos::ran(*old(self), *final(self), r, Instr::Implied(Imp::OnA(RmwOp::Ror))),
    {
        self.implied_op(sys, Imp::OnA(RmwOp::Ror))
    }

    /// `ARR #nn`
    pub fn op_6b<S: Sys>(&mut self, sys: &mut S) -> (r: Option<()>)
        ensures
            final(self).keeps_tie(*old(self), *old(sys), *final(sys)),
            Nmos::ran(*old(self), *final(self), r, Instr::Imm(Alu::Arr)),
    {
        self.imm_op(sys, Alu::Arr)
    }

    /// `JMP ($nnnn)`
    #[verifier::rlimit(50)]
    pub fn op_6c<S: Sys>(&mut self, sys: &mut S) -> (r: Option<()>)
        ensures
            final(self).keeps_tie(*old(self), *old(sys), *final(sys)),
            Nmos::ran(*old(self), *final(self), r, Instr::JmpInd),
    {
        proof { reveal(step); }
        self.base1 = self.addr_abs(sys)?;
        self.lo_byte = self.read(sys, self.base1)?;
        let hi_byte = self.load(sys, self.base1.no_carry(1u16))?;
        self.pc = from_bytes(self.lo_byte, hi_byte);
        proof {
            let t = since(old(self).bus@, self.bus@);
            lemma_since(old(self).bus@, self.bus@);
        }
        Some(())
    }

    /// `ADC $nnnn`
    pub fn op_6d<S: Sys>(&mut self, sys: &mut S) -> (r: Option<()>)
        ensures
            final(self).keeps_tie(*old(self), *old(sys), *final(sys)),
            Nmos::ran(*old(self), *final(self), r, Instr::Load(Mode::Abs, Alu::Adc)),
    {
        self.load_op(sys, Mode::Abs, Alu::Adc)
    }

    /// `ROR $nnnn`
    pub fn op_6e<S: Sys>(&mut self, sys: &mut S) -> (r: Option<()>)
        ensures
            final(self).keeps_tie(*old(self), *old(sys), *final(sys)),
            Nmos::ran(*old(self), *final(self), r, Instr::Rmw(Mode::Abs, RmwOp::Ror)),
    {
        self.rmw_op(sys, Mode::Abs, RmwOp::Ror)
    }

    /// `RRA $nnnn`
    pub fn op_6f<S: Sys>(&mut self, sys: &mut S) -> (r: Option<()>)
        ensures
            final(self).keeps_tie(*old(self), *old(sys), *final(sys)),
            Nmos::ran(*old(self), *final(self), r, Instr::RmwAlu(Mode::Abs, RmwOp::Ror, Alu::Adc)),
    {
        self.rmw_alu_op(sys, Mode::Abs, RmwOp::Ror, Alu::Adc)
    }

    /// `BVS`
    pub fn op_70<S: Sys>(&mut self, sys: &mut S) -> (r: Option<()>)
        ensures
            final(self).keeps_tie(*old(self), *old(sys), *final(sys)),
            Nmos::ran(*old(self), *final(self), r, Instr::Branch(Cond::Vs)),
    {
        self.branch_op(sys, Cond::Vs)
    }

    /// `ADC ($nn),Y`
    pub fn op_71<S: Sys>(&mut self, sys: &mut S) -> (r: Option<()>)
        ensures
            final(self).keeps_tie(*old(self), *old(sys), *final(sys)),
            Nmos::ran(*old(self), *final(self), r, Instr::Load(Mode::IzY(false), Alu::Adc)),
    {
        self.load_op(sys, Mode::IzY(false), Alu::Adc)
    }

    /// `KIL`
    pub fn op_72<S: Sys>(&mut self, sys: &mut S) -> (r: Option<()>)
        ensures
            final(self).keeps_tie(*old(self), *old(sys), *final(sys)),
            Nmos::ran(*old(self), *final(self), r, Instr::Kil),
    {
        proof { reveal(step); }
        self.halt()
    }

    /// `RRA ($nn),Y`
    pub fn op_73<S: Sys>(&mut self, sys: &mut S) -> (r: Option<()>)
        ensures
            final(self).keeps_tie(*old(self), *old(sys), *final(sys)),
            Nmos::ran(*old(self), *final(self), r, Instr::RmwAlu(Mode::IzY(true), RmwOp::Ror, Alu::Adc)),
    {
        self.rmw_alu_op(sys, Mode::IzY(true), RmwOp::Ror, Alu::Adc)
    }

    /// `NOP* $nn,X`
    pub fn op_74<S: Sys>(&mut self, sys: &mut S) -> (r: Option<()>)
        ensures
            final(self).keeps_tie(*old(self), *old(sys), *final(sys)),
            Nmos::ran(*old(self), *final(self), r, Instr::Load(Mode::ZpX, Alu::Nop)),
    {
        self.load_op(sys, Mode::ZpX, Alu::Nop)
    }

    /// `ADC $nn,X`
    pub fn op_75<S: Sys>(&mut self, sys: &mut S) -> (r: Option<()>)
        ensures
            final(self).keeps_tie(*old(self), *old(sys), *final(sys)),
            Nmos::ran(*old(self), *final(self), r, Instr::Load(Mode::ZpX, Alu::Adc)),
    {
        self.load_op(sys, Mode::ZpX, Alu::Adc)
    }

    /// `ROR $nn,X`
    pub fn op_76<S: Sys>(&mut self, sys: &mut S) -> (r: Option<()>)
        ensures
            final(self).keeps_tie(*old(self), *old(sys), *final(sys)),
            Nmos::ran(*old(self), *final(self), r, Instr::Rmw(Mode::ZpX, RmwOp::Ror)),
    {
        self.rmw_op(sys, Mode::ZpX, RmwOp::Ror)
    }

    /// `RRA $nn,X`
    pub fn op_77<S: Sys>(&mut self, sys: &mut S) -> (r: Option<()>)
        ensures
            final(self).keeps_tie(*old(self), *old(sys), *final(sys)),
            Nmos::ran(*old(self), *final(self), r, Instr::RmwAlu(Mode::ZpX, RmwOp::Ror, Alu::Adc)),
    {
        self.rmw_alu_op(sys, Mode::ZpX, RmwOp::Ror, Alu::Adc)
    }

    /// `SEI`
    pub fn op_78<S: Sys>(&mut self, sys: &mut S) -> (r: Option<()>)
        ensures
            final(self).keeps_tie(*old(self), *old(sys), *final(sys)),
            Nmos::ran(*old(self), *final(self), r, Instr::Implied(Imp::Sei)),
    {
        self.implied_op(sys, Imp::Sei)
    }

    /// `ADC $nnnn,Y`
    pub fn op_79<S: Sys>(&mut self, sys: &mut S) -> (r: Option<()>)
        ensures
            final(self).keeps_tie(*old(self), *old(sys), *final(sys)),
            Nmos::ran(*old(self), *final(self), r, Instr::Load(Mode::AbsY(false), Alu::Adc)),
    {
        self.load_op(sys, Mode::AbsY(false), Alu::Adc)
    }

    /// `NOP*`
    pub fn op_7a<S: Sys>(&mut self, sys: &mut S) -> (r: Option<()>)
        ensures
            final(self).keeps_tie(*old(self), *old(sys), *final(sys)),
            Nmos::ran(*old(self), *final(self), r, Instr::Implied(Imp::Nop)),
    {
        self.implied_op(sys, Imp::Nop)
    }

    /// `RRA $nnnn,Y`
    pub fn op_7b<S: Sys>(&mut self, sys: &mut S) -> (r: Option<()>)
        ensures
            final(self).keeps_tie(*old(self), *old(sys), *final(sys)),
            Nmos::ran(*old(self), *final(self), r, Instr::RmwAlu(Mode::AbsY(true), RmwOp::Ror, Alu::Adc)),
    {
        self.rmw_alu_op(sys, Mode::AbsY(true), RmwOp::Ror, Alu::Adc)
    }

    /// `NOP* $nnnn,X`
    pub fn op_7c<S: Sys>(&mut self, sys: &mut S) -> (r: Option<()>)
        ensures
            final(self).keeps_tie(*old(self), *old(sys), *final(sys)),
            Nmos::ran(*old(self), *final(self), r, Instr::Load(Mode::AbsX(false), Alu::Nop)),
    {
        self.load_op(sys, Mode::AbsX(false), Alu::Nop)
    }

    /// `ADC $nnnn,X`
    pub fn op_7d<S: Sys>(&mut self, sys: &mut S) -> (r: Option<()>)
        ensures
            final(self).keeps_tie(*old(self), *old(sys), *final(sys)),
            Nmos::ran(*old(self), *final(self), r, Instr::Load(Mode::AbsX(false), Alu::Adc)),
    {
        self.load_op(sys, Mode::AbsX(false), Alu::Adc)
    }

    /// `ROR $nnnn,X`
    pub fn op_7e<S: Sys>(&mut self, sys: &mut S) -> (r: Option<()>)
        ensures
            final(self).keeps_tie(*old(self), *old(sys), *final(sys)),
            Nmos::ran(*old(self), *final(self), r, Instr::Rmw(Mode::AbsX(true), RmwOp::Ror)),
    {
        self.rmw_op(sys, Mode::AbsX(true), RmwOp::Ror)
    }

    /// `RRA $nnnn,X`
    pub fn op_7f<S: Sys>(&mut self, sys: &mut S) -> (r: Option<()>)
        ensures
            final(self).keeps_tie(*old(self), *old(sys), *final(sys)),
            Nmos::ran(*old(self), *final(self), r, Instr::RmwAlu(Mode::AbsX(true), RmwOp::Ror, Alu::Adc)),
    {
        self.rmw_alu_op(sys, Mode::AbsX(true), RmwOp::Ror, Alu::Adc)
    }

    /// `NOP* #nn`
    pub fn op_80<S: Sys>(&mut self, sys: &mut S) -> (r: Option<()>)
        ensures
            final(self).keeps_tie(*old(self), *old(sys), *final(sys)),
            Nmos::ran(*old(self), *final(self), r, Instr::Imm(Alu::Nop)),
    {
        self.imm_op(sys, Alu::Nop)
    }

    /// `STA ($nn,X)`
    pub fn op_81<S: Sys>(&mut self, sys: &mut S) -> (r: Option<()>)
        ensures
            final(self).keeps_tie(*old(self), *old(sys), *final(sys)),
            Nmos::ran(*old(self), *final(self), r, Instr::Store(Mode::IzX, Src::A)),
    {
        self.store_op(sys, Mode::IzX, Src::A)
    }

    /// `NOP* #nn`
    pub fn op_82<S: Sys>(&mut self, sys: &mut S) -> (r: Option<()>)
        ensures
            final(self).keeps_tie(*old(self), *old(sys), *final(sys)),
            Nmos::ran(*old(self), *final(self), r, Instr::Imm(Alu::Nop)),
    {
        self.imm_op(sys, Alu::Nop)
    }

    /// `SAX ($nn,X)`
    pub fn op_83<S: Sys>(&mut self, sys: &mut S) -> (r: Option<()>)
        ensures
            final(self).keeps_tie(*old(self), *old(sys), *final(sys)),
            Nmos::ran(*old(self), *final(self), r, Instr::Store(Mode::IzX, Src::AX)),
    {
        self.store_op(sys, Mode::IzX, Src::AX)
    }

    /// `STY $nn`
    pub fn op_84<S: Sys>(&mut self, sys: &mut S) -> (r: Option<()>)
        ensures
            final(self).keeps_tie(*old(self), *old(sys), *final(sys)),
            Nmos::ran(*old(self), *final(self), r, Instr::Store(Mode::Zp, Src::Y)),
    {
        self.store_op(sys, Mode::Zp, Src::Y)
    }

    /// `STA $nn`
    pub fn op_85<S: Sys>(&mut self, sys: &mut S) -> (r: Option<()>)
        ensures
            final(self).keeps_tie(*old(self), *old(sys), *final(sys)),
            Nmos::ran(*old(self), *final(self), r, Instr::Store(Mode::Zp, Src::A)),
    {
        self.store_op(sys, Mode::Zp, Src::A)
    }

    /// `STX $nn`
    pub fn op_86<S: Sys>(&mut self, sys: &mut S) -> (r: Option<()>)
        ensures
            final(self).keeps_tie(*old(self), *old(sys), *final(sys)),
            Nmos::ran(*old(self), *final(self), r, Instr::Store(Mode::Zp, Src::X)),
    {
        self.store_op(sys, Mode::Zp, Src::X)
    }

    /// `SAX $nn`
    pub fn op_87<S: Sys>(&mut self, sys: &mut S) -> (r: Option<()>)
        ensures
            final(self).keeps_tie(*old(self), *old(sys), *final(sys)),
            Nmos::ran(*old(self), *final(self), r, Instr::Store(Mode::Zp, Src::AX)),
    {
        self.store_op(sys, Mode::Zp, Src::AX)
    }

    /// `DEY`
    pub fn op_88<S: Sys>(&mut self, sys: &mut S) -> (r: Option<()>)
        ensures
            final(self).keeps_tie(*old(self), *old(sys), *final(sys)),
            Nmos::ran(*old(self), *final(self), r, Instr::Implied(Imp::Dey)),
    {
        self.implied_op(sys, Imp::Dey)
    }

    /// `NOP* #nn`
    pub fn op_89<S: Sys>(&mut self, sys: &mut S) -> (r: Option<()>)
        ensures
            final(self).keeps_tie(*old(self), *old(sys), *final(sys)),
            Nmos::ran(*old(self), *final(self), r, Instr::Imm(Alu::Nop)),
    {
        self.imm_op(sys, Alu::Nop)
    }

    /// `TXA`
    pub fn op_8a<S: Sys>(&mut self, sys: &mut S) -> (r: Option<()>)
        ensures
            final(self).keeps_tie(*old(self), *old(sys), *final(sys)),
            Nmos::ran(*old(self), *final(self), r, Instr::Implied(Imp::Txa)),
    {
        self.implied_op(sys, Imp::Txa)
    }

    /// `XAA #nn`
    pub fn op_8b<S: Sys>(&mut self, sys: &mut S) -> (r: Option<()>)
        ensures
            final(self).keeps_tie(*old(self), *old(sys), *final(sys)),
            Nmos::ran(*old(self), *final(self), r, Instr::Imm(Alu::Xaa)),
    {
        self.imm_op(sys, Alu::Xaa)
    }

    /// `STY $nnnn`
    pub fn op_8c<S: Sys>(&mut self, sys: &mut S) -> (r: Option<()>)
        ensures
            final(self).keeps_tie(*old(self), *old(sys), *final(sys)),
            Nmos::ran(*old(self), *final(self), r, Instr::Store(Mode::Abs, Src::Y)),
    {
        self.store_op(sys, Mode::Abs, Src::Y)
    }

    /// `STA $nnnn`
    pub fn op_8d<S: Sys>(&mut self, sys: &mut S) -> (r: Option<()>)
        ensures
            final(self).keeps_tie(*old(self), *old(sys), *final(sys)),
            Nmos::ran(*old(self), *final(self), r, Instr::Store(Mode::Abs, Src::A)),
    {
        self.store_op(sys, Mode::Abs, Src::A)
    }

    /// `STX $nnnn`
    pub fn op_8e<S: Sys>(&mut self, sys: &mut S) -> (r: Option<()>)
        ensures
            final(self).keeps_tie(*old(self), *old(sys), *final(sys)),
            Nmos::ran(*old(self), *final(self), r, Instr::Store(Mode::Abs, Src::X)),
    {
        self.store_op(sys, Mode::Abs, Src::X)
    }

    /// `SAX $nnnn`
    pub fn op_8f<S: Sys>(&mut self, sys: &mut S) -> (r: Option<()>)
        ensures
            final(self).keeps_tie(*old(self), *old(sys), *final(sys)),
            Nmos::ran(*old(self), *final(self), r, Instr::Store(Mode::Abs, Src::AX)),
    {
        self.store_op(sys, Mode::Abs, Src::AX)
    }

    /// `BCC`
    pub fn op_90<S: Sys>(&mut self, sys: &mut S) -> (r: Option<()>)
        ensures
            final(self).keeps_tie(*old(self), *old(sys), *final(sys)),
            Nmos::ran(*old(self), *final(self), r, Instr::Branch(Cond::Cc)),
    {
        self.branch_op(sys, Cond::Cc)
    }

    /// `STA ($nn),Y`
    pub fn op_91<S: Sys>(&mut self, sys: &mut S) -> (r: Option<()>)
        ensures
            final(self).keeps_tie(*old(self), *old(sys), *final(sys)),
            Nmos::ran(*old(self), *final(self), r, Instr::Store(Mode::IzY(true), Src::A)),
    {
        self.store_op(sys, Mode::IzY(true), Src::A)
    }

    /// `KIL`
    pub fn op_92<S: Sys>(&mut self, sys: &mut S) -> (r: Option<()>)
        ensures
            final(self).keeps_tie(*old(self), *old(sys), *final(sys)),
            Nmos::ran(*old(self), *final(self), r, Instr::Kil),
    {
        proof { reveal(step); }
        self.halt()
    }

    /// `AHX ($nn),Y`
    #[verifier::rlimit(50)]
    pub fn op_93<S: Sys>(&mut self, sys: &mut S) -> (r: Option<()>)
        ensures
            final(self).keeps_tie(*old(self), *old(sys), *final(sys)),
            Nmos::ran(*old(self), *final(self), r, Instr::Sh(Mode::IzY(true), ShSrc::AX)),
    {
        proof { reveal(step); }
        self.base1 = self.addr_zp(sys)?;
        self.base1 = self.fetch_vector_zp(sys, self.base1)?;
        self.sh_store(sys, self.base1, self.y, self.a & self.x)
    }

    /// `STY $nn,X`
    pub fn op_94<S: Sys>(&mut self, sys: &mut S) -> (r: Option<()>)
        ensures
            final(self).keeps_tie(*old(self), *old(sys), *final(sys)),
            Nmos::ran(*old(self), *final(self), r, Instr::Store(Mode::ZpX, Src::Y)),
    {
        self.store_op(sys, Mode::ZpX, Src::Y)
    }

    /// `STA $nn,X`
    pub fn op_95<S: Sys>(&mut self, sys: &mut S) -> (r: Option<()>)
        ensures
            final(self).keeps_tie(*old(self), *old(sys), *final(sys)),
            Nmos::ran(*old(self), *final(self), r, Instr::Store(Mode::ZpX, Src::A)),
    {
        self.store_op(sys, Mode::ZpX, Src::A)
    }

    /// `STX $nn,Y`
    pub fn op_96<S: Sys>(&mut self, sys: &mut S) -> (r: Option<()>)
        ensures
            final(self).keeps_tie(*old(self), *old(sys), *final(sys)),
            Nmos::ran(*old(self), *final(self), r, Instr::Store(Mode::ZpY, Src::X)),
    {
        self.store_op(sys, Mode::ZpY, Src::X)
    }

    /// `SAX $nn,Y`
    pub fn op_97<S: Sys>(&mut self, sys: &mut S) -> (r: Option<()>)
        ensures
            final(self).keeps_tie(*old(self), *old(sys), *final(sys)),
            Nmos::ran(*old(self), *final(self), r, Instr::Store(Mode::ZpY, Src::AX)),
    {
        self.store_op(sys, Mode::ZpY, Src::AX)
    }

    /// `TYA`
    pub fn op_98<S: Sys>(&mut self, sys: &mut S) -> (r: Option<()>)
        ensures
            final(self).keeps_tie(*old(self), *old(sys), *final(sys)),
            Nmos::ran(*old(self), *final(self), r, Instr::Implied(Imp::Tya)),
    {
        self.implied_op(sys, Imp::Tya)
    }

    /// `STA $nnnn,Y`
    pub fn op_99<S: Sys>(&mut self, sys: &mut S) -> (r: Option<()>)
        ensures
            final(self).keeps_tie(*old(self), *old(sys), *final(sys)),
            Nmos::ran(*old(self), *final(self), r, Instr::Store(Mode::AbsY(true), Src::A)),
    {
        self.store_op(sys, Mode::AbsY(true), Src::A)
    }

    /// `TXS`
    pub fn op_9a<S: Sys>(&mut self, sys: &mut S) -> (r: Option<()>)
        ensures
            final(self).keeps_tie(*old(self), *old(sys), *final(sys)),
            Nmos::ran(*old(self), *final(self), r, Instr::Implied(Imp::Txs)),
    {
        self.implied_op(sys, Imp::Txs)
    }

    /// `TAS $nnnn,Y`
    #[verifier::rlimit(50)]
    pub fn op_9b<S: Sys>(&mut self, sys: &mut S) -> (r: Option<()>)
        ensures
            final(self).keeps_tie(*old(self), *old(sys), *final(sys)),
            Nmos::ran(*old(self), *final(self), r, Instr::Sh(Mode::AbsY(true), ShSrc::Tas)),
    {
        proof { reveal(step); }
        self.base1 = self.addr_abs(sys)?;
        self.sp = self.a & self.x;
        self.sh_store(sys, self.base1, self.y, self.a & self.x)
    }

    /// `SHY $nnnn,X`
    #[verifier::rlimit(50)]
    pub fn op_9c<S: Sys>(&mut self, sys: &mut S) -> (r: Option<()>)
        ensures
            final(self).keeps_tie(*old(self), *old(sys), *final(sys)),
            Nmos::ran(*old(self), *final(self), r, Instr::Sh(Mode::AbsX(true), ShSrc::Y)),
    {
        proof { reveal(step); }
        self.base1 = self.addr_abs(sys)?;
        self.sh_store(sys, self.base1, self.x, self.y)
    }

    /// `STA $nnnn,X`
    pub fn op_9d<S: Sys>(&mut self, sys: &mut S) -> (r: Option<()>)
        ensures
            final(self).keeps_tie(*old(self), *old(sys), *final(sys)),
            Nmos::ran(*old(self), *final(self), r, Instr::Store(Mode::AbsX(true), Src::A)),
    {
        self.store_op(sys, Mode::AbsX(true), Src::A)
    }

    /// `SHX $nnnn,Y`
    #[verifier::rlimit(50)]
    pub fn op_9e<S: Sys>(&mut self, sys: &mut S) -> (r: Option<()>)
        ensures
            final(self).keeps_tie(*old(self), *old(sys), *final(sys)),
            Nmos::ran(*old(self), *final(self), r, Instr::Sh(Mode::AbsY(true), ShSrc::X)),
    {
        proof { reveal(step); }
        self.base1 = self.addr_abs(sys)?;
        self.sh_store(sys, self.base1, self.y, self.x)
    }

    /// `AHX $nnnn,Y`
    #[verifier::rlimit(50)]
    pub fn op_9f<S: Sys>(&mut self, sys: &mut S) -> (r: Option<()>)
        ensures
            final(self).keeps_tie(*old(self), *old(sys), *final(sys)),
            Nmos::ran(*old(self), *final(self), r, Instr::Sh(Mode::AbsY(true), ShSrc::AX)),
    {
        proof { reveal(step); }
        self.base1 = self.addr_abs(sys)?;
        self.sh_store(sys, self.base1, self.y, self.a & self.x)
    }

    /// `LDY #nn`
    pub fn op_a0<S: Sys>(&mut self, sys: &mut S) -> (r: Option<()>)
        ensures
            final(self).keeps_tie(*old(self), *old(sys), *final(sys)),
            Nmos::ran(*old(self), *final(self), r, Instr::Imm(Alu::Ld(Reg::Y))),
    {
        self.imm_op(sys, Alu::Ld(Reg::Y))
    }

    /// `LDA ($nn,X)`
    pub fn op_a1<S: Sys>(&mut self, sys: &mut S) -> (r: Option<()>)
        ensures
            final(self).keeps_tie(*old(self), *old(sys), *final(sys)),
            Nmos::ran(*old(self), *final(self), r, Instr::Load(Mode::IzX, Alu::Ld(Reg::A))),
    {
        self.load_op(sys, Mode::IzX, Alu::Ld(Reg::A))
    }

    /// `LDX #nn`
    pub fn op_a2<S: Sys>(&mut self, sys: &mut S) -> (r: Option<()>)
        ensures
            final(self).keeps_tie(*old(self), *old(sys), *final(sys)),
            Nmos::ran(*old(self), *final(self), r, Instr::Imm(Alu::Ld(Reg::X))),
    {
        self.imm_op(sys, Alu::Ld(Reg::X))
    }

    /// `LAX ($nn,X)`
    pub fn op_a3<S: Sys>(&mut self, sys: &mut S) -> (r: Option<()>)
        ensures
            final(self).keeps_tie(*old(self), *old(sys), *final(sys)),
            Nmos::ran(*old(self), *final(self), r, Instr::Load(Mode::IzX, Alu::Lax)),
    {
        self.load_op(sys, Mode::IzX, Alu::Lax)
    }

    /// `LDY $nn`
    pub fn op_a4<S: Sys>(&mut self, sys: &mut S) -> (r: Option<()>)
        ensures
            final(self).keeps_tie(*old(self), *old(sys), *final(sys)),
            Nmos::ran(*old(self), *final(self), r, Instr::Load(Mode::Zp, Alu::Ld(Reg::Y))),
    {
        self.load_op(sys, Mode::Zp, Alu::Ld(Reg::Y))
    }

    /// `LDA $nn`
    pub fn op_a5<S: Sys>(&mut self, sys: &mut S) -> (r: Option<()>)
        ensures
            final(self).keeps_tie(*old(self), *old(sys), *final(sys)),
            Nmos::ran(*old(self), *final(self), r, Instr::Load(Mode::Zp, Alu::Ld(Reg::A))),
    {
        self.load_op(sys, Mode::Zp, Alu::Ld(Reg::A))
    }

    /// `LDX $nn`
    pub fn op_a6<S: Sys>(&mut self, sys: &mut S) -> (r: Option<()>)
        ensures
            final(self).keeps_tie(*old(self), *old(sys), *final(sys)),
            Nmos::ran(*old(self), *final(self), r, Instr::Load(Mode::Zp, Alu::Ld(Reg::X))),
    {
        self.load_op(sys, Mode::Zp, Alu::Ld(Reg::X))
    }

    /// `LAX $nn`
    pub fn op_a7<S: Sys>(&mut self, sys: &mut S) -> (r: Option<()>)
        ensures
            final(self).keeps_tie(*old(self), *old(sys), *final(sys)),
            Nmos::ran(*old(self), *final(self), r, Instr::Load(Mode::Zp, Alu::Lax)),
    {
        self.load_op(sys, Mode::Zp, Alu::Lax)
    }

    /// `TAY`
    pub fn op_a8<S: Sys>(&mut self, sys: &mut S) -> (r: Option<()>)
        ensures
            final(self).keeps_tie(*old(self), *old(sys), *final(sys)),
            Nmos::ran(*old(self), *final(self), r, Instr::Implied(Imp::Tay)),
    {
        self.implied_op(sys, Imp::Tay)
    }

    /// `LDA #nn`
    pub fn op_a9<S: Sys>(&mut self, sys: &mut S) -> (r: Option<()>)
        ensures
            final(self).keeps_tie(*old(self), *old(sys), *final(sys)),
            Nmos::ran(*old(self), *final(self), r, Instr::Imm(Alu::Ld(Reg::A))),
            r is None ==> regs_kept(old(self)@, final(self)@),
    {
        self.imm_op(sys, Alu::Ld(Reg::A))
    }

    /// `TAX`
    pub fn op_aa<S: Sys>(&mut self, sys: &mut S) -> (r: Option<()>)
        ensures
            final(self).keeps_tie(*old(self), *old(sys), *final(sys)),
            Nmos::ran(*old(self), *final(self), r, Instr::Implied(Imp::Tax)),
    {
        self.implied_op(sys, Imp::Tax)
    }

    /// `LAX #nn`
    pub fn op_ab<S: Sys>(&mut self, sys: &mut S) -> (r: Option<()>)
        ensures
            final(self).keeps_tie(*old(self), *old(sys), *final(sys)),
            Nmos::ran(*old(self), *final(self), r, Instr::Imm(Alu::LaxImm)),
    {
        self.imm_op(sys, Alu::LaxImm)
    }

    /// `LDY $nnnn`
    pub fn op_ac<S: Sys>(&mut self, sys: &mut S) -> (r: Option<()>)
        ensures
            final(self).keeps_tie(*old(self), *old(sys), *final(sys)),
            Nmos::ran(*old(self), *final(self), r, Instr::Load(Mode::Abs, Alu::Ld(Reg::Y))),
    {
        self.load_op(sys, Mode::Abs, Alu::Ld(Reg::Y))
    }

    /// `LDA $nnnn`
    pub fn op_ad<S: Sys>(&mut self, sys: &mut S) -> (r: Option<()>)
        ensures
            final(self).keeps_tie(*old(self), *old(sys), *final(sys)),
            Nmos::ran(*old(self), *final(self), r, Instr::Load(Mode::Abs, Alu::Ld(Reg::A))),
    {
        self.load_op(sys, Mode::Abs, Alu::Ld(Reg::A))
    }

    /// `LDX $nnnn`
    pub fn op_ae<S: Sys>(&mut self, sys: &mut S) -> (r: Option<()>)
        ensures
            final(self).keeps_tie(*old(self), *old(sys), *final(sys)),
            Nmos::ran(*old(self), *final(self), r, Instr::Load(Mode::Abs, Alu::Ld(Reg::X))),
    {
        self.load_op(sys, Mode::Abs, Alu::Ld(Reg::X))
    }

    /// `LAX $nnnn`
    pub fn op_af<S: Sys>(&mut self, sys: &mut S) -> (r: Option<()>)
        ensures
            final(self).keeps_tie(*old(self), *old(sys), *final(sys)),
            Nmos::ran(*old(self), *final(self), r, Instr::Load(Mode::Abs, Alu::Lax)),
    {
        self.load_op(sys, Mode::Abs, Alu::Lax)
    }

    /// `BCS`
    pub fn op_b0<S: Sys>(&mut self, sys: &mut S) -> (r: Option<()>)
        ensures
            final(self).keeps_tie(*old(self), *old(sys), *final(sys)),
            Nmos::ran(*old(self), *final(self), r, Instr::Branch(Cond::Cs)),
    {
        self.branch_op(sys, Cond::Cs)
    }

    /// `LDA ($nn),Y`
    pub fn op_b1<S: Sys>(&mut self, sys: &mut S) -> (r: Option<()>)
        ensures
            final(self).keeps_tie(*old(self), *old(sys), *final(sys)),
            Nmos::ran(*old(self), *final(self), r, Instr::Load(Mode::IzY(false), Alu::Ld(Reg::A))),
    {
        self.load_op(sys, Mode::IzY(false), Alu::Ld(Reg::A))
    }

    /// `KIL`
    pub fn op_b2<S: Sys>(&mut self, sys: &mut S) -> (r: Option<()>)
        ensures
            final(self).keeps_tie(*old(self), *old(sys), *final(sys)),
            Nmos::ran(*old(self), *final(self), r, Instr::Kil),
    {
        proof { reveal(step); }
        self.halt()
    }

    /// `LAX ($nn),Y`
    pub fn op_b3<S: Sys>(&mut self, sys: &mut S) -> (r: Option<()>)
        ensures
            final(self).keeps_tie(*old(self), *old(sys), *final(sys)),
            Nmos::ran(*old(self), *final(self), r, Instr::Load(Mode::IzY(false), Alu::Lax)),
    {
        self.load_op(sys, Mode::IzY(false), Alu::Lax)
    }

    /// `LDY $nn,X`
    pub fn op_b4<S: Sys>(&mut self, sys: &mut S) -> (r: Option<()>)
        ensures
            final(self).keeps_tie(*old(self), *old(sys), *final(sys)),
            Nmos::ran(*old(self), *final(self), r, Instr::Load(Mode::ZpX, Alu::Ld(Reg::Y))),
    {
        self.load_op(sys, Mode::ZpX, Alu::Ld(Reg::Y))
    }

    /// `LDA $nn,X`
    pub fn op_b5<S: Sys>(&mut self, sys: &mut S) -> (r: Option<()>)
        ensures
            final(self).keeps_tie(*old(self), *old(sys), *final(sys)),
            Nmos::ran(*old(self), *final(self), r, Instr::Load(Mode::ZpX, Alu::Ld(Reg::A))),
    {
        self.load_op(sys, Mode::ZpX, Alu::Ld(Reg::A))
    }

    /// `LDX $nn,Y`
    pub fn op_b6<S: Sys>(&mut self, sys: &mut S) -> (r: Option<()>)
        ensures
            final(self).keeps_tie(*old(self), *old(sys), *final(sys)),
            Nmos::ran(*old(self), *final(self), r, Instr::Load(Mode::ZpY, Alu::Ld(Reg::X))),
    {
        self.load_op(sys, Mode::ZpY, Alu::Ld(Reg::X))
    }

    /// `LAX $nn,Y`
    pub fn op_b7<S: Sys>(&mut self, sys: &mut S) -> (r: Option<()>)
        ensures
            final(self).keeps_tie(*old(self), *old(sys), *final(sys)),
            Nmos::ran(*old(self), *final(self), r, Instr::Load(Mode::ZpY, Alu::Lax)),
    {
        self.load_op(sys, Mode::ZpY, Alu::Lax)
    }

    /// `CLV`
    pub fn op_b8<S: Sys>(&mut self, sys: &mut S) -> (r: Option<()>)
        ensures
            final(self).keeps_tie(*old(self), *old(sys), *final(sys)),
            Nmos::ran(*old(self), *final(self), r, Instr::Implied(Imp::Clv)),
    {
        self.implied_op(sys, Imp::Clv)
    }

    /// `LDA $nnnn,Y`
    pub fn op_b9<S: Sys>(&mut self, sys: &mut S) -> (r: Option<()>)
        ensures
            final(self).keeps_tie(*old(self), *old(sys), *final(sys)),
            Nmos::ran(*old(self), *final(self), r, Instr::Load(Mode::AbsY(false), Alu::Ld(Reg::A))),
    {
        self.load_op(sys, Mode::AbsY(false), Alu::Ld(Reg::A))
    }

    /// `TSX`
    pub fn op_ba<S: Sys>(&mut self, sys: &mut S) -> (r: Option<()>)
        ensures
            final(self).keeps_tie(*old(self), *old(sys), *final(sys)),
            Nmos::ran(*old(self), *final(self), r, Instr::Implied(Imp::Tsx)),
    {
        self.implied_op(sys, Imp::Tsx)
    }

    /// `LAS $nnnn,Y`
    pub fn op_bb<S: Sys>(&mut self, sys: &mut S) -> (r: Option<()>)
        ensures
            final(self).keeps_tie(*old(self), *old(sys), *final(sys)),
            Nmos::ran(*old(self), *final(self), r, Instr::Load(Mode::AbsY(false), Alu::Las)),
    {
        self.load_op(sys, Mode::AbsY(false), Alu::Las)
    }

    /// `LDY $nnnn,X`
    pub fn op_bc<S: Sys>(&mut self, sys: &mut S) -> (r: Option<()>)
        ensures
            final(self).keeps_tie(*old(self), *old(sys), *final(sys)),
            Nmos::ran(*old(self), *final(self), r, Instr::Load(Mode::AbsX(false), Alu::Ld(Reg::Y))),
    {
        self.load_op(sys, Mode::AbsX(false), Alu::Ld(Reg::Y))
    }

    /// `LDA $nnnn,X`
    pub fn op_bd<S: Sys>(&mut self, sys: &mut S) -> (r: Option<()>)
        ensures
            final(self).keeps_tie(*old(self), *old(sys), *final(sys)),
            Nmos::ran(*old(self), *final(self), r, Instr::Load(Mode::AbsX(false), Alu::Ld(Reg::A))),
    {
        self.load_op(sys, Mode::AbsX(false), Alu::Ld(Reg::A))
    }

    /// `LDX $nnnn,Y`
    pub fn op_be<S: Sys>(&mut self, sys: &mut S) -> (r: Option<()>)
        ensures
            final(self).keeps_tie(*old(self), *old(sys), *final(sys)),
            Nmos::ran(*old(self), *final(self), r, Instr::Load(Mode::AbsY(false), Alu::Ld(Reg::X))),
    {
        self.load_op(sys, Mode::AbsY(false), Alu::Ld(Reg::X))
    }

    /// `LAX $nnnn,Y`
    pub fn op_bf<S: Sys>(&mut self, sys: &mut S) -> (r: Option<()>)
        ensures
            final(self).keeps_tie(*old(self), *old(sys), *final(sys)),
            Nmos::ran(*old(self), *final(self), r, Instr::Load(Mode::AbsY(false), Alu::Lax)),
    {
        self.load_op(sys, Mode::AbsY(false), Alu::Lax)
    }

    /// `CPY #nn`
    pub fn op_c0<S: Sys>(&mut self, sys: &mut S) -> (r: Option<()>)
        ensures
            final(self).keeps_tie(*old(self), *old(sys), *final(sys)),
            Nmos::ran(*old(self), *final(self), r, Instr::Imm(Alu::Cmp(Reg::Y))),
    {
        self.imm_op(sys, Alu::Cmp(Reg::Y))
    }

    /// `CMP ($nn,X)`
    pub fn op_c1<S: Sys>(&mut self, sys: &mut S) -> (r: Option<()>)
        ensures
            final(self).keeps_tie(*old(self), *old(sys), *final(sys)),
            Nmos::ran(*old(self), *final(self), r, Instr::Load(Mode::IzX, Alu::Cmp(Reg::A))),
    {
        self.load_op(sys, Mode::IzX, Alu::Cmp(Reg::A))
    }

    /// `NOP* #nn`
    pub fn op_c2<S: Sys>(&mut self, sys: &mut S) -> (r: Option<()>)
        ensures
            final(self).keeps_tie(*old(self), *old(sys), *final(sys)),
            Nmos::ran(*old(self), *final(self), r, Instr::Imm(Alu::Nop)),
    {
        self.imm_op(sys, Alu::Nop)
    }

    /// `DCP ($nn,X)`
    pub fn op_c3<S: Sys>(&mut self, sys: &mut S) -> (r: Option<()>)
        ensures
            final(self).keeps_tie(*old(self), *old(sys), *final(sys)),
            Nmos::ran(*old(self), *final(self), r, Instr::RmwAlu(Mode::IzX, RmwOp::Dec, Alu::Cmp(Reg::A))),
    {
        self.rmw_alu_op(sys, Mode::IzX, RmwOp::Dec, Alu::Cmp(Reg::A))
    }

    /// `CPY $nn`
    pub fn op_c4<S: Sys>(&mut self, sys: &mut S) -> (r: Option<()>)
        ensures
            final(self).keeps_tie(*old(self), *old(sys), *final(sys)),
            Nmos::ran(*old(self), *final(self), r, Instr::Load(Mode::Zp, Alu::Cmp(Reg::Y))),
    {
        self.load_op(sys, Mode::Zp, Alu::Cmp(Reg::Y))
    }

    /// `CMP $nn`
    pub fn op_c5<S: Sys>(&mut self, sys: &mut S) -> (r: Option<()>)
        ensures
            final(self).keeps_tie(*old(self), *old(sys), *final(sys)),
            Nmos::ran(*old(self), *final(self), r, Instr::Load(Mode::Zp, Alu::Cmp(Reg::A))),
    {
        self.load_op(sys, Mode::Zp, Alu::Cmp(Reg::A))
    }

    /// `DEC $nn`
    pub fn op_c6<S: Sys>(&mut self, sys: &mut S) -> (r: Option<()>)
        ensures
            final(self).keeps_tie(*old(self), *old(sys), *final(sys)),
            Nmos::ran(*old(self), *final(self), r, Instr::Rmw(Mode::Zp, RmwOp::Dec)),
    {
        self.rmw_op(sys, Mode::Zp, RmwOp::Dec)
    }

    /// `DCP $nn`
    pub fn op_c7<S: Sys>(&mut self, sys: &mut S) -> (r: Option<()>)
        ensures
            final(self).keeps_tie(*old(self), *old(sys), *final(sys)),
            Nmos::ran(*old(self), *final(self), r, Instr::RmwAlu(Mode::Zp, RmwOp::Dec, Alu::Cmp(Reg::A))),
    {
        self.rmw_alu_op(sys, Mode::Zp, RmwOp::Dec, Alu::Cmp(Reg::A))
    }

    /// `INY`
    pub fn op_c8<S: Sys>(&mut self, sys: &mut S) -> (r: Option<()>)
        ensures
            final(self).keeps_tie(*old(self), *old(sys), *final(sys)),
            Nmos::ran(*old(self), *final(self), r, Instr::Implied(Imp::Iny)),
    {
        self.implied_op(sys, Imp::Iny)
    }

    /// `CMP #nn`
    pub fn op_c9<S: Sys>(&mut self, sys: &mut S) -> (r: Option<()>)
        ensures
            final(self).keeps_tie(*old(self), *old(sys), *final(sys)),
            Nmos::ran(*old(self), *final(self), r, Instr::Imm(Alu::Cmp(Reg::A))),
    {
        self.imm_op(sys, Alu::Cmp(Reg::A))
    }

    /// `DEX`
    pub fn op_ca<S: Sys>(&mut self, sys: &mut S) -> (r: Option<()>)
        ensures
            final(self).keeps_tie(*old(self), *old(sys), *final(sys)),
            Nmos::ran(*old(self), *final(self), r, Instr::Implied(Imp::Dex)),
    {
        self.implied_op(sys, Imp::Dex)
    }

    /// `ASX #nn`
    pub fn op_cb<S: Sys>(&mut self, sys: &mut S) -> (r: Option<()>)
        ensures
            final(self).keeps_tie(*old(self), *old(sys), *final(sys)),
            Nmos::ran(*old(self), *final(self), r, Instr::Imm(Alu::Axs)),
    {
        self.imm_op(sys, Alu::Axs)
    }

    /// `CPY $nnnn`
    pub fn op_cc<S: Sys>(&mut self, sys: &mut S) -> (r: Option<()>)
        ensures
            final(self).keeps_tie(*old(self), *old(sys), *final(sys)),
            Nmos::ran(*old(self), *final(self), r, Instr::Load(Mode::Abs, Alu::Cmp(Reg::Y))),
    {
        self.load_op(sys, Mode::Abs, Alu::Cmp(Reg::Y))
    }

    /// `CMP $nnnn`
    pub fn op_cd<S: Sys>(&mut self, sys: &mut S) -> (r: Option<()>)
        ensures
            final(self).keeps_tie(*old(self), *old(sys), *final(sys)),
            Nmos::ran(*old(self), *final(self), r, Instr::Load(Mode::Abs, Alu::Cmp(Reg::A))),
    {
        self.load_op(sys, Mode::Abs, Alu::Cmp(Reg::A))
    }

    /// `DEC $nnnn`
    pub fn op_ce<S: Sys>(&mut self, sys: &mut S) -> (r: Option<()>)
        ensures
            final(self).keeps_tie(*old(self), *old(sys), *final(sys)),
            Nmos::ran(*old(self), *final(self), r, Instr::Rmw(Mode::Abs, RmwOp::Dec)),
    {
        self.rmw_op(sys, Mode::Abs, RmwOp::Dec)
    }

    /// `DCP $nnnn`
    pub fn op_cf<S: Sys>(&mut self, sys: &mut S) -> (r: Option<()>)
        ensures
            final(self).keeps_tie(*old(self), *old(sys), *final(sys)),
            Nmos::ran(*old(self), *final(self), r, Instr::RmwAlu(Mode::Abs, RmwOp::Dec, Alu::Cmp(Reg::A))),
    {
        self.rmw_alu_op(sys, Mode::Abs, RmwOp::Dec, Alu::Cmp(Reg::A))
    }

    /// `BNE`
    pub fn op_d0<S: Sys>(&mut self, sys: &mut S) -> (r: Option<()>)
        ensures
            final(self).keeps_tie(*old(self), *old(sys), *final(sys)),
            Nmos::ran(*old(self), *final(self), r, Instr::Branch(Cond::Ne)),
    {
        self.branch_op(sys, Cond::Ne)
    }

    /// `CMP($nn),Y`
    pub fn op_d1<S: Sys>(&mut self, sys: &mut S) -> (r: Option<()>)
        ensures
            final(self).keeps_tie(*old(self), *old(sys), *final(sys)),
            Nmos::ran(*old(self), *final(self), r, Instr::Load(Mode::IzY(false), Alu::Cmp(Reg::A))),
    {
        self.load_op(sys, Mode::IzY(false), Alu::Cmp(Reg::A))
    }

    /// `KIL`
    pub fn op_d2<S: Sys>(&mut self, sys: &mut S) -> (r: Option<()>)
        ensures
            final(self).keeps_tie(*old(self), *old(sys), *final(sys)),
            Nmos::ran(*old(self), *final(self), r, Instr::Kil),
    {
        proof { reveal(step); }
        self.halt()
    }

    /// `DCP ($nn),Y`
    pub fn op_d3<S: Sys>(&mut self, sys: &mut S) -> (r: Option<()>)
        ensures
            final(self).keeps_tie(*old(self), *old(sys), *final(sys)),
            Nmos::ran(*old(self), *final(self), r, Instr::RmwAlu(Mode::IzY(true), RmwOp::Dec, Alu::Cmp(Reg::A))),
    {
        self.rmw_alu_op(sys, Mode::IzY(true), RmwOp::Dec, Alu::Cmp(Reg::A))
    }

    /// `NOP* $nn,X`
    pub fn op_d4<S: Sys>(&mut self, sys: &mut S) -> (r: Option<()>)
        ensures
            final(self).keeps_tie(*old(self), *old(sys), *final(sys)),
            Nmos::ran(*old(self), *final(self), r, Instr::Load(Mode::ZpX, Alu::Nop)),
    {
        self.load_op(sys, Mode::ZpX, Alu::Nop)
    }

    /// `CMP $nn,X`
    pub fn op_d5<S: Sys>(&mut self, sys: &mut S) -> (r: Option<()>)
        ensures
            final(self).keeps_tie(*old(self), *old(sys), *final(sys)),
            Nmos::ran(*old(self), *final(self), r, Instr::Load(Mode::ZpX, Alu::Cmp(Reg::A))),
    {
        self.load_op(sys, Mode::ZpX, Alu::Cmp(Reg::A))
    }

    /// `DEC $nn,X`
    pub fn op_d6<S: Sys>(&mut self, sys: &mut S) -> (r: Option<()>)
        ensures
            final(self).keeps_tie(*old(self), *old(sys), *final(sys)),
            Nmos::ran(*old(self), *final(self), r, Instr::Rmw(Mode::ZpX, RmwOp::Dec)),
    {
        self.rmw_op(sys, Mode::ZpX, RmwOp::Dec)
    }

    /// `DCP $nn,X`
    pub fn op_d7<S: Sys>(&mut self, sys: &mut S) -> (r: Option<()>)
        ensures
            final(self).keeps_tie(*old(self), *old(sys), *final(sys)),
            Nmos::ran(*old(self), *final(self), r, Instr::RmwAlu(Mode::ZpX, RmwOp::Dec, Alu::Cmp(Reg::A))),
    {
        self.rmw_alu_op(sys, Mode::ZpX, RmwOp::Dec, Alu::Cmp(Reg::A))
    }

    /// `CLD`
    pub fn op_d8<S: Sys>(&mut self, sys: &mut S) -> (r: Option<()>)
        ensures
            final(self).keeps_tie(*old(self), *old(sys), *final(sys)),
            Nmos::ran(*old(self), *final(self), r, Instr::Implied(Imp::Cld)),
    {
        self.implied_op(sys, Imp::Cld)
    }

    /// `CMP $nnnn,Y`
    pub fn op_d9<S: Sys>(&mut self, sys: &mut S) -> (r: Option<()>)
        ensures
            final(self).keeps_tie(*old(self), *old(sys), *final(sys)),
            Nmos::ran(*old(self), *final(self), r, Instr::Load(Mode::AbsY(false), Alu::Cmp(Reg::A))),
    {
        self.load_op(sys, Mode::AbsY(false), Alu::Cmp(Reg::A))
    }

    /// `NOP*`
    pub fn op_da<S: Sys>(&mut self, sys: &mut S) -> (r: Option<()>)
        ensures
            final(self).keeps_tie(*old(self), *old(sys), *final(sys)),
            Nmos::ran(*old(self), *final(self), r, Instr::Implied(Imp::Nop)),
    {
        self.implied_op(sys, Imp::Nop)
    }

    /// `DCP $nnnn,Y`
    pub fn op_db<S: Sys>(&mut self, sys: &mut S) -> (r: Option<()>)
        ensures
            final(self).keeps_tie(*old(self), *old(sys), *final(sys)),
            Nmos::ran(*old(self), *final(self), r, Instr::RmwAlu(Mode::AbsY(true), RmwOp::Dec, Alu::Cmp(Reg::A))),
    {
        self.rmw_alu_op(sys, Mode::AbsY(true), RmwOp::Dec, Alu::Cmp(Reg::A))
    }

    /// `NOP* $nnnn,X`
    pub fn op_dc<S: Sys>(&mut self, sys: &mut S) -> (r: Option<()>)
        ensures
            final(self).keeps_tie(*old(self), *old(sys), *final(sys)),
            Nmos::ran(*old(self), *final(self), r, Instr::Load(Mode::AbsX(false), Alu::Nop)),
    {
        self.load_op(sys, Mode::AbsX(false), Alu::Nop)
    }

    /// `CMP $nnnn,X`
    pub fn op_dd<S: Sys>(&mut self, sys: &mut S) -> (r: Option<()>)
        ensures
            final(self).keeps_tie(*old(self), *old(sys), *final(sys)),
            Nmos::ran(*old(self), *final(self), r, Instr::Load(Mode::AbsX(false), Alu::Cmp(Reg::A))),
    {
        self.load_op(sys, Mode::AbsX(false), Alu::Cmp(Reg::A))
    }

    /// `DEC $nnnn,X`
    pub fn op_de<S: Sys>(&mut self, sys: &mut S) -> (r: Option<()>)
        ensures
            final(self).keeps_tie(*old(self), *old(sys), *final(sys)),
            Nmos::ran(*old(self), *final(self), r, Instr::Rmw(Mode::AbsX(true), RmwOp::Dec)),
    {
        self.rmw_op(sys, Mode::AbsX(true), RmwOp::Dec)
    }

    /// `DCP $nnnn,X`
    pub fn op_df<S: Sys>(&mut self, sys: &mut S) -> (r: Option<()>)
        ensures
            final(self).keeps_tie(*old(self), *old(sys), *final(sys)),
            Nmos::ran(*old(self), *final(self), r, Instr::RmwAlu(Mode::AbsX(true), RmwOp::Dec, Alu::Cmp(Reg::A))),
    {
        self.rmw_alu_op(sys, Mode::AbsX(true), RmwOp::Dec, Alu::Cmp(Reg::A))
    }

    /// `CPX #nn`
    pub fn op_e0<S: Sys>(&mut self, sys: &mut S) -> (r: Option<()>)
        ensures
            final(self).keeps_tie(*old(self), *old(sys), *final(sys)),
            Nmos::ran(*old(self), *final(self), r, Instr::Imm(Alu::Cmp(Reg::X))),
    {
        self.imm_op(sys, Alu::Cmp(Reg::X))
    }

    /// `SBC ($nn,X)`
    pub fn op_e1<S: Sys>(&mut self, sys: &mut S) -> (r: Option<()>)
        ensures
            final(self).keeps_tie(*old(self), *old(sys), *final(sys)),
            Nmos::ran(*old(self), *final(self), r, Instr::Load(Mode::IzX, Alu::Sbc)),
    {
        self.load_op(sys, Mode::IzX, Alu::Sbc)
    }

    /// `NOP* #nn`
    pub fn op_e2<S: Sys>(&mut self, sys: &mut S) -> (r: Option<()>)
        ensures
            final(self).keeps_tie(*old(self), *old(sys), *final(sys)),
            Nmos::ran(*old(self), *final(self), r, Instr::Imm(Alu::Nop)),
    {
        self.imm_op(sys, Alu::Nop)
    }

    /// `ISC ($nn,X)`
    pub fn op_e3<S: Sys>(&mut self, sys: &mut S) -> (r: Option<()>)
        ensures
            final(self).keeps_tie(*old(self), *old(sys), *final(sys)),
            Nmos::ran(*old(self), *final(self), r, Instr::RmwAlu(Mode::IzX, RmwOp::Inc, Alu::Sbc)),
    {
        self.rmw_alu_op(sys, Mode::IzX, RmwOp::Inc, Alu::Sbc)
    }

    /// `CPX $nn`
    pub fn op_e4<S: Sys>(&mut self, sys: &mut S) -> (r: Option<()>)
        ensures
            final(self).keeps_tie(*old(self), *old(sys), *final(sys)),
            Nmos::ran(*old(self), *final(self), r, Instr::Load(Mode::Zp, Alu::Cmp(Reg::X))),
    {
        self.load_op(sys, Mode::Zp, Alu::Cmp(Reg::X))
    }

    /// `SBC $nn`
    pub fn op_e5<S: Sys>(&mut self, sys: &mut S) -> (r: Option<()>)
        ensures
            final(self).keeps_tie(*old(self), *old(sys), *final(sys)),
            Nmos::ran(*old(self), *final(self), r, Instr::Load(Mode::Zp, Alu::Sbc)),
    {
        self.load_op(sys, Mode::Zp, Alu::Sbc)
    }

    /// `INC $nn`
    pub fn op_e6<S: Sys>(&mut self, sys: &mut S) -> (r: Option<()>)
        ensures
            final(self).keeps_tie(*old(self), *old(sys), *final(sys)),
            Nmos::ran(*old(self), *final(self), r, Instr::Rmw(Mode::Zp, RmwOp::Inc)),
    {
        self.rmw_op(sys, Mode::Zp, RmwOp::Inc)
    }

    /// `ISC $nn`
    pub fn op_e7<S: Sys>(&mut self, sys: &mut S) -> (r: Option<()>)
        ensures
            final(self).keeps_tie(*old(self), *old(sys), *final(sys)),
            Nmos::ran(*old(self), *final(self), r, Instr::RmwAlu(Mode::Zp, RmwOp::Inc, Alu::Sbc)),
    {
        self.rmw_alu_op(sys, Mode::Zp, RmwOp::Inc, Alu::Sbc)
    }

    /// `INX`
    pub fn op_e8<S: Sys>(&mut self, sys: &mut S) -> (r: Option<()>)
        ensures
            final(self).keeps_tie(*old(self), *old(sys), *final(sys)),
            Nmos::ran(*old(self), *final(self), r, Instr::Implied(Imp::Inx)),
    {
        self.implied_op(sys, Imp::Inx)
    }

    /// `SBC #nn`
    pub fn op_e9<S: Sys>(&mut self, sys: &mut S) -> (r: Option<()>)
        ensures
            final(self).keeps_tie(*old(self), *old(sys), *final(sys)),
            Nmos::ran(*old(self), *final(self), r, Instr::Imm(Alu::Sbc)),
    {
        self.imm_op(sys, Alu::Sbc)
    }

    /// `NOP`
    pub fn op_ea<S: Sys>(&mut self, sys: &mut S) -> (r: Option<()>)
        ensures
            final(self).keeps_tie(*old(self), *old(sys), *final(sys)),
            Nmos::ran(*old(self), *final(self), r, Instr::Implied(Imp::Nop)),
    {
        self.implied_op(sys, Imp::Nop)
    }

    /// `SBC #imm`
    pub fn op_eb<S: Sys>(&mut self, sys: &mut S) -> (r: Option<()>)
        ensures
            final(self).keeps_tie(*old(self), *old(sys), *final(sys)),
            Nmos::ran(*old(self), *final(self), r, Instr::Imm(Alu::Sbc)),
    {
        self.imm_op(sys, Alu::Sbc)
    }

    /// `CPX $nnnn`
    pub fn op_ec<S: Sys>(&mut self, sys: &mut S) -> (r: Option<()>)
        ensures
            final(self).keeps_tie(*old(self), *old(sys), *final(sys)),
            Nmos::ran(*old(self), *final(self), r, Instr::Load(Mode::Abs, Alu::Cmp(Reg::X))),
    {
        self.load_op(sys, Mode::Abs, Alu::Cmp(Reg::X))
    }

    /// `SBC $nnnn`
    pub fn op_ed<S: Sys>(&mut self, sys: &mut S) -> (r: Option<()>)
        ensures
            final(self).keeps_tie(*old(self), *old(sys), *final(sys)),
            Nmos::ran(*old(self), *final(self), r, Instr::Load(Mode::Abs, Alu::Sbc)),
    {
        self.load_op(sys, Mode::Abs, Alu::Sbc)
    }

    /// `INC $nnnn`
    pub fn op_ee<S: Sys>(&mut self, sys: &mut S) -> (r: Option<()>)
        ensures
            final(self).keeps_tie(*old(self), *old(sys), *final(sys)),
            Nmos::ran(*old(self), *final(self), r, Instr::Rmw(Mode::Abs, RmwOp::Inc)),
    {
        self.rmw_op(sys, Mode::Abs, RmwOp::Inc)
    }

    /// `ISC $nnnn`
    pub fn op_ef<S: Sys>(&mut self, sys: &mut S) -> (r: Option<()>)
        ensures
            final(self).keeps_tie(*old(self), *old(sys), *final(sys)),
            Nmos::ran(*old(self), *final(self), r, Instr::RmwAlu(Mode::Abs, RmwOp::Inc, Alu::Sbc)),
    {
        self.rmw_alu_op(sys, Mode::Abs, RmwOp::Inc, Alu::Sbc)
    }

    /// `BEQ`
    pub fn op_f0<S: Sys>(&mut self, sys: &mut S) -> (r: Option<()>)
        ensures
            final(self).keeps_tie(*old(self), *old(sys), *final(sys)),
            Nmos::ran(*old(self), *final(self), r, Instr::Branch(Cond::Eq)),
    {
        self.branch_op(sys, Cond::Eq)
    }

    /// `SBC ($nn),Y`
    pub fn op_f1<S: Sys>(&mut self, sys: &mut S) -> (r: Option<()>)
        ensures
            final(self).keeps_tie(*old(self), *old(sys), *final(sys)),
            Nmos::ran(*old(self), *final(self), r, Instr::Load(Mode::IzY(false), Alu::Sbc)),
    {
        self.load_op(sys, Mode::IzY(false), Alu::Sbc)
    }

    /// `KIL`
    pub fn op_f2<S: Sys>(&mut self, sys: &mut S) -> (r: Option<()>)
        ensures
            final(self).keeps_tie(*old(self), *old(sys), *final(sys)),
            Nmos::ran(*old(self), *final(self), r, Instr::Kil),
    {
        proof { reveal(step); }
        self.halt()
    }

    /// `ISC ($nn),Y`
    pub fn op_f3<S: Sys>(&mut self, sys: &mut S) -> (r: Option<()>)
        ensures
            final(self).keeps_tie(*old(self), *old(sys), *final(sys)),
            Nmos::ran(*old(self), *final(self), r, Instr::RmwAlu(Mode::IzY(true), RmwOp::Inc, Alu::Sbc)),
    {
        self.rmw_alu_op(sys, Mode::IzY(true), RmwOp::Inc, Alu::Sbc)
    }

    /// `NOP* $nn,X`
    pub fn op_f4<S: Sys>(&mut self, sys: &mut S) -> (r: Option<()>)
        ensures
            final(self).keeps_tie(*old(self), *old(sys), *final(sys)),
            Nmos::ran(*old(self), *final(self), r, Instr::Load(Mode::ZpX, Alu::Nop)),
    {
        self.load_op(sys, Mode::ZpX, Alu::Nop)
    }

    /// `SBC $nn,X`
    pub fn op_f5<S: Sys>(&mut self, sys: &mut S) -> (r: Option<()>)
        ensures
            final(self).keeps_tie(*old(self), *old(sys), *final(sys)),
            Nmos::ran(*old(self), *final(self), r, Instr::Load(Mode::ZpX, Alu::Sbc)),
    {
        self.load_op(sys, Mode::ZpX, Alu::Sbc)
    }

    /// `INC $nn,X`
    pub fn op_f6<S: Sys>(&mut self, sys: &mut S) -> (r: Option<()>)
        ensures
            final(self).keeps_tie(*old(self), *old(sys), *final(sys)),
            Nmos::ran(*old(self), *final(self), r, Instr::Rmw(Mode::ZpX, RmwOp::Inc)),
    {
        self.rmw_op(sys, Mode::ZpX, RmwOp::Inc)
    }

    /// `ISC $nn,X`
    pub fn op_f7<S: Sys>(&mut self, sys: &mut S) -> (r: Option<()>)
        ensures
            final(self).keeps_tie(*old(self), *old(sys), *final(sys)),
            Nmos::ran(*old(self), *final(self), r, Instr::RmwAlu(Mode::ZpX, RmwOp::Inc, Alu::Sbc)),
    {
        self.rmw_alu_op(sys, Mode::ZpX, RmwOp::Inc, Alu::Sbc)
    }

    /// `SED`
    pub fn op_f8<S: Sys>(&mut self, sys: &mut S) -> (r: Option<()>)
        ensures
            final(self).keeps_tie(*old(self), *old(sys), *final(sys)),
            Nmos::ran(*old(self), *final(self), r, Instr::Implied(Imp::Sed)),
    {
        self.implied_op(sys, Imp::Sed)
    }

    /// `SBC $nnnn,Y`
    pub fn op_f9<S: Sys>(&mut self, sys: &mut S) -> (r: Option<()>)
        ensures
            final(self).keeps_tie(*old(self), *old(sys), *final(sys)),
            Nmos::ran(*old(self), *final(self), r, Instr::Load(Mode::AbsY(false), Alu::Sbc)),
    {
        self.load_op(sys, Mode::AbsY(false), Alu::Sbc)
    }

    /// `NOP*`
    pub fn op_fa<S: Sys>(&mut self, sys: &mut S) -> (r: Option<()>)
        ensures
            final(self).keeps_tie(*old(self), *old(sys), *final(sys)),
            Nmos::ran(*old(self), *final(self), r, Instr::Implied(Imp::Nop)),
    {
        self.implied_op(sys, Imp::Nop)
    }

    /// `ISC $nnnn,Y`
    pub fn op_fb<S: Sys>(&mut self, sys: &mut S) -> (r: Option<()>)
        ensures
            final(self).keeps_tie(*old(self), *old(sys), *final(sys)),
            Nmos::ran(*old(self), *final(self), r, Instr::RmwAlu(Mode::AbsY(true), RmwOp::Inc, Alu::Sbc)),
    {
        self.rmw_alu_op(sys, Mode::AbsY(true), RmwOp::Inc, Alu::Sbc)
    }

    /// `NOP* $nnnn,X`
    pub fn op_fc<S: Sys>(&mut self, sys: &mut S) -> (r: Option<()>)
        ensures
            final(self).keeps_tie(*old(self), *old(sys), *final(sys)),
            Nmos::ran(*old(self), *final(self), r, Instr::Load(Mode::AbsX(false), Alu::Nop)),
    {
        self.load_op(sys, Mode::AbsX(false), Alu::Nop)
    }

    /// `SBC $nnnn,X`
    pub fn op_fd<S: Sys>(&mut self, sys: &mut S) -> (r: Option<()>)
        ensures
            final(self).keeps_tie(*old(self), *old(sys), *final(sys)),
            Nmos::ran(*old(self), *final(self), r, Instr::Load(Mode::AbsX(false), Alu::Sbc)),
    {
        self.load_op(sys, Mode::AbsX(false), Alu::Sbc)
    }

    /// `INC $nnnn,X`
    pub fn op_fe<S: Sys>(&mut self, sys: &mut S) -> (r: Option<()>)
        ensures
            final(self).keeps_tie(*old(self), *old(sys), *final(sys)),
            Nmos::ran(*old(self), *final(self), r, Instr::Rmw(Mode::AbsX(true), RmwOp::Inc)),
    {
        self.rmw_op(sys, Mode::AbsX(true), RmwOp::Inc)
    }

    /// `ISC $nnnn,X`
    pub fn op_ff<S: Sys>(&mut self, sys: &mut S) -> (r: Option<()>)
        ensures
            final(self).keeps_tie(*old(self), *old(sys), *final(sys)),
            Nmos::ran(*old(self), *final(self), r, Instr::RmwAlu(Mode::AbsX(true), RmwOp::Inc, Alu::Sbc)),
    {
        self.rmw_alu_op(sys, Mode::AbsX(true), RmwOp::Inc, Alu::Sbc)
    }
}

} // verus!
