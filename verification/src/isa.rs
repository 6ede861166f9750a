//! The instruction sets, as tables from opcode to instruction.

use vstd::prelude::*;

use crate::model::{Alu, Cond, Imp, Instr, Mode, Reg, RmwOp, ShSrc, Src};

verus! {

/// What each opcode of the 65C02 does.
pub open spec fn cmos_instr(op: u8) -> Instr {
    match op {
        0x00 => Instr::Brk,
        0x01 => Instr::Load(Mode::IzX, Alu::Ora),
        0x02 => Instr::Imm(Alu::Nop),
        0x03 => Instr::Nop1,
        0x04 => Instr::Rmw(Mode::Zp, RmwOp::Tsb),
        0x05 => Instr::Load(Mode::Zp, Alu::Ora),
        0x06 => Instr::Rmw(Mode::Zp, RmwOp::Asl),
        0x07 => Instr::Nop1,
        0x08 => Instr::Php,
        0x09 => Instr::Imm(Alu::Ora),
        0x0a => Instr::Implied(Imp::OnA(RmwOp::Asl)),
        0x0b => Instr::Nop1,
        0x0c => Instr::Rmw(Mode::Abs, RmwOp::Tsb),
        0x0d => Instr::Load(Mode::Abs, Alu::Ora),
        0x0e => Instr::Rmw(Mode::Abs, RmwOp::Asl),
        0x0f => Instr::Nop1,
        0x10 => Instr::Branch(Cond::Pl),
        0x11 => Instr::Load(Mode::IzY(false), Alu::Ora),
        0x12 => Instr::Load(Mode::Izp, Alu::Ora),
        0x13 => Instr::Nop1,
        0x14 => Instr::Rmw(Mode::Zp, RmwOp::Trb),
        0x15 => Instr::Load(Mode::ZpX, Alu::Ora),
        0x16 => Instr::Rmw(Mode::ZpX, RmwOp::Asl),
        0x17 => Instr::Nop1,
        0x18 => Instr::Implied(Imp::Clc),
        0x19 => Instr::Load(Mode::AbsY(false), Alu::Ora),
        0x1a => Instr::Implied(Imp::OnA(RmwOp::Inc)),
        0x1b => Instr::Nop1,
        0x1c => Instr::Rmw(Mode::Abs, RmwOp::Trb),
        0x1d => Instr::Load(Mode::AbsX(false), Alu::Ora),
        0x1e => Instr::Rmw(Mode::AbsX(false), RmwOp::Asl),
        0x1f => Instr::Nop1,
        0x20 => Instr::Jsr,
        0x21 => Instr::Load(Mode::IzX, Alu::And),
        0x22 => Instr::Imm(Alu::Nop),
        0x23 => Instr::Nop1,
        0x24 => Instr::Load(Mode::Zp, Alu::Bit),
        0x25 => Instr::Load(Mode::Zp, Alu::And),
        0x26 => Instr::Rmw(Mode::Zp, RmwOp::Rol),
        0x27 => Instr::Nop1,
        0x28 => Instr::Plp,
        0x29 => Instr::Imm(Alu::And),
        0x2a => Instr::Implied(Imp::OnA(RmwOp::Rol)),
        0x2b => Instr::Nop1,
        0x2c => Instr::Load(Mode::Abs, Alu::Bit),
        0x2d => Instr::Load(Mode::Abs, Alu::And),
        0x2e => Instr::Rmw(Mode::Abs, RmwOp::Rol),
        0x2f => Instr::Nop1,
        0x30 => Instr::Branch(Cond::Mi),
        0x31 => Instr::Load(Mode::IzY(false), Alu::And),
        0x32 => Instr::Load(Mode::Izp, Alu::And),
        0x33 => Instr::Nop1,
        0x34 => Instr::Load(Mode::ZpX, Alu::Bit),
        0x35 => Instr::Load(Mode::ZpX, Alu::And),
        0x36 => Instr::Rmw(Mode::ZpX, RmwOp::Rol),
        0x37 => Instr::Nop1,
        0x38 => Instr::Implied(Imp::Sec),
        0x39 => Instr::Load(Mode::AbsY(false), Alu::And),
        0x3a => Instr::Implied(Imp::OnA(RmwOp::Dec)),
        0x3b => Instr::Nop1,
        0x3c => Instr::Load(Mode::AbsX(false), Alu::Bit),
        0x3d => Instr::Load(Mode::AbsX(false), Alu::And),
        0x3e => Instr::Rmw(Mode::AbsX(false), RmwOp::Rol),
        0x3f => Instr::Nop1,
        0x40 => Instr::Rti,
        0x41 => Instr::Load(Mode::IzX, Alu::Eor),
        0x42 => Instr::Imm(Alu::Nop),
        0x43 => Instr::Nop1,
        0x44 => Instr::Load(Mode::Zp, Alu::Nop),
        0x45 => Instr::Load(Mode::Zp, Alu::Eor),
        0x46 => Instr::Rmw(Mode::Zp, RmwOp::Lsr),
        0x47 => Instr::Nop1,
        0x48 => Instr::Push(Reg::A),
        0x49 => Instr::Imm(Alu::Eor),
        0x4a => Instr::Implied(Imp::OnA(RmwOp::Lsr)),
        0x4b => Instr::Nop1,
        0x4c => Instr::JmpAbs,
        0x4d => Instr::Load(Mode::Abs, Alu::Eor),
        0x4e => Instr::Rmw(Mode::Abs, RmwOp::Lsr),
        0x4f => Instr::Nop1,
        0x50 => Instr::Branch(Cond::Vc),
        0x51 => Instr::Load(Mode::IzY(false), Alu::Eor),
        0x52 => Instr::Load(Mode::Izp, Alu::Eor),
        0x53 => Instr::Nop1,
        0x54 => Instr::Load(Mode::ZpX, Alu::Nop),
        0x55 => Instr::Load(Mode::ZpX, Alu::Eor),
        0x56 => Instr::Rmw(Mode::ZpX, RmwOp::Lsr),
        0x57 => Instr::Nop1,
        0x58 => Instr::Implied(Imp::Cli),
        0x59 => Instr::Load(Mode::AbsY(false), Alu::Eor),
        0x5a => Instr::Push(Reg::Y),
        0x5b => Instr::Nop1,
        0x5c => Instr::Nop8,
        0x5d => Instr::Load(Mode::AbsX(false), Alu::Eor),
        0x5e => Instr::Rmw(Mode::AbsX(false), RmwOp::Lsr),
        0x5f => Instr::Nop1,
        0x60 => Instr::Rts,
        0x61 => Instr::Decimal(Mode::IzX, true),
        0x62 => Instr::Imm(Alu::Nop),
        0x63 => Instr::Nop1,
        0x64 => Instr::Store(Mode::Zp, Src::Zero),
        0x65 => Instr::Decimal(Mode::Zp, true),
        0x66 => Instr::Rmw(Mode::Zp, RmwOp::Ror),
        0x67 => Instr::Nop1,
        0x68 => Instr::Pull(Reg::A),
        0x69 => Instr::DecimalImm(true),
        0x6a => Instr::Implied(Imp::OnA(RmwOp::Ror)),
        0x6b => Instr::Nop1,
        0x6c => Instr::JmpInd,
        0x6d => Instr::Decimal(Mode::Abs, true),
        0x6e => Instr::Rmw(Mode::Abs, RmwOp::Ror),
        0x6f => Instr::Nop1,
        0x70 => Instr::Branch(Cond::Vs),
        0x71 => Instr::Decimal(Mode::IzY(false), true),
        0x72 => Instr::Decimal(Mode::Izp, true),
        0x73 => Instr::Nop1,
        0x74 => Instr::Store(Mode::ZpX, Src::Zero),
        0x75 => Instr::Decimal(Mode::ZpX, true),
        0x76 => Instr::Rmw(Mode::ZpX, RmwOp::Ror),
        0x77 => Instr::Nop1,
        0x78 => Instr::Implied(Imp::Sei),
        0x79 => Instr::Decimal(Mode::AbsY(false), true),
        0x7a => Instr::Pull(Reg::Y),
        0x7b => Instr::Nop1,
        0x7c => Instr::JmpIndX,
        0x7d => Instr::Decimal(Mode::AbsX(false), true),
        0x7e => Instr::Rmw(Mode::AbsX(false), RmwOp::Ror),
        0x7f => Instr::Nop1,
        0x80 => Instr::Branch(Cond::Always),
        0x81 => Instr::Store(Mode::IzX, Src::A),
        0x82 => Instr::Imm(Alu::Nop),
        0x83 => Instr::Nop1,
        0x84 => Instr::Store(Mode::Zp, Src::Y),
        0x85 => Instr::Store(Mode::Zp, Src::A),
        0x86 => Instr::Store(Mode::Zp, Src::X),
        0x87 => Instr::Nop1,
        0x88 => Instr::Implied(Imp::Dey),
        0x89 => Instr::Imm(Alu::BitImm),
        0x8a => Instr::Implied(Imp::Txa),
        0x8b => Instr::Nop1,
        0x8c => Instr::Store(Mode::Abs, Src::Y),
        0x8d => Instr::Store(Mode::Abs, Src::A),
        0x8e => Instr::Store(Mode::Abs, Src::X),
        0x8f => Instr::Nop1,
        0x90 => Instr::Branch(Cond::Cc),
        0x91 => Instr::Store(Mode::IzY(true), Src::A),
        0x92 => Instr::Store(Mode::Izp, Src::A),
        0x93 => Instr::Nop1,
        0x94 => Instr::Store(Mode::ZpX, Src::Y),
        0x95 => Instr::Store(Mode::ZpX, Src::A),
        0x96 => Instr::Store(Mode::ZpY, Src::X),
        0x97 => Instr::Nop1,
        0x98 => Instr::Implied(Imp::Tya),
        0x99 => Instr::Store(Mode::AbsY(true), Src::A),
        0x9a => Instr::Implied(Imp::Txs),
        0x9b => Instr::Nop1,
        0x9c => Instr::Store(Mode::Abs, Src::Zero),
        0x9d => Instr::Store(Mode::AbsX(true), Src::A),
        0x9e => Instr::Store(Mode::AbsX(true), Src::Zero),
        0x9f => Instr::Nop1,
        0xa0 => Instr::Imm(Alu::Ld(Reg::Y)),
        0xa1 => Instr::Load(Mode::IzX, Alu::Ld(Reg::A)),
        0xa2 => Instr::Imm(Alu::Ld(Reg::X)),
        0xa3 => Instr::Nop1,
        0xa4 => Instr::Load(Mode::Zp, Alu::Ld(Reg::Y)),
        0xa5 => Instr::Load(Mode::Zp, Alu::Ld(Reg::A)),
        0xa6 => Instr::Load(Mode::Zp, Alu::Ld(Reg::X)),
        0xa7 => Instr::Nop1,
        0xa8 => Instr::Implied(Imp::Tay),
        0xa9 => Instr::Imm(Alu::Ld(Reg::A)),
        0xaa => Instr::Implied(Imp::Tax),
        0xab => Instr::Nop1,
        0xac => Instr::Load(Mode::Abs, Alu::Ld(Reg::Y)),
        0xad => Instr::Load(Mode::Abs, Alu::Ld(Reg::A)),
        0xae => Instr::Load(Mode::Abs, Alu::Ld(Reg::X)),
        0xaf => Instr::Nop1,
        0xb0 => Instr::Branch(Cond::Cs),
        0xb1 => Instr::Load(Mode::IzY(false), Alu::Ld(Reg::A)),
        0xb2 => Instr::Load(Mode::Izp, Alu::Ld(Reg::A)),
        0xb3 => Instr::Nop1,
        0xb4 => Instr::Load(Mode::ZpX, Alu::Ld(Reg::Y)),
        0xb5 => Instr::Load(Mode::ZpX, Alu::Ld(Reg::A)),
        0xb6 => Instr::Load(Mode::ZpY, Alu::Ld(Reg::X)),
        0xb7 => Instr::Nop1,
        0xb8 => Instr::Implied(Imp::Clv),
        0xb9 => Instr::Load(Mode::AbsY(false), Alu::Ld(Reg::A)),
        0xba => Instr::Implied(Imp::Tsx),
        0xbb => Instr::Nop1,
        0xbc => Instr::Load(Mode::AbsX(false), Alu::Ld(Reg::Y)),
        0xbd => Instr::Load(Mode::AbsX(false), Alu::Ld(Reg::A)),
        0xbe => Instr::Load(Mode::AbsY(false), Alu::Ld(Reg::X)),
        0xbf => Instr::Nop1,
        0xc0 => Instr::Imm(Alu::Cmp(Reg::Y)),
        0xc1 => Instr::Load(Mode::IzX, Alu::Cmp(Reg::A)),
        0xc2 => Instr::Imm(Alu::Nop),
        0xc3 => Instr::Nop1,
        0xc4 => Instr::Load(Mode::Zp, Alu::Cmp(Reg::Y)),
        0xc5 => Instr::Load(Mode::Zp, Alu::Cmp(Reg::A)),
        0xc6 => Instr::Rmw(Mode::Zp, RmwOp::Dec),
        0xc7 => Instr::Nop1,
        0xc8 => Instr::Implied(Imp::Iny),
        0xc9 => Instr::Imm(Alu::Cmp(Reg::A)),
        0xca => Instr::Implied(Imp::Dex),
        0xcb => Instr::Nop1,
        0xcc => Instr::Load(Mode::Abs, Alu::Cmp(Reg::Y)),
        0xcd => Instr::Load(Mode::Abs, Alu::Cmp(Reg::A)),
        0xce => Instr::Rmw(Mode::Abs, RmwOp::Dec),
        0xcf => Instr::Nop1,
        0xd0 => Instr::Branch(Cond::Ne),
        0xd1 => Instr::Load(Mode::IzY(false), Alu::Cmp(Reg::A)),
        0xd2 => Instr::Load(Mode::Izp, Alu::Cmp(Reg::A)),
        0xd3 => Instr::Nop1,
        0xd4 => Instr::Load(Mode::ZpX, Alu::Nop),
        0xd5 => Instr::Load(Mode::ZpX, Alu::Cmp(Reg::A)),
        0xd6 => Instr::Rmw(Mode::ZpX, RmwOp::Dec),
        0xd7 => Instr::Nop1,
        0xd8 => Instr::Implied(Imp::Cld),
        0xd9 => Instr::Load(Mode::AbsY(false), Alu::Cmp(Reg::A)),
        0xda => Instr::Push(Reg::X),
        0xdb => Instr::Nop1,
        0xdc => Instr::NopAbsX,
        0xdd => Instr::Load(Mode::AbsX(false), Alu::Cmp(Reg::A)),
        0xde => Instr::Rmw(Mode::AbsX(true), RmwOp::Dec),
        0xdf => Instr::Nop1,
        0xe0 => Instr::Imm(Alu::Cmp(Reg::X)),
        0xe1 => Instr::Decimal(Mode::IzX, false),
        0xe2 => Instr::Imm(Alu::Nop),
        0xe3 => Instr::Nop1,
        0xe4 => Instr::Load(Mode::Zp, Alu::Cmp(Reg::X)),
        0xe5 => Instr::Decimal(Mode::Zp, false),
        0xe6 => Instr::Rmw(Mode::Zp, RmwOp::Inc),
        0xe7 => Instr::Nop1,
        0xe8 => Instr::Implied(Imp::Inx),
        0xe9 => Instr::DecimalImm(false),
        0xea => Instr::Implied(Imp::Nop),
        0xeb => Instr::Nop1,
        0xec => Instr::Load(Mode::Abs, Alu::Cmp(Reg::X)),
        0xed => Instr::Decimal(Mode::Abs, false),
        0xee => Instr::Rmw(Mode::Abs, RmwOp::Inc),
        0xef => Instr::Nop1,
        0xf0 => Instr::Branch(Cond::Eq),
        0xf1 => Instr::Decimal(Mode::IzY(false), false),
        0xf2 => Instr::Decimal(Mode::Izp, false),
        0xf3 => Instr::Nop1,
        0xf4 => Instr::Load(Mode::ZpX, Alu::Nop),
        0xf5 => Instr::Decimal(Mode::ZpX, false),
        0xf6 => Instr::Rmw(Mode::ZpX, RmwOp::Inc),
        0xf7 => Instr::Nop1,
        0xf8 => Instr::Implied(Imp::Sed),
        0xf9 => Instr::Decimal(Mode::AbsY(false), false),
        0xfa => Instr::Pull(Reg::X),
        0xfb => Instr::Nop1,
        0xfc => Instr::NopAbsX,
        0xfd => Instr::Decimal(Mode::AbsX(false), false),
        0xfe => Instr::Rmw(Mode::AbsX(true), RmwOp::Inc),
        _ => Instr::Nop1,
    }
}

/// What each opcode of the NMOS 6502 does, undocumented opcodes included.
pub open spec fn nmos_instr(op: u8) -> Instr {
    match op {
        0x00 => Instr::Brk,
        0x01 => Instr::Load(Mode::IzX, Alu::Ora),
        0x02 => Instr::Kil,
        0x03 => Instr::RmwAlu(Mode::IzX, RmwOp::Asl, Alu::Ora),
        0x04 => Instr::Load(Mode::Zp, Alu::Nop),
        0x05 => Instr::Load(Mode::Zp, Alu::Ora),
        0x06 => Instr::Rmw(Mode::Zp, RmwOp::Asl),
        0x07 => Instr::RmwAlu(Mode::Zp, RmwOp::Asl, Alu::Ora),
        0x08 => Instr::Php,
        0x09 => Instr::Imm(Alu::Ora),
        0x0a => Instr::Implied(Imp::OnA(RmwOp::Asl)),
        0x0b => Instr::Imm(Alu::Anc),
        0x0c => Instr::Load(Mode::Abs, Alu::Nop),
        0x0d => Instr::Load(Mode::Abs, Alu::Ora),
        0x0e => Instr::Rmw(Mode::Abs, RmwOp::Asl),
        0x0f => Instr::RmwAlu(Mode::Abs, RmwOp::Asl, Alu::Ora),
        0x10 => Instr::Branch(Cond::Pl),
        0x11 => Instr::Load(Mode::IzY(false), Alu::Ora),
        0x12 => Instr::Kil,
        0x13 => Instr::RmwAlu(Mode::IzY(true), RmwOp::Asl, Alu::Ora),
        0x14 => Instr::Load(Mode::ZpX, Alu::Nop),
        0x15 => Instr::Load(Mode::ZpX, Alu::Ora),
        0x16 => Instr::Rmw(Mode::ZpX, RmwOp::Asl),
        0x17 => Instr::RmwAlu(Mode::ZpX, RmwOp::Asl, Alu::Ora),
        0x18 => Instr::Implied(Imp::Clc),
        0x19 => Instr::Load(Mode::AbsY(false), Alu::Ora),
        0x1a => Instr::Implied(Imp::Nop),
        0x1b => Instr::RmwAlu(Mode::AbsY(true), RmwOp::Asl, Alu::Ora),
        0x1c => Instr::Load(Mode::AbsX(false), Alu::Nop),
        0x1d => Instr::Load(Mode::AbsX(false), Alu::Ora),
        0x1e => Instr::Rmw(Mode::AbsX(true), RmwOp::Asl),
        0x1f => Instr::RmwAlu(Mode::AbsX(true), RmwOp::Asl, Alu::Ora),
        0x20 => Instr::Jsr,
        0x21 => Instr::Load(Mode::IzX, Alu::And),
        0x22 => Instr::Kil,
        0x23 => Instr::RmwAlu(Mode::IzX, RmwOp::Rol, Alu::And),
        0x24 => Instr::Load(Mode::Zp, Alu::Bit),
        0x25 => Instr::Load(Mode::Zp, Alu::And),
        0x26 => Instr::Rmw(Mode::Zp, RmwOp::Rol),
        0x27 => Instr::RmwAlu(Mode::Zp, RmwOp::Rol, Alu::And),
        0x28 => Instr::Plp,
        0x29 => Instr::Imm(Alu::And),
        0x2a => Instr::Implied(Imp::OnA(RmwOp::Rol)),
        0x2b => Instr::Imm(Alu::Anc),
        0x2c => Instr::Load(Mode::Abs, Alu::Bit),
        0x2d => Instr::Load(Mode::Abs, Alu::And),
        0x2e => Instr::Rmw(Mode::Abs, RmwOp::Rol),
        0x2f => Instr::RmwAlu(Mode::Abs, RmwOp::Rol, Alu::And),
        0x30 => Instr::Branch(Cond::Mi),
        0x31 => Instr::Load(Mode::IzY(false), Alu::And),
        0x32 => Instr::Kil,
        0x33 => Instr::RmwAlu(Mode::IzY(true), RmwOp::Rol, Alu::And),
        0x34 => Instr::Load(Mode::ZpX, Alu::Nop),
        0x35 => Instr::Load(Mode::ZpX, Alu::And),
        0x36 => Instr::Rmw(Mode::ZpX, RmwOp::Rol),
        0x37 => Instr::RmwAlu(Mode::ZpX, RmwOp::Rol, Alu::And),
        0x38 => Instr::Implied(Imp::Sec),
        0x39 => Instr::Load(Mode::AbsY(false), Alu::And),
        0x3a => Instr::Implied(Imp::Nop),
        0x3b => Instr::RmwAlu(Mode::AbsY(true), RmwOp::Rol, Alu::And),
        0x3c => Instr::Load(Mode::AbsX(false), Alu::Nop),
        0x3d => Instr::Load(Mode::AbsX(false), Alu::And),
        0x3e => Instr::Rmw(Mode::AbsX(true), RmwOp::Rol),
        0x3f => Instr::RmwAlu(Mode::AbsX(true), RmwOp::Rol, Alu::And),
        0x40 => Instr::Rti,
        0x41 => Instr::Load(Mode::IzX, Alu::Eor),
        0x42 => Instr::Kil,
        0x43 => Instr::RmwAlu(Mode::IzX, RmwOp::Lsr, Alu::Eor),
        0x44 => Instr::Load(Mode::Zp, Alu::Nop),
        0x45 => Instr::Load(Mode::Zp, Alu::Eor),
        0x46 => Instr::Rmw(Mode::Zp, RmwOp::Lsr),
        0x47 => Instr::RmwAlu(Mode::Zp, RmwOp::Lsr, Alu::Eor),
        0x48 => Instr::Push(Reg::A),
        0x49 => Instr::Imm(Alu::Eor),
        0x4a => Instr::Implied(Imp::OnA(RmwOp::Lsr)),
        0x4b => Instr::Imm(Alu::Alr),
        0x4c => Instr::JmpAbs,
        0x4d => Instr::Load(Mode::Abs, Alu::Eor),
        0x4e => Instr::Rmw(Mode::Abs, RmwOp::Lsr),
        0x4f => Instr::RmwAlu(Mode::Abs, RmwOp::Lsr, Alu::Eor),
        0x50 => Instr::Branch(Cond::Vc),
        0x51 => Instr::Load(Mode::IzY(false), Alu::Eor),
        0x52 => Instr::Kil,
        0x53 => Instr::RmwAlu(Mode::IzY(true), RmwOp::Lsr, Alu::Eor),
        0x54 => Instr::Load(Mode::ZpX, Alu::Nop),
        0x55 => Instr::Load(Mode::ZpX, Alu::Eor),
        0x56 => Instr::Rmw(Mode::ZpX, RmwOp::Lsr),
        0x57 => Instr::RmwAlu(Mode::ZpX, RmwOp::Lsr, Alu::Eor),
        0x58 => Instr::Implied(Imp::Cli),
        0x59 => Instr::Load(Mode::AbsY(false), Alu::Eor),
        0x5a => Instr::Implied(Imp::Nop),
        0x5b => Instr::RmwAlu(Mode::AbsY(true), RmwOp::Lsr, Alu::Eor),
        0x5c => Instr::Load(Mode::AbsX(false), Alu::Nop),
        0x5d => Instr::Load(Mode::AbsX(false), Alu::Eor),
        0x5e => Instr::Rmw(Mode::AbsX(true), RmwOp::Lsr),
        0x5f => Instr::RmwAlu(Mode::AbsX(true), RmwOp::Lsr, Alu::Eor),
        0x60 => Instr::Rts,
        0x61 => Instr::Load(Mode::IzX, Alu::Adc),
        0x62 => Instr::Kil,
        0x63 => Instr::RmwAlu(Mode::IzX, RmwOp::Ror, Alu::Adc),
        0x64 => Instr::Load(Mode::Zp, Alu::Nop),
        0x65 => Instr::Load(Mode::Zp, Alu::Adc),
        0x66 => Instr::Rmw(Mode::Zp, RmwOp::Ror),
        0x67 => Instr::RmwAlu(Mode::Zp, RmwOp::Ror, Alu::Adc),
        0x68 => Instr::Pull(Reg::A),
        0x69 => Instr::Imm(Alu::Adc),
        0x6a => Instr::Implied(Imp::OnA(RmwOp::Ror)),
        0x6b => Instr::Imm(Alu::Arr),
        0x6c => Instr::JmpInd,
        0x6d => Instr::Load(Mode::Abs, Alu::Adc),
        0x6e => Instr::Rmw(Mode::Abs, RmwOp::Ror),
        0x6f => Instr::RmwAlu(Mode::Abs, RmwOp::Ror, Alu::Adc),
        0x70 => Instr::Branch(Cond::Vs),
        0x71 => Instr::Load(Mode::IzY(false), Alu::Adc),
        0x72 => Instr::Kil,
        0x73 => Instr::RmwAlu(Mode::IzY(true), RmwOp::Ror, Alu::Adc),
        0x74 => Instr::Load(Mode::ZpX, Alu::Nop),
        0x75 => Instr::Load(Mode::ZpX, Alu::Adc),
        0x76 => Instr::Rmw(Mode::ZpX, RmwOp::Ror),
        0x77 => Instr::RmwAlu(Mode::ZpX, RmwOp::Ror, Alu::Adc),
        0x78 => Instr::Implied(Imp::Sei),
        0x79 => Instr::Load(Mode::AbsY(false), Alu::Adc),
        0x7a => Instr::Implied(Imp::Nop),
        0x7b => Instr::RmwAlu(Mode::AbsY(true), RmwOp::Ror, Alu::Adc),
        0x7c => Instr::Load(Mode::AbsX(false), Alu::Nop),
        0x7d => Instr::Load(Mode::AbsX(false), Alu::Adc),
        0x7e => Instr::Rmw(Mode::AbsX(true), RmwOp::Ror),
        0x7f => Instr::RmwAlu(Mode::AbsX(true), RmwOp::Ror, Alu::Adc),
        0x80 => Instr::Imm(Alu::Nop),
        0x81 => Instr::Store(Mode::IzX, Src::A),
        0x82 => Instr::Imm(Alu::Nop),
        0x83 => Instr::Store(Mode::IzX, Src::AX),
        0x84 => Instr::Store(Mode::Zp, Src::Y),
        0x85 => Instr::Store(Mode::Zp, Src::A),
        0x86 => Instr::Store(Mode::Zp, Src::X),
        0x87 => Instr::Store(Mode::Zp, Src::AX),
        0x88 => Instr::Implied(Imp::Dey),
        0x89 => Instr::Imm(Alu::Nop),
        0x8a => Instr::Implied(Imp::Txa),
        0x8b => Instr::Imm(Alu::Xaa),
        0x8c => Instr::Store(Mode::Abs, Src::Y),
        0x8d => Instr::Store(Mode::Abs, Src::A),
        0x8e => Instr::Store(Mode::Abs, Src::X),
        0x8f => Instr::Store(Mode::Abs, Src::AX),
        0x90 => Instr::Branch(Cond::Cc),
        0x91 => Instr::Store(Mode::IzY(true), Src::A),
        0x92 => Instr::Kil,
        0x93 => Instr::Sh(Mode::IzY(true), ShSrc::AX),
        0x94 => Instr::Store(Mode::ZpX, Src::Y),
        0x95 => Instr::Store(Mode::ZpX, Src::A),
        0x96 => Instr::Store(Mode::ZpY, Src::X),
        0x97 => Instr::Store(Mode::ZpY, Src::AX),
        0x98 => Instr::Implied(Imp::Tya),
        0x99 => Instr::Store(Mode::AbsY(true), Src::A),
        0x9a => Instr::Implied(Imp::Txs),
        0x9b => Instr::Sh(Mode::AbsY(true), ShSrc::Tas),
        0x9c => Instr::Sh(Mode::AbsX(true), ShSrc::Y),
        0x9d => Instr::Store(Mode::AbsX(true), Src::A),
        0x9e => Instr::Sh(Mode::AbsY(true), ShSrc::X),
        0x9f => Instr::Sh(Mode::AbsY(true), ShSrc::AX),
        0xa0 => Instr::Imm(Alu::Ld(Reg::Y)),
        0xa1 => Instr::Load(Mode::IzX, Alu::Ld(Reg::A)),
        0xa2 => Instr::Imm(Alu::Ld(Reg::X)),
        0xa3 => Instr::Load(Mode::IzX, Alu::Lax),
        0xa4 => Instr::Load(Mode::Zp, Alu::Ld(Reg::Y)),
        0xa5 => Instr::Load(Mode::Zp, Alu::Ld(Reg::A)),
        0xa6 => Instr::Load(Mode::Zp, Alu::Ld(Reg::X)),
        0xa7 => Instr::Load(Mode::Zp, Alu::Lax),
        0xa8 => Instr::Implied(Imp::Tay),
        0xa9 => Instr::Imm(Alu::Ld(Reg::A)),
        0xaa => Instr::Implied(Imp::Tax),
        0xab => Instr::Imm(Alu::LaxImm),
        0xac => Instr::Load(Mode::Abs, Alu::Ld(Reg::Y)),
        0xad => Instr::Load(Mode::Abs, Alu::Ld(Reg::A)),
        0xae => Instr::Load(Mode::Abs, Alu::Ld(Reg::X)),
        0xaf => Instr::Load(Mode::Abs, Alu::Lax),
        0xb0 => Instr::Branch(Cond::Cs),
        0xb1 => Instr::Load(Mode::IzY(false), Alu::Ld(Reg::A)),
        0xb2 => Instr::Kil,
        0xb3 => Instr::Load(Mode::IzY(false), Alu::Lax),
        0xb4 => Instr::Load(Mode::ZpX, Alu::Ld(Reg::Y)),
        0xb5 => Instr::Load(Mode::ZpX, Alu::Ld(Reg::A)),
        0xb6 => Instr::Load(Mode::ZpY, Alu::Ld(Reg::X)),
        0xb7 => Instr::Load(Mode::ZpY, Alu::Lax),
        0xb8 => Instr::Implied(Imp::Clv),
        0xb9 => Instr::Load(Mode::AbsY(false), Alu::Ld(Reg::A)),
        0xba => Instr::Implied(Imp::Tsx),
        0xbb => Instr::Load(Mode::AbsY(false), Alu::Las),
        0xbc => Instr::Load(Mode::AbsX(false), Alu::Ld(Reg::Y)),
        0xbd => Instr::Load(Mode::AbsX(false), Alu::Ld(Reg::A)),
        0xbe => Instr::Load(Mode::AbsY(false), Alu::Ld(Reg::X)),
        0xbf => Instr::Load(Mode::AbsY(false), Alu::Lax),
        0xc0 => Instr::Imm(Alu::Cmp(Reg::Y)),
        0xc1 => Instr::Load(Mode::IzX, Alu::Cmp(Reg::A)),
        0xc2 => Instr::Imm(Alu::Nop),
        0xc3 => Instr::RmwAlu(Mode::IzX, RmwOp::Dec, Alu::Cmp(Reg::A)),
        0xc4 => Instr::Load(Mode::Zp, Alu::Cmp(Reg::Y)),
        0xc5 => Instr::Load(Mode::Zp, Alu::Cmp(Reg::A)),
        0xc6 => Instr::Rmw(Mode::Zp, RmwOp::Dec),
        0xc7 => Instr::RmwAlu(Mode::Zp, RmwOp::Dec, Alu::Cmp(Reg::A)),
        0xc8 => Instr::Implied(Imp::Iny),
        0xc9 => Instr::Imm(Alu::Cmp(Reg::A)),
        0xca => Instr::Implied(Imp::Dex),
        0xcb => Instr::Imm(Alu::Axs),
        0xcc => Instr::Load(Mode::Abs, Alu::Cmp(Reg::Y)),
        0xcd => Instr::Load(Mode::Abs, Alu::Cmp(Reg::A)),
        0xce => Instr::Rmw(Mode::Abs, RmwOp::Dec),
        0xcf => Instr::RmwAlu(Mode::Abs, RmwOp::Dec, Alu::Cmp(Reg::A)),
        0xd0 => Instr::Branch(Cond::Ne),
        0xd1 => Instr::Load(Mode::IzY(false), Alu::Cmp(Reg::A)),
        0xd2 => Instr::Kil,
        0xd3 => Instr::RmwAlu(Mode::IzY(true), RmwOp::Dec, Alu::Cmp(Reg::A)),
        0xd4 => Instr::Load(Mode::ZpX, Alu::Nop),
        0xd5 => Instr::Load(Mode::ZpX, Alu::Cmp(Reg::A)),
        0xd6 => Instr::Rmw(Mode::ZpX, RmwOp::Dec),
        0xd7 => Instr::RmwAlu(Mode::ZpX, RmwOp::Dec, Alu::Cmp(Reg::A)),
        0xd8 => Instr::Implied(Imp::Cld),
        0xd9 => Instr::Load(Mode::AbsY(false), Alu::Cmp(Reg::A)),
        0xda => Instr::Implied(Imp::Nop),
        0xdb => Instr::RmwAlu(Mode::AbsY(true), RmwOp::Dec, Alu::Cmp(Reg::A)),
        0xdc => Instr::Load(Mode::AbsX(false), Alu::Nop),
        0xdd => Instr::Load(Mode::AbsX(false), Alu::Cmp(Reg::A)),
        0xde => Instr::Rmw(Mode::AbsX(true), RmwOp::Dec),
        0xdf => Instr::RmwAlu(Mode::AbsX(true), RmwOp::Dec, Alu::Cmp(Reg::A)),
        0xe0 => Instr::Imm(Alu::Cmp(Reg::X)),
        0xe1 => Instr::Load(Mode::IzX, Alu::Sbc),
        0xe2 => Instr::Imm(Alu::Nop),
        0xe3 => Instr::RmwAlu(Mode::IzX, RmwOp::Inc, Alu::Sbc),
        0xe4 => Instr::Load(Mode::Zp, Alu::Cmp(Reg::X)),
        0xe5 => Instr::Load(Mode::Zp, Alu::Sbc),
        0xe6 => Instr::Rmw(Mode::Zp, RmwOp::Inc),
        0xe7 => Instr::RmwAlu(Mode::Zp, RmwOp::Inc, Alu::Sbc),
        0xe8 => Instr::Implied(Imp::Inx),
        0xe9 => Instr::Imm(Alu::Sbc),
        0xea => Instr::Implied(Imp::Nop),
        0xeb => Instr::Imm(Alu::Sbc),
        0xec => Instr::Load(Mode::Abs, Alu::Cmp(Reg::X)),
        0xed => Instr::Load(Mode::Abs, Alu::Sbc),
        0xee => Instr::Rmw(Mode::Abs, RmwOp::Inc),
        0xef => Instr::RmwAlu(Mode::Abs, RmwOp::Inc, Alu::Sbc),
        0xf0 => Instr::Branch(Cond::Eq),
        0xf1 => Instr::Load(Mode::IzY(false), Alu::Sbc),
        0xf2 => Instr::Kil,
        0xf3 => Instr::RmwAlu(Mode::IzY(true), RmwOp::Inc, Alu::Sbc),
        0xf4 => Instr::Load(Mode::ZpX, Alu::Nop),
        0xf5 => Instr::Load(Mode::ZpX, Alu::Sbc),
        0xf6 => Instr::Rmw(Mode::ZpX, RmwOp::Inc),
        0xf7 => Instr::RmwAlu(Mode::ZpX, RmwOp::Inc, Alu::Sbc),
        0xf8 => Instr::Implied(Imp::Sed),
        0xf9 => Instr::Load(Mode::AbsY(false), Alu::Sbc),
        0xfa => Instr::Implied(Imp::Nop),
        0xfb => Instr::RmwAlu(Mode::AbsY(true), RmwOp::Inc, Alu::Sbc),
        0xfc => Instr::Load(Mode::AbsX(false), Alu::Nop),
        0xfd => Instr::Load(Mode::AbsX(false), Alu::Sbc),
        0xfe => Instr::Rmw(Mode::AbsX(true), RmwOp::Inc),
        _ => Instr::RmwAlu(Mode::AbsX(true), RmwOp::Inc, Alu::Sbc),
    }
}

} // verus!
