use robo6502::nmos::Nmos;
use robo6502::{Cpu, InputLines, NmiLength, Status, Sys, SysRecord};

use crate::AddrMode::{ABI, ABS, IMM, IMP, IZX, IZY, MISC, REL, ZP, ZPI};
use crate::Cycle::{R, W};
use crate::MemAction::{Load, RmwDec, RmwInc, Store};

/// A system that runs instructions on a CPU in its own way.
trait TestSys: Sys {
    fn run_one<C: Cpu>(&mut self, cpu: &mut C);
}

/// Stops the CPU at the first read after each opcode fetch.
struct StepFullSys<T: Sys> {
    sys: T,
    do_stop: bool,
    sync: bool,
}

impl<T: Sys> StepFullSys<T> {
    fn new(sys: T) -> StepFullSys<T> {
        StepFullSys { sys, do_stop: false, sync: false }
    }
}

impl<T: Sys> TestSys for StepFullSys<T> {
    fn run_one<C: Cpu>(&mut self, cpu: &mut C) {
        cpu.run_instruction(self);
        if cpu.partial_inst() {
            cpu.run_instruction(self);
        }
    }
}

impl<T: Sys> Sys for StepFullSys<T> {
    fn cycles(&self) -> SysRecord {
        unreachable!()
    }

    fn lines_at(&self, _rec: SysRecord) -> InputLines {
        unreachable!()
    }

    fn read(&mut self, addr: u16) -> Option<u8> {
        if self.sync {
            self.do_stop = true;
        } else if self.do_stop {
            self.do_stop = false;
            return None;
        }
        self.sys.read(addr)
    }

    fn write(&mut self, addr: u16, val: u8) -> Option<()> {
        self.sys.write(addr, val)
    }

    fn set_sync(&mut self, set: bool) {
        self.sync = set;
        self.sys.set_sync(set);
    }

    fn poll_nmi(&mut self) -> bool {
        self.sys.poll_nmi()
    }

    fn peek_nmi(&self) -> bool {
        self.sys.peek_nmi()
    }

    fn irq(&self) -> bool {
        self.sys.irq()
    }

    fn nmi_length(&self) -> NmiLength {
        self.sys.nmi_length()
    }
}

/// Stops the CPU at every other read or write.
struct StepSys<T: Sys> {
    sys: T,
    do_stop: bool,
    sync: bool,
}

impl<T: Sys> StepSys<T> {
    fn new(sys: T) -> StepSys<T> {
        StepSys { sys, do_stop: false, sync: false }
    }
}

impl<T: Sys> TestSys for StepSys<T> {
    fn run_one<C: Cpu>(&mut self, cpu: &mut C) {
        cpu.run_instruction(self);
        loop {
            if self.sync {
                break;
            }
            cpu.run_instruction(self);
        }
    }
}

impl<T: Sys> Sys for StepSys<T> {
    fn cycles(&self) -> SysRecord {
        unreachable!()
    }

    fn lines_at(&self, _rec: SysRecord) -> InputLines {
        unreachable!()
    }

    fn read(&mut self, addr: u16) -> Option<u8> {
        self.do_stop = !self.do_stop;
        if !self.do_stop {
            return None;
        }
        self.sys.read(addr)
    }

    fn write(&mut self, addr: u16, val: u8) -> Option<()> {
        self.do_stop = !self.do_stop;
        if !self.do_stop {
            return None;
        }
        self.sys.write(addr, val)
    }

    fn set_sync(&mut self, set: bool) {
        self.sync = set;
        self.sys.set_sync(set);
    }

    fn poll_nmi(&mut self) -> bool {
        self.sys.poll_nmi()
    }

    fn peek_nmi(&self) -> bool {
        self.sys.peek_nmi()
    }

    fn irq(&self) -> bool {
        self.sys.irq()
    }

    fn nmi_length(&self) -> NmiLength {
        self.sys.nmi_length()
    }
}

#[derive(Clone, Copy)]
enum MemAction {
    Load,
    Store,
    RmwInc,
    RmwDec,
}

#[derive(Clone, Copy)]
enum AddrMode {
    IMP,
    IMM,
    ZP(MemAction),
    ABS(MemAction),
    ZPI(MemAction),
    ABI(MemAction),
    IZX(MemAction),
    IZY(MemAction),
    REL,
    MISC,
}

/// The addressing mode of each NMOS opcode.
fn addr_modes() -> Vec<AddrMode> {
    vec![
        MISC, IZX(Load), MISC, IZX(RmwInc), ZP(Load), ZP(Load), ZP(RmwInc), ZP(RmwInc), MISC, IMM, IMP, IMM, ABS(Load), ABS(Load), ABS(RmwInc), ABS(RmwInc),
        REL, IZY(Load), MISC, IZY(RmwInc), ZPI(Load), ZPI(Load), ZPI(RmwInc), ZPI(RmwInc), IMP, ABI(Load), IMP, ABI(RmwInc), ABI(Load), ABI(Load), ABI(RmwInc), ABI(RmwInc),
        MISC, IZX(Load), MISC, IZX(RmwInc), ZP(Load), ZP(Load), ZP(RmwInc), ZP(RmwInc), MISC, IMM, IMP, IMM, ABS(Load), ABS(Load), ABS(RmwInc), ABS(RmwInc),
        REL, IZY(Load), MISC, IZY(RmwInc), ZPI(Load), ZPI(Load), ZPI(RmwInc), ZPI(RmwInc), IMP, ABI(Load), IMP, ABI(RmwInc), ABI(Load), ABI(Load), ABI(RmwInc), ABI(RmwInc),
        MISC, IZX(Load), MISC, IZX(RmwDec), ZP(Load), ZP(Load), ZP(RmwDec), ZP(RmwDec), MISC, IMM, IMP, IMM, MISC, ABS(Load), ABS(RmwDec), ABS(RmwDec),
        REL, IZY(Load), MISC, IZY(RmwDec), ZPI(Load), ZPI(Load), ZPI(RmwDec), ZPI(RmwDec), IMP, ABI(Load), IMP, ABI(RmwDec), ABI(Load), ABI(Load), ABI(RmwDec), ABI(RmwDec),
        MISC, IZX(Load), MISC, IZX(RmwDec), ZP(Load), ZP(Load), ZP(RmwDec), ZP(RmwDec), MISC, IMM, IMP, IMM, MISC, ABS(Load), ABS(RmwDec), ABS(RmwDec),
        REL, IZY(Load), MISC, IZY(RmwDec), ZPI(Load), ZPI(Load), ZPI(RmwDec), ZPI(RmwDec), IMP, ABI(Load), IMP, ABI(RmwDec), ABI(Load), ABI(Load), ABI(RmwDec), ABI(RmwDec),
        IMM, IZX(Store), IMM, IZX(Store), ZP(Store), ZP(Store), ZP(Store), ZP(Store), IMP, IMM, IMP, IMM, ABS(Store), ABS(Store), ABS(Store), ABS(Store),
        REL, IZY(Store), MISC, IZY(Store), ZPI(Store), ZPI(Store), ZPI(Store), ZPI(Store), IMP, ABI(Store), IMP, ABI(Store), ABI(Store), ABI(Store), ABI(Store), ABI(Store),
        IMM, IZX(Load), IMM, IZX(Load), ZP(Load), ZP(Load), ZP(Load), ZP(Load), IMP, IMM, IMP, IMM, ABS(Load), ABS(Load), ABS(Load), ABS(Load),
        REL, IZY(Load), MISC, IZY(Load), ZPI(Load), ZPI(Load), ZPI(Load), ZPI(Load), IMP, ABI(Load), IMP, ABI(Load), ABI(Load), ABI(Load), ABI(Load), ABI(Load),
        IMM, IZX(Load), IMM, IZX(RmwDec), ZP(Load), ZP(Load), ZP(RmwDec), ZP(RmwDec), IMP, IMM, IMP, IMM, ABS(Load), ABS(Load), ABS(RmwDec), ABS(RmwDec),
        REL, IZY(Load), MISC, IZY(RmwDec), ZPI(Load), ZPI(Load), ZPI(RmwDec), ZPI(RmwDec), IMP, ABI(Load), IMP, ABI(RmwDec), ABI(Load), ABI(Load), ABI(RmwDec), ABI(RmwDec),
        IMM, IZX(Load), IMM, IZX(RmwInc), ZP(Load), ZP(Load), ZP(RmwInc), ZP(RmwInc), IMP, IMM, IMP, IMM, ABS(Load), ABS(Load), ABS(RmwInc), ABS(RmwInc),
        REL, IZY(Load), MISC, IZY(RmwInc), ZPI(Load), ZPI(Load), ZPI(RmwInc), ZPI(RmwInc), IMP, ABI(Load), IMP, ABI(RmwInc), ABI(Load), ABI(Load), ABI(RmwInc), ABI(RmwInc),
    ]
}

fn branch_flag(op: u8) -> (Status, bool) {
    match op {
        0x10 => (Status::N, false),
        0x30 => (Status::N, true),
        0x50 => (Status::V, false),
        0x70 => (Status::V, true),
        0x90 => (Status::C, false),
        0xb0 => (Status::C, true),
        0xd0 => (Status::Z, false),
        0xf0 => (Status::Z, true),
        _ => unreachable!(),
    }
}

#[test]
fn bus() {
    let mut tested = [false; 256];
    let modes = addr_modes();

    // Ignore KIL
    let kil: [usize; 12] = [
        0x02, 0x12, 0x22, 0x32, 0x42, 0x52, 0x62, 0x72, 0x92, 0xb2, 0xd2, 0xf2,
    ];
    for op in kil.iter() {
        tested[*op] = true;
    }

    // Regular ops
    for op in 0..256 {
        if let Some(tests) = op_bus(&modes, op as u8) {
            for test in tests {
                run_test(test_cpu(), test, &mut tested);
            }
        }
    }

    // Branch ops
    for op in 0..256 {
        if let AddrMode::REL = modes[op] {
            test_rel(op as u8, &mut tested);
        }
    }

    test_jmp(&mut tested); // JMP $nnnn and JMP ($nnnn)
    test_push(0x08, 0x32, &mut tested); // PHP
    test_push(0x48, 0x40, &mut tested); // PHA
    test_pull(0x28, &mut tested); // PLP
    test_pull(0x68, &mut tested); // PLA
    test_brk(&mut tested); // BRK
    test_rti(&mut tested); // RTI
    test_jsr(&mut tested); // JSR
    test_rts(&mut tested); // RTS

    assert!(tested.iter().all(|&p| p));
}

fn run_one_sys<T: TestSys>(sys: &mut T, mut cpu: Nmos, test: AddrTest, pass: &mut [bool]) {
    let desc = format!("{:02x}-{}", test.op(), test.desc);
    cpu.set_pc(test.start_pc());
    sys.run_one(&mut cpu);
    if cpu.pc() != test.end_pc {
        panic!("end pc {:04x} instead of {:04x} for {}", cpu.pc(), test.end_pc, desc);
    }
    pass[test.op() as usize] = true;
}

fn run_test(cpu: Nmos, test: AddrTest, pass: &mut [bool]) {
    let desc = format!("{:02x}-{}", test.op(), test.desc);
    let sys = BusSys::new(desc, test.bus.clone());

    let mut sys1 = sys.clone();
    run_one_sys(&mut sys1, cpu.clone(), test.clone(), pass);
    sys1.check();

    let mut sys2 = StepFullSys::new(sys.clone());
    run_one_sys(&mut sys2, cpu.clone(), test.clone(), pass);
    sys2.sys.check();

    let mut sys3 = StepSys::new(sys.clone());
    run_one_sys(&mut sys3, cpu.clone(), test.clone(), pass);
    sys3.sys.check();
}

fn op_bus(modes: &[AddrMode], op: u8) -> Option<Vec<AddrTest>> {

    let (bases, action): (Vec<AddrTest>, Option<MemAction>) =
        match modes[op as usize] {
            IMP => (bus_imp(op), None),
            IMM => (bus_imm(op), None),
            ZP(action) => (bus_zp(op), Some(action)),
            ABS(action) => (bus_abs(op), Some(action)),
            ZPI(action) => (bus_zpi(op), Some(action)),
            ABI(action) => (bus_abi(op, action), Some(action)),
            IZX(action) => (bus_izx(op), Some(action)),
            IZY(action) => (bus_izy(op, action), Some(action)),
            _ => return None,
        };

    let tests = bases
        .iter()
        .map(|base| {
            let final_cycles = match action {
                None => vec![],
                Some(Load) => vec![R(base.addr, 0)],
                Some(Store) => vec![W(base.addr, 0x40)],
                Some(RmwInc) => {
                    vec![R(base.addr, 1), W(base.addr, 1), W(base.addr, 2)]
                }
                Some(RmwDec) => {
                    vec![R(base.addr, 2), W(base.addr, 2), W(base.addr, 1)]
                }
            };
            AddrTest {
                desc: base.desc.clone(),
                addr: base.addr,
                end_pc: base.end_pc,
                bus: [base.bus.clone(), final_cycles].concat(),
            }
        }).collect();
    Some(tests)
}

fn bus_imp(op: u8) -> Vec<AddrTest> {
    vec![AddrTest {
        desc: "implicit".to_owned(),
        bus: vec![
            R(0x0200, op),   // opcode fetch
            R(0x0201, 0x00), // dummy read
        ],
        end_pc: 0x0201,
        addr: 0x0000, // not used
    }]
}

fn bus_imm(op: u8) -> Vec<AddrTest> {
    vec![AddrTest {
        desc: "immediate".to_owned(),
        bus: vec![
            R(0x0200, op),   // opcode fetch
            R(0x0201, 0x00), // operand fetch
        ],
        end_pc: 0x0202,
        addr: 0x0000, // not used
    }]
}

fn bus_zp(op: u8) -> Vec<AddrTest> {
    vec![AddrTest {
        desc: "zp".to_owned(),
        bus: vec![
            R(0x0200, op),   // opcode fetch
            R(0x0201, 0x55), // address fetch
        ],
        end_pc: 0x0202,
        addr: 0x0055,
    }]
}

fn bus_abs(op: u8) -> Vec<AddrTest> {
    vec![AddrTest {
        desc: "abs".to_owned(),
        bus: vec![
            R(0x0200, op),   // opcode fetch
            R(0x0201, 0x30), // address lo fetch
            R(0x0202, 0x40), // address hi fetch
        ],
        end_pc: 0x0203,
        addr: 0x4030,
    }]
}

fn bus_zpi(op: u8) -> Vec<AddrTest> {
    vec![AddrTest {
        desc: "zpi".to_owned(),
        bus: vec![
            R(0x0200, op),   // opcode fetch
            R(0x0201, 0xf0), // base fetch
            R(0x00f0, 00),   // dummy read at base
        ],
        end_pc: 0x0202,
        addr: 0x30,
    }]
}

fn bus_abi(op: u8, action: MemAction) -> Vec<AddrTest> {
    let w = match action {
        MemAction::Load => false,
        _ => true,
    };

    let h = [0x9b, 0x9c, 0x9e, 0x9f].contains(&op);

    if !h {
        // normal abi
        if w {
            vec![AddrTest {
                desc: "abi-store".to_owned(),
                bus: vec![
                    R(0x0200, op),   // opcode fetch
                    R(0x0201, 0xf0), // base lo fetch
                    R(0x0202, 0x40), // base hi fetch
                    R(0x4030, 0x00), // dummy read (no carry)
                ],
                end_pc: 0x0203,
                addr: 0x4130,
            }]
        } else {
            vec![
                AddrTest {
                    desc: "abi-load".to_owned(),
                    bus: vec![
                        R(0x0200, op),   // opcode fetch
                        R(0x0201, 0x40), // base lo fetch
                        R(0x0202, 0x40), // base hi fetch
                    ],
                    end_pc: 0x0203,
                    addr: 0x4080,
                },
                AddrTest {
                    desc: "abi-load-page-cross".to_owned(),
                    bus: vec![
                        R(0x0200, op),   // opcode fetch
                        R(0x0201, 0xf0), // base lo fetch
                        R(0x0202, 0x40), // base hi fetch
                        R(0x4030, 0x00), // dummy read (no carry)
                    ],
                    end_pc: 0x0203,
                    addr: 0x4130,
                },
            ]
        }
    } else {
        // ops 0x9b, 0x9c, 0x9e, 0x9f
        vec![
            AddrTest {
                desc: "abh-store".to_owned(),
                bus: vec![
                    R(0x0200, op),   // opcode fetch
                    R(0x0201, 0x00), // base lo fetch
                    R(0x0202, 0x3f), // base hi fetch
                    R(0x3f40, 0x00), // dummy read (no carry)
                ],
                end_pc: 0x0203,
                addr: 0x3f40,
            },
            AddrTest {
                desc: "abh-store-page-cross".to_owned(),
                bus: vec![
                    R(0x0200, op),   // opcode fetch
                    R(0x0201, 0xc0), // base lo fetch
                    R(0x0202, 0xfe), // base hi fetch
                    R(0xfe00, 0x00), // dummy read (no carry)
                ],
                end_pc: 0x0203,
                addr: 0x04000,
            },
        ]
    }
}

fn bus_izx(op: u8) -> Vec<AddrTest> {
    vec![
        AddrTest {
            desc: "izx-index-wrap".to_owned(),
            bus: vec![
                R(0x0200, op),   // opcode fetch
                R(0x0201, 0xf0), // base fetch
                R(0x00f0, 0x00), // dummy read
                R(0x0030, 0x30), // vector lo fetch
                R(0x0031, 0x40), // vector hi fetch
            ],
            end_pc: 0x0202,
            addr: 0x4030,
        },
        AddrTest {
            desc: "izx-vector-wrap".to_owned(),
            bus: vec![
                R(0x0200, op),   // opcode fetch
                R(0x0201, 0xbf), // base fetch
                R(0x00bf, 0x00), // dummy read
                R(0x00ff, 0x30), // vector lo fetch
                R(0x0000, 0x40), // vector hi fetch
            ],
            end_pc: 0x0202,
            addr: 0x4030,
        },
    ]
}

fn bus_izy(op: u8, action: MemAction) -> Vec<AddrTest> {
    let w = match action {
        MemAction::Load => false,
        _ => true,
    };

    let h = op == 0x93;

    if !h {
        if w {
            vec![
                AddrTest {
                    desc: "izy-store".to_owned(),
                    bus: vec![
                        R(0x0200, op),   // opcode fetch
                        R(0x0201, 0x00), // base fetch
                        R(0x0000, 0x40), // vector lo fetch
                        R(0x0001, 0x40), // vector hi fetch
                        R(0x4080, 0x00), // dummy read
                    ],
                    end_pc: 0x0202,
                    addr: 0x4080,
                },
                AddrTest {
                    desc: "izy-store-page-cross".to_owned(),
                    bus: vec![
                        R(0x0200, op),   // opcode fetch
                        R(0x0201, 0xff), // base fetch
                        R(0x00ff, 0xf0), // vector lo fetch
                        R(0x0000, 0x40), // vector hi fetch
                        R(0x4030, 0x00), // dummy read (no carry)
                    ],
                    end_pc: 0x0202,
                    addr: 0x4130,
                },
            ]
        } else {
            vec![
                AddrTest {
                    desc: "izy-load".to_owned(),
                    bus: vec![
                        R(0x0200, op),   // opcode fetch
                        R(0x0201, 0x00), // base fetch
                        R(0x0000, 0x40), // vector lo fetch
                        R(0x0001, 0x40), // vector hi fetch
                    ],
                    end_pc: 0x0202,
                    addr: 0x4080,
                },
                AddrTest {
                    desc: "izy-load-page-cross".to_owned(),
                    bus: vec![
                        R(0x0200, op),   // opcode fetch
                        R(0x0201, 0xff), // base fetch
                        R(0x00ff, 0xf0), // vector lo fetch
                        R(0x0000, 0x40), // vector hi fetch
                        R(0x4030, 0x00), // dummy read (no carry)
                    ],
                    end_pc: 0x0202,
                    addr: 0x4130,
                },
            ]
        }
    } else {
        vec![AddrTest {
            desc: "izh-store".to_owned(),
            bus: vec![
                R(0x0200, op),   // opcode fetch
                R(0x0201, 0x00), // base fetch
                R(0x0000, 0x40), // vector lo fetch
                R(0x0001, 0x3f), // vector hi fetch
                R(0x3f80, 0x00), // dummy read
            ],
            end_pc: 0x0202,
            addr: 0x3f80,
        }]
    }
}

fn test_rel(op: u8, pass: &mut [bool]) {
    let (flag, set) = branch_flag(op);
    let mut skip = test_cpu();
    let mut take = test_cpu();
    skip.set_flag(flag, !set);
    take.set_flag(flag, set);

    run_test(
        skip,
        AddrTest {
            desc: "branch-skip".to_owned(),
            bus: vec![
                R(0x0200, op),   // opcode fetch
                R(0x0201, 0x10), // offset fetch
            ],
            end_pc: 0x0202,
            addr: 0x0000,
        },
        pass,
    );

    run_test(
        take.clone(),
        AddrTest {
            desc: "branch-forward".to_owned(),
            bus: vec![
                R(0x0200, op),   // opcode fetch
                R(0x0201, 0x10), // offset fetch
                R(0x0202, 0x00), // dummy read
            ],
            end_pc: 0x0212,
            addr: 0x0000,
        },
        pass,
    );

    run_test(
        take.clone(),
        AddrTest {
            desc: "branch-backward".to_owned(),
            bus: vec![
                R(0x0210, op),   // opcode fetch
                R(0x0211, 0xf0), // offset fetch
                R(0x0212, 0x00), // dummy read
            ],
            end_pc: 0x0202,
            addr: 0x0000,
        },
        pass,
    );

    run_test(
        take.clone(),
        AddrTest {
            desc: "branch-forward-page-cross".to_owned(),
            bus: vec![
                R(0x02f0, op),   // opcode fetch
                R(0x02f1, 0x10), // offset fetch
                R(0x02f2, 0x00), // dummy read
                R(0x0202, 0x00), // dummy read no carry
            ],
            end_pc: 0x0302,
            addr: 0x0000,
        },
        pass,
    );

    run_test(
        take.clone(),
        AddrTest {
            desc: "branch-backward-page-cross".to_owned(),
            bus: vec![
                R(0x0300, op),   // opcode fetch
                R(0x0301, 0xfd), // offset fetch
                R(0x0302, 0x00), // dummy read
                R(0x03ff, 0x00), // dummy read no carry
            ],
            end_pc: 0x02ff,
            addr: 0x0000,
        },
        pass,
    );
}

fn test_jmp(pass: &mut [bool]) {
    run_test(
        test_cpu(),
        AddrTest {
            desc: "jmp".to_owned(),
            bus: vec![
                R(0x0200, 0x4c), // opcode fetch
                R(0x0201, 0x55), // vector lo fetch
                R(0x0202, 0xaa), // vector hi fetch
            ],
            end_pc: 0xaa55,
            addr: 0x0000,
        },
        pass,
    );

    run_test(
        test_cpu(),
        AddrTest {
            desc: "jmp-indirect".to_owned(),
            bus: vec![
                R(0x0200, 0x6c), // opcode fetch
                R(0x0201, 0x22), // base lo fetch
                R(0x0202, 0x44), // base hi fetch
                R(0x4422, 0x55), // vector lo fetch
                R(0x4423, 0xaa), // vector hi fetch
            ],
            end_pc: 0xaa55,
            addr: 0x0000,
        },
        pass,
    );

    run_test(
        test_cpu(),
        AddrTest {
            desc: "jmp-indirect-ff-bug".to_owned(),
            bus: vec![
                R(0x0200, 0x6c), // opcode fetch
                R(0x0201, 0xff), // base lo fetch
                R(0x0202, 0x44), // base hi fetch
                R(0x44ff, 0x55), // vector lo fetch
                R(0x4400, 0xaa), // vector hi fetch
            ],
            end_pc: 0xaa55,
            addr: 0x0000,
        },
        pass,
    );
}

fn test_push(op: u8, val: u8, pass: &mut [bool]) {
    run_test(
        test_cpu(),
        AddrTest {
            desc: "push".to_owned(),
            bus: vec![
                R(0x0200, op),   // opcode fetch
                R(0x0201, 0x00), // dummy read
                W(0x0100, val),  // stack push
            ],
            end_pc: 0x0201,
            addr: 0x0000,
        },
        pass,
    );
}

fn test_pull(op: u8, pass: &mut [bool]) {
    run_test(
        test_cpu(),
        AddrTest {
            desc: "pull".to_owned(),
            bus: vec![
                R(0x0200, op),   // opcode fetch
                R(0x0201, 0x00), // dummy read
                R(0x0100, 0x00), // dummy stack read
                R(0x0101, 0x32), // stack pop
            ],
            end_pc: 0x0201,
            addr: 0x0000,
        },
        pass,
    );
}

fn test_brk(pass: &mut [bool]) {
    run_test(
        test_cpu(),
        AddrTest {
            desc: "".to_owned(),
            bus: vec![
                R(0x0200, 0x00), // opcode fetch
                R(0x0201, 0x00), // dummy operand fetch
                W(0x0100, 0x02), // write pc hi to stack
                W(0x01ff, 0x02), // write pc lo to stack
                W(0x01fe, 0x32), // write status to stack
                R(0xfffe, 0x55), // vector lo fetch
                R(0xffff, 0xaa), // vector hi fetch
            ],
            end_pc: 0xaa55,
            addr: 0x0000,
        },
        pass,
    );
}

fn test_rti(pass: &mut [bool]) {
    run_test(
        test_cpu(),
        AddrTest {
            desc: "".to_owned(),
            bus: vec![
                R(0x0200, 0x40), // opcode fetch
                R(0x0201, 0x00), // dummy read
                R(0x0100, 0x00), // dummy stack read
                R(0x0101, 0x32), // status from stack
                R(0x0102, 0x55), // pc lo from stack
                R(0x0103, 0xaa), // pc hi from stack
            ],
            end_pc: 0xaa55,
            addr: 0x0000,
        },
        pass,
    );
}

fn test_jsr(pass: &mut [bool]) {
    run_test(
        test_cpu(),
        AddrTest {
            desc: "".to_owned(),
            bus: vec![
                R(0x0200, 0x20), // opcode fetch
                R(0x0201, 0x55), // vector lo fetch
                R(0x0100, 0x00), // dummy stack read
                W(0x0100, 0x02), // pc hi to stack
                W(0x01ff, 0x02), // pc lo to stack
                R(0x0202, 0xaa), // vector hi fetch
            ],
            end_pc: 0xaa55,
            addr: 0x0000,
        },
        pass,
    );
}

fn test_rts(pass: &mut [bool]) {
    run_test(
        test_cpu(),
        AddrTest {
            desc: "".to_owned(),
            bus: vec![
                R(0x0200, 0x60), // opcode fetch
                R(0x0201, 0x00), // dummy read
                R(0x0100, 0x00), // dummy stack read
                R(0x0101, 0x55), // pc lo from stack
                R(0x0102, 0xaa), // pc hi from stack
                R(0xaa55, 0x00), // dummy read
            ],
            end_pc: 0xaa56,
            addr: 0x0000,
        },
        pass,
    );
}

fn test_cpu() -> Nmos {
    let mut cpu = Nmos::standard();
    cpu.set_a(0x40);
    cpu.set_x(0x40);
    cpu.set_y(0x40);
    cpu
}

#[derive(Clone)]
struct AddrTest {
    desc: String,
    bus: Vec<Cycle>,
    end_pc: u16,
    addr: u16,
}

impl AddrTest {
    fn op(&self) -> u8 {
        match self.bus[0] {
            R(_, op) => op,
            _ => unreachable!(),
        }
    }

    fn start_pc(&self) -> u16 {
        match self.bus[0] {
            R(pc, _) => pc,
            _ => unreachable!(),
        }
    }
}

#[derive(Clone)]
enum Cycle {
    R(u16, u8),
    W(u16, u8),
}

#[derive(Clone)]
struct BusSys {
    desc: String,
    bus: Vec<Cycle>,
    cycles: usize,
}

impl BusSys {
    fn new(desc: String, bus: Vec<Cycle>) -> BusSys {
        let cycles = 0;
        BusSys { cycles, desc, bus }
    }

    fn check(&self) {
        if self.cycles < self.bus.len() {
            panic!(
                "{} instead of {} cycles for {}",
                self.cycles,
                self.bus.len(),
                self.desc
            );
        }
    }
}

impl TestSys for BusSys {
    fn run_one<C: Cpu>(&mut self, cpu: &mut C) {
        cpu.run_instruction(self);
    }
}

impl Sys for BusSys {
    fn cycles(&self) -> SysRecord {
        unreachable!()
    }

    fn lines_at(&self, _rec: SysRecord) -> InputLines {
        unreachable!()
    }

    fn poll_nmi(&mut self) -> bool {
        false
    }

    fn peek_nmi(&self) -> bool {
        false
    }

    fn nmi_length(&self) -> NmiLength {
        NmiLength::Plenty
    }

    fn irq(&self) -> bool {
        false
    }

    fn set_sync(&mut self, _set: bool) {}

    fn read(&mut self, addr: u16) -> Option<u8> {
        if self.cycles >= self.bus.len() {
            panic!(
                "Extra cycle ({}, expected {}) for {}",
                self.cycles + 1,
                self.bus.len(),
                self.desc
            );
        }
        let v = match self.bus[self.cycles] {
            W(_, _) => panic!(
                "Read on write cycle ({}) for {}",
                self.cycles + 1,
                self.desc
            ),
            R(a, _) if a != addr => panic!(
                "Read at {:04x}, expected {:04x} on cycle {} for {}",
                addr,
                a,
                self.cycles + 1,
                self.desc
            ),
            R(_, v) => v,
        };
        self.cycles += 1;
        Some(v)
    }

    fn write(&mut self, addr: u16, val: u8) -> Option<()> {
        if self.cycles >= self.bus.len() {
            panic!(
                "Extra cycle ({}, expected {}) for {}",
                self.cycles + 1,
                self.bus.len(),
                self.desc
            );
        }
        match self.bus[self.cycles] {
            R(_, _) => panic!(
                "Write on read cycle ({}) for {}",
                self.cycles, self.desc
            ),
            W(a, _) if a != addr => panic!(
                "Write at {:04x}, expected {:04x} on cycle {} for {}",
                addr,
                a,
                self.cycles + 1,
                self.desc
            ),
            W(_, v) if v != val => panic!(
                "Write val {:02x}, expected {:02x} on cycle {} for {}",
                val,
                v,
                self.cycles + 1,
                self.desc
            ),
            _ => (),
        }
        self.cycles += 1;
        Some(())
    }
}
