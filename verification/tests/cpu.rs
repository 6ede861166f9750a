use robo6502::cmos::Cmos;
use robo6502::nmos::Nmos;
use robo6502::{Cpu, InputLines, NmiLength, Status, Sys, SysRecord};

/// A system that answers every read with the interrupt vectors or 0xff.
struct NullSys {
    nmi_vec: u16,
    res_vec: u16,
    irq_vec: u16,
}

impl NullSys {
    fn new(nmi_vec: u16, res_vec: u16, irq_vec: u16) -> NullSys {
        NullSys {
            nmi_vec,
            res_vec,
            irq_vec,
        }
    }
}

impl Sys for NullSys {
    fn cycles(&self) -> SysRecord {
        unreachable!()
    }

    fn lines_at(&self, _rec: SysRecord) -> InputLines {
        unreachable!()
    }

    fn set_sync(&mut self, _set: bool) {}

    fn read(&mut self, addr: u16) -> Option<u8> {
        let val = match addr {
            0xfffa => self.nmi_vec as u8,
            0xfffb => (self.nmi_vec >> 8) as u8,
            0xfffc => self.res_vec as u8,
            0xfffd => (self.res_vec >> 8) as u8,
            0xfffe => self.irq_vec as u8,
            0xffff => (self.irq_vec >> 8) as u8,
            _ => 0xff,
        };
        Some(val)
    }

    fn write(&mut self, _: u16, _: u8) -> Option<()> {
        Some(())
    }

    fn poll_nmi(&mut self) -> bool {
        false
    }

    fn peek_nmi(&self) -> bool {
        false
    }

    fn nmi_length(&self) -> NmiLength {
        NmiLength::Plenty
    }

    fn irq(&self) -> bool {
        false
    }
}

/// 64K of RAM, with a log of the bus cycles and interrupt lines the test
/// drives.
struct Ram {
    mem: Vec<u8>,
    reads: usize,
    writes: Vec<(u16, u8)>,
    nmi: bool,
    irq: bool,
    stop_at: Option<u16>,
}

impl Ram {
    fn new() -> Ram {
        Ram {
            mem: vec![0; 0x10000],
            reads: 0,
            writes: Vec::new(),
            nmi: false,
            irq: false,
            stop_at: None,
        }
    }

    /// Loads `code` at `org` and points the reset vector there.
    fn with_code(org: u16, code: &[u8]) -> Ram {
        let mut ram = Ram::new();
        ram.load(org, code);
        ram.mem[0xfffc] = org as u8;
        ram.mem[0xfffd] = (org >> 8) as u8;
        ram
    }

    fn load(&mut self, org: u16, bytes: &[u8]) {
        for (i, b) in bytes.iter().enumerate() {
            self.mem[org as usize + i] = *b;
        }
    }
}

impl Sys for Ram {
    fn cycles(&self) -> SysRecord {
        unreachable!()
    }

    fn lines_at(&self, _rec: SysRecord) -> InputLines {
        unreachable!()
    }

    fn set_sync(&mut self, _set: bool) {}

    fn read(&mut self, addr: u16) -> Option<u8> {
        if self.stop_at == Some(addr) {
            return None;
        }
        self.reads += 1;
        Some(self.mem[addr as usize])
    }

    fn write(&mut self, addr: u16, val: u8) -> Option<()> {
        self.writes.push((addr, val));
        self.mem[addr as usize] = val;
        Some(())
    }

    fn poll_nmi(&mut self) -> bool {
        let n = self.nmi;
        self.nmi = false;
        n
    }

    fn peek_nmi(&self) -> bool {
        self.nmi
    }

    fn nmi_length(&self) -> NmiLength {
        NmiLength::Plenty
    }

    fn irq(&self) -> bool {
        self.irq
    }
}

/// Resets the CPU and runs the reset sequence.
fn boot<C: Cpu>(cpu: &mut C, sys: &mut Ram) {
    cpu.reset();
    assert_eq!(cpu.run_instruction(sys), Some(()));
}

fn run<C: Cpu>(cpu: &mut C, sys: &mut Ram, n: usize) {
    for _ in 0..n {
        assert_eq!(cpu.run_instruction(sys), Some(()));
    }
}

#[test]
fn reset() {
    let mut cpu = Nmos::standard();
    cpu.reset();
    let mut sys = NullSys::new(0x2000, 0x4000, 0x6000);
    cpu.run_instruction(&mut sys);
    assert_eq!(cpu.pc(), 0x4000);
    assert!(cpu.flag(Status::I));
}

#[test]
fn reset_writes_nothing_on_both_parts() {
    let mut sys = Ram::with_code(0x0400, &[0xea]);
    let mut cpu = Nmos::standard();
    cpu.set_sp(0xfd);
    boot(&mut cpu, &mut sys);
    assert!(sys.writes.is_empty());
    assert_eq!(cpu.pc(), 0x0400);
    assert_eq!(cpu.sp(), 0xfa);
    assert!(cpu.flag(Status::I));

    let mut sys = Ram::with_code(0x0500, &[0xea]);
    let mut cpu = Cmos::new();
    boot(&mut cpu, &mut sys);
    assert!(sys.writes.is_empty());
    assert_eq!(cpu.pc(), 0x0500);
    assert!(!cpu.flag(Status::D));
}

#[test]
fn power_on_status() {
    let cpu = Nmos::standard();
    assert_eq!(cpu.status(), 0x32);
    assert!(cpu.is_nmos());
    assert!(!cpu.halted());
    assert!(!cpu.partial_inst());
    let cpu = Cmos::new();
    assert_eq!(cpu.status(), 0x32);
    assert!(!cpu.is_nmos());
}

#[test]
fn registers_and_flags() {
    let mut cpu = Nmos::standard();
    cpu.set_a(1);
    cpu.set_x(2);
    cpu.set_y(3);
    cpu.set_sp(4);
    cpu.set_pc(0x1234);
    assert_eq!((cpu.a(), cpu.x(), cpu.y(), cpu.sp(), cpu.pc()), (1, 2, 3, 4, 0x1234));
    cpu.set_status(0xff);
    assert_eq!(cpu.status(), 0xff);
    cpu.set_status(0x00);
    assert_eq!(cpu.status(), 0x30);
    cpu.set_flag(Status::C, true);
    assert!(cpu.flag(Status::C));
    assert!(!cpu.flag(Status::N));
    assert_eq!(cpu.status(), 0x31);
    cpu.set_flag(Status::C, false);
    assert_eq!(cpu.status(), 0x30);
}

#[test]
fn load_add_store() {
    // LDA #$05; CLC; ADC #$03; STA $10
    let code = [0xa9, 0x05, 0x18, 0x69, 0x03, 0x85, 0x10];
    let mut sys = Ram::with_code(0x0200, &code);
    let mut cpu = Nmos::standard();
    boot(&mut cpu, &mut sys);
    run(&mut cpu, &mut sys, 4);
    assert_eq!(sys.mem[0x10], 8);
    assert_eq!(cpu.a(), 8);
    assert_eq!(cpu.pc(), 0x0207);
}

#[test]
fn decimal_adc_and_sbc() {
    // SED; CLC; LDA #$45; ADC #$38; STA $10; SEC; LDA #$50; SBC #$01
    let code = [0xf8, 0x18, 0xa9, 0x45, 0x69, 0x38, 0x85, 0x10, 0x38, 0xa9, 0x50, 0xe9, 0x01];
    for nmos in [true, false] {
        let mut sys = Ram::with_code(0x0200, &code);
        if nmos {
            let mut cpu = Nmos::standard();
            boot(&mut cpu, &mut sys);
            run(&mut cpu, &mut sys, 8);
            assert_eq!(cpu.a(), 0x49);
            assert!(cpu.flag(Status::C));
        } else {
            let mut cpu = Cmos::new();
            boot(&mut cpu, &mut sys);
            run(&mut cpu, &mut sys, 8);
            assert_eq!(cpu.a(), 0x49);
            assert!(cpu.flag(Status::C));
        }
        assert_eq!(sys.mem[0x10], 0x83);
    }
}

#[test]
fn decimal_carry_out() {
    // SED; SEC; LDA #$99; ADC #$00
    let code = [0xf8, 0x38, 0xa9, 0x99, 0x69, 0x00];
    let mut sys = Ram::with_code(0x0200, &code);
    let mut cpu = Cmos::new();
    boot(&mut cpu, &mut sys);
    run(&mut cpu, &mut sys, 4);
    assert_eq!(cpu.a(), 0x00);
    assert!(cpu.flag(Status::C));
    assert!(cpu.flag(Status::Z));
}

#[test]
fn nes_has_no_decimal_mode() {
    // SED; CLC; LDA #$45; ADC #$38
    let code = [0xf8, 0x18, 0xa9, 0x45, 0x69, 0x38];
    let mut sys = Ram::with_code(0x0200, &code);
    let mut cpu = Nmos::nes();
    boot(&mut cpu, &mut sys);
    run(&mut cpu, &mut sys, 4);
    assert_eq!(cpu.a(), 0x7d);
    assert!(cpu.flag(Status::D));
}

#[test]
fn push_then_pull_restores() {
    // LDX #$ff; TXS; LDA #$42; PHA; LDA #$00; PLA; PHP; PLP
    let code = [0xa2, 0xff, 0x9a, 0xa9, 0x42, 0x48, 0xa9, 0x00, 0x68, 0x08, 0x28];
    let mut sys = Ram::with_code(0x0200, &code);
    let mut cpu = Nmos::standard();
    boot(&mut cpu, &mut sys);
    run(&mut cpu, &mut sys, 6);
    assert_eq!(cpu.a(), 0x42);
    assert_eq!(cpu.sp(), 0xff);
    assert_eq!(sys.mem[0x01ff], 0x42);
    let p = cpu.status();
    run(&mut cpu, &mut sys, 2);
    assert_eq!(cpu.status(), p);
    assert_eq!(cpu.sp(), 0xff);
    assert_eq!(sys.mem[0x01ff], p);
}

#[test]
fn jsr_then_rts_returns() {
    // $0200: LDX #$ff; TXS; JSR $0300; NOP  /  $0300: RTS
    let mut sys = Ram::with_code(0x0200, &[0xa2, 0xff, 0x9a, 0x20, 0x00, 0x03, 0xea]);
    sys.load(0x0300, &[0x60]);
    let mut cpu = Cmos::new();
    boot(&mut cpu, &mut sys);
    run(&mut cpu, &mut sys, 3);
    assert_eq!(cpu.pc(), 0x0300);
    assert_eq!(cpu.sp(), 0xfd);
    assert_eq!(sys.mem[0x01ff], 0x02);
    assert_eq!(sys.mem[0x01fe], 0x05);
    run(&mut cpu, &mut sys, 1);
    assert_eq!(cpu.pc(), 0x0206);
    assert_eq!(cpu.sp(), 0xff);
}

#[test]
fn brk_then_rti_returns() {
    // $0200: LDX #$ff; TXS; SEC; BRK; $ea / $0300: RTI
    let mut sys = Ram::with_code(0x0200, &[0xa2, 0xff, 0x9a, 0x38, 0x00, 0xea, 0xea]);
    sys.load(0x0300, &[0x40]);
    sys.mem[0xfffe] = 0x00;
    sys.mem[0xffff] = 0x03;
    let mut cpu = Nmos::standard();
    boot(&mut cpu, &mut sys);
    cpu.set_flag(Status::I, false);
    run(&mut cpu, &mut sys, 4);
    assert_eq!(cpu.pc(), 0x0300);
    assert!(cpu.flag(Status::I));
    // B is set in the pushed status of BRK.
    assert_eq!(sys.mem[0x01fd] & 0x10, 0x10);
    run(&mut cpu, &mut sys, 1);
    assert_eq!(cpu.pc(), 0x0206);
    assert_eq!(cpu.sp(), 0xff);
    assert!(!cpu.flag(Status::I));
    assert!(cpu.flag(Status::C));
}

#[test]
fn irq_is_taken_after_cli_plus_one() {
    // CLI; NOP; NOP / IRQ handler at $0300: NOP
    let mut sys = Ram::with_code(0x0200, &[0x58, 0xea, 0xea]);
    sys.load(0x0300, &[0xea]);
    sys.mem[0xfffe] = 0x00;
    sys.mem[0xffff] = 0x03;
    let mut cpu = Nmos::standard();
    boot(&mut cpu, &mut sys);
    assert!(cpu.flag(Status::I));
    sys.irq = true;
    // CLI polls before it clears I: the NOP after it still runs.
    run(&mut cpu, &mut sys, 2);
    assert_eq!(cpu.pc(), 0x0202);
    // Then the interrupt sequence, which pushes B clear.
    run(&mut cpu, &mut sys, 1);
    assert_eq!(cpu.pc(), 0x0300);
    assert_eq!(sys.mem[0x01fb] & 0x10, 0);
}

#[test]
fn nmi_is_served() {
    // NOP; NOP / NMI handler at $0400
    let mut sys = Ram::with_code(0x0200, &[0xea, 0xea]);
    sys.mem[0xfffa] = 0x00;
    sys.mem[0xfffb] = 0x04;
    let mut cpu = Cmos::new();
    boot(&mut cpu, &mut sys);
    sys.nmi = true;
    run(&mut cpu, &mut sys, 2);
    assert_eq!(cpu.pc(), 0x0400);
}

#[test]
fn nmi_hijacks_brk() {
    // BRK; $ea / IRQ/BRK vector $0300, NMI vector $0400
    for nmos in [true, false] {
        let mut sys = Ram::with_code(0x0200, &[0x00, 0xea]);
        sys.mem[0xfffe] = 0x00;
        sys.mem[0xffff] = 0x03;
        sys.mem[0xfffa] = 0x00;
        sys.mem[0xfffb] = 0x04;
        if nmos {
            let mut cpu = Nmos::standard();
            boot(&mut cpu, &mut sys);
            sys.nmi = true;
            run(&mut cpu, &mut sys, 1);
            assert_eq!(cpu.pc(), 0x0400);
        } else {
            let mut cpu = Cmos::new();
            boot(&mut cpu, &mut sys);
            sys.nmi = true;
            run(&mut cpu, &mut sys, 1);
            assert_eq!(cpu.pc(), 0x0400);
        }
        // The status pushed is that of BRK, with B set.
        assert_eq!(sys.mem[0x01fb] & 0x10, 0x10);
        assert_eq!(sys.mem[0x01fc], 0x02);
        assert_eq!(sys.mem[0x01fd], 0x02);
    }
}

#[test]
fn kil_jams_until_reset() {
    let mut sys = Ram::with_code(0x0200, &[0x02, 0xea]);
    let mut cpu = Nmos::standard();
    boot(&mut cpu, &mut sys);
    assert_eq!(cpu.run_instruction(&mut sys), None);
    assert!(cpu.halted());
    let reads = sys.reads;
    assert_eq!(cpu.run_instruction(&mut sys), None);
    assert_eq!(sys.reads, reads);
    cpu.reset();
    assert!(!cpu.halted());
    assert_eq!(cpu.run_instruction(&mut sys), Some(()));
    assert_eq!(cpu.pc(), 0x0200);
}

#[test]
fn stopped_instruction_resumes() {
    // LDA $1234
    let mut sys = Ram::with_code(0x0200, &[0xad, 0x34, 0x12]);
    sys.mem[0x1234] = 0x77;
    let mut cpu = Nmos::standard();
    boot(&mut cpu, &mut sys);
    let reads = sys.reads;
    sys.stop_at = Some(0x1234);
    assert_eq!(cpu.run_instruction(&mut sys), None);
    assert!(cpu.partial_inst());
    sys.stop_at = None;
    assert_eq!(cpu.run_instruction(&mut sys), Some(()));
    assert!(!cpu.partial_inst());
    assert_eq!(cpu.a(), 0x77);
    assert_eq!(cpu.pc(), 0x0203);
    // The opcode and operand reads were not repeated to the system.
    assert_eq!(sys.reads - reads, 4);
}

#[test]
fn reset_finishes_a_stopped_instruction_first() {
    let mut sys = Ram::with_code(0x0200, &[0xad, 0x34, 0x12]);
    sys.mem[0x1234] = 0x55;
    let mut cpu = Cmos::new();
    boot(&mut cpu, &mut sys);
    sys.stop_at = Some(0x1234);
    assert_eq!(cpu.run_instruction(&mut sys), None);
    assert!(cpu.partial_inst());
    cpu.reset();
    assert!(cpu.partial_inst());
    sys.stop_at = None;
    // The stopped LDA is finished...
    assert_eq!(cpu.run_instruction(&mut sys), Some(()));
    assert!(!cpu.partial_inst());
    assert_eq!(cpu.a(), 0x55);
    assert_eq!(cpu.pc(), 0x0203);
    // ...and then the reset sequence runs.
    assert_eq!(cpu.run_instruction(&mut sys), Some(()));
    assert_eq!(cpu.pc(), 0x0200);
}

#[test]
fn reset_unjams_the_nmos() {
    // KIL
    let mut sys = Ram::with_code(0x0200, &[0x02]);
    let mut cpu = Nmos::standard();
    boot(&mut cpu, &mut sys);
    assert_eq!(cpu.run_instruction(&mut sys), None);
    assert!(cpu.halted());
    assert_eq!(cpu.run_instruction(&mut sys), None);
    cpu.reset();
    assert!(!cpu.halted());
    assert!(!cpu.partial_inst());
    assert_eq!(cpu.run_instruction(&mut sys), Some(()));
    assert_eq!(cpu.pc(), 0x0200);
}

/// Stops the CPU at every other read or write.
struct Stepper {
    ram: Ram,
    stop: bool,
}

impl Sys for Stepper {
    fn cycles(&self) -> SysRecord {
        unreachable!()
    }

    fn lines_at(&self, _rec: SysRecord) -> InputLines {
        unreachable!()
    }

    fn set_sync(&mut self, _set: bool) {}

    fn read(&mut self, addr: u16) -> Option<u8> {
        self.stop = !self.stop;
        if self.stop {
            return None;
        }
        self.ram.read(addr)
    }

    fn write(&mut self, addr: u16, val: u8) -> Option<()> {
        self.stop = !self.stop;
        if self.stop {
            return None;
        }
        self.ram.write(addr, val)
    }

    fn poll_nmi(&mut self) -> bool {
        self.ram.poll_nmi()
    }

    fn peek_nmi(&self) -> bool {
        self.ram.peek_nmi()
    }

    fn nmi_length(&self) -> NmiLength {
        self.ram.nmi_length()
    }

    fn irq(&self) -> bool {
        self.ram.irq()
    }
}

/// Runs `n` instructions of `code` straight and stopped at every other
/// cycle, on CPUs made by `make`, and checks that they end alike.
fn compare_stepped<C: Cpu>(make: fn() -> C, code: &[u8], n: usize) {
    let mut straight = Ram::with_code(0x0200, code);
    let mut a = make();
    boot(&mut a, &mut straight);
    run(&mut a, &mut straight, n);

    let mut stepped = Stepper { ram: Ram::with_code(0x0200, code), stop: false };
    let mut b = make();
    b.reset();
    let mut done = 0;
    let mut tries = 0;
    while done < n + 1 {
        if b.run_instruction(&mut stepped).is_some() {
            done += 1;
        }
        tries += 1;
        assert!(tries < 10000);
    }
    assert_eq!((a.pc(), a.a(), a.x(), a.y(), a.sp(), a.status()), (b.pc(), b.a(), b.x(), b.y(), b.sp(), b.status()));
    assert!(straight.mem == stepped.ram.mem);
    assert_eq!(straight.writes, stepped.ram.writes);
}

#[test]
fn stepping_cycle_by_cycle_matches_a_straight_run() {
    // LDX #$ff; TXS; LDA #$12; STA $40; INC $40; JSR $0300; ASL $40; SEC; SBC #$05; PHA; PLP
    // $0300: LDY $40; INY; RTS
    let mut code = vec![0xa2, 0xff, 0x9a, 0xa9, 0x12, 0x85, 0x40, 0xe6, 0x40, 0x20, 0x00, 0x03, 0x06, 0x40, 0x38, 0xe9, 0x05, 0x48, 0x28];
    code.resize(0x100, 0xea);
    code.extend_from_slice(&[0xa4, 0x40, 0xc8, 0x60]);
    compare_stepped(Nmos::standard, &code, 14);
    compare_stepped(Cmos::new, &code, 14);
}

#[test]
fn undocumented_nmos_opcodes() {
    // LDA #$0f; STA $10; LAX $10; SLO $10; LDX #$07; LDA #$0c; AXS #$01
    let code = [0xa9, 0x0f, 0x85, 0x10, 0xa7, 0x10, 0x07, 0x10, 0xa2, 0x07, 0xa9, 0x0c, 0xcb, 0x01];
    let mut sys = Ram::with_code(0x0200, &code);
    let mut cpu = Nmos::standard();
    boot(&mut cpu, &mut sys);
    run(&mut cpu, &mut sys, 3);
    assert_eq!((cpu.a(), cpu.x()), (0x0f, 0x0f));
    run(&mut cpu, &mut sys, 1);
    // SLO: $10 shifted left, then ORed into A; the old value is written first.
    assert_eq!(sys.mem[0x10], 0x1e);
    assert_eq!(cpu.a(), 0x1f);
    assert_eq!(&sys.writes[1..], &[(0x10, 0x0f), (0x10, 0x1e)]);
    run(&mut cpu, &mut sys, 3);
    // AXS: X = (A & X) - 1 = (0x0c & 0x07) - 1.
    assert_eq!(cpu.x(), 0x03);
    assert!(cpu.flag(Status::C));
}

#[test]
fn cmos_only_opcodes() {
    // LDA #$f0; STA $10; LDA #$0f; TSB $10; STZ $11; INC A; BRA +1; $ea; LDX #$ff
    let code = [0xa9, 0xf0, 0x85, 0x10, 0xa9, 0x0f, 0x04, 0x10, 0x64, 0x11, 0x1a, 0x80, 0x01, 0xea, 0xa2, 0xff];
    let mut sys = Ram::with_code(0x0200, &code);
    sys.mem[0x11] = 0x55;
    let mut cpu = Cmos::new();
    boot(&mut cpu, &mut sys);
    run(&mut cpu, &mut sys, 8);
    assert_eq!(sys.mem[0x10], 0xff);
    assert_eq!(sys.mem[0x11], 0x00);
    assert_eq!(cpu.a(), 0x10);
    assert_eq!(cpu.x(), 0xff);
    assert_eq!(cpu.pc(), 0x0210);
}

#[test]
fn jmp_indirect_page_wrap() {
    // JMP ($02ff): the NMOS part takes the high byte from $0200.
    let mut sys = Ram::with_code(0x0400, &[0x6c, 0xff, 0x02]);
    sys.mem[0x02ff] = 0x00;
    sys.mem[0x0300] = 0x05;
    sys.mem[0x0200] = 0x06;
    let mut cpu = Nmos::standard();
    boot(&mut cpu, &mut sys);
    run(&mut cpu, &mut sys, 1);
    assert_eq!(cpu.pc(), 0x0600);
    let mut cpu = Cmos::new();
    boot(&mut cpu, &mut sys);
    run(&mut cpu, &mut sys, 1);
    assert_eq!(cpu.pc(), 0x0500);
}

#[test]
fn branch_across_page() {
    // $02fd: SEC; BCS +2 (to $0302)
    let mut sys = Ram::with_code(0x02fd, &[0x38, 0xb0, 0x02]);
    let mut cpu = Nmos::standard();
    boot(&mut cpu, &mut sys);
    run(&mut cpu, &mut sys, 2);
    assert_eq!(cpu.pc(), 0x0302);
}

#[test]
fn stopped_immediate_operand_keeps_registers() {
    let mut sys = Ram::new();
    let mut cpu = Cmos::new();
    cpu.set_pc(0x0300);
    cpu.set_a(0x12);
    let p = cpu.status();
    sys.stop_at = Some(0x0300);
    assert_eq!(cpu.op_a9(&mut sys), None);
    assert_eq!(cpu.pc(), 0x0300);
    assert_eq!(cpu.a(), 0x12);
    assert_eq!(cpu.status(), p);
    assert!(sys.writes.is_empty());
}
