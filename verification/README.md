# robo6502

A cycle-accurate emulator of the NMOS 6502 (with its undocumented opcodes,
and a variant without decimal mode as in the NES) and of the CMOS 65C02,
verified with Verus.

Every bus cycle goes through a `Sys` the user supplies, which may stop the
CPU at any read or write; the next run goes on with the stopped
instruction without repeating to the system the cycles it had completed.
`Sys` carries a record of the reads, writes, NMI polls and SYNC changes it
was asked for, and gives, for each point of that record, the levels of its IRQ and
NMI inputs (`lines_at`). `run_instruction` is proved to ask the system for
exactly the cycles of the instruction that it does not take from its log,
and each interrupt poll and each look at the NMI input among those cycles
is proved to carry the levels the system gives at that point of its record
(`asked`, `levels_read`). An opcode function called directly on a CPU that
is tied to the system (a new CPU with a system whose record is empty, or
one after any `run_instruction`) asks the system for each of its cycles,
in order, with the same guarantee on the levels (`lemma_fresh_tied`,
`lemma_asked_in_order`).

## Layout

- `src/model.rs`: the specification. `Regs` is the architectural state,
  `Cycle` one exchange with the system, and `step` says, for each kind of
  instruction, which sequences of cycles make it up and what state results.
  `run` adds the opcode fetch. The laws of the stack discipline, of reset
  and of interrupt timing are proved here.
- `src/isa.rs`: the opcode tables of both parts, as `Instr` values.
- `src/alu.rs`: binary and decimal arithmetic, shifts, with the laws of
  decimal mode.
- `src/flags.rs`, `src/mi.rs`: the status register and address arithmetic.
- `src/cmos.rs`, `src/cmos/`: the 65C02. Each opcode function is proved to
  perform exactly the cycles of its instruction; `run_instruction` is proved
  against `run`.
- `src/nmos.rs`, `src/nmos/`: the NMOS 6502, likewise; the opcode functions
  share one proved function per kind of instruction.
- `tests/`: runs of small programs on both parts, stepped and straight;
  the bus cycles of every NMOS opcode and the interrupt polling around it,
  each under a plain system and two systems that stop the CPU; and the
  arithmetic on concrete values.
