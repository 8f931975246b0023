# cpu_6502_rs

An emulator of the MOS 6502 processor (registers, status flags, 64 KiB of
memory, the documented instruction set, cycle counting), with every executable
function proved against a mathematical model in Verus.

- `src/model.rs` says what each instruction does to registers and memory, how
  many cycles it takes (the documented 6502 timings, page-crossing penalties
  included) and what running for a cycle budget does.
- `src/isa.rs` holds the opcode table; `src/flags.rs` the status register and
  its packed byte; `src/mem.rs` the memory; `src/cpu.rs` and `src/cpu/dispatch.rs`
  the registers and the fetch-decode-execute loop.
- `src/laws.rs` proves properties that span several operations: status byte
  round trips, `JSR`/`RTS`, `BRK`/`RTI`, `PHA`/`PLA`, `PHP`/`PLP`, the meaning of
  `ADC`/`SBC` flags, program loading.
- `app/` prints the CPU status and runs a small demo program.

Decimal-mode arithmetic is not implemented: `Cpu::try_execute` reports it (and
opcodes outside the table) as an `ExecError`, and `Cpu::execute` requires that
neither occurs during the run.
