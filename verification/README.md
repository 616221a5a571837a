# cpu6502

A MOS 6502 processor emulator whose instructions are verified with Verus.

- `src/cpu/model.rs` – the mathematical state (`CpuView`) and the meaning of the
  addressing modes and of the stack.
- `src/cpu/cpu.rs` – the processor, the opcode table (`opcode_of`, `decode`,
  `build_table`), the meaning of one step (`execute`, `step_next`) and `step`,
  whose contract is that the new state is `step_next` of the old one.
- `src/cpu/instructions/` – the instructions, each with the spec function that
  says what it does.
- `src/cpu/flags.rs`, `memory.rs`, `registers.rs`, `stack.rs` – the parts of the
  processor.
- `src/cpu/cpu_builder.rs` – builds a processor in a chosen state.
- `src/cpu/laws.rs` – properties across operations: flags read back, the stack is
  last in first out, a subroutine call returns, a break returns through RTI.
- `app/main.rs` – runs one instruction and prints the accumulator.
