# gameboy

The CPU core of a Game Boy (DMG) emulator, written in Verus.

- `flags`, `registers`: the flag register F and the eight-bit registers with
  their sixteen-bit pairs.
- `memory`: the memory bus (ROM, video, external, work and high RAM, OAM, I/O,
  the interrupt enable register) and what a read gives back of a write.
- `instruction`: the instruction set and the opcode decoder.
- `alu`, `semantics`: the meaning of every instruction, of interrupt dispatch
  and of a step, as functions on a mathematical machine state.
- `cpu` and the `cpu_*` files: the interpreter, proved to follow `semantics`.
- `laws`: properties of the machine as a whole (push and pop, call and
  return, interrupt return, halting).

`app/main.rs` is the program around the library.
