# chip8

A CHIP-8 interpreter (the COSMAC VIP variant, without SUPER-CHIP or XO-CHIP), whose core is
verified with Verus.

Two quirks can be switched: `draw_wrap` (sprites that cross a screen edge wrap round instead
of being clipped; on by default) and `vf_reset` (`8XY1`, `8XY2` and `8XY3` clear `VF`; off by
default).

## Layout

- `src/model.rs`: the mathematical model of the machine (`Machine`), the decoding of opcodes
  into `Instruction`s, and the meaning of every instruction (`Machine::apply`).
- `src/machine.rs`: the interpreter `Chip8`, whose every operation is proved to act on its
  view as the model says.
- `src/laws.rs`: properties of the instruction set proved over the model (jumps, calls and
  returns, skips, arithmetic and flags, drawing and collisions, register storage, keys,
  timers, the fixed-step clock).
- `src/clock.rs`: the fixed-step `Clock` that paces the CPU and the timers.
- `src/types.rs`: keys, inputs, events and quirks.
- `src/stack.rs`, `src/bits.rs`, `src/random.rs`: the calls into `arrayvec` (call stack),
  `bitvec` (display and keypad bits) and `rand` (`CXKK`), with the contracts they are
  trusted to meet.
- `app/`: the program around the library: command-line options, logging, the window, the
  pixel buffer, sound, and an event-queue driver.
- `tests/`: tests of the interpreter and the clock on concrete programs.
