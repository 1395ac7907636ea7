# sweetboy_core

A Game Boy (DMG) emulation core whose logic is verified with Verus, and a
desktop frontend around it.

- `src/` — the verified library:
  - `cpu/` — registers (`registers.rs`), the instruction decoder
    (`instructions.rs`), pure ALU helpers (`alu.rs`), instruction execution
    (`execute.rs`), the CPU step with interrupts, HALT and STOP (`mod.rs`),
    and the mathematical model every contract is stated over (`spec.rs`).
  - `bus/` — the memory map, MBC1/MBC3 banking, timer, joypad, serial port
    and OAM DMA (`mod.rs`), and their model (`spec.rs`).
  - `ppu/` — the scanline state machine (`mod.rs`) and the background,
    window and sprite renderer (`render.rs`).
  - `display.rs` — shade indices to RGBA pixels.
  - `error.rs` — the error type and its messages.
  - `lib.rs` — the `Emulator` facade: ROM loading, frames, buttons, resets and
    the framing of save states.
- `app/` — the eframe desktop window, file I/O, and the serde/bincode copies
  of the state that save states are written with.
- `tests/` — executable tests of the library.

The laws the library proves (register round trips, memory read-after-write,
push/pop, interrupt priority, the EI delay, the decoder's coverage of the
documented opcodes, running steps in parts, DIV counting, sprite
priority, scanline and frame timing, additivity of PPU steps, shade-only
framebuffers, the end of a frame run, active-low joypad bits and numbered
keys, the save-state header)
stand as public proof functions next to the code they are about.
