# remu

The core of a Nintendo Entertainment System emulator, written in Verus: every
function of the library carries a contract, and Verus proves each body against it.

## Layout

- `src/bus.rs`, `src/memory.rs` — address ranges, a bus of components, RAM.
- `src/cpu/` — the 6502 and 65C02 processors: instruction tables, addressing
  modes, the arithmetic unit (binary and decimal), interrupts, a disassembler;
  `laws.rs` states what holds across instructions (a push then a pop gives the
  value back, a call then a return comes back after the call, ...).
- `src/video/` — colours, frame buffers and the 2C02 picture processing unit
  (registers, VRAM and palette access, the rendering pipeline, sprite DMA).
- `src/audio/` — the 2A03 audio processing unit's channels and frame counter,
  and a ring buffer of samples.
- `src/system/` — iNES cartridge loading, the supported mappers (NROM, MMC1,
  UxROM, CNROM, MMC3, AxROM, GxROM) and the console that wires them together.
- `src/scaler/` — the copying scaler and the hq2x, hq3x and hq4x magnifying
  filters with their rule tables.
- `app/main.rs` — the program around the library: the window, sound output,
  input, the floating-point audio mix and the luma/chroma conversion that the
  filters compare.
- `tests/` — tests of the library on concrete values.
