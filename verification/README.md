# rust_nes

A Nintendo Entertainment System emulator core whose behaviour is specified and
proved with Verus, with a small SDL front end.

## Layout

- `src/` — the verified library.
  - `cpu/` — the 6502: registers and stack (`mod.rs`), the opcode table,
    addressing modes, the official and undocumented instructions, the clock
    that fetches and executes them, and laws about them (`laws.rs`). The CPU
    is generic over `CpuBus`, whose reads and writes are described by spec
    functions over the bus's view.
  - `bus.rs`, `memory.rs` — two memory maps implementing `CpuBus`: work RAM
    with its mirrors, the PPU and APU registers, OAM DMA, the pads and the
    cartridge.
  - `ppu/` — the 2C02: its registers, pattern/name/palette memory, the
    VRAM address ("loopy") updates, the raster clock, and laws about them.
  - `audio/` — the 2A03: pulse, triangle, noise and DMC channels, envelope,
    sweep and timer units, the frame counter, and the mixer inputs.
  - `cartridge/`, `mappers/` — iNES parsing, the cartridge, and mappers 0,
    1 (MMC1), 2, 3, 4 (MMC3) and 66.
  - `controller/` — the standard pad.
  - `nes.rs` — the master clock that paces PPU, CPU and APU, OAM DMA and
    interrupt delivery.
  - `frame.rs` — a 256x240 picture.
- `tests/` — tests of the library on concrete values.
- `app/` — the front end: window, sound (floating-point mixing and filters),
  keyboard, ROM and save files.

Each public function states in its `ensures` what it returns and how it
changes its arguments; the laws (stack order, RAM mirroring, JSR/RTS, the
MMC1 serial port, PPUADDR and palette behaviour, NTSC raster timing, the
MMC3 scanline interrupt and others) are public proof functions.
