# zetaboy

A Game Boy (DMG and CGB) emulator core written in Verus. Every component of the machine
is modelled as a state-transition specification, and the executable code is proved
against it.

## Layout

- `src/emulator/cpu.rs`: the SM83 CPU, with its ALU and the M-cycle micro-operations
  (`CpuView` is its model).
- `src/emulator/cpu/instructions*`: the opcode maps (`decode`) and the opcode table
  (`OpcodeInfo`).
- `src/emulator/cpu/control_unit*`: the semantics of every instruction (`executes`) and
  `execute`; loads are in `control_unit/load.rs`.
- `src/emulator/cpu/stepping.rs`: `CPU::step`, meaning fetch, execute and interrupt
  service (`step_relation`).
- `src/emulator/cpu/memory_bus*`: the address space, OAM DMA, HDMA and the I/O
  registers.
- `src/emulator/cpu/bus`: work RAM, high RAM and the memory map.
- `src/emulator/ppu*`: the LCD controller, sprites and scanline rendering.
- `src/emulator/apu*`: the sound channels and their timers, envelopes and sweeps.
- `src/emulator/cart*`: the cartridge header and the memory bank controllers
  (MBC1/2/3/5/7).
- `src/emulator/{timer,serial,joypad}.rs`: the other devices.
- `src/emulator.rs`: the handling of the save- and load-state keys.
- `tests/`: tests on concrete values.
- `app/`: a headless runner. It loads a ROM, restores and saves battery RAM and the
  MBC3 clock, and runs the CPU for a number of frames:
  `zetaboy-runner game.gb [frames]`.

Bus writes carry the wall-clock time, which the MBC3 real-time clock reads. Specifications
therefore leave that time open, and state what holds for every value of it.
