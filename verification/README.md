# crabboy_core

A Game Boy (DMG) emulation core in Verus. Each unit is given a
mathematical model (spec functions over abstract views) of what it does, and
the executable code is proved to follow that model; laws about the models
(write-then-read, stack round trips, when a frame is announced, the frame
schedule of 456-cycle lines and 70224-cycle frames) are proved
alongside. The models describe this emulator: interrupts, HALT and the
timer are not emulated, and the wave channel is silent.

- `src/memory.rs`: the memory bus (flat memory, MBC1/MBC2/MBC3/MBC5 bank
  switching, external RAM and its dirty flag, the boot ROM overlay, OAM DMA,
  the joypad register) with laws such as write-then-read.
- `src/cpu.rs`: the SM83 registers, flags and decoder; `CPU::step` is proved
  equal to an instruction-level model (`step_state`, `step_cycles`).
- `src/ppu.rs`: the scanline state machine and the background, window and
  sprite renderers; the framebuffer always holds color indices 0-3.
- `src/apu.rs`: square and noise channels, envelopes, length timers, sweep,
  the DIV-APU sequencer and stereo mixing into integer levels (0-360).
- `src/gameboy.rs`: the public `GameBoy` API used by frontends.
- `app/`: the desktop frontend (window, audio device, file dialog, settings
  file) and the web bindings; they convert mix levels to floating-point
  samples.
