# c64_emu

Commodore 64 hardware models written in Verus, with contracts checked by
the verifier.

- `src/devices`: the VIC-II (registers, raster interrupt, rendering of the
  five display modes), the SID (voices, oscillators with hard sync and ring
  modulation, noise LFSR, ADSR envelopes, register file, output level), the
  CIAs (ports, timers, time-of-day clock, interrupts), the 6510 I/O port and
  colour RAM.
- `src/system`: the bank-switched memory map (`c64_memory`), with what
  passes in the machine between CPU instructions (`c64_memory::timing`:
  chip clocks, scanlines, frames, reset) and whole-machine save states
  (`c64_memory::snapshot`); keyboard matrix and PC key mapping, joysticks,
  the 1541 drive with its D64 image format, the IEC serial bus, the save
  state format and video timing. The 6510 CPU core itself is not part of
  this crate: its registers are handed in as plain values.
- `src/text.rs`: string helpers the drive's command and name handling use.
- `app/`: floating-point audio sampling of the SID's output level, the
  frame loop around a CPU core, and time-stamped save states.
- `tests/`: behaviour tests.
