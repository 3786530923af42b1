# chudtendo

A Game Boy / Game Boy Color emulator whose core is verified with Verus.

## Layout

- `src/` — the library, verified by Verus. Every send on a channel returns
  a receipt (the sender, the message and whether it was taken) that only the
  send itself can make; the bus states its routing through these receipts.
  What the other side does with a message is not stated.
  The CPU records every memory access it makes in a ghost trace, which the
  instruction contracts state address by address.
  Shared state is held by value: a clone is a copy that does not follow
  later changes.
  - `emulator/cartridge/` — ROM headers, the memory bank controllers
    (ROM-only, MBC1, MBC2, MBC3 and MBC5 run; MBC6/7, MMM01, HuC1, HuC3,
    Pocket Camera and TAMA5 are modelled but refused at load), battery
    saves and save states;
  - `emulator/cpu.rs` — the SM83 core: every opcode, interrupts, HALT,
    the EI delay, the serial port and the joypad line;
  - `emulator/ppu.rs` — the LCD: modes, STAT, scanline rendering, sprites,
    OAM DMA and VRAM DMA;
  - `emulator/apu.rs` — the four sound channels, the frame sequencer and
    the sample clock (the analog mix is in `app/`);
  - `emulator/timer.rs`, `emulator/wram.rs` — DIV/TIMA and work RAM;
  - `emulator/bus.rs` — the memory map and the component mailboxes;
  - `emulator/session.rs` — save-state bundles, rewind history and the
    power-on state of each component;
  - `input.rs`, `frontend.rs`, `menu.rs` — joypad, key bindings and the
    front end's decisions;
  - `agent.rs` — the line protocol of the agent server;
  - `platform.rs` — the trusted wrappers around std and `rand`.
- `app/` — the program: it loads ROMs, runs the components in turn on one
  thread, mixes audio, reads and writes files, and serves the agent
  protocol over TCP.
- `tests/` — tests of the library on concrete values.

## Running

```bash
chudtendo [--smoke-test] [--dmg] [--turbo[=N.N]] game.gb
chudtendo agent-server [--visible] [--port N] game.gb
chudtendo agent-ctl status
```

Boot ROMs are read from `data/cgb_boot.bin` and `data/dmg_boot.bin`, or the
paths in `config.yaml`; key names come from `keybindings.yaml`.
