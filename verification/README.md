# gbemu

A Game Boy emulator core whose logic is specified and proved with Verus.

- `src/cpu.rs`, `src/instruction.rs`, `src/memory.rs`: a processor with a flat 64 KiB
  memory and the instruction table it decodes from; `Cpu::tick` fetches, decodes and executes
  one instruction.
- `src/consoles/`: the parts of a Game Boy. `bus.rs` routes reads and writes to the first
  connected device whose address range holds the address; `memory.rs`, `fake_cartridge.rs`
  and `gameboy/gbcartridge.rs` are such devices; `gameboy/cpu.rs` is the Game Boy processor,
  which executes an instruction it is given, with the flag effects that instruction declares;
  `gameboy/registers.rs` holds its registers and flags; `gameboy/memory.rs` is the full
  address space with its echoed RAM.
- `src/utils/`: rendering of bytes and words as binary, hexadecimal and decimal text.
- `app/`: the program around the library: reading rom files, save-file lookup, printing.

Each operation states in its contract what it does to the registers, flags and bus; laws such
as "a byte written through the bus reads back", "PUSH then POP gives the pair back" and
"CALL then RET returns after the call" are proof functions in the modules they concern.
