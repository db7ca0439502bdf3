# emu

The core of a Game Boy Advance emulator, written in Verus: an ARM7TDMI
processor in ARM state and the memory bus it reads and writes through,
with their behaviour stated in `requires` / `ensures` contracts and proved.

## Layout

- `src/bitwise.rs` – bit and byte access on integers.
- `src/bus.rs` – the memory map: which region an address reaches, the
  reads and writes of every I/O register, mirroring of the memories, and
  the laws of the bus (a read gives back a write, a write reaches only its
  own cell, mirrors read alike).
- `src/cpu/hardware/` – the register files of the peripherals (LCD, sound,
  DMA, timers, serial, keypad, interrupts) and the internal memories.
- `src/cpu/psr.rs`, `src/cpu/cpu_modes.rs`, `src/cpu/register_bank.rs` –
  program status registers, operating modes and banked registers.
- `src/cpu/arm/` – the ARM instruction decoder and disassembler, the ALU
  and barrel shifter, data processing, multiplies, branches, PSR
  transfers, single, halfword and block data transfers.
- `src/cpu/execution.rs` – fetch, decode, execute, exceptions, and the
  pipeline step in ARM state (an IRQ taken before the next instruction).
- `src/cpu/swi.rs` – the BIOS calls the core runs itself.
- `src/cartridge_header.rs`, `src/cpsr.rs`, `src/arm/` – the cartridge
  header and the status register and condition codes of the first core.
- `app/` – the host side: the floating-point angle of the BIOS ArcTan2
  call.
- `tests/` – tests on concrete programs and values.
