use vstd::prelude::*;

use crate::consoles::addressable::Addressable;
use crate::consoles::bus::{Bus, ConnectionView, Device};
use crate::consoles::device::{new_range, DeviceView};
use crate::consoles::memory::{filled, Memory};
use crate::consoles::memory_map::{ROM_BANK_00_END, ROM_BANK_00_START, WRAM_END, WRAM_START};
use crate::instruction::{Instruction, OpCode};
use crate::memory::{end_of_program_byte, lemma_end_of_program_byte};

use super::cpu::{Cpu, CpuView};
use super::gbcartridge::GbCartridge;

verus! {

/// The number of bytes of the work memory of a Game Boy.
pub const GB_MEMORY_BYTES: usize = 0x10000;

/// The bus of a Game Boy just built around a cartridge: the work memory, filled with the end
/// of program byte and answering for work RAM, connected for reading and writing; then the
/// cartridge, answering for the first ROM bank, connected for reading.
pub open spec fn boot_bus(cartridge: DeviceView) -> Seq<ConnectionView> {
    seq![
        ConnectionView {
            device: DeviceView {
                offset: true,
                start: WRAM_START as int,
                end: WRAM_END as int,
                exhausted: false,
                bytes: filled(GB_MEMORY_BYTES as nat, Some(end_of_program_byte())),
            },
            readable: true,
            writeable: true,
        },
        ConnectionView {
            device: DeviceView {
                start: ROM_BANK_00_START as int,
                end: ROM_BANK_00_END as int,
                exhausted: false,
                ..cartridge
            },
            readable: true,
            writeable: false,
        },
    ]
}

/// A Game Boy: its processor, on a bus to its memory and its cartridge.
pub struct GameBoy {
    cpu: Cpu,
}

impl GameBoy {
    /// The bus of the processor is valid.
    pub closed spec fn wf(&self) -> bool {
        self.cpu.wf()
    }

    /// The processor as plain values.
    pub closed spec fn cpu_view(&self) -> CpuView {
        self.cpu@
    }

    /// A Game Boy around `cartridge`: a processor as `Cpu::new` makes it, on `boot_bus`.
    pub fn new(cartridge: GbCartridge) -> (gb: GameBoy)
        ensures
            gb.wf(),
            gb.cpu_view().bus == boot_bus(cartridge@),
            gb.cpu_view().regs.is_zeroed(),
            gb.cpu_view().pc == 0,
            gb.cpu_view().sp == WRAM_START,
            gb.cpu_view().addr == 0,
            !gb.cpu_view().is_prefixed,
            gb.cpu_view().interrupts_enabled,
            !gb.cpu_view().is_stopped,
    {
        let ghost original = cartridge@;
        let mut cartridge = cartridge;
        cartridge.assign_address_range(new_range(ROM_BANK_00_START, ROM_BANK_00_END));
        proof { lemma_end_of_program_byte(); }
        let end = Instruction::byte_from_opcode(OpCode::EndOfProgram).unwrap();
        let mut memory = Memory::new(GB_MEMORY_BYTES, Some(end));
        memory.assign_address_range(new_range(WRAM_START, WRAM_END));
        let mut bus = Bus::new();
        bus.connect(Device::Memory(memory), true, true);
        bus.connect_readable(Device::GbCartridge(cartridge));
        let gb = GameBoy { cpu: Cpu::new(bus) };
        assert(gb.cpu@.bus =~= boot_bus(original));
        gb
    }

    /// The processor of the Game Boy.
    pub fn cpu(&self) -> (c: &Cpu)
        ensures
            c@ == self.cpu_view(),
            c.wf() == self.wf(),
    {
        &self.cpu
    }
}

} // verus!
