use vstd::prelude::*;

use std::ops::RangeInclusive;

use crate::consoles::addressable::Addressable;
use crate::consoles::bus::BusError;
use crate::consoles::readable::Readable;
use crate::consoles::writeable::Writeable;
use crate::instruction::{Instruction, OpCode};
use crate::memory::{end_of_program_byte, lemma_end_of_program_byte};
use crate::utils::conversion::{hex_char, u8_as_bit_string, u8_as_hex_string, u8_bit_chars};

verus! {

pub const INTERRPUT_ENABLE: u16 = 0xFFFF;
pub const INTERNAL_RAM: u16 = 0xFF80;
pub const EMPTY_BUT_UNUSABLE_FOR_IO: u16 = 0xFF4C;
pub const IO_PORTS: u16 = 0xFF00;
pub const EMPTY_BUT_UNUSABLE_FOR_IO_2: u16 = 0xFEA0;
pub const SPRITE_ATTRIB: u16 = 0xFE00;
pub const ECHO_OF_INTERNAL_RAM: u16 = 0xE000;
pub const RAM: u16 = 0xC000;
pub const SWITCHABLE_RAM: u16 = 0xA000;
pub const VIDEO_RAM: u16 = 0x8000;
pub const SWITCHABLE_ROM: u16 = 0x4000;
pub const ROM: u16 = 0x0000;
pub const TILE_PATTERN_1: u16 = 0x8000;
pub const TILE_PATTERN_2: u16 = 0x9000;

/// The distance from internal RAM to its echo.
pub const RAM_ECHO_OFFSET: u16 = 0x2000;

/// The number of bytes of the Game Boy address space.
pub const MEMORY_BYTES: usize = 0x10000;

/// Where the Nintendo logo is placed when the memory is created.
pub const SPLASH_SCREEN_ADDRESS: usize = 104;

/// The Nintendo logo that a cartridge header holds.
pub open spec fn nintendo_splash_screen() -> Seq<u8> {
    seq![
        0xCEu8, 0xED, 0x66, 0x66, 0xCC, 0x0D, 0x00, 0x0B, 0x03, 0x73, 0x00, 0x83, 0x00, 0x0C, 0x00,
        0x0D, 0x00, 0x08, 0x11, 0x1F, 0x88, 0x89, 0x00, 0x0E, 0xDC, 0xCC, 0x6E, 0xE6, 0xDD, 0xDD,
        0xD9, 0x99, 0xBB, 0xBB, 0x67, 0x63, 0x6E, 0x0E, 0xEC, 0xCC, 0xDD, 0xDC, 0x99, 0x9F, 0xBB,
        0xB9, 0x33, 0x3E,
    ]
}

/// The address a write to `a` is echoed to: a write to internal RAM from 0xC000 to 0xDDFF is
/// echoed 0x2000 bytes higher, from 0xE000 to 0xFDFF; a write to the echo is not copied back.
pub open spec fn mirror_of(a: int) -> Option<int> {
    if RAM <= a < ECHO_OF_INTERNAL_RAM - 0x200 {
        Some(a + RAM_ECHO_OFFSET)
    } else {
        None
    }
}

/// The contents after storing `data` at `a`: the byte at `a` and, where `a` lies in internal
/// RAM, at its echo.
pub open spec fn stored(mem: Seq<u8>, a: int, data: u8) -> Seq<u8> {
    match mirror_of(a) {
        Some(b) => mem.update(a, data).update(b, data),
        None => mem.update(a, data),
    }
}

/// What a new memory holds: the end of program byte everywhere except the Nintendo logo at
/// `SPLASH_SCREEN_ADDRESS`.
pub open spec fn initial_contents() -> Seq<u8> {
    Seq::new(
        MEMORY_BYTES as nat,
        |i: int|
            if SPLASH_SCREEN_ADDRESS <= i < SPLASH_SCREEN_ADDRESS + 48 {
                nintendo_splash_screen()[i - SPLASH_SCREEN_ADDRESS]
            } else {
                end_of_program_byte()
            },
    )
}

/// The whole address space of the Game Boy, with internal RAM echoed.
pub struct Memory {
    size: usize,
    memory: Vec<u8>,
}

impl View for Memory {
    type V = Seq<u8>;

    closed spec fn view(&self) -> Seq<u8> {
        self.memory@
    }
}

impl Memory {
    /// The memory covers the whole address space.
    pub closed spec fn wf(&self) -> bool {
        &&& self.size == MEMORY_BYTES
        &&& self@.len() == MEMORY_BYTES
    }

    /// A valid memory covers the address space.
    pub proof fn lemma_wf(&self)
        requires
            self.wf(),
        ensures
            self@.len() == MEMORY_BYTES,
    {
    }

    /// A memory that holds the end of program byte everywhere but the Nintendo logo.
    pub fn new() -> (m: Memory)
        ensures
            m.wf(),
            m@ == initial_contents(),
    {
        proof { lemma_end_of_program_byte(); }
        let end = Instruction::byte_from_opcode(OpCode::EndOfProgram).unwrap();
        let mut memory = Memory { size: MEMORY_BYTES, memory: vec![end; MEMORY_BYTES] };
        assert(memory@ =~= Seq::new(MEMORY_BYTES as nat, |i: int| end));
        let splash: [u8; 48] = [
            0xCE, 0xED, 0x66, 0x66, 0xCC, 0x0D, 0x00, 0x0B, 0x03, 0x73, 0x00, 0x83, 0x00, 0x0C, 0x00,
            0x0D, 0x00, 0x08, 0x11, 0x1F, 0x88, 0x89, 0x00, 0x0E, 0xDC, 0xCC, 0x6E, 0xE6, 0xDD, 0xDD,
            0xD9, 0x99, 0xBB, 0xBB, 0x67, 0x63, 0x6E, 0x0E, 0xEC, 0xCC, 0xDD, 0xDC, 0x99, 0x9F, 0xBB,
            0xB9, 0x33, 0x3E,
        ];
        assert(splash@ =~= nintendo_splash_screen());
        let mut i: usize = 0;
        while i < 48
            invariant
                i <= 48,
                splash@ == nintendo_splash_screen(),
                memory.size == MEMORY_BYTES,
                memory@.len() == MEMORY_BYTES,
                end == end_of_program_byte(),
                forall|j: int| 0 <= j < MEMORY_BYTES ==> #[trigger] memory@[j] == if SPLASH_SCREEN_ADDRESS <= j
                    < SPLASH_SCREEN_ADDRESS + i { nintendo_splash_screen()[j - SPLASH_SCREEN_ADDRESS] } else { end },
            decreases 48 - i,
        {
            memory.memory.set(SPLASH_SCREEN_ADDRESS + i, splash[i]);
            i = i + 1;
        }
        assert(memory@ =~= initial_contents());
        memory
    }

    /// The byte at `address` as `0b` followed by its bits.
    pub fn read_as_binary_string(&self, address: u16) -> (s: String)
        requires
            self.wf(),
        ensures
            s@ == seq!['0', 'b'] + u8_bit_chars(self@[address as int]),
    {
        u8_as_bit_string(self.memory[address as usize])
    }

    /// The byte at `address` as `0x` followed by its two hexadecimal digits.
    pub fn read_as_hex_strign(&self, address: u16) -> (s: String)
        requires
            self.wf(),
        ensures
            s@ == seq!['0', 'x', hex_char(self@[address as int] >> 4u8), hex_char(self@[address as int] & 15u8)],
    {
        u8_as_hex_string(self.memory[address as usize])
    }

    /// The number of bytes the memory holds.
    pub fn get_size(&self) -> (n: usize)
        requires
            self.wf(),
        ensures
            n == MEMORY_BYTES,
    {
        self.size
    }

    /// Stores `data` at `address`, and at its echo where the address lies in internal RAM.
    fn store(&mut self, address: u16, data: u8)
        requires
            old(self).wf(),
        ensures
            final(self).wf(),
            final(self)@ == stored(old(self)@, address as int, data),
    {
        self.memory.set(address as usize, data);
        if RAM <= address && address < ECHO_OF_INTERNAL_RAM - 0x200 {
            self.memory.set((address + RAM_ECHO_OFFSET) as usize, data);
        }
    }
}

impl Readable<u16, u8> for Memory {
    open spec fn can_read(&self, address: u16) -> bool {
        self.wf()
    }

    /// The byte at `address`.
    fn read(&self, address: u16) -> (r: Result<u8, BusError<u16>>)
        ensures
            r == Ok::<u8, BusError<u16>>(self@[address as int]),
    {
        Ok(self.memory[address as usize])
    }
}

impl Writeable<u16, u8, u16> for Memory {
    open spec fn can_write(&self, address: u16) -> bool {
        self.wf()
    }

    open spec fn can_write_16(&self, address: u16) -> bool {
        self.wf() && address < 0xFFFF
    }

    /// Stores `data` at `address`, and at its echo where the address lies in internal RAM.
    fn write(&mut self, address: u16, data: u8) -> (r: Result<(), BusError<u16>>)
        ensures
            r is Ok,
            final(self).wf(),
            final(self)@ == stored(old(self)@, address as int, data),
    {
        self.store(address, data);
        Ok(())
    }

    /// Stores the high byte of `data` at `address` and the low byte after it, each also at its
    /// echo where it lies in internal RAM.
    fn write_16(&mut self, address: u16, data: u16) -> (r: Result<(), BusError<u16>>)
        ensures
            r is Ok,
            final(self).wf(),
            final(self)@ == stored(stored(old(self)@, address as int, (data / 256) as u8), address + 1, (data % 256) as u8),
    {
        let upper = (data / 256) as u8;
        let lower = (data % 256) as u8;
        self.store(address, upper);
        self.store(address + 1, lower);
        Ok(())
    }
}

impl Addressable<u16> for Memory {
    /// The memory covers every address, so a range changes nothing.
    fn assign_address_range(&mut self, range: RangeInclusive<usize>)
        ensures
            *final(self) == *old(self),
    {
    }

    /// Every address lies in the memory.
    fn in_range(&self, address: u16) -> (r: bool)
        ensures
            r,
    {
        true
    }
}

/// A byte stored is read back at its address and, where the address lies in internal RAM, at
/// its echo; every other address keeps its byte.
pub proof fn lemma_read_after_store(mem: Seq<u8>, a: int, data: u8, other: int)
    requires
        mem.len() == MEMORY_BYTES,
        0 <= a < MEMORY_BYTES,
        0 <= other < MEMORY_BYTES,
    ensures
        stored(mem, a, data)[a] == data,
        mirror_of(a) matches Some(b) ==> stored(mem, a, data)[b] == data,
        other != a && mirror_of(a) != Some(other) ==> stored(mem, a, data)[other] == mem[other],
        stored(mem, a, data).len() == mem.len(),
{
}

} // verus!
