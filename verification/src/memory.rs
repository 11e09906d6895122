use vstd::prelude::*;

use crate::instruction::{opcode_byte, Instruction, OpCode};
use crate::utils::conversion::{hex_char, u8_bit_chars};
use crate::utils;

verus! {

/// The number of bytes the memory holds; addresses run from 0 to one below it.
pub const MEMORY_SIZE: usize = 0xFFFF;

/// The byte that encodes the end of a program.
pub open spec fn end_of_program_byte() -> u8 {
    opcode_byte(OpCode::EndOfProgram)->0
}

/// The end of a program is encoded by the unprefixed byte 0xFD, and by no other.
pub proof fn lemma_end_of_program_byte()
    ensures
        opcode_byte(OpCode::EndOfProgram) == Some(0xFDu8),
        end_of_program_byte() == 0xFD,
{
    crate::instruction::lemma_first_byte_holds(OpCode::EndOfProgram, false, 0);
    assert(crate::instruction::holds_opcode(0xFDu8, false, OpCode::EndOfProgram));
}

/// A flat memory of `MEMORY_SIZE` bytes.
pub struct Memory {
    memory: Vec<u8>,
}

impl View for Memory {
    type V = Seq<u8>;

    closed spec fn view(&self) -> Seq<u8> {
        self.memory@
    }
}

impl Memory {
    /// The memory holds exactly `MEMORY_SIZE` bytes.
    pub open spec fn wf(&self) -> bool {
        self@.len() == MEMORY_SIZE
    }

    /// A memory whose first 0xFF bytes hold the end of program byte and whose other bytes are 0.
    pub fn new() -> (m: Memory)
        ensures
            m.wf(),
            forall|i: int| 0 <= i < 0xFF ==> m@[i] == end_of_program_byte(),
            forall|i: int| 0xFF <= i < MEMORY_SIZE ==> m@[i] == 0,
    {
        let mut memory = Memory { memory: vec![0u8; MEMORY_SIZE] };
        proof { lemma_end_of_program_byte(); }
        let end = Instruction::byte_from_opcode(OpCode::EndOfProgram).unwrap();
        let mut i: u16 = 0;
        while i < 0xFF
            invariant
                0 <= i <= 0xFF,
                end == end_of_program_byte(),
                memory.wf(),
                forall|j: int| 0 <= j < i ==> memory@[j] == end,
                forall|j: int| i <= j < MEMORY_SIZE ==> memory@[j] == 0,
            decreases 0xFF - i,
        {
            memory.write_byte(i, end);
            i = i + 1;
        }
        memory
    }

    /// The byte at `address`.
    pub fn read_byte(&self, address: u16) -> (b: u8)
        requires
            self.wf(),
            address < MEMORY_SIZE,
        ensures
            b == self@[address as int],
    {
        self.memory[address as usize]
    }

    /// Stores `byte` at `address`; every other byte stays.
    pub fn write_byte(&mut self, address: u16, byte: u8)
        requires
            old(self).wf(),
            address < MEMORY_SIZE,
        ensures
            final(self).wf(),
            final(self)@ == old(self)@.update(address as int, byte),
    {
        self.memory.set(address as usize, byte);
    }

    /// The byte at `address` as `0b` followed by its bits.
    pub fn read_as_binary_string(&self, address: u16) -> (s: String)
        requires
            self.wf(),
            address < MEMORY_SIZE,
        ensures
            s@ == seq!['0', 'b'] + u8_bit_chars(self@[address as int]),
    {
        utils::as_bit_string(self.read_byte(address))
    }

    /// The byte at `address` as `0x` followed by its two hexadecimal digits.
    pub fn read_as_hex_strign(&self, address: u16) -> (s: String)
        requires
            self.wf(),
            address < MEMORY_SIZE,
        ensures
            s@ == seq!['0', 'x', hex_char(self@[address as int] >> 4u8), hex_char(self@[address as int] & 15u8)],
    {
        utils::as_hex_string(self.read_byte(address))
    }
}

/// A write is read back at its address, and leaves every other address as it was.
pub proof fn lemma_read_after_write(before: Seq<u8>, after: Seq<u8>, address: int, byte: u8, other: int)
    requires
        0 <= address < before.len(),
        after == before.update(address, byte),
    ensures
        after[address] == byte,
        0 <= other < before.len() && other != address ==> after[other] == before[other],
        after.len() == before.len(),
{
}

} // verus!
