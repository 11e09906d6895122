use vstd::prelude::*;

use std::ops::RangeInclusive;

use crate::consoles::addressable::Addressable;
use crate::consoles::bus::BusError;
use crate::consoles::device::{new_range, range_contains, range_start, DeviceView};
use crate::consoles::readable::Readable;
use crate::consoles::writeable::Writeable;
use crate::utils::conversion::{
    address_to_u16, lower_hex_chars, u16_to_u8, u16_to_usize, u8_as_lower_hex_string,
    u8_from_u8, u8_to_u8,
};

verus! {

/// What a new memory of `n` bytes holds: the default value, where one is given, at the first
/// 0x10000 indices (those a sixteen bit address reaches), and zero elsewhere.
pub open spec fn filled(n: nat, default_value: Option<u8>) -> Seq<u8> {
    Seq::new(
        n,
        |i: int|
            if default_value is Some && i < 0x10000 {
                default_value->0
            } else {
                0u8
            },
    )
}

/// A block of bytes that answers for a range of addresses; the address at the start of the
/// range reads the first byte.
pub struct Memory {
    address_range: RangeInclusive<usize>,
    memory: Vec<u8>,
}

impl View for Memory {
    type V = DeviceView;

    closed spec fn view(&self) -> DeviceView {
        DeviceView {
            offset: true,
            start: self.address_range@.start as int,
            end: self.address_range@.end as int,
            exhausted: self.address_range@.exhausted,
            bytes: self.memory@,
        }
    }
}

impl Memory {
    /// A memory of `size` bytes with the range `0..=0`, each byte written with `default_value`
    /// where one is given.
    pub fn new(size: usize, default_value: Option<u8>) -> (m: Self)
        ensures
            m@.offset,
            m@.start == 0,
            m@.end == 0,
            !m@.exhausted,
            m@.bytes == filled(size as nat, default_value),
    {
        let mut memory = Memory { address_range: new_range(0, 0), memory: vec![0u8; size] };
        if let Some(v) = default_value {
            let mut i: usize = 0;
            while i < size
                invariant
                    i <= size,
                    memory@.bytes.len() == size,
                    memory@.offset,
                    memory@.start == 0,
                    memory@.end == 0,
                    !memory@.exhausted,
                    forall|j: int|
                        0 <= j < size ==> #[trigger] memory@.bytes[j] == if j < i && j < 0x10000 {
                            v
                        } else {
                            0u8
                        },
                decreases size - i,
            {
                let address = i as u16;
                assert(i < 0x10000 ==> address as int == i);
                let _ = memory.write(address, u8_from_u8(v).unwrap());
                i = i + 1;
            }
        }
        assert(memory@.bytes =~= filled(size as nat, default_value));
        memory
    }

    /// Each byte as `0x` followed by its lower case hexadecimal digits.
    pub fn as_hex_dump(&self) -> (dump: Vec<String>)
        ensures
            dump.len() == self@.bytes.len(),
            forall|i: int| 0 <= i < self@.bytes.len() ==> #[trigger] dump[i]@ == lower_hex_chars(self@.bytes[i]),
    {
        let mut dump: Vec<String> = Vec::new();
        let mut i: usize = 0;
        while i < self.memory.len()
            invariant
                i <= self@.bytes.len(),
                dump.len() == i,
                forall|j: int| 0 <= j < i ==> #[trigger] dump[j]@ == lower_hex_chars(self@.bytes[j]),
            decreases self@.bytes.len() - i,
        {
            match u8_to_u8(self.memory[i]) {
                Some(x) => dump.push(u8_as_lower_hex_string(x)),
                None => {},
            }
            i = i + 1;
        }
        dump
    }
}

impl Readable<u16, u8> for Memory {
    open spec fn can_read(&self, address: u16) -> bool {
        self@.holds(address as int)
    }

    /// The byte at `address`, counted from the start of the range.
    fn read(&self, address: u16) -> (r: Result<u8, BusError<u16>>)
        ensures
            r == Ok::<u8, BusError<u16>>(self@.byte(address as int)),
    {
        match u16_to_usize(address) {
            Some(address) => {
                let index = address - range_start(&self.address_range);
                Ok(self.memory[index])
            },
            None => Err(BusError::ReadError(address)),
        }
    }
}

impl Writeable<u16, u8, u16> for Memory {
    open spec fn can_write(&self, address: u16) -> bool {
        self@.holds(address as int)
    }

    open spec fn can_write_16(&self, address: u16) -> bool {
        self@.holds_word(address as int)
    }

    /// Stores `data` at `address`, counted from the start of the range.
    fn write(&mut self, address: u16, data: u8) -> (r: Result<(), BusError<u16>>)
        ensures
            r is Ok,
            final(self)@ == old(self)@.stored(address as int, data),
    {
        match u16_to_usize(address) {
            Some(a) => {
                let index = a - range_start(&self.address_range);
                self.memory.set(index, data);
                Ok(())
            },
            None => Err(BusError::WriteError(address)),
        }
    }

    /// Stores the low byte of `data` at `address` and the high byte after it.
    fn write_16(&mut self, address: u16, data: u16) -> (r: Result<(), BusError<u16>>)
        ensures
            r is Ok,
            final(self)@ == old(self)@.stored_16(address as int, data),
    {
        match u16_to_usize(address) {
            Some(a) => match u16_to_u8(data) {
                Some((upper, lower)) => {
                    let index = a - range_start(&self.address_range);
                    self.memory.set(index, u8_from_u8(lower).unwrap());
                    self.memory.set(index + 1, u8_from_u8(upper).unwrap());
                    Ok(())
                },
                None => Err(BusError::WriteError(address)),
            },
            None => Err(BusError::WriteError(address)),
        }
    }
}

impl Addressable<u16> for Memory {
    /// Makes the memory answer for `range`; its bytes stay.
    fn assign_address_range(&mut self, range: RangeInclusive<usize>)
        ensures
            final(self)@ == (DeviceView {
                start: range@.start as int,
                end: range@.end as int,
                exhausted: range@.exhausted,
                ..old(self)@
            }),
    {
        self.address_range = range;
    }

    /// Whether `address` lies in the range of the memory.
    fn in_range(&self, address: u16) -> (r: bool)
        ensures
            r == self@.in_range(address as int),
    {
        match address_to_u16(address) {
            Some(addr) => range_contains(&self.address_range, addr as usize),
            None => false,
        }
    }
}

} // verus!
