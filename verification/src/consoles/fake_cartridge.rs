use vstd::prelude::*;

use std::ops::RangeInclusive;

use crate::consoles::addressable::Addressable;
use crate::consoles::bus::BusError;
use crate::consoles::device::{new_range, range_contains, DeviceView};
use crate::consoles::memory_map::{ROM_BANK_00_END, ROM_BANK_00_START};
use crate::consoles::readable::Readable;
use crate::consoles::writeable::Writeable;
use crate::utils::conversion::{bytes_as_decimal_string, decimal_concat};

verus! {

/// A cartridge without a file behind it: as many zero bytes as the first ROM bank holds, read
/// and written at the address itself.
#[derive(Debug)]
pub struct FakeCartridge {
    path: String,
    data: Vec<u8>,
    address_range: RangeInclusive<usize>,
}

impl View for FakeCartridge {
    type V = DeviceView;

    closed spec fn view(&self) -> DeviceView {
        DeviceView {
            offset: false,
            start: self.address_range@.start as int,
            end: self.address_range@.end as int,
            exhausted: self.address_range@.exhausted,
            bytes: self.data@,
        }
    }
}

impl FakeCartridge {
    /// The name the cartridge gives in place of a file.
    pub closed spec fn path_view(&self) -> Seq<char> {
        self.path@
    }

    /// A cartridge of 0x4000 zero bytes named `fake:cartridge`, answering for `0..=0`.
    pub fn new() -> (c: FakeCartridge)
        ensures
            c.path_view() == "fake:cartridge"@,
            c@.bytes == Seq::new((ROM_BANK_00_END - ROM_BANK_00_START + 1) as nat, |i: int| 0u8),
            !c@.offset,
            c@.start == 0,
            c@.end == 0,
            !c@.exhausted,
    {
        let mut data: Vec<u8> = Vec::new();
        let mut i: usize = ROM_BANK_00_START;
        while i <= ROM_BANK_00_END
            invariant
                ROM_BANK_00_START <= i <= ROM_BANK_00_END + 1,
                data@ == Seq::new((i - ROM_BANK_00_START) as nat, |j: int| 0u8),
            decreases ROM_BANK_00_END + 1 - i,
        {
            data.push(0);
            i = i + 1;
            assert(data@ =~= Seq::new((i - ROM_BANK_00_START) as nat, |j: int| 0u8));
        }
        FakeCartridge { path: "fake:cartridge".to_owned(), data, address_range: new_range(0, 0) }
    }

    /// What the cartridge holds, as `dump_raw` gives it.
    pub fn dump(&self) -> (s: String)
        ensures
            s@ == decimal_concat(self@.bytes),
    {
        self.dump_raw()
    }

    /// Each byte in decimal, one after the other with nothing between them.
    pub fn dump_raw(&self) -> (s: String)
        ensures
            s@ == decimal_concat(self@.bytes),
    {
        bytes_as_decimal_string(&self.data)
    }
}

impl Readable<u16, u8> for FakeCartridge {
    open spec fn can_read(&self, address: u16) -> bool {
        self@.holds(address as int)
    }

    /// The byte at index `address`.
    fn read(&self, address: u16) -> (r: Result<u8, BusError<u16>>)
        ensures
            r == Ok::<u8, BusError<u16>>(self@.byte(address as int)),
    {
        Ok(self.data[address as usize])
    }
}

impl Writeable<u16, u8, u16> for FakeCartridge {
    open spec fn can_write(&self, address: u16) -> bool {
        self@.holds(address as int)
    }

    open spec fn can_write_16(&self, address: u16) -> bool {
        self@.holds_word(address as int)
    }

    /// Stores `data` at index `address`.
    fn write(&mut self, address: u16, data: u8) -> (r: Result<(), BusError<u16>>)
        ensures
            r is Ok,
            final(self)@ == old(self)@.stored(address as int, data),
            final(self).path_view() == old(self).path_view(),
    {
        self.data.set(address as usize, data);
        Ok(())
    }

    /// Stores the low byte of `data` at index `address` and the high byte after it.
    fn write_16(&mut self, address: u16, data: u16) -> (r: Result<(), BusError<u16>>)
        ensures
            r is Ok,
            final(self)@ == old(self)@.stored_16(address as int, data),
            final(self).path_view() == old(self).path_view(),
    {
        let upper = (data >> 8) as u8;
        let lower = (data & 0xFF) as u8;
        assert(data >> 8u16 == data / 256) by (bit_vector);
        assert(data & 0xFFu16 == data % 256) by (bit_vector);
        self.data.set(address as usize, lower);
        self.data.set((address + 1) as usize, upper);
        Ok(())
    }
}

impl Addressable<u16> for FakeCartridge {
    /// Makes the cartridge answer for `range`; its bytes stay.
    fn assign_address_range(&mut self, range: RangeInclusive<usize>)
        ensures
            final(self)@ == (DeviceView {
                start: range@.start as int,
                end: range@.end as int,
                exhausted: range@.exhausted,
                ..old(self)@
            }),
            final(self).path_view() == old(self).path_view(),
    {
        self.address_range = range;
    }

    /// Whether `address` lies in the range of the cartridge.
    fn in_range(&self, address: u16) -> (r: bool)
        ensures
            r == self@.in_range(address as int),
    {
        range_contains(&self.address_range, address as usize)
    }
}

} // verus!
