use vstd::prelude::*;

use std::ops::RangeInclusive;

use crate::consoles::addressable::Addressable;
use crate::consoles::bus::BusError;
use crate::consoles::device::{new_range, range_contains, DeviceView};
use crate::consoles::readable::Readable;
use crate::utils::conversion::{bytes_as_decimal_string, decimal_concat};

verus! {

/// A Game Boy cartridge: the bytes of a rom file, read at the address itself.
#[derive(Debug)]
pub struct GbCartridge {
    path: String,
    data: Vec<u8>,
    address_range: RangeInclusive<usize>,
}

impl View for GbCartridge {
    type V = DeviceView;

    closed spec fn view(&self) -> DeviceView {
        DeviceView {
            offset: false,
            start: self.address_range@.start as int,
            end: self.address_range@.end as int,
            exhausted: self.address_range@.exhausted,
            bytes: self.data@,
        }
    }
}

impl GbCartridge {
    /// The path of the rom file the cartridge was read from.
    pub closed spec fn path_view(&self) -> Seq<char> {
        self.path@
    }

    /// The cartridge of the rom file at `path`, whose bytes are `data`; it answers for `0..=0`.
    pub fn new(path: String, data: Vec<u8>) -> (c: GbCartridge)
        ensures
            c.path_view() == path@,
            c@.bytes == data@,
            !c@.offset,
            c@.start == 0,
            c@.end == 0,
            !c@.exhausted,
    {
        GbCartridge { path, data, address_range: new_range(0, 0) }
    }

    /// The bytes of the rom file.
    pub fn data(&self) -> (d: &Vec<u8>)
        ensures
            d@ == self@.bytes,
    {
        &self.data
    }

    /// Each byte in decimal, one after the other with nothing between them.
    pub fn dump_raw(&self) -> (s: String)
        ensures
            s@ == decimal_concat(self@.bytes),
    {
        bytes_as_decimal_string(&self.data)
    }
}

impl Readable<u16, u8> for GbCartridge {
    open spec fn can_read(&self, address: u16) -> bool {
        self@.holds(address as int)
    }

    /// The byte at index `address`.
    fn read(&self, address: u16) -> (r: Result<u8, BusError<u16>>)
        ensures
            r == Ok::<u8, BusError<u16>>(self@.byte(address as int)),
    {
        Ok(self.data[address as usize])
    }
}

impl Addressable<u16> for GbCartridge {
    /// Makes the cartridge answer for `range`; its bytes stay.
    fn assign_address_range(&mut self, range: RangeInclusive<usize>)
        ensures
            final(self)@ == (DeviceView {
                start: range@.start as int,
                end: range@.end as int,
                exhausted: range@.exhausted,
                ..old(self)@
            }),
            final(self).path_view() == old(self).path_view(),
    {
        self.address_range = range;
    }

    /// Whether `address` lies in the range of the cartridge.
    fn in_range(&self, address: u16) -> (r: bool)
        ensures
            r == self@.in_range(address as int),
    {
        range_contains(&self.address_range, address as usize)
    }
}

} // verus!
