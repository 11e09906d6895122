use vstd::prelude::*;

use std::ops::RangeInclusive;

verus! {

/// What a device on the bus holds, as plain values: its address range, whether its bytes are
/// indexed from the start of the range or by the address itself, and its bytes.
pub ghost struct DeviceView {
    pub offset: bool,
    pub start: int,
    pub end: int,
    pub exhausted: bool,
    pub bytes: Seq<u8>,
}

impl DeviceView {
    /// Whether the range of the device holds `address`.
    pub open spec fn in_range(self, address: int) -> bool {
        self.start <= address && if self.exhausted { address < self.end } else { address <= self.end }
    }

    /// The index of the byte for `address`.
    pub open spec fn index(self, address: int) -> int {
        if self.offset { address - self.start } else { address }
    }

    /// Whether `address` names a byte the device holds.
    pub open spec fn holds(self, address: int) -> bool {
        0 <= self.index(address) < self.bytes.len()
    }

    /// Whether `address` and the address after it name bytes the device holds.
    pub open spec fn holds_two(self, address: int) -> bool {
        0 <= self.index(address) && self.index(address) + 1 < self.bytes.len()
    }

    /// Whether a double width value can be stored at `address`: both bytes are held, and a
    /// device indexed by the address itself does not wrap past the last address.
    pub open spec fn holds_word(self, address: int) -> bool {
        self.holds_two(address) && (self.offset || address < 0xFFFF)
    }

    /// The byte the device gives back for `address`.
    pub open spec fn byte(self, address: int) -> u8 {
        self.bytes[self.index(address)]
    }

    /// The device after storing `data` at `address`.
    pub open spec fn stored(self, address: int, data: u8) -> DeviceView {
        DeviceView { bytes: self.bytes.update(self.index(address), data), ..self }
    }

    /// The device after storing `data` at `address`, low byte first.
    pub open spec fn stored_16(self, address: int, data: u16) -> DeviceView {
        DeviceView {
            bytes: self.bytes.update(self.index(address), (data % 256) as u8).update(
                self.index(address) + 1,
                (data / 256) as u8,
            ),
            ..self
        }
    }
}

/// `RangeInclusive::start` of std: the lower bound of the range.
#[verifier::external_body]
pub(crate) fn range_start(r: &RangeInclusive<usize>) -> (s: usize)
    ensures
        s == r@.start,
{
    *r.start()
}

/// Whether the range holds `x`: at least its start, and at most its end (below its end once
/// the range is exhausted).
pub(crate) fn range_contains(r: &RangeInclusive<usize>, x: usize) -> (b: bool)
    ensures
        b == (r@.start <= x && if r@.exhausted { x < r@.end } else { x <= r@.end }),
{
    r.contains(&x)
}

/// The range from `start` to `end`, both included.
pub(crate) fn new_range(start: usize, end: usize) -> (r: RangeInclusive<usize>)
    ensures
        r@.start == start,
        r@.end == end,
        !r@.exhausted,
{
    RangeInclusive::new(start, end)
}

} // verus!
