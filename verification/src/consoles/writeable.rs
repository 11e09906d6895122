use vstd::prelude::*;

use crate::consoles::bus::BusError;

verus! {

/// A device that stores a value, or a double width value, at an address.
pub trait Writeable<A, V, DV> {
    /// Whether writing a value at `address` runs without failing.
    spec fn can_write(&self, address: A) -> bool;

    /// Whether writing a double width value at `address` runs without failing.
    spec fn can_write_16(&self, address: A) -> bool;

    fn write(&mut self, address: A, data: V) -> Result<(), BusError<A>>
        requires
            old(self).can_write(address),
    ;

    fn write_16(&mut self, address: A, data: DV) -> Result<(), BusError<A>>
        requires
            old(self).can_write_16(address),
    ;
}

} // verus!
