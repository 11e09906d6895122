use vstd::prelude::*;

use crate::consoles::bus::BusError;

verus! {

/// A device that gives back a value for an address.
pub trait Readable<A, V> {
    /// Whether reading `address` runs without failing.
    spec fn can_read(&self, address: A) -> bool;

    fn read(&self, address: A) -> Result<V, BusError<A>>
        requires
            self.can_read(address),
    ;
}

} // verus!
