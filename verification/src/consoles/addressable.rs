use vstd::prelude::*;

use std::ops::RangeInclusive;

verus! {

/// A device that answers for a range of addresses.
pub trait Addressable<A> {
    fn assign_address_range(&mut self, range: RangeInclusive<usize>);

    fn in_range(&self, address: A) -> bool;
}

} // verus!
