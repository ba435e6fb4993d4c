//! A device's address on the bus.

use vstd::prelude::*;

verus! {

/// Address of a device (slave) on the bus.
#[derive(Debug, PartialEq, PartialOrd, Clone, Copy)]
pub struct Address(pub u8);

impl From<Address> for u8 {
    fn from(address: Address) -> (r: u8)
        ensures
            r == address.0,
    {
        address.0
    }
}

impl vstd::std_specs::convert::FromSpecImpl<Address> for u8 {
    open spec fn obeys_from_spec() -> bool {
        true
    }

    open spec fn from_spec(address: Address) -> u8 {
        address.0
    }
}

} // verus!
