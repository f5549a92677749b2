use vstd::prelude::*;

verus! {

/// A mask that selects one or more bits of an octet.
#[derive(Copy, Clone, Debug, PartialEq, Eq, Structural)]
pub struct BitMask {
    pub value: u8,
}

} // verus!
