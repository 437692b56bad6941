//! A value meant to be kept in a static.
use vstd::prelude::*;

verus! {

/// The one value, holding 101.
#[derive(Debug)]
pub struct Hunger {
    data: u8,
}

impl Hunger {
    /// The number held.
    pub closed spec fn value(&self) -> u8 {
        self.data
    }

    /// The one value.
    pub fn new() -> (r: Self)
        ensures
            r.value() == 101,
    {
        Hunger { data: 101 }
    }
}

} // verus!
