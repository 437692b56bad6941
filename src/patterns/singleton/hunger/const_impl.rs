//! A value meant to be kept in a constant.
use vstd::prelude::*;

verus! {

/// The one value, holding 100.
#[derive(Debug)]
pub struct Hunger {
    data: u8,
}

impl Hunger {
    /// The number held.
    pub closed spec fn value(&self) -> u8 {
        self.data
    }

    /// The one value.
    pub fn new() -> (r: Self)
        ensures
            r.value() == 100,
    {
        Hunger { data: 100 }
    }
}

} // verus!
