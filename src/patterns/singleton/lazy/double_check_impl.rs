//! A value made on first use under a lock.
use vstd::prelude::*;

verus! {

/// The value, holding a number.
#[derive(Debug, PartialEq, Copy, Clone, Eq)]
pub struct Lazy {
    data: u8,
}

impl Lazy {
    /// The number held.
    pub closed spec fn value(&self) -> u8 {
        self.data
    }

    /// A value holding 0.
    pub fn new() -> (r: Self)
        ensures
            r.value() == 0,
    {
        Lazy { data: 0 }
    }
}

} // verus!
