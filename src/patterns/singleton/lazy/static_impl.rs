//! A value made on first use and kept in a static.
use vstd::prelude::*;

verus! {

/// The value, holding a number.
#[derive(Debug, Copy, Clone, PartialEq)]
pub struct Lazy {
    data: u8,
}

impl Lazy {
    /// The number held.
    pub closed spec fn value(&self) -> u8 {
        self.data
    }
}

} // verus!
