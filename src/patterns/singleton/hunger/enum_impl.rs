//! A value kept as the single variant of an enum.
use vstd::prelude::*;

verus! {

/// The one value, carrying a number.
#[derive(Debug)]
pub enum Hunger {
    Data(u8),
}

impl Hunger {
    /// The number carried.
    fn match_instance(self) -> (r: u8)
        ensures
            self == Hunger::Data(r),
    {
        match self {
            Hunger::Data(data) => data,
        }
    }
}

} // verus!
