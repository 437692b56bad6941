//! Decorator: a gun's price grows by the price of the part fitted to it.
use vstd::prelude::*;

verus! {

/// A part that can be fitted to a gun.
pub trait Parts {
    /// The part's price.
    spec fn price(&self) -> nat;

    /// A new part.
    fn new() -> Self where Self: Sized;

    /// The part's price.
    fn cost(&self) -> (r: usize)
        ensures
            r == self.price(),
    ;
}

/// A gun with a part fitted.
pub trait Gun {
    /// The gun's price so far.
    spec fn price(&self) -> nat;

    /// The price of the part fitted.
    spec fn part_price(&self) -> nat;

    /// A gun with `part` fitted.
    fn new(part: Box<dyn Parts>) -> Self where Self: Sized;

    /// Adds the part's price to the gun's price; returns the new price.
    fn cost(&mut self) -> (r: usize)
        requires
            old(self).price() + old(self).part_price() <= usize::MAX,
        ensures
            r == final(self).price(),
            final(self).price() == old(self).price() + old(self).part_price(),
            final(self).part_price() == old(self).part_price(),
    ;
}

/// A handgun.
pub struct HandGun {
    price: usize,
    part: Box<dyn Parts>,
}

impl Gun for HandGun {
    closed spec fn price(&self) -> nat {
        self.price as nat
    }

    closed spec fn part_price(&self) -> nat {
        self.part.price()
    }

    fn new(part: Box<dyn Parts>) -> (r: Self)
        ensures
            r.price() == 3600,
    {
        HandGun { price: 3600, part }
    }

    fn cost(&mut self) -> (r: usize) {
        self.price = self.price + self.part.cost();
        self.price
    }
}

/// A grip.
pub struct Grip {
    price: usize,
}

impl Parts for Grip {
    closed spec fn price(&self) -> nat {
        self.price as nat
    }

    fn new() -> (r: Self)
        ensures
            r.price() == 260,
    {
        Grip { price: 260 }
    }

    fn cost(&self) -> (r: usize) {
        self.price
    }
}

} // verus!
