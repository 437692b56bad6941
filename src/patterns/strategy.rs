//! Strategy: a context shows itself through a strategy that can be replaced.
use vstd::prelude::*;

verus! {

/// A way of showing.
pub trait Strategy {
    /// What showing prints.
    spec fn shown(&self) -> Seq<char>;

    /// Shows; returns what is printed.
    fn show(&self) -> (r: String)
        ensures
            r@ == self.shown(),
    ;
}

/// The first way of showing.
pub struct ShowStrategy1;

impl Strategy for ShowStrategy1 {
    open spec fn shown(&self) -> Seq<char> {
        "show strategy 1"@
    }

    fn show(&self) -> (r: String) {
        "show strategy 1".to_owned()
    }
}

/// The second way of showing.
pub struct ShowStrategy2;

impl Strategy for ShowStrategy2 {
    open spec fn shown(&self) -> Seq<char> {
        "show strategy 2"@
    }

    fn show(&self) -> (r: String) {
        "show strategy 2".to_owned()
    }
}

/// Shows through its current strategy.
pub struct Context<T: ?Sized + Strategy> {
    strategy: Box<T>,
}

impl<T: ?Sized + Strategy> Context<T> {
    /// What showing prints with the current strategy.
    pub closed spec fn shown(&self) -> Seq<char> {
        self.strategy.shown()
    }

    /// A context using `strategy`.
    pub fn new(strategy: Box<T>) -> (r: Self)
        ensures
            r.shown() == strategy.shown(),
    {
        Context { strategy }
    }

    /// Shows with the current strategy; returns what is printed.
    pub fn show(&self) -> (r: String)
        ensures
            r@ == self.shown(),
    {
        self.strategy.show()
    }

    /// Replaces the strategy.
    pub fn replace(&mut self, strategy: Box<T>)
        ensures
            final(self).shown() == strategy.shown(),
    {
        self.strategy = strategy;
    }
}

} // verus!
