//! A phone assembled through a chain of setters.
use vstd::prelude::*;

verus! {

/// A phone, described by its screen and its battery.
#[derive(Debug)]
pub struct Phone {
    screen: String,
    battery: String,
}

impl View for Phone {
    type V = (Seq<char>, Seq<char>);

    /// The screen and the battery.
    closed spec fn view(&self) -> (Seq<char>, Seq<char>) {
        (self.screen@, self.battery@)
    }
}

impl Phone {
    fn new(screen: &str, battery: &str) -> (r: Phone)
        ensures
            r@ == (screen@, battery@),
    {
        Phone { screen: screen.to_owned(), battery: battery.to_owned() }
    }
}

/// Collects the parts of a phone.
pub struct Builder {
    screen: String,
    battery: String,
}

impl View for Builder {
    type V = (Seq<char>, Seq<char>);

    /// The screen and the battery named so far.
    closed spec fn view(&self) -> (Seq<char>, Seq<char>) {
        (self.screen@, self.battery@)
    }
}

impl Builder {
    /// A builder with no part named yet.
    pub fn new() -> (r: Builder)
        ensures
            r@ == (Seq::<char>::empty(), Seq::<char>::empty()),
    {
        Builder { screen: String::new(), battery: String::new() }
    }

    /// Names the screen; returns the builder for the next step.
    pub fn screen(&mut self, name: &str) -> (r: &mut Self)
        ensures
            *final(self) == *final(r),
            (*r)@ == (name@, old(self)@.1),
    {
        self.screen = name.to_owned();
        self
    }

    /// Names the battery; returns the builder for the next step.
    pub fn battery(&mut self, name: &str) -> (r: &mut Self)
        ensures
            *final(self) == *final(r),
            (*r)@ == (old(self)@.0, name@),
    {
        self.battery = name.to_owned();
        self
    }

    /// A phone with the parts named so far.
    pub fn build(&mut self) -> (r: Phone)
        ensures
            r@ == old(self)@,
            *final(self) == *old(self),
    {
        Phone::new(self.screen.as_str(), self.battery.as_str())
    }
}

} // verus!
