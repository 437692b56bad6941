//! Builder: a product is assembled part by part, either through a chain of setters or by a
//! director that drives a builder through fixed steps.
use vstd::prelude::*;

pub mod flex_builder;
pub mod simple_builder;

verus! {

/// A computer, described by its parts.
#[derive(Debug)]
pub struct Computer {
    pub screen: String,
    pub battery: String,
    pub mouse: String,
}

impl View for Computer {
    type V = (Seq<char>, Seq<char>, Seq<char>);

    /// The screen, the battery and the mouse.
    open spec fn view(&self) -> (Seq<char>, Seq<char>, Seq<char>) {
        (self.screen@, self.battery@, self.mouse@)
    }
}

impl Computer {
    /// A computer with no part named yet.
    pub fn new() -> (r: Self)
        ensures
            r@ == (Seq::<char>::empty(), Seq::<char>::empty(), Seq::<char>::empty()),
    {
        Computer { screen: String::new(), battery: String::new(), mouse: String::new() }
    }

    /// Names the screen.
    pub fn set_screen(&mut self, screen: &str)
        ensures
            final(self)@ == (screen@, old(self)@.1, old(self)@.2),
    {
        self.screen = screen.to_owned();
    }

    /// Names the battery.
    pub fn set_battery(&mut self, battery: &str)
        ensures
            final(self)@ == (old(self)@.0, battery@, old(self)@.2),
    {
        self.battery = battery.to_owned();
    }

    /// Names the mouse.
    pub fn set_mouse(&mut self, mouse: &str)
        ensures
            final(self)@ == (old(self)@.0, old(self)@.1, mouse@),
    {
        self.mouse = mouse.to_owned();
    }
}

} // verus!
