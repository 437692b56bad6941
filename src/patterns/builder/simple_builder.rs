//! A director drives a builder through fixed steps to assemble a computer.
use vstd::prelude::*;
use crate::patterns::builder::Computer;

verus! {

/// Assembles a computer step by step.
pub trait Builder {
    /// The parts named so far.
    spec fn parts(&self) -> (Seq<char>, Seq<char>, Seq<char>);

    /// The screen this builder fits.
    spec fn screen_part(&self) -> Seq<char>;

    /// The battery this builder fits.
    spec fn battery_part(&self) -> Seq<char>;

    /// The mouse this builder fits.
    spec fn mouse_part(&self) -> Seq<char>;

    /// A builder with no part named yet.
    fn new() -> Self where Self: Sized;

    /// Fits the screen.
    fn build_screen(&mut self)
        ensures
            final(self).parts() == (old(self).screen_part(), old(self).parts().1, old(self).parts().2),
            final(self).screen_part() == old(self).screen_part(),
            final(self).battery_part() == old(self).battery_part(),
            final(self).mouse_part() == old(self).mouse_part(),
    ;

    /// Fits the battery.
    fn build_battery(&mut self)
        ensures
            final(self).parts() == (old(self).parts().0, old(self).battery_part(), old(self).parts().2),
            final(self).screen_part() == old(self).screen_part(),
            final(self).battery_part() == old(self).battery_part(),
            final(self).mouse_part() == old(self).mouse_part(),
    ;

    /// Fits the mouse.
    fn build_mouse(&mut self)
        ensures
            final(self).parts() == (old(self).parts().0, old(self).parts().1, old(self).mouse_part()),
            final(self).screen_part() == old(self).screen_part(),
            final(self).battery_part() == old(self).battery_part(),
            final(self).mouse_part() == old(self).mouse_part(),
    ;

    /// A computer with the parts named so far.
    fn back_computer(&self) -> (r: Computer)
        ensures
            r@ == self.parts(),
    ;
}

/// Assembles a computer from iOS parts.
#[derive(Debug)]
pub struct IOSBuilder {
    obj: Computer,
}

impl Builder for IOSBuilder {
    closed spec fn parts(&self) -> (Seq<char>, Seq<char>, Seq<char>) {
        self.obj@
    }

    open spec fn screen_part(&self) -> Seq<char> {
        "ios screen"@
    }

    open spec fn battery_part(&self) -> Seq<char> {
        "ios battery"@
    }

    open spec fn mouse_part(&self) -> Seq<char> {
        "ios mouse"@
    }

    fn new() -> (r: Self)
        ensures
            r.parts() == (Seq::<char>::empty(), Seq::<char>::empty(), Seq::<char>::empty()),
    {
        IOSBuilder { obj: Computer::new() }
    }

    fn build_screen(&mut self) {
        self.obj.set_screen("ios screen");
    }

    fn build_battery(&mut self) {
        self.obj.set_battery("ios battery")
    }

    fn build_mouse(&mut self) {
        self.obj.set_mouse("ios mouse")
    }

    fn back_computer(&self) -> (r: Computer) {
        Computer {
            screen: self.obj.screen.clone(),
            battery: self.obj.battery.clone(),
            mouse: self.obj.mouse.clone(),
        }
    }
}

/// Drives a builder through the steps of assembly.
pub struct Director {
    builder: Box<dyn Builder>,
}

impl Director {
    /// The parts the builder fits: the screen, the battery and the mouse.
    pub closed spec fn fitted(&self) -> (Seq<char>, Seq<char>, Seq<char>) {
        (self.builder.screen_part(), self.builder.battery_part(), self.builder.mouse_part())
    }

    /// A director driving `builder`.
    pub fn new(builder: Box<dyn Builder>) -> (r: Director) {
        Director { builder }
    }

    /// Fits the screen, the battery and the mouse, in that order; returns the computer.
    pub fn construct(&mut self) -> (r: Computer)
        ensures
            r@ == old(self).fitted(),
    {
        self.builder.build_screen();
        self.builder.build_battery();
        self.builder.build_mouse();
        self.builder.back_computer()
    }
}

} // verus!
