//! Observer: a main system passes each message on to every subsystem registered with it.
use vstd::prelude::*;
use vstd::string::StringExecFns;

verus! {

/// Something told of each message.
pub trait Observer {
    /// What receiving `msg` reports.
    spec fn received(&self, msg: Seq<char>) -> Seq<char>;

    /// Receives `msg`; returns the report.
    fn update(&self, msg: &str) -> (r: String)
        ensures
            r@ == self.received(msg@),
    ;
}

/// A named subsystem.
pub struct ChildrenSystem {
    name: String,
}

impl ChildrenSystem {
    /// A subsystem named `name`.
    pub fn new(name: &str) -> (r: Self)
        ensures
            forall|msg: Seq<char>| #[trigger] r.received(msg) == name@ + " - msg from sys : "@ + msg,
    {
        ChildrenSystem { name: name.to_owned() }
    }
}

impl Observer for ChildrenSystem {
    closed spec fn received(&self, msg: Seq<char>) -> Seq<char> {
        self.name@ + " - msg from sys : "@ + msg
    }

    fn update(&self, msg: &str) -> (r: String) {
        self.name.clone().concat(" - msg from sys : ").concat(msg)
    }
}

/// The reports of `observers` on `msg`, in their order.
pub open spec fn reports(observers: Seq<Box<dyn Observer>>, msg: Seq<char>) -> Seq<Seq<char>> {
    Seq::new(observers.len(), |i: int| observers[i].received(msg))
}

/// Something that observers register with.
pub trait Subject {
    /// The registered observers, in the order of registration.
    spec fn observers(&self) -> Seq<Box<dyn Observer>>;

    /// Registers `observer` after the others.
    fn add(&mut self, observer: Box<dyn Observer>)
        ensures
            final(self).observers() == old(self).observers().push(observer),
    ;

    /// Unregisters the observer at place `index`.
    fn remove(&mut self, index: usize)
        requires
            index < old(self).observers().len(),
        ensures
            final(self).observers() == old(self).observers().remove(index as int),
    ;

    /// Tells every observer of `msg`, in order; returns their reports.
    fn notify(&self, msg: &str) -> (r: Vec<String>)
        ensures
            r@.map_values(|s: String| s@) == reports(self.observers(), msg@),
    ;
}

/// The main system and its subsystems.
pub struct MainSystem {
    sys_list: Vec<Box<dyn Observer>>,
}

impl MainSystem {
    /// A main system with no subsystem.
    pub fn new() -> (r: Self)
        ensures
            r.observers().len() == 0,
    {
        MainSystem { sys_list: Vec::new() }
    }
}

impl Subject for MainSystem {
    closed spec fn observers(&self) -> Seq<Box<dyn Observer>> {
        self.sys_list@
    }

    fn add(&mut self, observer: Box<dyn Observer>) {
        self.sys_list.push(observer)
    }

    fn remove(&mut self, index: usize) {
        self.sys_list.remove(index);
    }

    fn notify(&self, msg: &str) -> (r: Vec<String>) {
        let mut out: Vec<String> = Vec::new();
        let mut i: usize = 0;
        while i < self.sys_list.len()
            invariant
                i <= self.sys_list@.len(),
                out@.len() == i,
                forall|k: int| 0 <= k < i ==> #[trigger] out@[k]@ == self.sys_list@[k].received(msg@),
            decreases self.sys_list@.len() - i,
        {
            out.push(self.sys_list[i].update(msg));
            i = i + 1;
        }
        assert(out@.map_values(|s: String| s@) =~= reports(self.sys_list@, msg@));
        out
    }
}

} // verus!
