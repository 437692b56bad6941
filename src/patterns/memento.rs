//! Memento: an originator's states are stored by a caretaker and recovered by version.
use vstd::prelude::*;

verus! {

/// A versioned piece of text.
#[derive(Clone, Debug)]
pub struct Originator {
    version: usize,
    data: String,
}

impl View for Originator {
    type V = (usize, Seq<char>);

    /// The version and the text.
    closed spec fn view(&self) -> (usize, Seq<char>) {
        (self.version, self.data@)
    }
}

impl Originator {
    /// A state with the given version and text.
    pub fn new(version: usize, data: &str) -> (r: Self)
        ensures
            r@ == (version, data@),
    {
        Originator { version, data: data.to_owned() }
    }

    /// A copy of `obj`; `self` is left as it is.
    pub fn from(&mut self, obj: &Originator) -> (r: Self)
        ensures
            r@ == obj@,
            *final(self) == *old(self),
    {
        Originator { version: obj.version, data: obj.data.clone() }
    }
}

/// The stored states, in the order they were stored.
#[derive(Clone, Debug)]
pub struct Memento {
    data: Vec<Originator>,
}

impl View for Memento {
    type V = Seq<Originator>;

    closed spec fn view(&self) -> Seq<Originator> {
        self.data@
    }
}

impl Memento {
    /// No state stored yet.
    pub fn new() -> (r: Self)
        ensures
            r@ == Seq::<Originator>::empty(),
    {
        Memento { data: Vec::new() }
    }

    /// Stores `data` after the states stored before.
    pub fn store(&mut self, data: Originator)
        ensures
            final(self)@ == old(self)@.push(data),
    {
        self.data.push(data);
    }

    /// The state stored at place `version`.
    pub fn get(&self, version: usize) -> (r: &Originator)
        requires
            version < self@.len(),
        ensures
            *r == self@[version as int],
    {
        &self.data[version]
    }
}

/// Keeps a [`Memento`] on behalf of its users.
#[derive(Clone, Debug)]
pub struct CareTaker {
    memento: Memento,
}

impl View for CareTaker {
    type V = Seq<Originator>;

    closed spec fn view(&self) -> Seq<Originator> {
        self.memento@
    }
}

impl CareTaker {
    /// A caretaker keeping `memento`.
    pub fn new(memento: Memento) -> (r: Self)
        ensures
            r@ == memento@,
    {
        CareTaker { memento }
    }

    /// Stores `data` after the states stored before.
    pub fn store(&mut self, data: Originator)
        ensures
            final(self)@ == old(self)@.push(data),
    {
        self.memento.store(data);
    }

    /// The state stored at place `version`.
    pub fn recover(&self, version: usize) -> (r: &Originator)
        requires
            version < self@.len(),
        ensures
            *r == self@[version as int],
    {
        self.memento.get(version)
    }
}

} // verus!
