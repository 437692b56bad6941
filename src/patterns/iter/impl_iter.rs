//! A list of numbers walked through a cursor that yields copies of them.
use vstd::prelude::*;

verus! {

/// A number and, optionally, the rest of the chain.
#[derive(Debug)]
pub struct Node {
    data: u32,
    next: Option<Box<Node>>,
}

/// The numbers of a chain, from the given link to the end.
pub closed spec fn chain(link: Option<Box<Node>>) -> Seq<u32>
    decreases link,
{
    match link {
        None => Seq::empty(),
        Some(node) => seq![node.data] + chain(node.next),
    }
}

impl View for Node {
    type V = Seq<u32>;

    /// The numbers from this node to the end of the chain.
    closed spec fn view(&self) -> Seq<u32> {
        seq![self.data] + chain(self.next)
    }
}

impl Node {
    /// A node holding `data` with no successor.
    pub fn new(data: u32) -> (r: Self)
        ensures
            r@ == seq![data],
    {
        Node { data, next: None }
    }

    /// Makes `next` the successor, dropping the former successors.
    pub fn add(&mut self, next: Node)
        ensures
            final(self)@ == seq![old(self)@[0]] + next@,
    {
        self.next = Some(Box::new(next));
    }

    /// The number held.
    pub fn get(&self) -> (r: &u32)
        ensures
            *r == self@[0],
    {
        &self.data
    }
}

/// A list of numbers; new numbers go to the front.
#[derive(Debug)]
pub struct NodeList {
    next: Option<Box<Node>>,
}

impl View for NodeList {
    type V = Seq<u32>;

    /// The numbers from front to back.
    closed spec fn view(&self) -> Seq<u32> {
        chain(self.next)
    }
}

impl NodeList {
    /// An empty list.
    pub fn new() -> (r: Self)
        ensures
            r@ == Seq::<u32>::empty(),
    {
        NodeList { next: None }
    }

    /// Puts `data` at the front.
    pub fn add(&mut self, data: u32)
        ensures
            final(self)@ == seq![data] + old(self)@,
    {
        let mut rest: Option<Box<Node>> = None;
        std::mem::swap(&mut rest, &mut self.next);
        self.next = Some(Box::new(Node { data, next: rest }));
    }

    /// A cursor over the numbers, front first.
    pub fn iter(&mut self) -> (r: NodeIter<'_>)
        ensures
            r@ == old(self)@,
            *final(self) == *old(self),
    {
        NodeIter {
            next: match &self.next {
                None => None,
                Some(b) => Some(&**b),
            },
        }
    }
}

/// A cursor that yields copies of the numbers of a list, front first.
pub struct NodeIter<'a> {
    next: Option<&'a Node>,
}

impl<'a> View for NodeIter<'a> {
    type V = Seq<u32>;

    /// The numbers not yet yielded.
    closed spec fn view(&self) -> Seq<u32> {
        match self.next {
            None => Seq::empty(),
            Some(node) => node@,
        }
    }
}

impl<'a> NodeIter<'a> {
    /// Yields the next number and moves past it; `None` once the end has been reached, and from
    /// then on.
    pub fn next(&mut self) -> (r: Option<u32>)
        ensures
            old(self)@.len() == 0 ==> r is None && final(self)@ == old(self)@,
            old(self)@.len() > 0 ==> r == Some(old(self)@[0]) && final(self)@ == old(self)@.drop_first(),
    {
        match self.next {
            None => None,
            Some(node) => {
                assert(node@.drop_first() =~= chain(node.next));
                self.next = match &node.next {
                    None => None,
                    Some(b) => Some(&**b),
                };
                Some(node.data)
            },
        }
    }
}

} // verus!
