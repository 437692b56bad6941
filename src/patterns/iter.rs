//! Iterator: an aggregate hands out a cursor over a copy of its nodes, which walks them in
//! order.
use vstd::prelude::*;

pub mod impl_iter;

verus! {

/// A named node.
#[derive(Clone, Debug)]
pub struct Node {
    name: String,
}

impl View for Node {
    type V = Seq<char>;

    /// The name.
    closed spec fn view(&self) -> Seq<char> {
        self.name@
    }
}

impl Node {
    /// A node named `name`.
    pub fn new(name: &str) -> (r: Self)
        ensures
            r@ == name@,
    {
        Node { name: name.to_owned() }
    }

    fn copy(&self) -> (r: Self)
        ensures
            r@ == self@,
    {
        Node { name: self.name.clone() }
    }
}

/// A cursor over a sequence of nodes.
pub trait Iter {
    /// The nodes not yet handed out.
    spec fn remaining(&self) -> Seq<Seq<char>>;

    /// Whether a node is left.
    #[allow(non_snake_case)]
    fn hasNext(&self) -> (r: bool)
        ensures
            r == (self.remaining().len() > 0),
    ;

    /// Hands out the next node and moves past it.
    fn next(&mut self) -> (r: &Node)
        requires
            old(self).remaining().len() > 0,
        ensures
            r@ == old(self).remaining()[0],
            final(self).remaining() == old(self).remaining().drop_first(),
    ;
}

/// A cursor over its own list of nodes.
#[derive(Clone)]
pub struct NodeList {
    nodes: Vec<Node>,
    index: usize,
}

impl NodeList {
    fn new(nodes: Vec<Node>) -> (r: Self)
        ensures
            r.remaining() == nodes@.map_values(|n: Node| n@),
    {
        let r = NodeList { nodes, index: 0 };
        assert(nodes@.skip(0) =~= nodes@);
        r
    }
}

impl Iter for NodeList {
    closed spec fn remaining(&self) -> Seq<Seq<char>> {
        if self.index < self.nodes@.len() {
            self.nodes@.skip(self.index as int).map_values(|n: Node| n@)
        } else {
            Seq::empty()
        }
    }

    #[allow(non_snake_case)]
    fn hasNext(&self) -> (r: bool) {
        let len = self.nodes.len();
        len > self.index
    }

    fn next(&mut self) -> (r: &Node) {
        let index = self.index;
        let len = self.nodes.len();
        assert(index < len);
        self.index = index + 1;
        assert(self.remaining() =~= old(self).remaining().drop_first());
        &self.nodes[index]
    }
}

/// A collection of nodes that can be walked.
#[allow(non_snake_case)]
pub trait Aggregate {
    /// The nodes held, in order.
    spec fn nodes(&self) -> Seq<Seq<char>>;

    /// Adds `node` after the others.
    fn add(&mut self, node: Node)
        ensures
            final(self).nodes() == old(self).nodes().push(node@),
    ;

    /// Takes away the node at `index`.
    fn remove(&mut self, index: usize)
        requires
            index < old(self).nodes().len(),
        ensures
            final(self).nodes() == old(self).nodes().remove(index as int),
    ;

    /// A cursor over a copy of the nodes held.
    fn getIter(&self) -> (r: NodeList)
        ensures
            r.remaining() == self.nodes(),
    ;
}

/// Nodes kept in a list.
pub struct NodeAggregate {
    nodes: Vec<Node>,
}

impl NodeAggregate {
    /// An aggregate holding no node.
    pub fn new() -> (r: Self)
        ensures
            r.nodes().len() == 0,
    {
        NodeAggregate { nodes: Vec::new() }
    }

    /// A cursor over a copy of the nodes held, with its type known.
    fn cursor(&self) -> (r: NodeList)
        ensures
            r.remaining() == self.nodes(),
    {
        let mut nodes: Vec<Node> = Vec::new();
        let mut i: usize = 0;
        while i < self.nodes.len()
            invariant
                i <= self.nodes@.len(),
                nodes@.len() == i,
                forall|k: int| 0 <= k < i ==> #[trigger] nodes@[k]@ == self.nodes@[k]@,
            decreases self.nodes@.len() - i,
        {
            nodes.push(self.nodes[i].copy());
            i = i + 1;
        }
        assert(nodes@.map_values(|n: Node| n@) =~= self.nodes());
        NodeList::new(nodes)
    }
}

impl Aggregate for NodeAggregate {
    closed spec fn nodes(&self) -> Seq<Seq<char>> {
        self.nodes@.map_values(|n: Node| n@)
    }

    fn add(&mut self, node: Node) {
        self.nodes.push(node);
        assert(self.nodes() =~= old(self).nodes().push(node@));
    }

    fn remove(&mut self, index: usize) {
        self.nodes.remove(index);
        assert(self.nodes() =~= old(self).nodes().remove(index as int));
    }

    #[allow(non_snake_case)]
    fn getIter(&self) -> (r: NodeList) {
        self.cursor()
    }
}

} // verus!
