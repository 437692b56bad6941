//! Singly linked list.
//!
//! Each node owns its element and, optionally, the rest of the chain. The list owns the head
//! node and counts the nodes. Elements are pushed and popped at the head, and the list can be
//! walked by value, by shared reference or by exclusive reference.
use vstd::prelude::*;

verus! {

/// One link of the chain: an element and the exclusively owned rest of the chain.
#[derive(Debug)]
pub struct Node<T> {
    data: T,
    next: Option<Box<Node<T>>>,
}

/// The elements held by a chain of nodes, from the given link to the end.
pub closed spec fn chain_values<T>(link: Option<Box<Node<T>>>) -> Seq<T>
    decreases link,
{
    match link {
        None => Seq::empty(),
        Some(node) => seq![node.data] + chain_values(node.next),
    }
}

impl<T> Node<T> {
    /// The element held by this node.
    pub closed spec fn value(self) -> T {
        self.data
    }

    /// The elements of the nodes that follow this one.
    pub closed spec fn rest(self) -> Seq<T> {
        chain_values(self.next)
    }

    /// The elements from this node to the end of the chain.
    pub open spec fn values(self) -> Seq<T> {
        seq![self.value()] + self.rest()
    }

    /// A node holding `data` with no successor.
    pub fn new(data: T) -> (r: Self)
        ensures
            r.value() == data,
            r.rest() == Seq::<T>::empty(),
    {
        Node { data, next: None }
    }

    /// Replaces the element, keeping the successors.
    pub fn set(&mut self, data: T)
        ensures
            final(self).value() == data,
            final(self).rest() == old(self).rest(),
    {
        self.data = data;
    }

    /// The element of this node.
    pub fn get(&self) -> (r: Option<&T>)
        ensures
            r == Some(&self.value()),
    {
        Some(&self.data)
    }

    /// Makes `el` the successor of this node, dropping the former successors.
    pub fn set_next(&mut self, el: Node<T>)
        ensures
            final(self).value() == old(self).value(),
            final(self).rest() == el.values(),
    {
        self.next = Some(Box::new(el));
    }
}

/// A stack-like list: push and pop work at the head.
#[derive(Debug)]
pub struct LinkedList<T> {
    len: usize,
    node: Option<Box<Node<T>>>,
}

impl<T> View for LinkedList<T> {
    type V = Seq<T>;

    /// The elements from head to tail.
    closed spec fn view(&self) -> Seq<T> {
        chain_values(self.node)
    }
}

impl<T> LinkedList<T> {
    /// The node count agrees with the chain.
    pub closed spec fn wf(self) -> bool {
        self.len == chain_values(self.node).len()
    }

    /// An empty list.
    pub fn new() -> (r: Self)
        ensures
            r.wf(),
            r@ == Seq::<T>::empty(),
    {
        LinkedList { len: 0, node: None }
    }

    /// The number of elements.
    pub fn len(&self) -> (r: usize)
        requires
            self.wf(),
        ensures
            r == self@.len(),
    {
        self.len
    }

    /// Whether the list holds no element.
    pub fn is_empty(&self) -> (r: bool)
        requires
            self.wf(),
        ensures
            r == (self@.len() == 0),
    {
        self.len == 0
    }

    /// Puts `el` at the head.
    pub fn push(&mut self, el: T)
        requires
            old(self).wf(),
            old(self)@.len() < usize::MAX,
        ensures
            final(self).wf(),
            final(self)@ == seq![el] + old(self)@,
    {
        let mut rest: Option<Box<Node<T>>> = None;
        std::mem::swap(&mut rest, &mut self.node);
        self.node = Some(Box::new(Node { data: el, next: rest }));
        self.len = self.len + 1;
    }

    /// Takes the head element out; its successor becomes the head. `None` when the list is empty.
    pub fn pop(&mut self) -> (r: Option<T>)
        requires
            old(self).wf(),
        ensures
            final(self).wf(),
            old(self)@.len() == 0 ==> r is None && final(self)@ == old(self)@,
            old(self)@.len() > 0 ==> r == Some(old(self)@[0]) && final(self)@ == old(self)@.drop_first(),
    {
        let mut head: Option<Box<Node<T>>> = None;
        std::mem::swap(&mut head, &mut self.node);
        match head {
            None => None,
            Some(node) => {
                let node = *node;
                assert(chain_values(Some(Box::new(node))).drop_first() =~= chain_values(node.next));
                self.node = node.next;
                self.len = self.len - 1;
                Some(node.data)
            },
        }
    }

    /// The head element, if any.
    pub fn peek(&self) -> (r: Option<&T>)
        ensures
            self@.len() == 0 ==> r is None,
            self@.len() > 0 ==> r == Some(&self@[0]),
    {
        match &self.node {
            None => None,
            Some(node) => Some(&node.data),
        }
    }

    /// Exclusive access to the head element, if any. What is written through it becomes the
    /// head of the list.
    pub fn peek_as_mut(&mut self) -> (r: Option<&mut T>)
        requires
            old(self).wf(),
        ensures
            old(self)@.len() == 0 ==> r is None && final(self)@ == old(self)@,
            old(self)@.len() > 0 ==> r is Some && *r.unwrap() == old(self)@[0] && final(self)@
                == old(self)@.update(0, *final(r.unwrap())),
            final(self).wf(),
    {
        match &mut self.node {
            None => None,
            Some(node) => Some(&mut node.data),
        }
    }
}


impl<T> Drop for LinkedList<T> {
    /// Unlinks the nodes one at a time from the head, so that dropping a long list does not
    /// recurse down the chain.
    fn drop(&mut self)
        opens_invariants none
        no_unwind
    {
        let mut cur: Option<Box<Node<T>>> = None;
        std::mem::swap(&mut cur, &mut self.node);
        self.len = 0;
        loop
            decreases chain_values(cur).len(),
        {
            match cur {
                None => {
                    break;
                },
                Some(mut node) => {
                    let mut next: Option<Box<Node<T>>> = None;
                    std::mem::swap(&mut next, &mut node.next);
                    cur = next;
                },
            }
        }
    }
}

/// A consuming walk over a list: yields the elements by value, head first.
pub struct IntoIter<T>(LinkedList<T>);

impl<T> View for IntoIter<T> {
    type V = Seq<T>;

    /// The elements not yet yielded.
    closed spec fn view(&self) -> Seq<T> {
        self.0@
    }
}

impl<T> IntoIter<T> {
    /// The list that is drained stays well formed.
    pub closed spec fn wf(self) -> bool {
        self.0.wf()
    }

    /// Yields the next element and removes it; `None` once everything has been yielded.
    pub fn next(&mut self) -> (r: Option<T>)
        requires
            old(self).wf(),
        ensures
            final(self).wf(),
            old(self)@.len() == 0 ==> r is None && final(self)@ == old(self)@,
            old(self)@.len() > 0 ==> r == Some(old(self)@[0]) && final(self)@ == old(self)@.drop_first(),
    {
        self.0.pop()
    }
}

/// A walk over shared references to the elements, head first.
pub struct Iter<'a, T> {
    next: Option<&'a Node<T>>,
}

impl<'a, T> View for Iter<'a, T> {
    type V = Seq<T>;

    /// The elements not yet yielded.
    closed spec fn view(&self) -> Seq<T> {
        match self.next {
            None => Seq::empty(),
            Some(node) => node.values(),
        }
    }
}

impl<'a, T> Iter<'a, T> {
    /// Yields a reference to the next element and moves on to its successor; `None` once the
    /// end has been reached, and from then on.
    pub fn next(&mut self) -> (r: Option<&'a T>)
        ensures
            old(self)@.len() == 0 ==> r is None && final(self)@ == old(self)@,
            old(self)@.len() > 0 ==> r == Some(&old(self)@[0]) && final(self)@ == old(self)@.drop_first(),
    {
        match self.next {
            None => None,
            Some(node) => {
                assert(node.values().drop_first() =~= node.rest());
                self.next = match &node.next {
                    None => None,
                    Some(b) => Some(&**b),
                };
                Some(&node.data)
            },
        }
    }
}

/// A walk over exclusive references to the elements, head first. Each step gives up the
/// reference to the previous node before handing out the next element.
pub struct IterMut<'a, T> {
    next: Option<&'a mut Node<T>>,
}

impl<'a, T> View for IterMut<'a, T> {
    type V = Seq<T>;

    /// The elements not yet yielded, as they are now.
    closed spec fn view(&self) -> Seq<T> {
        match self.next {
            None => Seq::empty(),
            Some(node) => node.values(),
        }
    }
}

impl<'a, T> IterMut<'a, T> {
    /// The node whose element comes next, if any.
    pub closed spec fn cursor(self) -> Option<&'a mut Node<T>> {
        self.next
    }

    /// Yields exclusive access to the next element and moves on to its successor; `None` once
    /// the end has been reached, and from then on. The chain from the yielded node on ends up
    /// holding what is finally written through the returned reference, followed by what the
    /// rest of the walk leaves behind.
    pub fn next(&mut self) -> (r: Option<&'a mut T>)
        ensures
            old(self)@.len() == 0 ==> r is None && final(self)@ == old(self)@,
            old(self)@.len() > 0 ==> r is Some && *r.unwrap() == old(self)@[0] && final(self)@
                == old(self)@.drop_first(),
            old(self).cursor() is None <==> old(self)@.len() == 0,
            final(self).cursor() is None <==> final(self)@.len() == 0,
            old(self)@.len() > 0 && final(self).cursor() is None ==> final(old(self).cursor().unwrap()).values()
                == seq![*final(r.unwrap())],
            old(self)@.len() > 0 && final(self).cursor() is Some ==> final(old(self).cursor().unwrap()).values()
                == seq![*final(r.unwrap())] + final(final(self).cursor().unwrap()).values(),
    {
        let mut cur: Option<&'a mut Node<T>> = None;
        std::mem::swap(&mut cur, &mut self.next);
        match cur {
            None => None,
            Some(node) => {
                assert(node.values().drop_first() =~= node.rest());
                self.next = match &mut node.next {
                    None => None,
                    Some(b) => Some(&mut **b),
                };
                Some(&mut node.data)
            },
        }
    }
}

impl<T> LinkedList<T> {
    /// Turns the list into a walk that hands out its elements by value.
    pub fn into_iter(self) -> (r: IntoIter<T>)
        requires
            self.wf(),
        ensures
            r.wf(),
            r@ == self@,
    {
        IntoIter(self)
    }

    /// A walk over shared references to the elements, head first.
    pub fn iter(&self) -> (r: Iter<'_, T>)
        ensures
            r@ == self@,
    {
        Iter {
            next: match &self.node {
                None => None,
                Some(b) => Some(&**b),
            },
        }
    }

    /// A walk over exclusive references to the elements, head first. Once the walk is over, the
    /// list holds what the walk left in its nodes.
    pub fn iter_mut(&mut self) -> (r: IterMut<'_, T>)
        ensures
            r@ == old(self)@,
            final(self)@ == (match r.cursor() {
                None => Seq::empty(),
                Some(node) => final(node).values(),
            }),
            old(self).wf() && final(self)@.len() == old(self)@.len() ==> final(self).wf(),
    {
        IterMut {
            next: match &mut self.node {
                None => None,
                Some(b) => Some(&mut **b),
            },
        }
    }
}

/// What `push(v)` does to the contents, by its contract.
pub open spec fn push_step<T>(before: Seq<T>, after: Seq<T>, v: T) -> bool {
    after == seq![v] + before
}

/// What a `pop`, or a step of a walk, that returns `Some(v)` does to the contents, by its
/// contract.
pub open spec fn pop_step<T>(before: Seq<T>, after: Seq<T>, v: T) -> bool {
    before.len() > 0 && v == before[0] && after == before.drop_first()
}

/// The contents after pushing `xs[0]`, ..., `xs[k - 1]` in turn onto a list holding `s`: the
/// pushed values, latest first, in front of `s`.
pub open spec fn pushed_onto<T>(s: Seq<T>, xs: Seq<T>, k: int) -> Seq<T> {
    Seq::new((k + s.len()) as nat, |j: int| if j < k { xs[k - 1 - j] } else { s[j - k] })
}

proof fn lemma_push_phase<T>(s: Seq<T>, xs: Seq<T>, states: Seq<Seq<T>>, k: int)
    requires
        0 <= k <= xs.len(),
        states.len() > xs.len(),
        states[0] == s,
        forall|i: int| 0 <= i < xs.len() ==> #[trigger] push_step(states[i], states[i + 1], xs[i]),
    ensures
        states[k] == pushed_onto(s, xs, k),
    decreases k,
{
    if k == 0 {
        assert(states[0] =~= pushed_onto(s, xs, 0));
    } else {
        lemma_push_phase(s, xs, states, k - 1);
        assert(push_step(states[k - 1], states[k - 1 + 1], xs[k - 1]));
        assert(states[k] =~= pushed_onto(s, xs, k));
    }
}

proof fn lemma_pop_phase<T>(s: Seq<T>, xs: Seq<T>, states: Seq<Seq<T>>, popped: Seq<T>, k: int)
    requires
        0 <= k <= xs.len(),
        states.len() == 2 * xs.len() + 1,
        popped.len() == xs.len(),
        states[xs.len() as int] == pushed_onto(s, xs, xs.len() as int),
        forall|i: int|
            0 <= i < xs.len() ==> #[trigger] pop_step(
                states[xs.len() + i],
                states[xs.len() + i + 1],
                popped[i],
            ),
    ensures
        states[xs.len() + k] == pushed_onto(s, xs, xs.len() - k),
        forall|i: int| 0 <= i < k ==> popped[i] == xs[xs.len() - 1 - i],
    decreases k,
{
    if k > 0 {
        let n = xs.len() as int;
        lemma_pop_phase(s, xs, states, popped, k - 1);
        assert(pop_step(states[n + (k - 1)], states[n + (k - 1) + 1], popped[k - 1]));
        assert(states[n + k] =~= pushed_onto(s, xs, n - k));
    }
}

/// Last in, first out. `states` traces a list that starts out holding `s`, receives `push(xs[i])`
/// for each `i` in order, and then `xs.len()` calls of `pop`, which return `popped`. The pops
/// return `xs` reversed and the list ends up holding `s` again, so a list that started empty
/// has length 0 again.
pub proof fn lemma_lifo<T>(s: Seq<T>, xs: Seq<T>, states: Seq<Seq<T>>, popped: Seq<T>)
    requires
        states.len() == 2 * xs.len() + 1,
        popped.len() == xs.len(),
        states[0] == s,
        forall|i: int| 0 <= i < xs.len() ==> #[trigger] push_step(states[i], states[i + 1], xs[i]),
        forall|i: int|
            0 <= i < xs.len() ==> #[trigger] pop_step(
                states[xs.len() + i],
                states[xs.len() + i + 1],
                popped[i],
            ),
    ensures
        popped == xs.reverse(),
        states.last() == s,
        s.len() == 0 ==> states.last().len() == 0,
{
    let n = xs.len() as int;
    lemma_push_phase(s, xs, states, n);
    lemma_pop_phase(s, xs, states, popped, n);
    assert(states[n + n] =~= s);
    assert(popped =~= xs.reverse());
}

proof fn lemma_drain_prefix<T>(s: Seq<T>, states: Seq<Seq<T>>, yielded: Seq<T>, k: int)
    requires
        0 <= k <= s.len(),
        states.len() == s.len() + 1,
        states[0] == s,
        forall|i: int|
            0 <= i < s.len() ==> #[trigger] pop_step(states[i], states[i + 1], yielded[i]),
    ensures
        states[k] == s.skip(k),
        forall|i: int| 0 <= i < k ==> yielded[i] == s[i],
    decreases k,
{
    if k == 0 {
        assert(s.skip(0) =~= s);
    } else {
        lemma_drain_prefix(s, states, yielded, k - 1);
        assert(pop_step(states[k - 1], states[k - 1 + 1], yielded[k - 1]));
        assert(states[k] =~= s.skip(k));
    }
}

/// Walking to the end. `states` traces a walk (`IntoIter`, or `Iter` with its references read
/// as the elements) that starts out holding `s` and is advanced `s.len()` times, yielding
/// `yielded`. The walk yields every element of `s`, head first, and is then empty, so that every
/// further call yields nothing.
pub proof fn lemma_drain<T>(s: Seq<T>, states: Seq<Seq<T>>, yielded: Seq<T>)
    requires
        states.len() == s.len() + 1,
        yielded.len() == s.len(),
        states[0] == s,
        forall|i: int|
            0 <= i < s.len() ==> #[trigger] pop_step(states[i], states[i + 1], yielded[i]),
    ensures
        yielded == s,
        states.last().len() == 0,
{
    lemma_drain_prefix(s, states, yielded, s.len() as int);
    assert(yielded =~= s);
}

} // verus!
