//! Indexed array.
//!
//! An ordered sequence of slots. Each slot holds an element and the position it was created
//! at; that tag is not renumbered when slots before it are removed. The array counts its slots
//! and keeps a fill cursor, which only the pre-sizing constructor sets and which `is_full`
//! compares with the slot count.
use vstd::prelude::*;

verus! {

/// Why an operation on an [`Array`] was refused.
#[derive(Debug, Clone, Copy, PartialEq, Eq, Structural)]
pub enum ArrayError {
    /// The index is not below the number of slots.
    OutOfBounds,
    /// There is no slot to take away.
    EmptyStructureUnderflow,
}

/// One slot of an [`Array`]: an element and the position it was created at.
#[derive(Debug, Clone)]
pub struct Element<T> {
    data: T,
    index: u32,
}

impl<T> Element<T> {
    /// The element held.
    pub closed spec fn value(self) -> T {
        self.data
    }

    /// The position the slot was created at.
    pub closed spec fn position(self) -> u32 {
        self.index
    }

    /// Whether the slot holds `data` under the position tag `index`.
    pub open spec fn holds(self, data: T, index: u32) -> bool {
        self.value() == data && self.position() == index
    }

    /// A slot holding `data`, tagged with `index`.
    pub fn new(data: T, index: u32) -> (r: Self)
        ensures
            r.holds(data, index),
    {
        Element { data, index }
    }

    /// Overwrites the element; the position tag stays.
    pub fn set_data(&mut self, data: T)
        ensures
            final(self).holds(data, old(self).position()),
    {
        self.data = data;
    }

    /// A copy of the element.
    pub fn get_data(&self) -> (r: T)
        where
            T: Clone,
        ensures
            cloned(self.value(), r),
    {
        self.data.clone()
    }

    /// A reference to the element.
    pub fn get_data_ref(&self) -> (r: &T)
        ensures
            *r == self.value(),
    {
        &self.data
    }

    /// A reference to the position tag.
    pub fn get_index(&self) -> (r: &u32)
        ensures
            *r == self.position(),
    {
        &self.index
    }
}

/// An ordered, growable sequence of slots.
#[derive(Debug, Clone)]
pub struct Array<T> {
    elements: Vec<Element<T>>,
    length: u32,
    current: u32,
}

impl<T> View for Array<T> {
    type V = Seq<Element<T>>;

    /// The slots in order.
    closed spec fn view(&self) -> Seq<Element<T>> {
        self.elements@
    }
}

impl<T> Array<T> {
    /// The slot count agrees with the slots stored.
    pub closed spec fn wf(self) -> bool {
        self.length == self.elements@.len()
    }

    /// The fill cursor.
    pub closed spec fn cursor(self) -> u32 {
        self.current
    }

    /// An empty array.
    pub fn new() -> (r: Self)
        ensures
            r.wf(),
            r@ == Seq::<Element<T>>::empty(),
            r.cursor() == 0,
    {
        Array { elements: Vec::new(), length: 0, current: 0 }
    }

    fn get_current(&self) -> (r: &u32)
        ensures
            *r == self.cursor(),
    {
        &self.current
    }

    fn get_length(&self) -> (r: &u32)
        requires
            self.wf(),
        ensures
            *r == self@.len(),
    {
        &self.length
    }

    /// Whether the array holds no slot.
    pub fn is_empty(&self) -> (r: bool)
        requires
            self.wf(),
        ensures
            r == (self@.len() == 0),
    {
        *self.get_length() == 0
    }

    /// Whether the fill cursor has reached the slot count.
    pub fn is_full(&self) -> (r: bool)
        requires
            self.wf(),
        ensures
            r == (self.cursor() == self@.len()),
    {
        *self.get_current() == *self.get_length()
    }

    /// Appends a slot holding `data`, tagged with the slot count before the call.
    pub fn push(&mut self, data: T)
        requires
            old(self).wf(),
            old(self)@.len() < u32::MAX,
        ensures
            final(self).wf(),
            final(self).cursor() == old(self).cursor(),
            final(self)@.len() == old(self)@.len() + 1,
            final(self)@.drop_last() == old(self)@,
            final(self)@.last().holds(data, old(self)@.len() as u32),
    {
        let tag = *self.get_length();
        self.elements.push(Element::new(data, tag));
        self.length = self.length + 1;
        assert(self.elements@.drop_last() =~= old(self)@);
    }

    /// Takes the last slot away. Refused on an empty array.
    pub fn pop(&mut self) -> (r: Result<(), ArrayError>)
        requires
            old(self).wf(),
        ensures
            final(self).wf(),
            final(self).cursor() == old(self).cursor(),
            old(self)@.len() == 0 ==> r == Err::<(), ArrayError>(ArrayError::EmptyStructureUnderflow)
                && final(self)@ == old(self)@,
            old(self)@.len() > 0 ==> r is Ok && final(self)@ == old(self)@.drop_last(),
    {
        if self.length == 0 {
            return Err(ArrayError::EmptyStructureUnderflow);
        }
        let _ = self.elements.pop();
        self.length = self.length - 1;
        Ok(())
    }

    /// Takes away the slot at `index`; the later slots move one place to the front.
    pub fn remove(&mut self, index: u32) -> (r: Result<(), ArrayError>)
        requires
            old(self).wf(),
        ensures
            final(self).wf(),
            final(self).cursor() == old(self).cursor(),
            index >= old(self)@.len() ==> r == Err::<(), ArrayError>(ArrayError::OutOfBounds)
                && final(self)@ == old(self)@,
            index < old(self)@.len() ==> r is Ok && final(self)@ == old(self)@.remove(index as int),
    {
        if index >= self.length {
            return Err(ArrayError::OutOfBounds);
        }
        let _ = self.elements.remove(index as usize);
        self.length = self.length - 1;
        Ok(())
    }

    /// The slot at `index`.
    pub fn get(&self, index: u32) -> (r: Result<&Element<T>, ArrayError>)
        requires
            self.wf(),
        ensures
            index < self@.len() ==> r == Ok::<&Element<T>, ArrayError>(&self@[index as int]),
            index >= self@.len() ==> r == Err::<&Element<T>, ArrayError>(ArrayError::OutOfBounds),
    {
        if index >= self.length {
            return Err(ArrayError::OutOfBounds);
        }
        Ok(&self.elements[index as usize])
    }

    /// Overwrites the element in the slot at `index`; the slot keeps its position tag.
    pub fn set(&mut self, index: u32, value: T) -> (r: Result<(), ArrayError>)
        requires
            old(self).wf(),
        ensures
            final(self).wf(),
            final(self).cursor() == old(self).cursor(),
            index >= old(self)@.len() ==> r == Err::<(), ArrayError>(ArrayError::OutOfBounds)
                && final(self)@ == old(self)@,
            index < old(self)@.len() ==> r is Ok && final(self)@.len() == old(self)@.len()
                && final(self)@[index as int].holds(value, old(self)@[index as int].position())
                && forall|j: int|
                0 <= j < old(self)@.len() && j != index ==> #[trigger] final(self)@[j]
                    == old(self)@[j],
    {
        if index >= self.length {
            return Err(ArrayError::OutOfBounds);
        }
        self.elements[index as usize].set_data(value);
        Ok(())
    }
}

impl Array<u8> {
    /// An array of `length` zero-valued slots tagged `0..length`, with the fill cursor at 0.
    pub fn new_bind(length: u32) -> (r: Self)
        ensures
            r.wf(),
            r.cursor() == 0,
            r@.len() == length,
            forall|i: int| 0 <= i < length ==> (#[trigger] r@[i]).holds(0u8, i as u32),
    {
        let mut elements: Vec<Element<u8>> = Vec::new();
        let mut i: u32 = 0;
        while i < length
            invariant
                i <= length,
                elements@.len() == i,
                forall|k: int| 0 <= k < i ==> #[trigger] elements@[k].holds(0u8, k as u32),
            decreases length - i,
        {
            elements.push(Element::new(0u8, i));
            i = i + 1;
        }
        Array { elements, length, current: 0 }
    }
}

/// What `push(data)` does to the slots, by its contract.
pub open spec fn push_step<T>(before: Seq<Element<T>>, after: Seq<Element<T>>, data: T) -> bool {
    &&& after.len() == before.len() + 1
    &&& after.drop_last() == before
    &&& after.last().holds(data, before.len() as u32)
}

proof fn lemma_push_prefix<T>(xs: Seq<T>, states: Seq<Seq<Element<T>>>, k: int)
    requires
        0 <= k <= xs.len(),
        states.len() == xs.len() + 1,
        states[0].len() == 0,
        forall|i: int| 0 <= i < xs.len() ==> #[trigger] push_step(states[i], states[i + 1], xs[i]),
    ensures
        states[k].len() == k,
        forall|i: int| 0 <= i < k ==> #[trigger] states[k][i].holds(xs[i], i as u32),
    decreases k,
{
    if k > 0 {
        lemma_push_prefix(xs, states, k - 1);
        assert(push_step(states[k - 1], states[k - 1 + 1], xs[k - 1]));
        assert forall|i: int| 0 <= i < k implies #[trigger] states[k][i].holds(xs[i], i as u32) by {
            if i < k - 1 {
                assert(states[k][i] == states[k].drop_last()[i]);
            }
        }
    }
}

/// Pushing fills in order. `states` traces an array that starts out empty and receives
/// `push(xs[i])` for each `i` in order. It ends up with `xs.len()` slots, and slot `i`, which is
/// what `get(i)` returns, holds `xs[i]` under the position tag `i`.
pub proof fn lemma_pushes_fill_in_order<T>(xs: Seq<T>, states: Seq<Seq<Element<T>>>)
    requires
        states.len() == xs.len() + 1,
        states[0].len() == 0,
        forall|i: int| 0 <= i < xs.len() ==> #[trigger] push_step(states[i], states[i + 1], xs[i]),
    ensures
        states.last().len() == xs.len(),
        forall|i: int| 0 <= i < xs.len() ==> #[trigger] states.last()[i].holds(xs[i], i as u32),
{
    lemma_push_prefix(xs, states, xs.len() as int);
}

/// Removal keeps the order. Taking away slot `i` of `s`, as `remove(i)` does, leaves
/// `s.len() - 1` slots: those before `i` stay where they were and each later one moves one place
/// to the front, so the one that followed `i` now stands at `i`.
pub proof fn lemma_remove_keeps_order<T>(s: Seq<Element<T>>, i: int)
    requires
        0 <= i < s.len(),
    ensures
        s.remove(i).len() == s.len() - 1,
        forall|k: int| 0 <= k < i ==> #[trigger] s.remove(i)[k] == s[k],
        forall|k: int| i <= k < s.len() - 1 ==> #[trigger] s.remove(i)[k] == s[k + 1],
{
}

} // verus!
