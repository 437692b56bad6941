//! Visitor: each element hands itself to the visitor method made for its kind.
use vstd::prelude::*;

verus! {

/// The first kind of element.
pub struct ElementA;

/// The second kind of element.
pub struct ElementB;

/// An operation with one method per kind of element.
pub trait Visitor {
    /// What visiting an element of the first kind reports.
    spec fn seen_a(&self) -> Seq<char>;

    /// What visiting an element of the second kind reports.
    spec fn seen_b(&self) -> Seq<char>;

    /// Visits an element of the first kind.
    fn visit_a(&self, el: &ElementA) -> (r: String)
        ensures
            r@ == self.seen_a(),
    ;

    /// Visits an element of the second kind.
    fn visit_b(&self, el: &ElementB) -> (r: String)
        ensures
            r@ == self.seen_b(),
    ;
}

/// An element that accepts visitors.
pub trait Element {
    /// Whether the element is of the first kind.
    spec fn is_a(&self) -> bool;

    /// Hands the element to the visitor method for its kind; returns its report.
    fn accept(&self, visitor: &dyn Visitor) -> (r: String)
        ensures
            r@ == if self.is_a() {
                visitor.seen_a()
            } else {
                visitor.seen_b()
            },
    ;
}

impl Element for ElementA {
    open spec fn is_a(&self) -> bool {
        true
    }

    fn accept(&self, visitor: &dyn Visitor) -> (r: String) {
        visitor.visit_a(self)
    }
}

impl Element for ElementB {
    open spec fn is_a(&self) -> bool {
        false
    }

    fn accept(&self, visitor: &dyn Visitor) -> (r: String) {
        visitor.visit_b(self)
    }
}

/// Reports which kind of element it visited.
pub struct ConcreteVisitor;

impl Visitor for ConcreteVisitor {
    open spec fn seen_a(&self) -> Seq<char> {
        "El_A"@
    }

    open spec fn seen_b(&self) -> Seq<char> {
        "El_B"@
    }

    fn visit_a(&self, el: &ElementA) -> (r: String) {
        "El_A".to_owned()
    }

    fn visit_b(&self, el: &ElementB) -> (r: String) {
        "El_B".to_owned()
    }
}

} // verus!
