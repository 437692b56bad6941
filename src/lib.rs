//! Generic containers (an indexed array and a singly linked list), simple sorting routines and
//! small design-pattern models.
pub mod patterns;
pub mod rs_array;
pub mod rs_linked_list;
pub mod sort;

pub use rs_linked_list::{IntoIter, Iter, IterMut, LinkedList, Node};
