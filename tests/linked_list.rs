use structure::{LinkedList, Node};

#[test]
fn pushes_then_pops_come_out_in_reverse() {
    let mut list = LinkedList::new();
    assert!(list.is_empty());
    for v in [1, 2, 3, 4] {
        list.push(v);
    }
    assert_eq!(list.len(), 4);
    assert_eq!(list.pop(), Some(4));
    assert_eq!(list.pop(), Some(3));
    assert_eq!(list.pop(), Some(2));
    assert_eq!(list.pop(), Some(1));
    assert_eq!(list.len(), 0);
    assert!(list.is_empty());
    assert_eq!(list.pop(), None);
    assert_eq!(list.len(), 0);
}

#[test]
fn iter_yields_head_first_and_then_nothing() {
    let mut list = LinkedList::new();
    list.push('a');
    list.push('b');
    list.push('c');
    let mut it = list.iter();
    assert_eq!(it.next(), Some(&'c'));
    assert_eq!(it.next(), Some(&'b'));
    assert_eq!(it.next(), Some(&'a'));
    assert_eq!(it.next(), None);
    assert_eq!(it.next(), None);
    assert_eq!(list.len(), 3);
    assert_eq!(list.peek(), Some(&'c'));
}

#[test]
fn into_iter_drains_every_element() {
    let mut list = LinkedList::new();
    list.push(1);
    list.push(2);
    list.push(3);
    let mut it = list.into_iter();
    assert_eq!(it.next(), Some(3));
    assert_eq!(it.next(), Some(2));
    assert_eq!(it.next(), Some(1));
    assert_eq!(it.next(), None);
    assert_eq!(it.next(), None);
}

#[test]
fn iter_mut_writes_back_into_the_list() {
    let mut list = LinkedList::new();
    list.push(1);
    list.push(2);
    list.push(3);
    let mut it = list.iter_mut();
    while let Some(v) = it.next() {
        *v *= 10;
    }
    assert_eq!(list.pop(), Some(30));
    assert_eq!(list.pop(), Some(20));
    assert_eq!(list.pop(), Some(10));
}

#[test]
fn peek_and_peek_as_mut_touch_only_the_head() {
    let mut list: LinkedList<u32> = LinkedList::new();
    assert_eq!(list.peek(), None);
    assert_eq!(list.peek_as_mut(), None);
    list.push(1);
    list.push(2);
    if let Some(v) = list.peek_as_mut() {
        *v = 42;
    }
    assert_eq!(list.peek(), Some(&42));
    assert_eq!(list.len(), 2);
    assert_eq!(list.pop(), Some(42));
    assert_eq!(list.pop(), Some(1));
}

#[test]
fn long_list_drops_without_deep_recursion() {
    let mut list = LinkedList::new();
    for i in 0..200_000u32 {
        list.push(i);
    }
    assert_eq!(list.len(), 200_000);
    drop(list);
}

#[test]
fn node_accessors() {
    let mut n = Node::new(5);
    assert_eq!(n.get(), Some(&5));
    n.set(6);
    assert_eq!(n.get(), Some(&6));
    n.set_next(Node::new(7));
    assert_eq!(n.get(), Some(&6));
}
