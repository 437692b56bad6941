use structure::sort::{bubble_sort, insert_sort, select_sort};

#[test]
fn test_bubble() {
    let mut origin = vec![4, 1, 2, 10, 7];
    let _ = bubble_sort(&mut origin);
    assert_eq!(vec![1, 2, 4, 7, 10], origin);
}

#[test]
fn insert_sort_test() {
    let mut list = vec![4, 2, 6, 7, 1, 9];
    insert_sort(&mut list);
    assert_eq!(list, vec![1, 2, 4, 6, 7, 9]);
}

#[test]
fn select_sort_test() {
    let mut list = vec![4, 2, 6, 7, 1, 9];
    select_sort(&mut list);
    assert_eq!(list, vec![1, 2, 4, 6, 7, 9]);
}

#[test]
fn bubble_sort_keeps_duplicates_and_negatives() {
    let mut v = vec![3, -1, 3, 0, -7, 3];
    bubble_sort(&mut v);
    assert_eq!(v, vec![-7, -1, 0, 3, 3, 3]);
}

#[test]
fn sorts_accept_empty_and_single_inputs() {
    let mut empty: Vec<i32> = vec![];
    bubble_sort(&mut empty);
    assert!(empty.is_empty());
    let mut e1: Vec<u32> = vec![];
    insert_sort(&mut e1);
    assert!(e1.is_empty());
    let mut e2: Vec<u32> = vec![];
    select_sort(&mut e2);
    assert!(e2.is_empty());
    let mut one: Vec<u32> = vec![5];
    select_sort(&mut one);
    assert_eq!(one, vec![5]);
}

#[test]
fn sorts_handle_reverse_order_and_extremes() {
    let mut a: Vec<u32> = vec![u32::MAX, 9, 8, 0, 8];
    insert_sort(&mut a);
    assert_eq!(a, vec![0, 8, 8, 9, u32::MAX]);
    let mut b: Vec<u32> = vec![u32::MAX, 9, 8, 0, 8];
    select_sort(&mut b);
    assert_eq!(b, vec![0, 8, 8, 9, u32::MAX]);
    let mut c = vec![i32::MAX, 5, i32::MIN, 0];
    bubble_sort(&mut c);
    assert_eq!(c, vec![i32::MIN, 0, 5, i32::MAX]);
}

#[test]
fn bubble_sort_orders_any_totally_ordered_type() {
    let mut words = vec!["pear", "apple", "fig", "apple"];
    bubble_sort(&mut words);
    assert_eq!(words, vec!["apple", "apple", "fig", "pear"]);
    let mut letters = ['c', 'a', 'b'];
    bubble_sort(&mut letters);
    assert_eq!(letters, ['a', 'b', 'c']);
}
