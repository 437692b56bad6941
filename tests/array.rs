use structure::rs_array::{Array, ArrayError, Element};

#[test]
fn test_element() -> () {
    let mut e = Element::<String>::new("你好".to_string(), 0);
    println!("{:?}", e);
    println!("{}", e.get_data());
    let _ = e.set_data("hello".to_string());
    println!("{}", e.get_data_ref());
    assert_eq!(e.get_data(), "hello".to_string());
    assert_eq!(*e.get_index(), 0);
}

#[test]
fn test_array_new() -> () {
    let mut arr = Array::<u8>::new();
    println!("{:?}", &arr);
    println!("{}", arr.is_empty());
    println!("{}", arr.is_full());
    let _ = arr.push(56);
    let _ = arr.push(99);
    let _ = arr.push(110);
    println!("{:?}", &arr);
    println!("{}", arr.is_empty());
    println!("{}", arr.is_full());
}

#[test]
fn test_array_bind() -> () {
    let mut arr = Array::<u8>::new_bind(5);
    let _ = arr.pop();
    let _ = arr.remove(1);
    println!("{:?}", &arr);
    println!("{}", arr.is_empty());
    println!("{}", arr.is_full());
    let _ = arr.push(56);
    let _ = arr.set(2, 110);
    println!("{:?}", &arr);
    println!("{}", arr.is_empty());
    println!("{}", arr.is_full());
    println!("{:?}", arr.get(1));
}

#[test]
fn empty_array_is_empty_and_full() {
    let arr = Array::<u8>::new();
    assert!(arr.is_empty());
    assert!(arr.is_full());
}

#[test]
fn pushes_are_read_back_in_order_with_their_tags() {
    let mut arr = Array::<u8>::new();
    arr.push(56);
    arr.push(99);
    arr.push(110);
    assert!(!arr.is_empty());
    assert!(!arr.is_full());
    for (i, v) in [56u8, 99, 110].iter().enumerate() {
        let e = arr.get(i as u32).unwrap();
        assert_eq!(*e.get_data_ref(), *v);
        assert_eq!(*e.get_index(), i as u32);
    }
    assert_eq!(arr.get(3).unwrap_err(), ArrayError::OutOfBounds);
}

#[test]
fn new_bind_then_set_and_get() {
    let mut arr = Array::<u8>::new_bind(3);
    assert!(!arr.is_empty());
    assert!(!arr.is_full());
    for i in 0..3u32 {
        let e = arr.get(i).unwrap();
        assert_eq!(e.get_data(), 0);
        assert_eq!(*e.get_index(), i);
    }
    assert_eq!(arr.set(1, 42), Ok(()));
    assert_eq!(arr.get(1).unwrap().get_data(), 42);
    assert_eq!(*arr.get(1).unwrap().get_index(), 1);
    assert_eq!(arr.get(0).unwrap().get_data(), 0);
    assert_eq!(arr.get(2).unwrap().get_data(), 0);
}

#[test]
fn remove_shifts_later_slots_and_keeps_tags() {
    let mut arr = Array::<u8>::new();
    for v in [10u8, 20, 30, 40] {
        arr.push(v);
    }
    assert_eq!(arr.remove(1), Ok(()));
    assert_eq!(arr.get(0).unwrap().get_data(), 10);
    assert_eq!(arr.get(1).unwrap().get_data(), 30);
    assert_eq!(*arr.get(1).unwrap().get_index(), 2);
    assert_eq!(arr.get(2).unwrap().get_data(), 40);
    assert_eq!(arr.get(3).unwrap_err(), ArrayError::OutOfBounds);
}

#[test]
fn out_of_bounds_and_underflow_are_reported() {
    let mut arr = Array::<u8>::new_bind(2);
    assert_eq!(arr.remove(2), Err(ArrayError::OutOfBounds));
    assert_eq!(arr.set(5, 1), Err(ArrayError::OutOfBounds));
    assert_eq!(arr.get(2).unwrap_err(), ArrayError::OutOfBounds);
    assert_eq!(arr.pop(), Ok(()));
    assert_eq!(arr.pop(), Ok(()));
    assert!(arr.is_empty());
    assert_eq!(arr.pop(), Err(ArrayError::EmptyStructureUnderflow));
    assert!(arr.is_empty());
}

#[test]
fn fill_cursor_depends_on_constructor() {
    let mut bound = Array::<u8>::new_bind(0);
    assert!(bound.is_empty());
    assert!(bound.is_full());
    bound.push(1);
    assert!(!bound.is_full());
    assert_eq!(*bound.get(0).unwrap().get_index(), 0);
}
