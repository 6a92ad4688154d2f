use led_matrix::collections::InlineVec;
use led_matrix::unwrap::unwrap;

#[test]
fn push_pop_and_clear() {
    let mut v: InlineVec<4, u32> = InlineVec::new();
    assert!(v.is_empty());
    assert_eq!(v.len(), 0);

    v.push(10);
    v.push(20);
    v.push(30);
    assert!(!v.is_empty());
    assert_eq!(v.len(), 3);
    assert_eq!(*v.get(0), 10);
    assert_eq!(*v.get(2), 30);

    assert_eq!(v.pop(), 30);
    assert_eq!(v.len(), 2);

    v.clear();
    assert!(v.is_empty());
}

#[test]
fn set_replaces_in_place() {
    let mut v: InlineVec<4, u32> = InlineVec::default();
    v.push(1);
    v.push(2);
    v.set(0, 9);
    assert_eq!(*v.get(0), 9);
    assert_eq!(*v.get(1), 2);
    assert_eq!(v.len(), 2);
}

#[test]
fn capacity_is_usable_in_full() {
    let mut v: InlineVec<2, u8> = InlineVec::new();
    v.push(1);
    v.push(2);
    assert_eq!(v.len(), 2);
    assert_eq!(v.pop(), 2);
    assert_eq!(v.pop(), 1);
    assert!(v.is_empty());
}

#[test]
fn unwrap_returns_the_value() {
    assert_eq!(unwrap(Some(42)), 42);
    assert_eq!(unwrap(Some("text")), "text");
}
