use mbx::engine_core::TgeVec;
use std::cell::Cell;

#[test]
fn vec_test_new() {
    let vec: TgeVec<i32> = TgeVec::new();
    assert_eq!(vec.len(), 0);
    assert!(vec.is_empty());
    assert_eq!(vec.capacity(), 0);
}

#[test]
fn test_with_capacity() {
    let vec: TgeVec<i32> = TgeVec::with_capacity(42);
    assert_eq!(vec.len(), 0);
    assert!(vec.is_empty());
    assert!(vec.capacity() >= 42);
}

#[test]
fn test_push() {
    let mut vec: TgeVec<i32> = TgeVec::new();
    vec.push(1);
    vec.push(2);
    vec.push(3);
    assert_eq!(vec.len(), 3);
    assert_eq!(vec.as_slice(), [1, 2, 3]);
}

#[test]
fn test_pop() {
    let mut vec: TgeVec<i32> = TgeVec::new();
    vec.push(1);
    vec.push(2);
    vec.push(3);
    assert_eq!(vec.len(), 3);
    assert_eq!(vec.pop(), Some(3));
    assert_eq!(vec.len(), 2);
    assert_eq!(vec.pop(), Some(2));
    assert_eq!(vec.len(), 1);
    assert_eq!(vec.pop(), Some(1));
    assert_eq!(vec.len(), 0);
    assert!(vec.is_empty());
    assert_eq!(vec.pop(), None);
}

#[test]
fn test_insert() {
    let mut vec: TgeVec<i32> = TgeVec::new();
    vec.insert(0, 1);
    vec.insert(1, 2);
    vec.insert(0, 3);
    vec.insert(1, 4);
    assert_eq!(vec.len(), 4);
    assert_eq!(vec.as_slice(), [3, 4, 1, 2]);
}

#[test]
fn test_append() {
    let mut vec1: TgeVec<i32> = TgeVec::new();
    vec1.push(1);
    vec1.push(2);
    vec1.push(3);
    assert_eq!(vec1.len(), 3);

    let mut vec2: TgeVec<i32> = TgeVec::new();
    vec2.push(4);
    vec2.push(5);
    vec2.push(6);
    assert_eq!(vec2.len(), 3);

    vec1.append(&mut vec2);
    assert_eq!(vec1.len(), 6);
    assert!(vec2.is_empty());
    assert_eq!(vec1.as_slice(), [1, 2, 3, 4, 5, 6]);
}

#[test]
fn test_append_vec() {
    let mut vec1: TgeVec<i32> = TgeVec::new();
    vec1.push(1);
    vec1.push(2);
    vec1.push(3);
    assert_eq!(vec1.len(), 3);

    let mut vec2: Vec<i32> = vec![4, 5, 6];
    vec1.append_vec(&mut vec2);
    assert_eq!(vec1.len(), 6);
    assert!(vec2.is_empty());
    assert_eq!(vec1.as_slice(), [1, 2, 3, 4, 5, 6]);
}

#[test]
fn test_extend() {
    let mut vec1: TgeVec<i32> = TgeVec::new();
    vec1.push(1);
    vec1.push(2);
    vec1.push(3);
    assert_eq!(vec1.len(), 3);

    let vec2: Vec<i32> = vec![4, 5, 6];
    vec1.extend(vec2);
    assert_eq!(vec1.len(), 6);
    assert_eq!(vec1.as_slice(), [1, 2, 3, 4, 5, 6]);
}

#[test]
fn test_extend_from_slice() {
    let mut vec: TgeVec<i32> = TgeVec::new();
    vec.push(1);
    vec.push(2);
    vec.push(3);
    assert_eq!(vec.len(), 3);

    let arr: [i32; 3] = [4, 5, 6];
    vec.extend_from_slice(&arr);
    assert_eq!(vec.len(), 6);
    assert_eq!(vec.as_slice(), [1, 2, 3, 4, 5, 6]);
}

#[test]
fn test_from_vec() {
    let vec1: Vec<i32> = vec![1, 2, 3];
    let vec2: TgeVec<i32> = TgeVec::from(vec1);
    assert_eq!(vec2.len(), 3);
    assert_eq!(vec2.as_slice(), [1, 2, 3]);
}

#[test]
fn test_remove() {
    let mut vec: TgeVec<i32> = TgeVec::new();
    vec.push(1);
    vec.push(2);
    vec.push(3);
    vec.push(4);
    assert_eq!(vec.len(), 4);
    assert_eq!(vec.remove(3), 4);
    assert_eq!(vec.remove(1), 2);
    assert_eq!(vec.len(), 2);
    assert_eq!(vec.as_slice(), [1, 3]);
}

#[test]
fn test_swap_remove() {
    let mut vec: TgeVec<i32> = TgeVec::new();
    vec.push(1);
    vec.push(2);
    vec.push(3);
    vec.push(4);
    assert_eq!(vec.len(), 4);
    assert_eq!(vec.swap_remove(1), 2);
    assert_eq!(vec.swap_remove(2), 3);
    assert_eq!(vec.len(), 2);
    assert_eq!(vec.as_slice(), [1, 4]);
}

#[test]
fn test_resize() {
    let mut vec: TgeVec<i32> = TgeVec::new();
    vec.resize(100, 42);
    assert_eq!(vec.len(), 100);
    assert!(vec.as_slice().iter().all(|x| *x == 42));
    vec.resize(50, 0);
    assert_eq!(vec.len(), 50);
    assert!(vec.as_slice().iter().all(|x| *x == 42));
    vec.resize(100, 231);
    assert_eq!(vec.len(), 100);
    assert!(vec.as_slice().iter().take(50).all(|x| *x == 42));
    assert!(vec.as_slice().iter().skip(50).all(|x| *x == 231));
}

#[test]
fn test_resize_with() {
    let mut vec: TgeVec<i32> = TgeVec::new();
    let i: Cell<i32> = Cell::new(0);
    vec.resize_with(100, || {
        i.set(i.get() + 1);
        i.get()
    });
    assert_eq!(vec.len(), 100);
    let mut j: i32 = 0;
    assert!(vec.as_slice().iter().all(|x| {
        j += 1;
        *x == j
    }));
}

#[test]
fn test_truncate() {
    let mut vec: TgeVec<i32> = TgeVec::new();
    vec.push(1);
    vec.push(2);
    vec.push(3);
    vec.push(4);
    assert_eq!(vec.len(), 4);
    vec.truncate(4);
    assert_eq!(vec.len(), 4);
    vec.truncate(100);
    assert_eq!(vec.len(), 4);
    vec.truncate(2);
    assert_eq!(vec.len(), 2);
    assert_eq!(vec.as_slice(), [1, 2]);
}

#[test]
fn test_clear() {
    let mut vec: TgeVec<i32> = TgeVec::new();
    vec.push(1);
    vec.push(2);
    vec.push(3);
    assert_eq!(vec.len(), 3);
    vec.clear();
    assert!(vec.is_empty());
}

#[test]
fn test_into_iter() {
    let mut vec1: TgeVec<i32> = TgeVec::new();
    vec1.push(1);
    vec1.push(2);
    vec1.push(3);
    let mut iter = vec1.into_iter();
    assert_eq!(iter.size_hint(), (3, Some(3)));
    let mut vec2: Vec<i32> = Vec::new();
    while let Some(item) = iter.next() {
        vec2.push(item);
    }
    assert_eq!(vec2[..], [1, 2, 3]);
    assert_eq!(iter.next(), None);
}

#[test]
fn reserve_keeps_room_that_is_there() {
    let mut vec: TgeVec<u8> = TgeVec::with_capacity(8);
    let room = vec.capacity();
    vec.push(1);
    vec.reserve(3);
    assert_eq!(vec.capacity(), room);
    vec.reserve(100);
    assert!(vec.capacity() >= 101);
    assert_eq!(vec.as_slice(), [1]);
}

#[test]
fn clone_and_default_of_vector() {
    let mut vec: TgeVec<i32> = TgeVec::default();
    assert!(vec.is_empty());
    vec.push(7);
    vec.push(8);
    let copy = vec.clone();
    assert_eq!(copy.as_slice(), [7, 8]);
    assert_eq!(copy.capacity(), vec.capacity());
}
