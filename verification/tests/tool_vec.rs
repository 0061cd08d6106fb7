use mbx::ts::ToolVec;

#[test]
fn tool_vec_test_new() {
    let arr = [1, 2, 3];
    let vec: ToolVec<i32> = ToolVec::new(&arr, arr.len() as u32);
    assert_eq!(vec.as_slice(), [1, 2, 3]);
}

#[test]
fn test_from_slice() {
    let arr = [1, 2, 3];
    let vec: ToolVec<i32> = ToolVec::from_slice(&arr);
    assert_eq!(vec.as_slice(), [1, 2, 3]);
}

#[test]
fn tool_vec_test_index() {
    let arr = [1, 2, 3];
    let vec: ToolVec<i32> = ToolVec::from_slice(&arr);
    assert_eq!(vec.as_slice()[0], 1);
    assert_eq!(vec.as_slice()[1], 2);
    assert_eq!(vec.as_slice()[2], 3);
}

#[test]
fn tool_vec_length_within_what_was_lent() {
    let arr = [1, 2, 3, 4];
    let mut vec: ToolVec<i32> = ToolVec::new(&arr, 2);
    assert_eq!(vec.len(), 2);
    assert!(!vec.is_empty());
    assert_eq!(vec.as_slice(), [1, 2]);
    vec.set_len(4);
    assert_eq!(vec.as_slice(), [1, 2, 3, 4]);
    vec.set_len(0);
    assert!(vec.is_empty());
    let copy = vec;
    assert_eq!(copy.len(), 0);
}
