use slice_cursor::increment_each;

#[test]
fn increment_each_adds_one_to_every_element() {
    let mut collection: Vec<i32> = vec![1, 2, 3, 4];
    increment_each(&mut collection);
    assert_eq!(collection, vec![2, 3, 4, 5]);
}

#[test]
fn increment_each_keeps_the_order() {
    let mut collection: Vec<i32> = vec![9, -1, 0, 9, i32::MIN, i32::MAX - 1];
    increment_each(&mut collection);
    assert_eq!(collection, vec![10, 0, 1, 10, i32::MIN + 1, i32::MAX]);
}

#[test]
fn increment_each_on_nothing_does_nothing() {
    let mut collection: Vec<i32> = Vec::new();
    increment_each(&mut collection);
    assert!(collection.is_empty());
}

#[test]
fn increment_each_on_part_of_a_collection() {
    let mut collection: Vec<i32> = vec![0, 0, 0, 0];
    increment_each(&mut collection[1..3]);
    assert_eq!(collection, vec![0, 1, 1, 0]);
}

#[test]
fn increment_each_twice_adds_two() {
    let mut collection: [i32; 3] = [-2, -1, 0];
    increment_each(&mut collection);
    increment_each(&mut collection);
    assert_eq!(collection, [0, 1, 2]);
}
