use typed_list_store::ListDiff;
use typed_list_store::ListStore;
use typed_list_store::StoreError;

#[test]
fn new_store_is_empty() {
    let s: ListStore<i32> = ListStore::new();
    assert_eq!(s.len(), 0);
    assert!(s.iter().is_empty());
}

#[test]
fn replace_all_then_iter_yields_exactly_the_elements() {
    let mut s: ListStore<i32> = ListStore::new();
    s.extend(vec![9, 9]);
    s.replace_all(vec![1, 2, 3]);
    assert_eq!(s.iter(), vec![1, 2, 3]);
}

#[test]
fn extend_twice_yields_the_concatenation() {
    let mut s: ListStore<i32> = ListStore::new();
    s.extend(vec![1, 2]);
    s.extend(vec![3]);
    assert_eq!(s.iter(), vec![1, 2, 3]);
}

#[test]
fn move_up_swaps_with_the_predecessor() {
    let mut s: ListStore<&str> = ListStore::new();
    s.replace_all(vec!["x0", "x1", "x2"]);
    s.move_up_unchecked(1);
    assert_eq!(s.iter(), vec!["x1", "x0", "x2"]);
}

#[test]
fn move_down_swaps_with_the_successor() {
    let mut s: ListStore<&str> = ListStore::new();
    s.replace_all(vec!["x0", "x1", "x2"]);
    s.move_down_unchecked(1);
    assert_eq!(s.iter(), vec!["x0", "x2", "x1"]);
}

#[test]
fn swap_in_range_swaps_the_adjacent_pair() {
    let mut s: ListStore<i32> = ListStore::new();
    s.replace_all(vec![1, 2, 3]);
    assert_eq!(s.swap(0, 1), Some(()));
    assert_eq!(s.iter(), vec![2, 1, 3]);
}

#[test]
fn swap_out_of_range_is_a_silent_noop() {
    let mut s: ListStore<i32> = ListStore::new();
    s.replace_all(vec![1, 2, 3]);
    assert_eq!(s.swap(3, 4), None);
    assert_eq!(s.iter(), vec![1, 2, 3]);
    let mut empty: ListStore<i32> = ListStore::new();
    assert_eq!(empty.swap(0, 1), None);
    assert_eq!(empty.len(), 0);
}

#[test]
fn eq_is_false_whenever_lengths_differ() {
    let mut s: ListStore<i32> = ListStore::new();
    s.replace_all(vec![1, 2, 3]);
    assert!(!s.eq(&[1, 2], |a, b| a == b));
    assert!(!s.eq(&[1, 2, 3, 4], |_a: &i32, _b: &i32| true));
    let none: &[i32] = &[];
    assert!(!s.eq(none, |_a: &i32, _b: &i32| true));
}

#[test]
fn eq_compares_pairwise_in_order() {
    let mut s: ListStore<i32> = ListStore::new();
    s.replace_all(vec![1, 2, 3]);
    assert!(s.eq(&[2, 4, 6], |a, b| 2 * *a == *b));
    assert!(!s.eq(&[2, 4, 7], |a, b| 2 * *a == *b));
    assert!(!s.eq(&[4, 2, 6], |a, b| 2 * *a == *b));
    let empty: ListStore<i32> = ListStore::new();
    let none: &[i32] = &[];
    assert!(empty.eq(none, |a, b| a == b));
}

#[test]
fn len_after_replace_then_append() {
    let mut s: ListStore<&str> = ListStore::new();
    s.update(ListDiff::Replace(vec!["a", "b", "c"]));
    assert_eq!(s.len(), 3);
    s.update(ListDiff::Append(vec!["d"]));
    assert_eq!(s.len(), 4);
}

#[test]
fn replacing_with_empty_clears_the_store() {
    let mut s: ListStore<i32> = ListStore::new();
    s.extend(vec![1, 2, 3]);
    assert_eq!(s.len(), 3);
    s.update(ListDiff::Replace(vec![]));
    assert_eq!(s.len(), 0);
}

#[test]
fn update_applies_the_move_variants() {
    let mut s: ListStore<i32> = ListStore::new();
    s.replace_all(vec![10, 20, 30]);
    s.update(ListDiff::MoveUp(1));
    assert_eq!(s.iter(), vec![20, 10, 30]);
    s.update(ListDiff::MoveDown(1));
    assert_eq!(s.iter(), vec![20, 30, 10]);
}

#[test]
fn insert_at_each_position_and_out_of_range() {
    let mut s: ListStore<i32> = ListStore::new();
    s.replace_all(vec![1, 3]);
    assert_eq!(s.insert(1, 2), Ok(()));
    assert_eq!(s.iter(), vec![1, 2, 3]);
    assert_eq!(s.insert(3, 4), Ok(()));
    assert_eq!(s.iter(), vec![1, 2, 3, 4]);
    assert_eq!(s.insert(6, 9), Err(StoreError::IndexOutOfBounds));
    assert_eq!(s.iter(), vec![1, 2, 3, 4]);
}

#[test]
fn remove_in_range_and_out_of_range() {
    let mut s: ListStore<i32> = ListStore::new();
    s.replace_all(vec![1, 2, 3]);
    assert_eq!(s.remove(1), Ok(()));
    assert_eq!(s.iter(), vec![1, 3]);
    assert_eq!(s.remove(2), Err(StoreError::IndexOutOfBounds));
    assert_eq!(s.iter(), vec![1, 3]);
}

#[test]
fn get_reads_one_element_or_refuses() {
    let mut s: ListStore<i32> = ListStore::new();
    s.replace_all(vec![5, 6]);
    assert_eq!(s.get(0), Ok(5));
    assert_eq!(s.get(1), Ok(6));
    assert_eq!(s.get(2), Err(StoreError::IndexOutOfBounds));
}

#[test]
fn unsafe_store_exposes_the_backing_elements() {
    let mut s: ListStore<i32> = ListStore::new();
    s.replace_all(vec![1, 2]);
    assert_eq!(s.unsafe_store().as_slice(), &[1, 2]);
}
