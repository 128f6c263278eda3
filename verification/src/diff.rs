use vstd::prelude::*;

verus! {

/// A single mutation intent against a typed ordered store.
///
/// Exactly one variant is active, and each maps to exactly one atomic
/// mutation of the store it is fed to (see `ListStore::update`): no variant
/// mutates partially. Diff values are transient — constructed and consumed
/// in a single call.
#[derive(Debug, Clone)]
pub enum ListDiff<T> {
    /// Replace the entire contents with the given elements, in order.
    Replace(Vec<T>),
    /// Add the given elements at the end, in order.
    Append(Vec<T>),
    /// Swap the element at this index with its predecessor.
    MoveUp(usize),
    /// Swap the element at this index with its successor.
    MoveDown(usize),
}

/// The contents after replacing everything with `xs`: the prior contents are
/// discarded entirely.
pub open spec fn after_set<T>(s: Seq<T>, xs: Seq<T>) -> Seq<T> {
    xs
}

/// The contents after appending `xs` at the end, in order.
pub open spec fn after_append<T>(s: Seq<T>, xs: Seq<T>) -> Seq<T> {
    s + xs
}

/// The contents after swapping the adjacent elements at `i` and `i + 1`.
pub open spec fn swap_at<T>(s: Seq<T>, i: int) -> Seq<T>
    recommends
        0 <= i,
        i + 1 < s.len(),
{
    s.update(i, s[i + 1]).update(i + 1, s[i])
}

/// The contents after swapping the element at `i` with its predecessor.
pub open spec fn after_move_up<T>(s: Seq<T>, i: int) -> Seq<T> {
    swap_at(s, i - 1)
}

/// The contents after swapping the element at `i` with its successor.
pub open spec fn after_move_down<T>(s: Seq<T>, i: int) -> Seq<T> {
    swap_at(s, i)
}

/// Whether the indices a diff carries are legal against contents of length
/// `len`. The two move variants are unchecked at the store: a move at a
/// boundary (moving index 0 up, or the last index down) or out of range is a
/// caller contract violation, so `ListStore::update` demands this predicate.
pub open spec fn diff_in_bounds<T>(d: ListDiff<T>, len: nat) -> bool {
    match d {
        ListDiff::Replace(_) => true,
        ListDiff::Append(_) => true,
        ListDiff::MoveUp(i) => 1 <= i && i < len,
        ListDiff::MoveDown(i) => i + 1 < len,
    }
}

/// The contents that applying `d` to contents `s` produces.
pub open spec fn after_diff<T>(s: Seq<T>, d: ListDiff<T>) -> Seq<T> {
    match d {
        ListDiff::Replace(elements) => after_set(s, elements@),
        ListDiff::Append(elements) => after_append(s, elements@),
        ListDiff::MoveUp(i) => after_move_up(s, i as int),
        ListDiff::MoveDown(i) => after_move_down(s, i as int),
    }
}

} // verus!
