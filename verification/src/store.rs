use vstd::pervasive::cloned;
use vstd::prelude::*;

use crate::diff::after_append;
use crate::diff::after_diff;
use crate::diff::after_move_down;
use crate::diff::after_move_up;
use crate::diff::after_set;
use crate::diff::diff_in_bounds;
use crate::diff::swap_at;
use crate::diff::ListDiff;

verus! {

/// Why an indexed operation on a [`ListStore`] was refused. The store is
/// left exactly as it was whenever this error is returned.
#[derive(Clone, Copy, Debug, PartialEq, Eq, Structural)]
pub enum StoreError {
    /// The index does not denote an element of the store (or, for `insert`,
    /// a position at most the current length).
    IndexOutOfBounds,
}

/// A typed ordered store of elements, driven either by direct calls or by
/// feeding it `ListDiff` values through `update`.
///
/// The view of a store is the sequence of its elements, in order; every
/// method states over that view what it returns or how it changes the
/// contents.
pub struct ListStore<T> {
    elements: Vec<T>,
}

impl<T> View for ListStore<T> {
    type V = Seq<T>;

    closed spec fn view(&self) -> Seq<T> {
        self.elements@
    }
}

impl<T> ListStore<T> {
    /// Create an empty store.
    pub fn new() -> (r: Self)
        ensures
            r@ == Seq::<T>::empty(),
    {
        ListStore { elements: Vec::new() }
    }

    /// Current element count.
    pub fn len(&self) -> (n: usize)
        ensures
            n == self@.len(),
    {
        self.elements.len()
    }

    /// Append `elements` at the end, in order, as one step.
    pub fn extend(&mut self, elements: Vec<T>)
        ensures
            final(self)@ == after_append(old(self)@, elements@),
    {
        let mut rest = elements;
        self.elements.append(&mut rest);
    }

    /// Replace the entire contents with `elements`, in order, as one step.
    pub fn replace_all(&mut self, elements: Vec<T>)
        ensures
            final(self)@ == after_set(old(self)@, elements@),
    {
        self.elements = elements;
    }

    /// Swap the two adjacent elements at `ia` and `ib`, with `ib == ia + 1`,
    /// replacing the two-element window in one step.
    ///
    /// If either index has no element, the store is left unchanged and `None`
    /// comes back: a silent no-op rather than an error, because this is
    /// reached from the unchecked move calls, whose contracts already put
    /// out-of-range indices on the caller.
    pub fn swap(&mut self, ia: usize, ib: usize) -> (r: Option<()>)
        requires
            ib == ia + 1,
        ensures
            ib < old(self)@.len() ==> r == Some(()) && final(self)@ == swap_at(
                old(self)@,
                ia as int,
            ),
            ib >= old(self)@.len() ==> r == None::<()> && final(self)@ == old(self)@,
    {
        if ia >= self.elements.len() {
            return None;
        }
        if ib >= self.elements.len() {
            return None;
        }
        let a = self.elements.remove(ia);
        let b = self.elements.remove(ia);
        self.elements.insert(ia, a);
        self.elements.insert(ia, b);
        proof {
            assert(self@ =~= swap_at(old(self)@, ia as int));
        }
        Some(())
    }

    /// Swap the element at `index` with its predecessor.
    ///
    /// Unchecked: the caller must guarantee `1 <= index < len`. Moving the
    /// element at index 0 up, or an out-of-range index, is a contract
    /// violation, not a recoverable condition.
    pub fn move_up_unchecked(&mut self, index: usize)
        requires
            1 <= index < old(self)@.len(),
        ensures
            final(self)@ == after_move_up(old(self)@, index as int),
    {
        let _ = self.swap(index - 1, index);
    }

    /// Swap the element at `index` with its successor.
    ///
    /// Unchecked: the caller must guarantee `index + 1 < len`. Moving the
    /// last element down, or an out-of-range index, is a contract violation,
    /// not a recoverable condition.
    pub fn move_down_unchecked(&mut self, index: usize)
        requires
            index + 1 < old(self)@.len(),
        ensures
            final(self)@ == after_move_down(old(self)@, index as int),
    {
        proof {
            assert(self.elements.len() == self@.len());
        }
        let _ = self.swap(index, index + 1);
    }

    /// Apply one diff: `Replace` maps to `replace_all`, `Append` to `extend`,
    /// and the move variants to the unchecked moves, so the whole diff is a
    /// single atomic mutation of the contents.
    ///
    /// The move variants are unchecked, so their indices must be legal for
    /// the current contents (see `diff_in_bounds`).
    pub fn update(&mut self, diff: ListDiff<T>)
        requires
            diff_in_bounds(diff, old(self)@.len()),
        ensures
            final(self)@ == after_diff(old(self)@, diff),
    {
        match diff {
            ListDiff::Replace(elements) => self.replace_all(elements),
            ListDiff::Append(elements) => self.extend(elements),
            ListDiff::MoveUp(i) => self.move_up_unchecked(i),
            ListDiff::MoveDown(i) => self.move_down_unchecked(i),
        }
    }

    /// Insert a single `element` at `position`, shifting what follows.
    /// Refused, with the store unchanged, iff `position` is greater than the
    /// current length.
    pub fn insert(&mut self, position: usize, element: T) -> (r: Result<(), StoreError>)
        ensures
            position <= old(self)@.len() ==> r == Ok::<(), StoreError>(()) && final(self)@ == old(
                self,
            )@.insert(position as int, element),
            position > old(self)@.len() ==> r == Err::<(), StoreError>(StoreError::IndexOutOfBounds)
                && final(self)@ == old(self)@,
    {
        if position > self.elements.len() {
            return Err(StoreError::IndexOutOfBounds);
        }
        self.elements.insert(position, element);
        Ok(())
    }

    /// Remove the single element at `position`, shifting what follows.
    /// Refused, with the store unchanged, iff `position` is out of range.
    pub fn remove(&mut self, position: usize) -> (r: Result<(), StoreError>)
        ensures
            position < old(self)@.len() ==> r == Ok::<(), StoreError>(()) && final(self)@ == old(
                self,
            )@.remove(position as int),
            position >= old(self)@.len() ==> r == Err::<(), StoreError>(
                StoreError::IndexOutOfBounds,
            ) && final(self)@ == old(self)@,
    {
        if position >= self.elements.len() {
            return Err(StoreError::IndexOutOfBounds);
        }
        let _ = self.elements.remove(position);
        Ok(())
    }

    /// True iff the lengths match and the `comparison` predicate holds
    /// pairwise, in order, against the external sequence `other`. The element
    /// type itself need not support equality. A length mismatch alone
    /// decides: the result is then `false` whatever `comparison` would say.
    pub fn eq<O, F: Fn(&T, &O) -> bool>(&self, other: &[O], comparison: F) -> (r: bool)
        requires
            self@.len() == other@.len() ==> forall|i: int|
                0 <= i < self@.len() ==> call_requires(comparison, (&self@[i], &other@[i])),
        ensures
            self@.len() != other@.len() ==> r == false,
            r ==> self@.len() == other@.len() && forall|i: int|
                0 <= i < self@.len() ==> call_ensures(comparison, (&self@[i], &other@[i]), true),
            !r && self@.len() == other@.len() ==> exists|i: int|
                0 <= i < self@.len() && call_ensures(comparison, (&self@[i], &other@[i]), false),
    {
        if self.elements.len() != other.len() {
            return false;
        }
        let mut i: usize = 0;
        while i < self.elements.len()
            invariant
                self@.len() == other@.len(),
                i <= self@.len(),
                forall|j: int|
                    0 <= j < i ==> call_ensures(comparison, (&self@[j], &other@[j]), true),
                forall|j: int|
                    0 <= j < self@.len() ==> call_requires(comparison, (&self@[j], &other@[j])),
            decreases self@.len() - i,
        {
            if !comparison(&self.elements[i], &other[i]) {
                return false;
            }
            i = i + 1;
        }
        true
    }

    /// Direct access to the backing vector of elements. The name is a
    /// caution: whoever holds it can read past the typed API, but every
    /// element seen there is exactly the store's contents.
    pub fn unsafe_store(&self) -> (r: &Vec<T>)
        ensures
            r@ == self@,
    {
        &self.elements
    }
}

impl<T: Clone> ListStore<T> {
    /// The element at `index`, as a clone of what the store holds. Refused
    /// iff `index` is out of range; an in-range read never fails.
    pub fn get(&self, index: usize) -> (r: Result<T, StoreError>)
        ensures
            index < self@.len() ==> (r matches Ok(v) && cloned(self@[index as int], v)),
            index >= self@.len() ==> r == Err::<T, StoreError>(StoreError::IndexOutOfBounds),
    {
        if index >= self.elements.len() {
            return Err(StoreError::IndexOutOfBounds);
        }
        Ok(self.elements[index].clone())
    }

    /// The live contents, read out in order by repeated indexed reads: one
    /// clone of each element, first to last.
    pub fn iter(&self) -> (r: Vec<T>)
        ensures
            r@.len() == self@.len(),
            forall|i: int| 0 <= i < self@.len() ==> cloned(self@[i], #[trigger] r@[i]),
    {
        let mut out: Vec<T> = Vec::new();
        let mut i: usize = 0;
        while i < self.elements.len()
            invariant
                i <= self@.len(),
                out@.len() == i,
                forall|j: int| 0 <= j < i ==> cloned(self@[j], #[trigger] out@[j]),
            decreases self@.len() - i,
        {
            let x = self.elements[i].clone();
            out.push(x);
            i = i + 1;
        }
        out
    }
}

} // verus!
