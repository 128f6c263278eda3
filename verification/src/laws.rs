use vstd::prelude::*;

use crate::diff::after_append;
use crate::diff::after_set;

verus! {

/// Law: replacing the whole contents with `xs` yields exactly `xs` — a read
/// of the store afterwards finds `xs[i]` at every index `i`, in order,
/// whatever the prior contents `s` were.
pub proof fn lemma_set_then_read<T>(s: Seq<T>, xs: Seq<T>)
    ensures
        after_set(s, xs) == xs,
        forall|i: int| 0 <= i < xs.len() ==> after_set(s, xs)[i] == xs[i],
{
}

/// Law: starting from empty contents, appending `a` and then `b` leaves the
/// concatenation `a + b`.
pub proof fn lemma_extend_extend<T>(a: Seq<T>, b: Seq<T>)
    ensures
        after_append(after_append(Seq::<T>::empty(), a), b) == a + b,
{
    assert(after_append(after_append(Seq::<T>::empty(), a), b) =~= a + b);
}

} // verus!
