//! Facts about the prefixes of a sequence that the loops over request lists
//! rest on.

use vstd::prelude::*;

verus! {

/// A prefix that is one longer holds what the shorter prefix holds and the
/// element that was added.
pub proof fn lemma_take_step<T>(s: Seq<T>, i: int)
    requires
        0 <= i < s.len(),
    ensures
        forall|x: T| #[trigger] s.take(i + 1).contains(x) <==> s.take(i).contains(x) || x == s[i],
        s.take(i + 1).to_set() == s.take(i).to_set().insert(s[i]),
        s.take(i + 1).drop_last() == s.take(i),
        s.take(i + 1).last() == s[i],
{
    let longer = s.take(i + 1);
    assert forall|x: T| #[trigger] longer.contains(x) <==> s.take(i).contains(x) || x == s[i] by {
        if x == s[i] {
            assert(longer[i] == x);
        }
    }
}

/// The prefix of full length is the sequence, and the empty prefix holds
/// nothing.
pub proof fn lemma_take_ends<T>(s: Seq<T>)
    ensures
        s.take(s.len() as int) == s,
        s.take(0).len() == 0,
        s.take(0).to_set() == Set::<T>::empty(),
        forall|x: T| !(#[trigger] s.take(0).contains(x)),
{
}

} // verus!
