//! Finding the first element of a sequence that meets a condition.

use vstd::prelude::*;

verus! {

/// How many elements stand before the first one that `hit` accepts: the index
/// of that element, or the length of `s` when `hit` accepts none.
pub open spec fn first_index<T>(s: Seq<T>, hit: spec_fn(T) -> bool) -> int
    decreases s.len(),
{
    if s.len() == 0 || hit(s[0]) {
        0
    } else {
        1 + first_index(s.drop_first(), hit)
    }
}

/// `first_index` lies within the sequence or at its end, `hit` refuses every
/// element before it, and accepts the element at it, if there is one.
pub proof fn lemma_first_index<T>(s: Seq<T>, hit: spec_fn(T) -> bool)
    ensures
        0 <= first_index(s, hit) <= s.len(),
        forall|i: int| 0 <= i < first_index(s, hit) ==> !hit(#[trigger] s[i]),
        first_index(s, hit) < s.len() ==> hit(s[first_index(s, hit)]),
    decreases s.len(),
{
    if s.len() == 0 || hit(s[0]) {
    } else {
        let rest = s.drop_first();
        lemma_first_index(rest, hit);
        assert forall|i: int| 0 <= i < first_index(s, hit) implies !hit(#[trigger] s[i]) by {
            if i > 0 {
                assert(s[i] == rest[i - 1]);
            }
        }
    }
}

/// An index that `hit` refuses everything before, and at which `hit` accepts
/// or the sequence ends, is `first_index`.
pub proof fn lemma_first_index_is<T>(s: Seq<T>, hit: spec_fn(T) -> bool, at: int)
    requires
        0 <= at <= s.len(),
        forall|i: int| 0 <= i < at ==> !hit(#[trigger] s[i]),
        at < s.len() ==> hit(s[at]),
    ensures
        first_index(s, hit) == at,
{
    lemma_first_index(s, hit);
}

} // verus!
