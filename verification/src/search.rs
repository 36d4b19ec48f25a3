//! First-match search over sequences, the policy of every lookup by name.

use vstd::prelude::*;

verus! {

/// The least index at which `p` holds in `s`, or `s.len()` where it holds nowhere.
pub open spec fn first_where<T>(s: Seq<T>, p: spec_fn(T) -> bool) -> int
    decreases s.len(),
{
    if s.len() == 0 {
        0
    } else if p(s[0]) {
        0
    } else {
        1 + first_where(s.drop_first(), p)
    }
}

/// `first_where` lies within `0..=s.len()`; below `s.len()` it names a match
/// with no match before it, and at `s.len()` there is no match at all.
pub proof fn lemma_first_where<T>(s: Seq<T>, p: spec_fn(T) -> bool)
    ensures
        0 <= first_where(s, p) <= s.len(),
        first_where(s, p) < s.len() ==> p(s[first_where(s, p)]),
        forall|j: int| 0 <= j < first_where(s, p) ==> !p(#[trigger] s[j]),
    decreases s.len(),
{
    if s.len() != 0 && !p(s[0]) {
        let rest = s.drop_first();
        lemma_first_where(rest, p);
        assert forall|j: int| 0 <= j < first_where(s, p) implies !p(#[trigger] s[j]) by {
            if j > 0 {
                assert(s[j] == rest[j - 1]);
            }
        }
    }
}

/// An index with a match at it (or the length) and none before it is `first_where`.
pub proof fn lemma_first_where_is<T>(s: Seq<T>, p: spec_fn(T) -> bool, i: int)
    requires
        0 <= i <= s.len(),
        i < s.len() ==> p(s[i]),
        forall|j: int| 0 <= j < i ==> !p(#[trigger] s[j]),
    ensures
        first_where(s, p) == i,
{
    lemma_first_where(s, p);
    let k = first_where(s, p);
    if k < i {
        assert(!p(s[k]));
    } else if i < k {
        assert(!p(s[i]));
    }
}

/// Two sequences of one length whose predicates agree index by index have
/// their first match at the same index.
pub proof fn lemma_first_where_agree<A, B>(
    a: Seq<A>,
    p: spec_fn(A) -> bool,
    b: Seq<B>,
    q: spec_fn(B) -> bool,
)
    requires
        a.len() == b.len(),
        forall|j: int| 0 <= j < a.len() ==> p(#[trigger] a[j]) == q(b[j]),
    ensures
        first_where(a, p) == first_where(b, q),
{
    lemma_first_where(a, p);
    let k = first_where(a, p);
    assert forall|j: int| 0 <= j < k implies !q(#[trigger] b[j]) by {
        assert(!p(a[j]));
    }
    lemma_first_where_is(b, q, k);
}

} // verus!
