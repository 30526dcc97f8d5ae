//! First-match search in a sequence, the lookup discipline of every store.

use vstd::prelude::*;

verus! {

/// `i` is the position of the first element of `s` that satisfies `wanted`.
pub open spec fn is_first_match<T>(s: Seq<T>, wanted: spec_fn(T) -> bool, i: int) -> bool {
    &&& 0 <= i < s.len()
    &&& wanted(s[i])
    &&& forall|j: int| 0 <= j < i ==> !wanted(#[trigger] s[j])
}

/// Some element of `s` satisfies `wanted`.
pub open spec fn has_match<T>(s: Seq<T>, wanted: spec_fn(T) -> bool) -> bool {
    exists|i: int| 0 <= i < s.len() && wanted(#[trigger] s[i])
}

/// The position of the first element of `s` that satisfies `wanted`, if any.
pub open spec fn first_match<T>(s: Seq<T>, wanted: spec_fn(T) -> bool) -> Option<int> {
    if exists|i: int| is_first_match(s, wanted, i) {
        Some(choose|i: int| is_first_match(s, wanted, i))
    } else {
        None
    }
}

/// The first element of `s` that satisfies `wanted`, if any.
pub open spec fn first_matching<T>(s: Seq<T>, wanted: spec_fn(T) -> bool) -> Option<T> {
    match first_match(s, wanted) {
        Some(i) => Some(s[i]),
        None => None,
    }
}

/// A sequence has at most one first match.
pub proof fn lemma_first_match_is<T>(s: Seq<T>, wanted: spec_fn(T) -> bool, i: int)
    requires
        is_first_match(s, wanted, i),
    ensures
        first_match(s, wanted) == Some(i),
        has_match(s, wanted),
{
    let k = choose|k: int| is_first_match(s, wanted, k);
    if k < i {
        assert(!wanted(s[k]));
    } else if i < k {
        assert(!wanted(s[i]));
    }
}

/// Where nothing matches, there is no first match.
pub proof fn lemma_first_match_none<T>(s: Seq<T>, wanted: spec_fn(T) -> bool)
    requires
        !has_match(s, wanted),
    ensures
        first_match(s, wanted) is None,
{
    if exists|i: int| is_first_match(s, wanted, i) {
        let i = choose|i: int| is_first_match(s, wanted, i);
        assert(wanted(s[i]));
    }
}

/// Among the first `n` elements, either none matches or one is the first to.
proof fn lemma_first_match_within<T>(s: Seq<T>, wanted: spec_fn(T) -> bool, n: int)
    requires
        0 <= n <= s.len(),
    ensures
        (forall|j: int| 0 <= j < n ==> !wanted(#[trigger] s[j])) || (exists|i: int|
            i < n && is_first_match(s, wanted, i)),
    decreases n,
{
    if n > 0 {
        lemma_first_match_within(s, wanted, n - 1);
        if forall|j: int| 0 <= j < n - 1 ==> !wanted(#[trigger] s[j]) {
            if wanted(s[n - 1]) {
                assert(is_first_match(s, wanted, n - 1));
            }
        }
    }
}

/// `first_match` answers exactly when something matches, and with the
/// position of the first element that does.
pub proof fn lemma_first_match<T>(s: Seq<T>, wanted: spec_fn(T) -> bool)
    ensures
        first_match(s, wanted) is Some <==> has_match(s, wanted),
        first_match(s, wanted) matches Some(i) ==> is_first_match(s, wanted, i),
{
    if has_match(s, wanted) {
        lemma_first_match_within(s, wanted, s.len() as int);
        let i = choose|i: int| is_first_match(s, wanted, i);
        lemma_first_match_is(s, wanted, i);
    } else {
        lemma_first_match_none(s, wanted);
    }
}

/// Two sequences of one length whose elements pass the test at the same
/// positions have their first match at the same position.
pub proof fn lemma_first_match_agrees<T>(s: Seq<T>, t: Seq<T>, wanted: spec_fn(T) -> bool)
    requires
        s.len() == t.len(),
        forall|j: int| 0 <= j < s.len() ==> wanted(#[trigger] s[j]) == wanted(t[j]),
    ensures
        first_match(s, wanted) == first_match(t, wanted),
{
    lemma_first_match(s, wanted);
    lemma_first_match(t, wanted);
    match first_match(s, wanted) {
        Some(i) => {
            assert(wanted(t[i]) == wanted(s[i]));
            assert forall|j: int| 0 <= j < i implies !wanted(#[trigger] t[j]) by {
                assert(wanted(s[j]) == wanted(t[j]));
            }
            lemma_first_match_is(t, wanted, i);
        },
        None => {
            match first_match(t, wanted) {
                Some(i) => {
                    assert(wanted(s[i]) == wanted(t[i]));
                },
                None => {},
            }
        },
    }
}

} // verus!
