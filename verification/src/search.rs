//! Finding the first element of a sequence that meets a condition.
//!
//! Records are looked up by a key, and where several records carry the same
//! key the first one counts. The lemmas here say what that means when a
//! sequence is scanned, extended or changed in place.

use vstd::prelude::*;

verus! {

/// `i` is the least index at which `hit` holds in `s`.
pub open spec fn is_first<T>(s: Seq<T>, hit: spec_fn(T) -> bool, i: int) -> bool {
    &&& 0 <= i < s.len()
    &&& hit(s[i])
    &&& forall|j: int| 0 <= j < i ==> !hit(#[trigger] s[j])
}

/// The least index at which `hit` holds in `s`, if there is one.
pub open spec fn first_index<T>(s: Seq<T>, hit: spec_fn(T) -> bool) -> Option<int> {
    if exists|i: int| is_first(s, hit, i) {
        Some(choose|i: int| is_first(s, hit, i))
    } else {
        None
    }
}

/// `hit` holds nowhere in `s`.
pub open spec fn nowhere<T>(s: Seq<T>, hit: spec_fn(T) -> bool) -> bool {
    forall|j: int| 0 <= j < s.len() ==> !hit(#[trigger] s[j])
}

/// A least index is the one `first_index` gives.
pub proof fn lemma_first_found<T>(s: Seq<T>, hit: spec_fn(T) -> bool, i: int)
    requires
        is_first(s, hit, i),
    ensures
        first_index(s, hit) == Some(i),
{
    let k = choose|k: int| is_first(s, hit, k);
    assert(is_first(s, hit, k));
    if k < i {
        assert(!hit(s[k]));
    }
    if i < k {
        assert(!hit(s[i]));
    }
}

/// Where `hit` holds at `j`, it holds first at some index up to `j`.
proof fn lemma_least_exists<T>(s: Seq<T>, hit: spec_fn(T) -> bool, j: int)
    requires
        0 <= j < s.len(),
        hit(s[j]),
    ensures
        exists|i: int| is_first(s, hit, i) && i <= j,
    decreases j,
{
    if forall|k: int| 0 <= k < j ==> !hit(#[trigger] s[k]) {
        assert(is_first(s, hit, j));
    } else {
        let k = choose|k: int| 0 <= k < j && hit(#[trigger] s[k]);
        lemma_least_exists(s, hit, k);
        let i = choose|i: int| is_first(s, hit, i) && i <= k;
        assert(is_first(s, hit, i) && i <= j);
    }
}

/// What `first_index` gives is a least index; it gives none exactly when
/// `hit` holds nowhere.
pub proof fn lemma_first_index<T>(s: Seq<T>, hit: spec_fn(T) -> bool)
    ensures
        match first_index(s, hit) {
            Some(i) => is_first(s, hit, i),
            None => nowhere(s, hit),
        },
{
    if first_index(s, hit) is None {
        assert forall|j: int| 0 <= j < s.len() implies !hit(#[trigger] s[j]) by {
            if hit(s[j]) {
                lemma_least_exists(s, hit, j);
            }
        }
    }
}

/// Where `hit` holds nowhere, `first_index` gives none.
pub proof fn lemma_first_absent<T>(s: Seq<T>, hit: spec_fn(T) -> bool)
    requires
        nowhere(s, hit),
    ensures
        first_index(s, hit) is None,
{
    if exists|i: int| is_first(s, hit, i) {
        let i = choose|i: int| is_first(s, hit, i);
        assert(hit(s[i]));
    }
}

/// Two sequences on which `hit` agrees index by index have the same first
/// index.
pub proof fn lemma_first_index_agrees<T>(s: Seq<T>, t: Seq<T>, hit: spec_fn(T) -> bool)
    requires
        s.len() == t.len(),
        forall|j: int| 0 <= j < s.len() ==> hit(#[trigger] s[j]) == hit(t[j]),
    ensures
        first_index(s, hit) == first_index(t, hit),
{
    lemma_first_index(s, hit);
    match first_index(s, hit) {
        Some(i) => {
            assert forall|j: int| 0 <= j < i implies !hit(#[trigger] t[j]) by {
                assert(!hit(s[j]));
            }
            assert(hit(s[i]) == hit(t[i]));
            lemma_first_found(t, hit, i);
        },
        None => {
            assert forall|j: int| 0 <= j < t.len() implies !hit(#[trigger] t[j]) by {
                assert(!hit(s[j]));
            }
            lemma_first_absent(t, hit);
        },
    }
}

/// The first index after one more element was appended.
pub proof fn lemma_first_index_push<T>(s: Seq<T>, x: T, hit: spec_fn(T) -> bool)
    ensures
        first_index(s.push(x), hit) == match first_index(s, hit) {
            Some(i) => Some(i),
            None => if hit(x) {
                Some(s.len() as int)
            } else {
                None
            },
        },
{
    let t = s.push(x);
    lemma_first_index(s, hit);
    match first_index(s, hit) {
        Some(i) => {
            assert(t[i] == s[i]);
            assert forall|j: int| 0 <= j < i implies !hit(#[trigger] t[j]) by {
                assert(t[j] == s[j]);
                assert(!hit(s[j]));
            }
            lemma_first_found(t, hit, i);
        },
        None => {
            if hit(x) {
                assert(t[s.len() as int] == x);
                assert forall|j: int| 0 <= j < s.len() implies !hit(#[trigger] t[j]) by {
                    assert(t[j] == s[j]);
                    assert(!hit(s[j]));
                }
                lemma_first_found(t, hit, s.len() as int);
            } else {
                assert forall|j: int| 0 <= j < t.len() implies !hit(#[trigger] t[j]) by {
                    if j < s.len() {
                        assert(t[j] == s[j]);
                        assert(!hit(s[j]));
                    }
                }
                lemma_first_absent(t, hit);
            }
        },
    }
}

} // verus!
