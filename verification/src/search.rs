//! Searching sequences: the first and the last element with a property.

use vstd::prelude::*;

verus! {

/// `i` is the first position whose element has the property.
pub open spec fn is_first<T>(s: Seq<T>, p: spec_fn(T) -> bool, i: int) -> bool {
    &&& 0 <= i < s.len()
    &&& p(s[i])
    &&& forall|j: int| 0 <= j < i ==> !p(#[trigger] s[j])
}

/// `i` is the last position whose element has the property.
pub open spec fn is_last<T>(s: Seq<T>, p: spec_fn(T) -> bool, i: int) -> bool {
    &&& 0 <= i < s.len()
    &&& p(s[i])
    &&& forall|j: int| i < j < s.len() ==> !p(#[trigger] s[j])
}

/// The first position whose element has the property.
pub open spec fn first_where<T>(s: Seq<T>, p: spec_fn(T) -> bool) -> Option<int> {
    if exists|i: int| is_first(s, p, i) {
        Some(choose|i: int| is_first(s, p, i))
    } else {
        None
    }
}

/// The last position whose element has the property.
pub open spec fn last_where<T>(s: Seq<T>, p: spec_fn(T) -> bool) -> Option<int> {
    if exists|i: int| is_last(s, p, i) {
        Some(choose|i: int| is_last(s, p, i))
    } else {
        None
    }
}

/// A first position is the one that `first_where` gives.
pub proof fn lemma_first_is<T>(s: Seq<T>, p: spec_fn(T) -> bool, i: int)
    requires
        is_first(s, p, i),
    ensures
        first_where(s, p) == Some(i),
{
    let k = choose|k: int| is_first(s, p, k);
    assert(is_first(s, p, k));
    if k < i {
        assert(!p(s[k]));
    }
    if i < k {
        assert(!p(s[i]));
    }
}

/// A last position is the one that `last_where` gives.
pub proof fn lemma_last_is<T>(s: Seq<T>, p: spec_fn(T) -> bool, i: int)
    requires
        is_last(s, p, i),
    ensures
        last_where(s, p) == Some(i),
{
    let k = choose|k: int| is_last(s, p, k);
    assert(is_last(s, p, k));
    if k < i {
        assert(!p(s[i]));
    }
    if i < k {
        assert(!p(s[k]));
    }
}

/// Where some element has the property, the search finds the first of them;
/// where none has, it finds nothing.
pub proof fn lemma_first_where<T>(s: Seq<T>, p: spec_fn(T) -> bool)
    ensures
        first_where(s, p) matches Some(i) ==> is_first(s, p, i),
        first_where(s, p) is None <==> forall|j: int| 0 <= j < s.len() ==> !p(#[trigger] s[j]),
    decreases s.len(),
{
    if s.len() > 0 {
        let t = s.drop_last();
        lemma_first_where(t, p);
        match first_where(t, p) {
            Some(i) => {
                assert forall|j: int| 0 <= j < i implies !p(#[trigger] s[j]) by {
                    assert(t[j] == s[j]);
                }
                assert(is_first(s, p, i));
            },
            None => {
                assert forall|j: int| 0 <= j < t.len() implies !p(#[trigger] s[j]) by {
                    assert(t[j] == s[j]);
                }
                if p(s[s.len() - 1]) {
                    assert(is_first(s, p, s.len() - 1));
                } else {
                    assert forall|j: int| 0 <= j < s.len() implies !p(#[trigger] s[j]) by {
                        if j < t.len() {
                            assert(!p(s[j]));
                        }
                    }
                    assert(!exists|i: int| is_first(s, p, i));
                }
            },
        }
    } else {
        assert(!exists|i: int| is_first(s, p, i));
    }
}

/// Where some element has the property, the search finds the last of them;
/// where none has, it finds nothing.
pub proof fn lemma_last_where<T>(s: Seq<T>, p: spec_fn(T) -> bool)
    ensures
        last_where(s, p) matches Some(i) ==> is_last(s, p, i),
        last_where(s, p) is None <==> forall|j: int| 0 <= j < s.len() ==> !p(#[trigger] s[j]),
    decreases s.len(),
{
    if s.len() > 0 {
        let n = s.len() - 1;
        let t = s.drop_last();
        if p(s[n]) {
            assert(is_last(s, p, n));
        } else {
            lemma_last_where(t, p);
            match last_where(t, p) {
                Some(i) => {
                    assert forall|j: int| i < j < s.len() implies !p(#[trigger] s[j]) by {
                        if j < n {
                            assert(t[j] == s[j]);
                        }
                    }
                    assert(is_last(s, p, i));
                },
                None => {
                    assert forall|j: int| 0 <= j < s.len() implies !p(#[trigger] s[j]) by {
                        if j < n {
                            assert(t[j] == s[j]);
                        }
                    }
                    assert(!exists|i: int| is_last(s, p, i));
                },
            }
        }
    } else {
        assert(!exists|i: int| is_last(s, p, i));
    }
}

/// Searching a sequence with one more element at its end.
pub proof fn lemma_first_push<T>(s: Seq<T>, x: T, p: spec_fn(T) -> bool)
    ensures
        first_where(s.push(x), p) == match first_where(s, p) {
            Some(i) => Some(i),
            None => if p(x) {
                Some(s.len() as int)
            } else {
                None
            },
        },
{
    let t = s.push(x);
    lemma_first_where(s, p);
    lemma_first_where(t, p);
    match first_where(s, p) {
        Some(i) => {
            assert forall|j: int| 0 <= j < i implies !p(#[trigger] t[j]) by {
                assert(t[j] == s[j]);
            }
            lemma_first_is(t, p, i);
        },
        None => {
            assert forall|j: int| 0 <= j < s.len() implies !p(#[trigger] t[j]) by {
                assert(t[j] == s[j]);
            }
            if p(x) {
                lemma_first_is(t, p, s.len() as int);
            }
        },
    }
}

/// Dropping elements without the property does not change what the search
/// finds.
pub proof fn lemma_first_in_filter<T>(s: Seq<T>, keep: spec_fn(T) -> bool, p: spec_fn(T) -> bool)
    requires
        forall|x: T| #[trigger] p(x) ==> keep(x),
    ensures
        match first_where(s, p) {
            Some(i) => first_where(s.filter(keep), p) matches Some(k) && 0 <= k < s.filter(
                keep,
            ).len() && s.filter(keep)[k] == s[i],
            None => first_where(s.filter(keep), p) is None,
        },
    decreases s.len(),
{
    reveal(Seq::filter);
    lemma_first_where(s, p);
    lemma_first_where(s.filter(keep), p);
    if s.len() > 0 {
        let t = s.drop_last();
        let x = s.last();
        assert(s =~= t.push(x));
        lemma_first_in_filter(t, keep, p);
        lemma_first_where(t, p);
        lemma_first_push(t, x, p);
        t.lemma_filter_push(x, keep);
        lemma_first_push(t.filter(keep), x, p);
        lemma_first_where(t.filter(keep), p);
    }
}

} // verus!
