//! Small theory of first-match lookup, keyed removal and counting over
//! sequences.  The directory stores state their contracts with these
//! functions.

use vstd::prelude::*;

verus! {

/// The first element satisfying `pred`, scanning from the front.
pub open spec fn find_first<A>(s: Seq<A>, pred: spec_fn(A) -> bool) -> Option<A>
    decreases s.len(),
{
    if s.len() == 0 {
        None
    } else if pred(s.first()) {
        Some(s.first())
    } else {
        find_first(s.drop_first(), pred)
    }
}

/// The sequence with every element satisfying `pred` removed, order kept.
pub open spec fn remove_where<A>(s: Seq<A>, pred: spec_fn(A) -> bool) -> Seq<A>
    decreases s.len(),
{
    if s.len() == 0 {
        Seq::empty()
    } else if pred(s.first()) {
        remove_where(s.drop_first(), pred)
    } else {
        seq![s.first()] + remove_where(s.drop_first(), pred)
    }
}

/// How many elements satisfy `pred`.
pub open spec fn count_where<A>(s: Seq<A>, pred: spec_fn(A) -> bool) -> nat
    decreases s.len(),
{
    if s.len() == 0 {
        0
    } else {
        (if pred(s.first()) {
            1nat
        } else {
            0nat
        }) + count_where(s.drop_first(), pred)
    }
}

/// Appending an element extends a first-match scan at the back.
pub proof fn lemma_find_first_push<A>(s: Seq<A>, pred: spec_fn(A) -> bool, x: A)
    ensures
        find_first(s.push(x), pred) == (if find_first(s, pred) is Some {
            find_first(s, pred)
        } else if pred(x) {
            Some(x)
        } else {
            None
        }),
    decreases s.len(),
{
    reveal_with_fuel(find_first, 3);
    if s.len() == 0 {
        assert(s.push(x).drop_first() =~= Seq::<A>::empty());
    } else {
        assert(s.push(x).drop_first() =~= s.drop_first().push(x));
        lemma_find_first_push(s.drop_first(), pred, x);
    }
}

/// Appending an element extends a keyed removal at the back.
pub proof fn lemma_remove_where_push<A>(s: Seq<A>, pred: spec_fn(A) -> bool, x: A)
    ensures
        remove_where(s.push(x), pred) == (if pred(x) {
            remove_where(s, pred)
        } else {
            remove_where(s, pred).push(x)
        }),
    decreases s.len(),
{
    reveal_with_fuel(remove_where, 3);
    if s.len() == 0 {
        assert(s.push(x).drop_first() =~= Seq::<A>::empty());
        if !pred(x) {
            assert(remove_where(s.push(x), pred) =~= remove_where(s, pred).push(x));
        }
    } else {
        assert(s.push(x).drop_first() =~= s.drop_first().push(x));
        lemma_remove_where_push(s.drop_first(), pred, x);
        if !pred(s.first()) {
            if !pred(x) {
                assert(seq![s.first()] + remove_where(s.drop_first(), pred).push(x) =~= (seq![
                    s.first(),
                ] + remove_where(s.drop_first(), pred)).push(x));
            }
        }
    }
}

/// Appending an element extends a count at the back.
pub proof fn lemma_count_where_push<A>(s: Seq<A>, pred: spec_fn(A) -> bool, x: A)
    ensures
        count_where(s.push(x), pred) == count_where(s, pred) + (if pred(x) {
            1nat
        } else {
            0nat
        }),
    decreases s.len(),
{
    reveal_with_fuel(count_where, 3);
    if s.len() == 0 {
        assert(s.push(x).drop_first() =~= Seq::<A>::empty());
    } else {
        assert(s.push(x).drop_first() =~= s.drop_first().push(x));
        lemma_count_where_push(s.drop_first(), pred, x);
    }
}

/// A removal leaves no element satisfying its own predicate.
pub proof fn lemma_remove_where_clears<A>(s: Seq<A>, pred: spec_fn(A) -> bool)
    ensures
        find_first(remove_where(s, pred), pred) == None::<A>,
        count_where(remove_where(s, pred), pred) == 0,
        forall|i: int|
            0 <= i < remove_where(s, pred).len() ==> !pred(#[trigger] remove_where(s, pred)[i]),
    decreases s.len(),
{
    if s.len() == 0 {
    } else {
        lemma_remove_where_clears(s.drop_first(), pred);
        if !pred(s.first()) {
            let rest = remove_where(s.drop_first(), pred);
            assert(remove_where(s, pred).drop_first() =~= rest);
            assert(forall|i: int|
                0 <= i < remove_where(s, pred).len() ==> !pred(
                    #[trigger] remove_where(s, pred)[i],
                )) by {
                assert(remove_where(s, pred)[0] == s.first());
                assert(forall|i: int|
                    1 <= i < remove_where(s, pred).len() ==> remove_where(s, pred)[i] == rest[i
                        - 1]);
            }
        }
    }
}

/// Removing elements of one kind does not change the first match, the count
/// or the membership of another kind, provided the kinds are disjoint.
pub proof fn lemma_remove_where_disjoint<A>(
    s: Seq<A>,
    removed: spec_fn(A) -> bool,
    kept: spec_fn(A) -> bool,
)
    requires
        forall|x: A| #[trigger] removed(x) ==> !kept(x),
    ensures
        find_first(remove_where(s, removed), kept) == find_first(s, kept),
        count_where(remove_where(s, removed), kept) == count_where(s, kept),
    decreases s.len(),
{
    if s.len() == 0 {
    } else {
        lemma_remove_where_disjoint(s.drop_first(), removed, kept);
        if !removed(s.first()) {
            let rest = remove_where(s.drop_first(), removed);
            assert(remove_where(s, removed).drop_first() =~= rest);
            assert(remove_where(s, removed).first() == s.first());
        }
    }
}

/// If nothing satisfies the predicate, removal changes nothing.
pub proof fn lemma_remove_where_absent<A>(s: Seq<A>, pred: spec_fn(A) -> bool)
    requires
        find_first(s, pred) == None::<A>,
    ensures
        remove_where(s, pred) == s,
    decreases s.len(),
{
    if s.len() == 0 {
        assert(remove_where(s, pred) =~= s);
    } else {
        lemma_remove_where_absent(s.drop_first(), pred);
        assert(seq![s.first()] + s.drop_first() =~= s);
    }
}

/// A found element satisfies the predicate and is a member of the sequence.
pub proof fn lemma_find_first_is_match<A>(s: Seq<A>, pred: spec_fn(A) -> bool)
    ensures
        match find_first(s, pred) {
            Some(x) => pred(x) && exists|i: int| 0 <= i < s.len() && s[i] == x,
            None => forall|i: int| 0 <= i < s.len() ==> !pred(#[trigger] s[i]),
        },
    decreases s.len(),
{
    if s.len() == 0 {
    } else if pred(s.first()) {
        assert(s[0] == s.first());
    } else {
        lemma_find_first_is_match(s.drop_first(), pred);
        match find_first(s.drop_first(), pred) {
            Some(x) => {
                let i = choose|i: int|
                    0 <= i < s.drop_first().len() && s.drop_first()[i] == x;
                assert(s[i + 1] == x);
            },
            None => {
                assert(forall|i: int| 1 <= i < s.len() ==> s[i] == s.drop_first()[i - 1]);
            },
        }
    }
}

/// If some element satisfies the predicate, a scan finds one.
pub proof fn lemma_find_first_found<A>(s: Seq<A>, pred: spec_fn(A) -> bool, i: int)
    requires
        0 <= i < s.len(),
        pred(s[i]),
    ensures
        find_first(s, pred) is Some,
    decreases i,
{
    if i == 0 {
    } else if !pred(s.first()) {
        assert(s.drop_first()[i - 1] == s[i]);
        lemma_find_first_found(s.drop_first(), pred, i - 1);
    }
}

/// Once a prefix scan hits a match, the whole scan returns it.
pub proof fn lemma_find_prefix_settled<A>(s: Seq<A>, pred: spec_fn(A) -> bool, i: int)
    requires
        0 < i <= s.len(),
        find_first(s.take(i), pred) is Some,
    ensures
        find_first(s, pred) == find_first(s.take(i), pred),
    decreases s.len() - i,
{
    if i == s.len() {
        assert(s.take(i) =~= s);
    } else {
        lemma_find_first_push(s.take(i), pred, s[i]);
        assert(s.take(i + 1) =~= s.take(i).push(s[i]));
        lemma_find_prefix_settled(s, pred, i + 1);
    }
}

/// Every survivor of a removal was present before it.
pub proof fn lemma_remove_kept_from_old<A>(s: Seq<A>, pred: spec_fn(A) -> bool, i: int)
    requires
        0 <= i < remove_where(s, pred).len(),
    ensures
        exists|k: int| 0 <= k < s.len() && s[k] == remove_where(s, pred)[i],
    decreases s.len(),
{
    if s.len() == 0 {
    } else if pred(s.first()) {
        lemma_remove_kept_from_old(s.drop_first(), pred, i);
        let k = choose|k: int|
            0 <= k < s.drop_first().len() && s.drop_first()[k] == remove_where(
                s.drop_first(),
                pred,
            )[i];
        assert(s[k + 1] == remove_where(s, pred)[i]);
    } else {
        let rest = remove_where(s.drop_first(), pred);
        assert(remove_where(s, pred).drop_first() =~= rest);
        if i == 0 {
            assert(s[0] == remove_where(s, pred)[0]);
        } else {
            lemma_remove_kept_from_old(s.drop_first(), pred, i - 1);
            let k = choose|k: int|
                0 <= k < s.drop_first().len() && s.drop_first()[k] == rest[i - 1];
            assert(s[k + 1] == remove_where(s, pred)[i]);
        }
    }
}

/// No two elements share a key.
pub open spec fn distinct_by<A, K>(s: Seq<A>, key: spec_fn(A) -> K) -> bool {
    forall|i: int, j: int|
        #![trigger s[i], s[j]]
        0 <= i < j < s.len() ==> key(s[i]) != key(s[j])
}

/// Removal keeps keys distinct.
pub proof fn lemma_remove_where_distinct_by<A, K>(
    s: Seq<A>,
    pred: spec_fn(A) -> bool,
    key: spec_fn(A) -> K,
)
    requires
        distinct_by(s, key),
    ensures
        distinct_by(remove_where(s, pred), key),
    decreases s.len(),
{
    if s.len() == 0 {
    } else {
        assert(forall|i: int| 0 <= i < s.drop_first().len() ==> s.drop_first()[i] == #[trigger] s[i
            + 1]);
        lemma_remove_where_distinct_by(s.drop_first(), pred, key);
        if !pred(s.first()) {
            let rest = remove_where(s.drop_first(), pred);
            let out = remove_where(s, pred);
            assert(out.drop_first() =~= rest);
            assert forall|i: int, j: int|
                #![trigger out[i], out[j]]
                0 <= i < j < out.len() implies key(out[i]) != key(out[j]) by {
                if i == 0 {
                    assert(out[j] == rest[j - 1]);
                    lemma_remove_kept_from_old(s.drop_first(), pred, j - 1);
                    let k = choose|k: int|
                        0 <= k < s.drop_first().len() && s.drop_first()[k] == rest[j - 1];
                    assert(s[k + 1] == rest[j - 1]);
                    assert(s[0] == out[0]);
                } else {
                    assert(out[i] == rest[i - 1] && out[j] == rest[j - 1]);
                }
            }
        }
    }
}

/// When at most one element can match, the count is one or zero, one
/// exactly when a match exists.
pub proof fn lemma_count_where_unique<A>(s: Seq<A>, pred: spec_fn(A) -> bool)
    requires
        forall|i: int, j: int|
            #![trigger s[i], s[j]]
            0 <= i < j < s.len() && pred(s[i]) ==> !pred(s[j]),
    ensures
        count_where(s, pred) == (if exists|i: int| 0 <= i < s.len() && pred(#[trigger] s[i]) {
            1nat
        } else {
            0nat
        }),
    decreases s.len(),
{
    if s.len() == 0 {
    } else {
        assert(forall|i: int| 0 <= i < s.drop_first().len() ==> s.drop_first()[i] == #[trigger] s[i
            + 1]);
        lemma_count_where_unique(s.drop_first(), pred);
        if pred(s.first()) {
            assert(count_where(s.drop_first(), pred) == 0) by {
                if exists|i: int| 0 <= i < s.drop_first().len() && pred(#[trigger] s.drop_first()[i]) {
                    let i = choose|i: int|
                        0 <= i < s.drop_first().len() && pred(#[trigger] s.drop_first()[i]);
                    assert(pred(s[i + 1]));
                    assert(false);
                }
            }
            assert(pred(s[0]));
        } else {
            if exists|i: int| 0 <= i < s.len() && pred(#[trigger] s[i]) {
                let i = choose|i: int| 0 <= i < s.len() && pred(#[trigger] s[i]);
                assert(s.drop_first()[i - 1] == s[i]);
            }
        }
    }
}

/// Replacing every element that shares the new element's key keeps keys
/// distinct.
pub proof fn lemma_overwrite_distinct_by<A, K>(
    s: Seq<A>,
    pred: spec_fn(A) -> bool,
    key: spec_fn(A) -> K,
    x: A,
)
    requires
        distinct_by(s, key),
        forall|y: A| key(y) == key(x) ==> #[trigger] pred(y),
    ensures
        distinct_by(remove_where(s, pred).push(x), key),
{
    lemma_remove_where_distinct_by(s, pred, key);
    lemma_remove_where_clears(s, pred);
    let removed = remove_where(s, pred);
    let out = removed.push(x);
    assert forall|i: int, j: int|
        #![trigger out[i], out[j]]
        0 <= i < j < out.len() implies key(out[i]) != key(out[j]) by {
        if j == out.len() - 1 {
            assert(out[i] == removed[i]);
            assert(!pred(removed[i]));
        } else {
            assert(out[i] == removed[i] && out[j] == removed[j]);
        }
    }
}

} // verus!
