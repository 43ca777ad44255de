//! Sorting a roster by ascending login time (join order).

use vstd::prelude::*;
use vstd::seq_lib::group_to_multiset_ensures;

use crate::model::{User, UserV};

verus! {

/// Inserts a participant behind every member who logged in no later, so
/// that an already sorted list stays sorted and ties keep their order.
pub open spec fn insert_by_login(s: Seq<UserV>, u: UserV) -> Seq<UserV>
    decreases s.len(),
{
    if s.len() == 0 {
        seq![u]
    } else if s.first().login_time <= u.login_time {
        seq![s.first()] + insert_by_login(s.drop_first(), u)
    } else {
        seq![u] + s
    }
}

/// The roster in ascending login-time order: an insertion sort, stable for
/// equal login times.
pub open spec fn sort_by_login(s: Seq<UserV>) -> Seq<UserV>
    decreases s.len(),
{
    if s.len() == 0 {
        Seq::empty()
    } else {
        insert_by_login(sort_by_login(s.drop_last()), s.last())
    }
}

/// Ascending by login time.
pub open spec fn sorted_by_login(s: Seq<UserV>) -> bool {
    forall|i: int, j: int|
        #![trigger s[i], s[j]]
        0 <= i < j < s.len() ==> s[i].login_time <= s[j].login_time
}

/// Inserting keeps a sorted list sorted, adds exactly the new member, and
/// grows the length by one.
pub proof fn lemma_insert_by_login(s: Seq<UserV>, u: UserV)
    ensures
        sorted_by_login(s) ==> sorted_by_login(insert_by_login(s, u)),
        insert_by_login(s, u).to_multiset() == s.to_multiset().insert(u),
        insert_by_login(s, u).len() == s.len() + 1,
    decreases s.len(),
{
    broadcast use group_to_multiset_ensures;

    if s.len() == 0 {
        assert(seq![u] =~= Seq::<UserV>::empty().push(u));
        assert(seq![u].to_multiset() =~= s.to_multiset().insert(u));
    } else if s.first().login_time <= u.login_time {
        lemma_insert_by_login(s.drop_first(), u);
        let rest = insert_by_login(s.drop_first(), u);
        let out = seq![s.first()] + rest;
        assert(out.drop_first() =~= rest);
        vstd::seq_lib::lemma_multiset_commutative(seq![s.first()], rest);
        vstd::seq_lib::lemma_multiset_commutative(seq![s.first()], s.drop_first());
        assert(seq![s.first()] + s.drop_first() =~= s);
        assert(seq![s.first()].to_multiset() =~= Seq::<UserV>::empty().push(s.first()).to_multiset());
        assert(out.to_multiset() =~= s.to_multiset().insert(u));
        if sorted_by_login(s) {
            assert(forall|i: int| 0 <= i < s.drop_first().len() ==> s.drop_first()[i] == #[trigger] s[i + 1]);
            assert(sorted_by_login(s.drop_first()));
            assert forall|i: int, j: int|
                #![trigger out[i], out[j]]
                0 <= i < j < out.len() implies out[i].login_time <= out[j].login_time by {
                if i == 0 {
                    assert(out[j] == rest[j - 1]);
                    lemma_insert_elem(s.drop_first(), u, j - 1);
                    if rest[j - 1] != u {
                        let k = choose|k: int|
                            0 <= k < s.drop_first().len() && s.drop_first()[k] == rest[j - 1];
                        assert(s[k + 1] == rest[j - 1]);
                    }
                } else {
                    assert(out[i] == rest[i - 1] && out[j] == rest[j - 1]);
                }
            }
        }
    } else {
        let out = seq![u] + s;
        vstd::seq_lib::lemma_multiset_commutative(seq![u], s);
        assert(seq![u].to_multiset() =~= Seq::<UserV>::empty().push(u).to_multiset());
        assert(out.to_multiset() =~= s.to_multiset().insert(u));
        if sorted_by_login(s) {
            assert forall|i: int, j: int|
                #![trigger out[i], out[j]]
                0 <= i < j < out.len() implies out[i].login_time <= out[j].login_time by {
                if i == 0 {
                    assert(out[j] == s[j - 1]);
                    if j - 1 > 0 {
                        assert(s[0].login_time <= s[j - 1].login_time);
                    }
                } else {
                    assert(out[i] == s[i - 1] && out[j] == s[j - 1]);
                }
            }
        }
    }
}

/// Every element of an insertion result is the new member or one of the
/// old ones.
proof fn lemma_insert_elem(s: Seq<UserV>, u: UserV, i: int)
    requires
        0 <= i < insert_by_login(s, u).len(),
    ensures
        insert_by_login(s, u)[i] == u || exists|k: int|
            0 <= k < s.len() && s[k] == insert_by_login(s, u)[i],
    decreases s.len(),
{
    if s.len() == 0 {
    } else if s.first().login_time <= u.login_time {
        let rest = insert_by_login(s.drop_first(), u);
        let out = seq![s.first()] + rest;
        if i == 0 {
            assert(out[0] == s[0]);
        } else {
            assert(out[i] == rest[i - 1]);
            lemma_insert_elem(s.drop_first(), u, i - 1);
            if rest[i - 1] != u {
                let k = choose|k: int|
                    0 <= k < s.drop_first().len() && s.drop_first()[k] == rest[i - 1];
                assert(s[k + 1] == out[i]);
            }
        }
    } else {
        let out = seq![u] + s;
        if i > 0 {
            assert(s[i - 1] == out[i]);
        }
    }
}

/// The sorted roster is a permutation of the membership, ascending by
/// login time: same length, same multiset of participants.
pub proof fn lemma_sort_by_login(s: Seq<UserV>)
    ensures
        sorted_by_login(sort_by_login(s)),
        sort_by_login(s).to_multiset() == s.to_multiset(),
        sort_by_login(s).len() == s.len(),
    decreases s.len(),
{
    broadcast use group_to_multiset_ensures;

    if s.len() == 0 {
    } else {
        lemma_sort_by_login(s.drop_last());
        lemma_insert_by_login(sort_by_login(s.drop_last()), s.last());
        assert(s.drop_last().push(s.last()) =~= s);
    }
}

/// Where the new member lands: after the members who logged in no later
/// than it, before the rest.
proof fn lemma_insert_by_login_at(s: Seq<UserV>, u: UserV, k: int)
    requires
        0 <= k <= s.len(),
        forall|j: int| 0 <= j < k ==> (#[trigger] s[j]).login_time <= u.login_time,
        k < s.len() ==> s[k].login_time > u.login_time,
    ensures
        insert_by_login(s, u) == s.take(k) + seq![u] + s.skip(k),
    decreases k,
{
    if s.len() == 0 {
        assert(insert_by_login(s, u) =~= s.take(k) + seq![u] + s.skip(k));
    } else if k == 0 {
        assert(s.take(0) =~= Seq::<UserV>::empty());
        assert(s.skip(0) =~= s);
        assert(insert_by_login(s, u) =~= s.take(k) + seq![u] + s.skip(k));
    } else {
        assert(s[0].login_time <= u.login_time);
        assert(forall|j: int| 0 <= j < s.drop_first().len() ==> s.drop_first()[j] == #[trigger] s[j
            + 1]);
        lemma_insert_by_login_at(s.drop_first(), u, k - 1);
        assert(insert_by_login(s, u) =~= seq![s.first()] + (s.drop_first().take(k - 1) + seq![u]
            + s.drop_first().skip(k - 1)));
        assert(seq![s.first()] + (s.drop_first().take(k - 1) + seq![u] + s.drop_first().skip(k - 1))
            =~= s.take(k) + seq![u] + s.skip(k));
    }
}

/// Sorts a roster ascending by login time.
pub fn sort_users_by_login(users: Vec<User>) -> (r: Vec<User>)
    ensures
        r@.map_values(|u: User| u@) == sort_by_login(users@.map_values(|u: User| u@)),
{
    let ghost views = users@.map_values(|u: User| u@);
    let mut out: Vec<User> = Vec::new();
    let n = users.len();
    for i in 0..n
        invariant
            n == users.len(),
            out@.map_values(|u: User| u@) == sort_by_login(views.take(i as int)),
    {
        let ghost sorted_pre = sort_by_login(views.take(i as int));
        let mut k: usize = 0;
        while k < out.len() && out[k].login_time <= users[i].login_time
            invariant
                k <= out.len(),
                forall|j: int| 0 <= j < k ==> (#[trigger] sorted_pre[j]).login_time <= views[
                    i as int].login_time,
            decreases out.len() - k,
        {
            proof {
                assert(sorted_pre[k as int] == out@[k as int]@);
            }
            k = k + 1;
        }
        let cl = clone_user(&users[i]);
        let ghost clg = cl;
        let ghost out_pre = out@;
        let ghost pre = out@.map_values(|u: User| u@);
        proof {
            assert(views[i as int] == users@[i as int]@);
            if k < out.len() {
                assert(pre[k as int] == out@[k as int]@);
            }
        }
        out.insert(k, cl);
        proof {
            out_pre.insert_ensures(k as int, clg);
            assert(out@.map_values(|u: User| u@) =~= pre.take(k as int) + seq![views[i as int]]
                + pre.skip(k as int));
            lemma_insert_by_login_at(pre, views[i as int], k as int);
            assert(views.take(i + 1) =~= views.take(i as int).push(views[i as int]));
            assert(views.take(i + 1).drop_last() =~= views.take(i as int));
        }
    }
    proof {
        assert(views.take(n as int) =~= views);
    }
    out
}

/// Clones a participant, preserving its view.
fn clone_user(u: &User) -> (r: User)
    ensures
        r@ == u@,
{
    u.clone()
}

} // verus!
