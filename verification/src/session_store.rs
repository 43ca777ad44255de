//! Session store: the authoritative record of every live login, reachable
//! both by session id and by remote address.
//!
//! The store keeps a single list of records and derives both indices from
//! it, so the two lookups can never disagree: writing or removing a record
//! updates both views at once (the paired-update invariant).

use vstd::prelude::*;

use crate::model::{UserInfo, UserInfoV};
use crate::seqtools::{
    distinct_by, find_first, lemma_find_first_found, lemma_find_first_is_match,
    lemma_find_first_push, lemma_find_prefix_settled, lemma_overwrite_distinct_by,
    lemma_remove_kept_from_old, lemma_remove_where_clears, lemma_remove_where_distinct_by,
    lemma_remove_where_push, remove_where,
};
use crate::strutil::str_eq;

verus! {

/// Matches a record by session id.
pub open spec fn by_session(sid: Seq<char>) -> spec_fn(UserInfoV) -> bool {
    |u: UserInfoV| u.session_id == sid
}

/// Matches a record by remote address.
pub open spec fn by_address(addr: Seq<char>) -> spec_fn(UserInfoV) -> bool {
    |u: UserInfoV| u.address == addr
}

/// No two records share a session id, and no two share an address.
pub open spec fn distinct_keys(s: Seq<UserInfoV>) -> bool {
    distinct_by(s, |u: UserInfoV| u.session_id) && distinct_by(s, |u: UserInfoV| u.address)
}

/// In-memory session store.
pub struct SessionMemoryImpl {
    users: Vec<UserInfo>,
}

/// View of an optional record.
pub open spec fn opt_v(o: Option<UserInfo>) -> Option<UserInfoV> {
    match o {
        Some(u) => Some(u@),
        None => None,
    }
}

impl SessionMemoryImpl {
    /// All live records, oldest write first.
    pub closed spec fn records(self) -> Seq<UserInfoV> {
        self.users@.map_values(|u: UserInfo| u@)
    }

    /// Both indices are keyed uniquely.
    pub open spec fn wf(self) -> bool {
        distinct_keys(self.records())
    }

    /// The record the session-id index yields.
    pub open spec fn spec_get(self, sid: Seq<char>) -> Option<UserInfoV> {
        find_first(self.records(), by_session(sid))
    }

    /// The record the address index yields.
    pub open spec fn spec_get_by_addr(self, addr: Seq<char>) -> Option<UserInfoV> {
        find_first(self.records(), by_address(addr))
    }

    /// An empty store.
    pub fn new() -> (r: Self)
        ensures
            r.records() =~= Seq::<UserInfoV>::empty(),
            r.wf(),
    {
        let r = SessionMemoryImpl { users: Vec::new() };
        proof {
            assert(r.records() =~= Seq::<UserInfoV>::empty());
        }
        r
    }

    /// Stores a record under both indices.  A record already holding the
    /// session id or the address is replaced, so a re-login under the same
    /// address overwrites rather than appends.
    pub fn save(&mut self, session_id: String, user: UserInfo)
        requires
            old(self).wf(),
            user@.session_id == session_id@,
        ensures
            final(self).wf(),
            final(self).records() == remove_where(
                old(self).records(),
                |u: UserInfoV| u.session_id == user@.session_id || u.address == user@.address,
            ).push(user@),
    {
        let ghost clash = |u: UserInfoV| u.session_id == user@.session_id || u.address
            == user@.address;
        let mut kept: Vec<UserInfo> = Vec::new();
        let n = self.users.len();
        for i in 0..n
            invariant
                n == self.users.len(),
                kept@.map_values(|u: UserInfo| u@) == remove_where(
                    self.users@.map_values(|u: UserInfo| u@).take(i as int),
                    clash,
                ),
        {
            proof {
                let views = self.users@.map_values(|u: UserInfo| u@);
                assert(views[i as int] == self.users@[i as int]@);
                assert(views.take(i + 1) =~= views.take(i as int).push(views[i as int]));
                lemma_remove_where_push(views.take(i as int), clash, views[i as int]);
            }
            let keep = !(str_eq(self.users[i].session_id.as_str(), session_id.as_str()) || str_eq(
                self.users[i].address.as_str(),
                user.address.as_str(),
            ));
            if keep {
                let ghost pre = kept@.map_values(|u: UserInfo| u@);
                kept.push(self.users[i].clone());
                proof {
                    assert(kept@.map_values(|u: UserInfo| u@) =~= pre.push(
                        self.users@.map_values(|u: UserInfo| u@)[i as int],
                    ));
                }
            }
        }
        proof {
            let views = self.users@.map_values(|u: UserInfo| u@);
            assert(views.take(n as int) =~= views);
        }
        let ghost pre = kept@.map_values(|u: UserInfo| u@);
        kept.push(user);
        self.users = kept;
        proof {
            assert(self.records() =~= pre.push(user@));
            lemma_overwrite_distinct_by(old(self).records(), clash, |u: UserInfoV| u.session_id, user@);
            lemma_overwrite_distinct_by(old(self).records(), clash, |u: UserInfoV| u.address, user@);
        }
    }

    /// Looks a record up by session id.
    pub fn get(&self, session_id: &str) -> (r: Option<UserInfo>)
        ensures
            opt_v(r) == self.spec_get(session_id@),
    {
        let ghost pred = by_session(session_id@);
        let n = self.users.len();
        for i in 0..n
            invariant
                n == self.users.len(),
                find_first(self.users@.map_values(|u: UserInfo| u@).take(i as int), pred)
                    == None::<UserInfoV>,
        {
            proof {
                let views = self.users@.map_values(|u: UserInfo| u@);
                assert(views[i as int] == self.users@[i as int]@);
                assert(views.take(i + 1) =~= views.take(i as int).push(views[i as int]));
                lemma_find_first_push(views.take(i as int), pred, views[i as int]);
            }
            if str_eq(self.users[i].session_id.as_str(), session_id) {
                proof {
                    let views = self.users@.map_values(|u: UserInfo| u@);
                    lemma_find_prefix_settled(views, pred, i + 1);
                }
                return Some(self.users[i].clone());
            }
        }
        proof {
            let views = self.users@.map_values(|u: UserInfo| u@);
            assert(views.take(n as int) =~= views);
        }
        None
    }

    /// Looks a record up by remote address.
    pub fn get_with_remote_addr(&self, remote: &str) -> (r: Option<UserInfo>)
        ensures
            opt_v(r) == self.spec_get_by_addr(remote@),
    {
        let ghost pred = by_address(remote@);
        let n = self.users.len();
        for i in 0..n
            invariant
                n == self.users.len(),
                find_first(self.users@.map_values(|u: UserInfo| u@).take(i as int), pred)
                    == None::<UserInfoV>,
        {
            proof {
                let views = self.users@.map_values(|u: UserInfo| u@);
                assert(views[i as int] == self.users@[i as int]@);
                assert(views.take(i + 1) =~= views.take(i as int).push(views[i as int]));
                lemma_find_first_push(views.take(i as int), pred, views[i as int]);
            }
            if str_eq(self.users[i].address.as_str(), remote) {
                proof {
                    let views = self.users@.map_values(|u: UserInfo| u@);
                    lemma_find_prefix_settled(views, pred, i + 1);
                }
                return Some(self.users[i].clone());
            }
        }
        proof {
            let views = self.users@.map_values(|u: UserInfo| u@);
            assert(views.take(n as int) =~= views);
        }
        None
    }

    /// Removes the record stored under an address from both indices.
    /// Removing an address that is not stored changes nothing.
    pub fn remove(&mut self, remote: &str)
        requires
            old(self).wf(),
        ensures
            final(self).wf(),
            final(self).records() == remove_where(old(self).records(), by_address(remote@)),
            final(self).spec_get_by_addr(remote@) == None::<UserInfoV>,
            old(self).spec_get_by_addr(remote@) matches Some(u) ==> final(self).spec_get(
                u.session_id,
            ) == None::<UserInfoV>,
    {
        let ghost pred = by_address(remote@);
        let mut kept: Vec<UserInfo> = Vec::new();
        let n = self.users.len();
        for i in 0..n
            invariant
                n == self.users.len(),
                kept@.map_values(|u: UserInfo| u@) == remove_where(
                    self.users@.map_values(|u: UserInfo| u@).take(i as int),
                    pred,
                ),
        {
            proof {
                let views = self.users@.map_values(|u: UserInfo| u@);
                assert(views[i as int] == self.users@[i as int]@);
                assert(views.take(i + 1) =~= views.take(i as int).push(views[i as int]));
                lemma_remove_where_push(views.take(i as int), pred, views[i as int]);
            }
            if !str_eq(self.users[i].address.as_str(), remote) {
                let ghost pre = kept@.map_values(|u: UserInfo| u@);
                kept.push(self.users[i].clone());
                proof {
                    assert(kept@.map_values(|u: UserInfo| u@) =~= pre.push(
                        self.users@.map_values(|u: UserInfo| u@)[i as int],
                    ));
                }
            }
        }
        proof {
            let views = self.users@.map_values(|u: UserInfo| u@);
            assert(views.take(n as int) =~= views);
        }
        self.users = kept;
        proof {
            lemma_remove_where_distinct_by(old(self).records(), pred, |u: UserInfoV| u.session_id);
            lemma_remove_where_distinct_by(old(self).records(), pred, |u: UserInfoV| u.address);
            lemma_remove_where_clears(old(self).records(), pred);
            if old(self).spec_get_by_addr(remote@) is Some {
                let u = old(self).spec_get_by_addr(remote@).unwrap();
                lemma_find_first_is_match(old(self).records(), pred);
                lemma_find_first_is_match(self.records(), by_session(u.session_id));
                if self.spec_get(u.session_id) is Some {
                    let w = self.spec_get(u.session_id).unwrap();
                    let i = choose|i: int|
                        0 <= i < self.records().len() && self.records()[i] == w;
                    lemma_remove_kept_from_old(old(self).records(), pred, i);
                    let k = choose|k: int|
                        0 <= k < old(self).records().len() && old(self).records()[k]
                            == self.records()[i];
                    let j = choose|j: int|
                        0 <= j < old(self).records().len() && old(self).records()[j] == u;
                    assert(old(self).records()[k].session_id == old(self).records()[j].session_id);
                    assert(false);
                }
            }
        }
    }
}

/// The two indices of a well-formed store agree: a record found under its
/// session id is the record found under its address, and the other way
/// round.
pub proof fn lemma_session_lookups_agree(s: SessionMemoryImpl, sid: Seq<char>, addr: Seq<char>)
    requires
        s.wf(),
    ensures
        s.spec_get(sid) matches Some(u) ==> s.spec_get_by_addr(u.address) == Some(u),
        s.spec_get_by_addr(addr) matches Some(u) ==> s.spec_get(u.session_id) == Some(u),
{
    let r = s.records();
    if s.spec_get(sid) is Some {
        let u = s.spec_get(sid).unwrap();
        lemma_find_first_is_match(r, by_session(sid));
        lemma_find_first_is_match(r, by_address(u.address));
        let i = choose|i: int| 0 <= i < r.len() && r[i] == u;
        lemma_find_first_found(r, by_address(u.address), i);
        let w = s.spec_get_by_addr(u.address).unwrap();
        let j = choose|j: int| 0 <= j < r.len() && r[j] == w;
        assert(r[i].address == r[j].address);
    }
    if s.spec_get_by_addr(addr) is Some {
        let u = s.spec_get_by_addr(addr).unwrap();
        lemma_find_first_is_match(r, by_address(addr));
        lemma_find_first_is_match(r, by_session(u.session_id));
        let i = choose|i: int| 0 <= i < r.len() && r[i] == u;
        lemma_find_first_found(r, by_session(u.session_id), i);
        let w = s.spec_get(u.session_id).unwrap();
        let j = choose|j: int| 0 <= j < r.len() && r[j] == w;
        assert(r[i].session_id == r[j].session_id);
    }
}

} // verus!
