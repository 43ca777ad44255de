//! Room store: which participants are members of which room.
//!
//! A room is created implicitly when its first member is saved and never
//! destroyed; an empty room persists as an empty member list.  Within a
//! room, members are keyed by address: saving a member under an address
//! already present overwrites rather than appends.

use vstd::prelude::*;
use vstd::string::StringExecFns;

use crate::errors::{Errno, ErrnoV};
use crate::model::{UserInfo, UserInfoV};
use crate::seqtools::{
    distinct_by, find_first, lemma_find_first_is_match, lemma_find_first_push,
    lemma_find_prefix_settled, lemma_overwrite_distinct_by, lemma_remove_kept_from_old,
    lemma_remove_where_clears, lemma_remove_where_disjoint, lemma_remove_where_distinct_by,
    lemma_remove_where_push, remove_where,
};
use crate::session_store::by_address;
use crate::strutil::str_eq;

verus! {

/// One room and its members.
pub struct ChatRoom {
    pub chat_id: i64,
    pub members: Vec<UserInfo>,
}

/// Mathematical view of a [`ChatRoom`].
#[verifier::ext_equal]
pub ghost struct ChatRoomV {
    pub chat_id: int,
    pub members: Seq<UserInfoV>,
}

impl View for ChatRoom {
    type V = ChatRoomV;

    open spec fn view(&self) -> ChatRoomV {
        ChatRoomV {
            chat_id: self.chat_id as int,
            members: self.members@.map_values(|u: UserInfo| u@),
        }
    }
}

/// Matches a room by id.
pub open spec fn by_room(chat_id: int) -> spec_fn(ChatRoomV) -> bool {
    |r: ChatRoomV| r.chat_id == chat_id
}

/// In-memory room store.
pub struct ChatMemoryImpl {
    rooms: Vec<ChatRoom>,
}

impl ChatMemoryImpl {
    /// All rooms.
    pub closed spec fn records(self) -> Seq<ChatRoomV> {
        self.rooms@.map_values(|r: ChatRoom| r@)
    }

    /// Room ids are unique and every room keys its members by address.
    pub open spec fn wf(self) -> bool {
        &&& distinct_by(self.records(), |r: ChatRoomV| r.chat_id)
        &&& forall|k: int|
            0 <= k < self.records().len() ==> distinct_by(
                (#[trigger] self.records()[k]).members,
                |u: UserInfoV| u.address,
            )
    }

    /// Whether the room has been created.
    pub open spec fn has_room(self, chat_id: int) -> bool {
        find_first(self.records(), by_room(chat_id)) is Some
    }

    /// The members of a room, in insertion order; empty if the room does
    /// not exist.
    pub open spec fn spec_members(self, chat_id: int) -> Seq<UserInfoV> {
        match find_first(self.records(), by_room(chat_id)) {
            Some(r) => r.members,
            None => Seq::empty(),
        }
    }

    /// An empty store.
    pub fn new() -> (r: Self)
        ensures
            r.records() =~= Seq::<ChatRoomV>::empty(),
            r.wf(),
    {
        let r = ChatMemoryImpl { rooms: Vec::new() };
        proof {
            assert(r.records() =~= Seq::<ChatRoomV>::empty());
        }
        r
    }

    /// Saves a member into a room, creating the room on first use and
    /// overwriting any member stored under the same address.
    pub fn save(&mut self, chat_id: i64, user: UserInfo)
        requires
            old(self).wf(),
        ensures
            final(self).wf(),
            final(self).has_room(chat_id as int),
            final(self).spec_members(chat_id as int) == remove_where(
                old(self).spec_members(chat_id as int),
                by_address(user@.address),
            ).push(user@),
            forall|c: int|
                c != chat_id as int ==> final(self).spec_members(c) == old(self).spec_members(c)
                    && final(self).has_room(c) == old(self).has_room(c),
    {
        let ghost pred = by_room(chat_id as int);
        let ghost old_records = self.records();
        let mut kept: Vec<ChatRoom> = Vec::new();
        let mut members: Vec<UserInfo> = Vec::new();
        let mut found = false;
        let n = self.rooms.len();
        for i in 0..n
            invariant
                n == self.rooms.len(),
                kept@.map_values(|r: ChatRoom| r@) == remove_where(
                    self.records().take(i as int),
                    pred,
                ),
                found == (find_first(self.records().take(i as int), pred) is Some),
                members@.map_values(|u: UserInfo| u@) == (match find_first(
                    self.records().take(i as int),
                    pred,
                ) {
                    Some(r) => r.members,
                    None => Seq::<UserInfoV>::empty(),
                }),
        {
            proof {
                assert(self.records()[i as int] == self.rooms@[i as int]@);
                assert(self.records().take(i + 1) =~= self.records().take(i as int).push(
                    self.records()[i as int],
                ));
                lemma_remove_where_push(self.records().take(i as int), pred, self.records()[i as int]);
                lemma_find_first_push(self.records().take(i as int), pred, self.records()[i as int]);
            }
            if self.rooms[i].chat_id == chat_id {
                if !found {
                    members = clone_members(&self.rooms[i].members);
                    found = true;
                }
            } else {
                let ghost pre = kept@.map_values(|r: ChatRoom| r@);
                kept.push(clone_room(&self.rooms[i]));
                proof {
                    assert(kept@.map_values(|r: ChatRoom| r@) =~= pre.push(
                        self.records()[i as int],
                    ));
                }
            }
        }
        proof {
            assert(self.records().take(n as int) =~= self.records());
        }
        let ghost old_members = old(self).spec_members(chat_id as int);
        let new_members = overwrite_member(members, user);
        let ghost kept_v = kept@.map_values(|r: ChatRoom| r@);
        let room = ChatRoom { chat_id, members: new_members };
        let ghost room_v = room@;
        kept.push(room);
        self.rooms = kept;
        proof {
            assert(self.records() =~= kept_v.push(room_v));
            lemma_remove_where_clears(old_records, pred);
            lemma_find_first_push(remove_where(old_records, pred), pred, room_v);
            assert(self.spec_members(chat_id as int) == room_v.members);
            assert forall|c: int| c != chat_id as int implies final(self).spec_members(c) == old(self).spec_members(c) && final(self).has_room(c) == old(self).has_room(c) by {
                lemma_find_first_push(remove_where(old_records, pred), by_room(c), room_v);
                lemma_remove_where_disjoint(old_records, pred, by_room(c));
            }
            lemma_overwrite_distinct_by(old_records, pred, |r: ChatRoomV| r.chat_id, room_v);
            assert forall|k: int| 0 <= k < self.records().len() implies distinct_by(
                (#[trigger] self.records()[k]).members,
                |u: UserInfoV| u.address,
            ) by {
                if k < self.records().len() - 1 {
                    lemma_remove_kept_from_old(old_records, pred, k);
                    let j = choose|j: int|
                        0 <= j < old_records.len() && old_records[j] == remove_where(
                            old_records,
                            pred,
                        )[k];
                    assert(self.records()[k] == old_records[j]);
                } else {
                    assert(self.records()[k] == room_v);
                    if old(self).has_room(chat_id as int) {
                        lemma_find_first_is_match(old_records, pred);
                        let j = choose|j: int|
                            0 <= j < old_records.len() && old_records[j] == find_first(
                                old_records,
                                pred,
                            ).unwrap();
                        assert(distinct_by(old_members, |u: UserInfoV| u.address));
                    }
                    lemma_overwrite_distinct_by(
                        old_members,
                        by_address(user@.address),
                        |u: UserInfoV| u.address,
                        user@,
                    );
                }
            }
        }
    }

    /// The members of a room; an empty list if the room does not exist.
    pub fn get(&self, chat_id: i64) -> (r: Vec<UserInfo>)
        ensures
            r@.map_values(|u: UserInfo| u@) == self.spec_members(chat_id as int),
    {
        let ghost pred = by_room(chat_id as int);
        let n = self.rooms.len();
        for i in 0..n
            invariant
                n == self.rooms.len(),
                find_first(self.records().take(i as int), pred) == None::<ChatRoomV>,
        {
            proof {
                assert(self.records()[i as int] == self.rooms@[i as int]@);
                assert(self.records().take(i + 1) =~= self.records().take(i as int).push(
                    self.records()[i as int],
                ));
                lemma_find_first_push(self.records().take(i as int), pred, self.records()[i as int]);
            }
            if self.rooms[i].chat_id == chat_id {
                proof {
                    lemma_find_prefix_settled(self.records(), pred, i + 1);
                }
                return clone_members(&self.rooms[i].members);
            }
        }
        proof {
            assert(self.records().take(n as int) =~= self.records());
        }
        Vec::new()
    }

    /// Removes the member stored under an address from a room.  Fails, and
    /// changes nothing, when the room or the member does not exist.
    pub fn remove(&mut self, chat_id: i64, remote: &str) -> (r: Result<(), Errno>)
        requires
            old(self).wf(),
        ensures
            final(self).wf(),
            !old(self).has_room(chat_id as int) ==> (r matches Err(e) && e@ == ErrnoV::New(
                "chat user list not found"@,
            ) && *final(self) == *old(self)),
            (old(self).has_room(chat_id as int) && find_first(
                old(self).spec_members(chat_id as int),
                by_address(remote@),
            ) is None) ==> (r matches Err(e) && e@ == ErrnoV::New("user info not found"@) && *final(self) == *old(self)),
            (old(self).has_room(chat_id as int) && find_first(
                old(self).spec_members(chat_id as int),
                by_address(remote@),
            ) is Some) ==> r is Ok && final(self).spec_members(chat_id as int) == remove_where(
                old(self).spec_members(chat_id as int),
                by_address(remote@),
            ) && final(self).has_room(chat_id as int) && (forall|c: int|
                c != chat_id as int ==> final(self).spec_members(c) == old(self).spec_members(c)
                    && final(self).has_room(c) == old(self).has_room(c)),
    {
        let members = self.get(chat_id);
        let room_exists = self.contains_room(chat_id);
        if !room_exists {
            return Err(Errno::New(String::from_str("chat user list not found")));
        }
        let mut member_found = false;
        let m = members.len();
        for i in 0..m
            invariant
                m == members.len(),
                members@.map_values(|u: UserInfo| u@) == old(self).spec_members(chat_id as int),
                member_found == (find_first(
                    old(self).spec_members(chat_id as int).take(i as int),
                    by_address(remote@),
                ) is Some),
        {
            proof {
                let ms = old(self).spec_members(chat_id as int);
                assert(ms[i as int] == members@[i as int]@);
                assert(ms.take(i + 1) =~= ms.take(i as int).push(ms[i as int]));
                lemma_find_first_push(ms.take(i as int), by_address(remote@), ms[i as int]);
            }
            if !member_found && str_eq(members[i].address.as_str(), remote) {
                member_found = true;
            }
        }
        proof {
            let ms = old(self).spec_members(chat_id as int);
            assert(ms.take(m as int) =~= ms);
        }
        if !member_found {
            return Err(Errno::New(String::from_str("user info not found")));
        }
        proof {
            lemma_find_first_is_match(old(self).records(), by_room(chat_id as int));
            let j = choose|j: int|
                0 <= j < old(self).records().len() && old(self).records()[j] == find_first(
                    old(self).records(),
                    by_room(chat_id as int),
                ).unwrap();
            assert(distinct_by(old(self).spec_members(chat_id as int), |u: UserInfoV| u.address));
        }
        let remaining = remove_member(members, remote);
        self.replace_members(chat_id, remaining);
        Ok(())
    }

    /// Whether the room has been created.
    fn contains_room(&self, chat_id: i64) -> (r: bool)
        ensures
            r == self.has_room(chat_id as int),
    {
        let ghost pred = by_room(chat_id as int);
        let n = self.rooms.len();
        for i in 0..n
            invariant
                n == self.rooms.len(),
                find_first(self.records().take(i as int), pred) == None::<ChatRoomV>,
        {
            proof {
                assert(self.records()[i as int] == self.rooms@[i as int]@);
                assert(self.records().take(i + 1) =~= self.records().take(i as int).push(
                    self.records()[i as int],
                ));
                lemma_find_first_push(self.records().take(i as int), pred, self.records()[i as int]);
            }
            if self.rooms[i].chat_id == chat_id {
                proof {
                    lemma_find_prefix_settled(self.records(), pred, i + 1);
                }
                return true;
            }
        }
        proof {
            assert(self.records().take(n as int) =~= self.records());
        }
        false
    }

    /// Replaces the member list of an existing room.
    fn replace_members(&mut self, chat_id: i64, members: Vec<UserInfo>)
        requires
            old(self).wf(),
            old(self).has_room(chat_id as int),
            distinct_by(members@.map_values(|u: UserInfo| u@), |u: UserInfoV| u.address),
        ensures
            final(self).wf(),
            final(self).has_room(chat_id as int),
            final(self).spec_members(chat_id as int) == members@.map_values(|u: UserInfo| u@),
            forall|c: int|
                c != chat_id as int ==> final(self).spec_members(c) == old(self).spec_members(c)
                    && final(self).has_room(c) == old(self).has_room(c),
    {
        let ghost pred = by_room(chat_id as int);
        let ghost old_records = self.records();
        let mut kept: Vec<ChatRoom> = Vec::new();
        let n = self.rooms.len();
        for i in 0..n
            invariant
                n == self.rooms.len(),
                kept@.map_values(|r: ChatRoom| r@) == remove_where(
                    self.records().take(i as int),
                    pred,
                ),
        {
            proof {
                assert(self.records()[i as int] == self.rooms@[i as int]@);
                assert(self.records().take(i + 1) =~= self.records().take(i as int).push(
                    self.records()[i as int],
                ));
                lemma_remove_where_push(self.records().take(i as int), pred, self.records()[i as int]);
            }
            if self.rooms[i].chat_id != chat_id {
                let ghost pre = kept@.map_values(|r: ChatRoom| r@);
                kept.push(clone_room(&self.rooms[i]));
                proof {
                    assert(kept@.map_values(|r: ChatRoom| r@) =~= pre.push(
                        self.records()[i as int],
                    ));
                }
            }
        }
        proof {
            assert(self.records().take(n as int) =~= self.records());
        }
        let ghost kept_v = kept@.map_values(|r: ChatRoom| r@);
        let room = ChatRoom { chat_id, members };
        let ghost room_v = room@;
        kept.push(room);
        self.rooms = kept;
        proof {
            assert(self.records() =~= kept_v.push(room_v));
            lemma_remove_where_clears(old_records, pred);
            lemma_find_first_push(remove_where(old_records, pred), pred, room_v);
            assert forall|c: int| c != chat_id as int implies final(self).spec_members(c) == old(self).spec_members(c) && final(self).has_room(c) == old(self).has_room(c) by {
                lemma_find_first_push(remove_where(old_records, pred), by_room(c), room_v);
                lemma_remove_where_disjoint(old_records, pred, by_room(c));
            }
            lemma_overwrite_distinct_by(old_records, pred, |r: ChatRoomV| r.chat_id, room_v);
            assert forall|k: int| 0 <= k < self.records().len() implies distinct_by(
                (#[trigger] self.records()[k]).members,
                |u: UserInfoV| u.address,
            ) by {
                if k < self.records().len() - 1 {
                    lemma_remove_kept_from_old(old_records, pred, k);
                    let j = choose|j: int|
                        0 <= j < old_records.len() && old_records[j] == remove_where(
                            old_records,
                            pred,
                        )[k];
                    assert(self.records()[k] == old_records[j]);
                } else {
                    assert(self.records()[k] == room_v);
                }
            }
        }
    }
}

/// Clones a room.
fn clone_room(r: &ChatRoom) -> (c: ChatRoom)
    ensures
        c@ == r@,
{
    ChatRoom { chat_id: r.chat_id, members: clone_members(&r.members) }
}

/// Clones a member list, preserving its view.
pub fn clone_members(members: &Vec<UserInfo>) -> (r: Vec<UserInfo>)
    ensures
        r@.map_values(|u: UserInfo| u@) == members@.map_values(|u: UserInfo| u@),
{
    let mut out: Vec<UserInfo> = Vec::new();
    let n = members.len();
    for i in 0..n
        invariant
            n == members.len(),
            out.len() == i,
            forall|j: int| 0 <= j < i ==> out@[j]@ == members@[j]@,
    {
        out.push(members[i].clone());
    }
    proof {
        assert(out@.map_values(|u: UserInfo| u@) =~= members@.map_values(|u: UserInfo| u@));
    }
    out
}

/// Keeps every member but those stored under the given address.
fn remove_member(members: Vec<UserInfo>, remote: &str) -> (r: Vec<UserInfo>)
    ensures
        r@.map_values(|u: UserInfo| u@) == remove_where(
            members@.map_values(|u: UserInfo| u@),
            by_address(remote@),
        ),
        distinct_by(members@.map_values(|u: UserInfo| u@), |u: UserInfoV| u.address)
            ==> distinct_by(r@.map_values(|u: UserInfo| u@), |u: UserInfoV| u.address),
{
    let ghost pred = by_address(remote@);
    let ghost views = members@.map_values(|u: UserInfo| u@);
    let mut out: Vec<UserInfo> = Vec::new();
    let n = members.len();
    for i in 0..n
        invariant
            n == members.len(),
            out@.map_values(|u: UserInfo| u@) == remove_where(views.take(i as int), pred),
    {
        proof {
            assert(views[i as int] == members@[i as int]@);
            assert(views.take(i + 1) =~= views.take(i as int).push(views[i as int]));
            lemma_remove_where_push(views.take(i as int), pred, views[i as int]);
        }
        if !str_eq(members[i].address.as_str(), remote) {
            let ghost pre = out@.map_values(|u: UserInfo| u@);
            out.push(members[i].clone());
            proof {
                assert(out@.map_values(|u: UserInfo| u@) =~= pre.push(views[i as int]));
            }
        }
    }
    proof {
        assert(views.take(n as int) =~= views);
        if distinct_by(views, |u: UserInfoV| u.address) {
            lemma_remove_where_distinct_by(views, pred, |u: UserInfoV| u.address);
        }
    }
    out
}

/// Replaces any member stored under the new member's address, appending the
/// new member at the end.
fn overwrite_member(members: Vec<UserInfo>, user: UserInfo) -> (r: Vec<UserInfo>)
    ensures
        r@.map_values(|u: UserInfo| u@) == remove_where(
            members@.map_values(|u: UserInfo| u@),
            by_address(user@.address),
        ).push(user@),
{
    let ghost pred = by_address(user@.address);
    let ghost views = members@.map_values(|u: UserInfo| u@);
    let mut out: Vec<UserInfo> = Vec::new();
    let n = members.len();
    for i in 0..n
        invariant
            n == members.len(),
            out@.map_values(|u: UserInfo| u@) == remove_where(views.take(i as int), pred),
    {
        proof {
            assert(views[i as int] == members@[i as int]@);
            assert(views.take(i + 1) =~= views.take(i as int).push(views[i as int]));
            lemma_remove_where_push(views.take(i as int), pred, views[i as int]);
        }
        if !str_eq(members[i].address.as_str(), user.address.as_str()) {
            let ghost pre = out@.map_values(|u: UserInfo| u@);
            out.push(members[i].clone());
            proof {
                assert(out@.map_values(|u: UserInfo| u@) =~= pre.push(views[i as int]));
            }
        }
    }
    proof {
        assert(views.take(n as int) =~= views);
    }
    let ghost pre = out@.map_values(|u: UserInfo| u@);
    out.push(user);
    proof {
        assert(out@.map_values(|u: UserInfo| u@) =~= pre.push(user@));
    }
    out
}

} // verus!
