//! Fanout broadcaster: computes which peers receive which event.
//!
//! The core decides; delivery is the host process's job.  Each function
//! returns the list of pushes to dispatch, one per recipient, in
//! membership order: a member receives an event exactly when its address
//! is not the excluded one and a live handle is registered for it.
//! Delivery is fire-and-forget, so nothing here waits on a recipient.

use vstd::prelude::*;

use crate::command::{Command, CommandV};
use crate::model::{BaseV, Request, RequestV, User, UserInfo, UserInfoV, UserV, user_of};
use crate::server::Server;
use crate::sorting::{sort_by_login, sort_users_by_login};
use crate::strutil::str_eq;

verus! {

/// One outbound delivery: a payload bound for an address.
pub struct Push {
    pub address: String,
    pub req: Request,
}

/// Mathematical view of a [`Push`].
#[verifier::ext_equal]
pub ghost struct PushV {
    pub address: Seq<char>,
    pub req: RequestV,
}

impl View for Push {
    type V = PushV;

    open spec fn view(&self) -> PushV {
        PushV { address: self.address@, req: self.req@ }
    }
}

/// The base of a freshly built request.
pub open spec fn empty_base() -> BaseV {
    BaseV {
        session_id: Seq::<char>::empty(),
        remote_add: Seq::<char>::empty(),
        user_info: None,
    }
}

/// A request wrapping a command, as [`Request::new`] builds it.
pub open spec fn request_of(cmd: CommandV) -> RequestV {
    RequestV { base: empty_base(), cmd, cmd_type: cmd.tag() }
}

/// The deliveries that sending `req` to `to` produces: one per member
/// whose address is not `except` and has a live handle, in membership
/// order.
pub open spec fn push_list(
    req: RequestV,
    conns: crate::conn_manager::ConnectionManager,
    except: Seq<char>,
    to: Seq<UserInfoV>,
) -> Seq<PushV>
    decreases to.len(),
{
    if to.len() == 0 {
        Seq::empty()
    } else {
        let front = push_list(req, conns, except, to.drop_last());
        let u = to.last();
        if u.address != except && conns.connected(u.address) {
            front.push(PushV { address: u.address, req })
        } else {
            front
        }
    }
}

/// Sends one payload to every listed member except the excluded address,
/// skipping members without a live handle.
pub fn push_to_user(req: Request, s: &Server, except_for_addr: &str, to_users: &Vec<UserInfo>) -> (r:
    Vec<Push>)
    ensures
        r@.map_values(|p: Push| p@) == push_list(
            req@,
            s.cons,
            except_for_addr@,
            to_users@.map_values(|u: UserInfo| u@),
        ),
{
    let ghost views = to_users@.map_values(|u: UserInfo| u@);
    let mut out: Vec<Push> = Vec::new();
    let n = to_users.len();
    for i in 0..n
        invariant
            n == to_users.len(),
            out@.map_values(|p: Push| p@) == push_list(req@, s.cons, except_for_addr@, views.take(i as int)),
    {
        proof {
            assert(views[i as int] == to_users@[i as int]@);
            assert(views.take(i + 1).drop_last() =~= views.take(i as int));
            assert(views.take(i + 1).last() == views[i as int]);
        }
        if !str_eq(to_users[i].address.as_str(), except_for_addr) {
            if s.cons.get(to_users[i].address.as_str()) {
                let ghost pre = out@.map_values(|p: Push| p@);
                out.push(Push { address: to_users[i].address.clone(), req: req.clone() });
                proof {
                    assert(out@.map_values(|p: Push| p@) =~= pre.push(
                        PushV { address: views[i as int].address, req: req@ },
                    ));
                }
            }
        }
    }
    proof {
        assert(views.take(n as int) =~= views);
    }
    out
}

/// Sends one payload to every member of a room except the excluded
/// address.
pub fn push_to_chat_user(req: Request, s: &Server, except_for_addr: &str, chat_id: i64) -> (r: Vec<
    Push>)
    ensures
        r@.map_values(|p: Push| p@) == push_list(
            req@,
            s.cons,
            except_for_addr@,
            s.repo.chat.spec_members(chat_id as int),
        ),
{
    let remote_to_user = s.repo.chat.get(chat_id);
    push_to_user(req, s, except_for_addr, &remote_to_user)
}

/// The roster announcement for a room: the full current membership,
/// sorted ascending by login time.
pub open spec fn roster_request(s: Server, chat_id: int) -> RequestV {
    request_of(
        CommandV::ChatUserList {
            user_list: sort_by_login(
                s.repo.chat.spec_members(chat_id).map_values(|u: UserInfoV| user_of(u)),
            ),
        },
    )
}

/// Pushes the full current roster of a room, sorted by ascending login
/// time, to the listed members, except the excluded address.
pub fn chat_user_list(s: &Server, chat_id: i64, except_for_addr: &str, to_users: &Vec<UserInfo>) -> (r: Vec<Push>)
    ensures
        r@.map_values(|p: Push| p@) == push_list(
            roster_request(*s, chat_id as int),
            s.cons,
            except_for_addr@,
            to_users@.map_values(|u: UserInfo| u@),
        ),
{
    let members = s.repo.chat.get(chat_id);
    let users = users_of(&members);
    let sorted = sort_users_by_login(users);
    let req = Request::new(Command::ChatUserList { user_list: sorted });
    push_to_user(req, s, except_for_addr, to_users)
}

/// The participant snapshots of a member list.
fn users_of(members: &Vec<UserInfo>) -> (r: Vec<User>)
    ensures
        r@.map_values(|u: User| u@) == members@.map_values(|u: UserInfo| u@).map_values(
            |u: UserInfoV| user_of(u),
        ),
{
    let mut out: Vec<User> = Vec::new();
    let n = members.len();
    for i in 0..n
        invariant
            n == members.len(),
            out.len() == i,
            forall|j: int| 0 <= j < i ==> out@[j]@ == user_of(members@[j]@),
    {
        out.push(User::from_user_info(&members[i]));
    }
    proof {
        assert(out@.map_values(|u: User| u@) =~= members@.map_values(|u: UserInfo| u@).map_values(
            |u: UserInfoV| user_of(u),
        ));
    }
    out
}

/// The presence announcement for a participant joining or leaving.
pub open spec fn presence_request(is_online: bool, u: UserInfoV, now: int) -> RequestV {
    request_of(
        if is_online {
            CommandV::UserOnline { time: now, user: user_of(u) }
        } else {
            CommandV::UserOffline { time: now, user: user_of(u) }
        },
    )
}

/// The exclusion that goes with a presence change: nobody when a member
/// joins — every member, the joiner included, learns of it — and the
/// departing address when a member leaves, since no connection exists
/// there any more.
pub open spec fn presence_exclusion(is_online: bool, u: UserInfoV) -> Seq<char> {
    if is_online {
        Seq::empty()
    } else {
        u.address
    }
}

/// Announces a presence change to the user's room: first the online or
/// offline event, then the full roster, both under the same exclusion.
pub fn push_user_conn_change_event(s: &Server, user_info: &UserInfo, is_online: bool, now: i64) -> (r: Vec<Push>)
    ensures
        r@.map_values(|p: Push| p@) == push_list(
            presence_request(is_online, user_info@, now as int),
            s.cons,
            presence_exclusion(is_online, user_info@),
            s.repo.chat.spec_members(user_info@.chat_id),
        ) + push_list(
            roster_request(*s, user_info@.chat_id),
            s.cons,
            presence_exclusion(is_online, user_info@),
            s.repo.chat.spec_members(user_info@.chat_id),
        ),
{
    let to_users = s.repo.chat.get(user_info.chat_id);
    let req = if is_online {
        Request::new(Command::UserOnline { time: now, user: User::from_user_info(user_info) })
    } else {
        Request::new(Command::UserOffline { time: now, user: User::from_user_info(user_info) })
    };
    proof {
        reveal_strlit("");
        assert(""@ =~= Seq::<char>::empty());
    }
    let except_for_addr = if is_online {
        ""
    } else {
        user_info.address.as_str()
    };
    let mut out = push_to_user(req, s, except_for_addr, &to_users);
    let ghost ev = out@.map_values(|p: Push| p@);
    let mut roster = chat_user_list(s, user_info.chat_id, except_for_addr, &to_users);
    let ghost ro = roster@.map_values(|p: Push| p@);
    out.append(&mut roster);
    proof {
        assert(out@.map_values(|p: Push| p@) =~= ev + ro);
    }
    out
}

/// Announces that a user came online.
pub fn user_online_event(s: &Server, user_info: &UserInfo, now: i64) -> (r: Vec<Push>)
    ensures
        r@.map_values(|p: Push| p@) == push_list(
            presence_request(true, user_info@, now as int),
            s.cons,
            Seq::<char>::empty(),
            s.repo.chat.spec_members(user_info@.chat_id),
        ) + push_list(
            roster_request(*s, user_info@.chat_id),
            s.cons,
            Seq::<char>::empty(),
            s.repo.chat.spec_members(user_info@.chat_id),
        ),
{
    push_user_conn_change_event(s, user_info, true, now)
}

/// Announces that a user went offline.
pub fn user_offline_event(s: &Server, user_info: &UserInfo, now: i64) -> (r: Vec<Push>)
    ensures
        r@.map_values(|p: Push| p@) == push_list(
            presence_request(false, user_info@, now as int),
            s.cons,
            user_info@.address,
            s.repo.chat.spec_members(user_info@.chat_id),
        ) + push_list(
            roster_request(*s, user_info@.chat_id),
            s.cons,
            user_info@.address,
            s.repo.chat.spec_members(user_info@.chat_id),
        ),
{
    push_user_conn_change_event(s, user_info, false, now)
}

/// How many pushes of a fanout go to one address: as many as the address
/// occurs among the members, when it is not excluded and has a live
/// handle; none otherwise.
pub proof fn lemma_push_list_count(
    req: RequestV,
    conns: crate::conn_manager::ConnectionManager,
    except: Seq<char>,
    to: Seq<UserInfoV>,
    b: Seq<char>,
)
    ensures
        crate::seqtools::count_where(
            push_list(req, conns, except, to),
            |p: PushV| p.address == b,
        ) == (if b != except && conns.connected(b) {
            crate::seqtools::count_where(to, crate::session_store::by_address(b))
        } else {
            0nat
        }),
    decreases to.len(),
{
    let pred = |p: PushV| p.address == b;
    let member = crate::session_store::by_address(b);
    if to.len() == 0 {
    } else {
        lemma_push_list_count(req, conns, except, to.drop_last(), b);
        crate::seqtools::lemma_count_where_push(to.drop_last(), member, to.last());
        assert(to.drop_last().push(to.last()) =~= to);
        let u = to.last();
        if u.address != except && conns.connected(u.address) {
            crate::seqtools::lemma_count_where_push(
                push_list(req, conns, except, to.drop_last()),
                pred,
                PushV { address: u.address, req },
            );
        }
    }
}

/// Fanout exclusion for a departure, stated over the pushes that the
/// cleanup routine computes once the departing user has been removed from
/// the room: the departing address receives neither the offline event nor
/// the roster update, while every other member with a live handle
/// receives exactly one of each.
pub proof fn lemma_offline_fanout_exclusion(s: Server, u: UserInfoV, now: int, b: Seq<char>)
    requires
        s.wf(),
    ensures
        crate::seqtools::count_where(
            push_list(
                presence_request(false, u, now),
                s.cons,
                u.address,
                s.repo.chat.spec_members(u.chat_id),
            ),
            |p: PushV| p.address == u.address,
        ) == 0,
        crate::seqtools::count_where(
            push_list(
                roster_request(s, u.chat_id),
                s.cons,
                u.address,
                s.repo.chat.spec_members(u.chat_id),
            ),
            |p: PushV| p.address == u.address,
        ) == 0,
        (b != u.address && s.cons.connected(b) && crate::service::room_contains_address(
            s.repo.chat.spec_members(u.chat_id),
            b,
        )) ==> crate::seqtools::count_where(
            push_list(
                presence_request(false, u, now),
                s.cons,
                u.address,
                s.repo.chat.spec_members(u.chat_id),
            ),
            |p: PushV| p.address == b,
        ) == 1 && crate::seqtools::count_where(
            push_list(
                roster_request(s, u.chat_id),
                s.cons,
                u.address,
                s.repo.chat.spec_members(u.chat_id),
            ),
            |p: PushV| p.address == b,
        ) == 1,
{
    let members = s.repo.chat.spec_members(u.chat_id);
    lemma_push_list_count(presence_request(false, u, now), s.cons, u.address, members, u.address);
    lemma_push_list_count(roster_request(s, u.chat_id), s.cons, u.address, members, u.address);
    lemma_push_list_count(presence_request(false, u, now), s.cons, u.address, members, b);
    lemma_push_list_count(roster_request(s, u.chat_id), s.cons, u.address, members, b);
    if s.repo.chat.has_room(u.chat_id) {
        crate::seqtools::lemma_find_first_is_match(
            s.repo.chat.records(),
            crate::chat_store::by_room(u.chat_id),
        );
        let room = crate::seqtools::find_first(
            s.repo.chat.records(),
            crate::chat_store::by_room(u.chat_id),
        ).unwrap();
        let k = choose|k: int|
            0 <= k < s.repo.chat.records().len() && s.repo.chat.records()[k] == room;
        assert(crate::seqtools::distinct_by(members, |m: UserInfoV| m.address));
    } else {
        assert(members =~= Seq::<UserInfoV>::empty());
    }
    crate::seqtools::lemma_count_where_unique(members, crate::session_store::by_address(b));
}

/// Roster completeness: the roster a room's members are pushed lists
/// exactly the current membership — one entry per member, nobody added,
/// nobody dropped — in ascending login-time order.  Membership itself is
/// keyed by address, so a reconnect under the same address overwrites its
/// old entry rather than appending a duplicate.
pub proof fn lemma_roster_complete(s: Server, chat_id: int)
    ensures
        roster_request(s, chat_id).cmd matches CommandV::ChatUserList { user_list } ==> {
            &&& user_list.len() == s.repo.chat.spec_members(chat_id).len()
            &&& crate::sorting::sorted_by_login(user_list)
            &&& user_list.to_multiset() == s.repo.chat.spec_members(chat_id).map_values(
                |u: UserInfoV| user_of(u),
            ).to_multiset()
        },
{
    crate::sorting::lemma_sort_by_login(
        s.repo.chat.spec_members(chat_id).map_values(|u: UserInfoV| user_of(u)),
    );
}

/// The history replay for a room.
pub open spec fn history_request(s: Server, chat_id: int) -> RequestV {
    request_of(
        CommandV::ChatMessageList { message_list: s.repo.message.spec_messages(chat_id) },
    )
}

/// Replays a room's message history to one freshly joined user — and to
/// nobody else: history is point-to-point, not a room broadcast.
pub fn chat_message_list(s: &Server, user_info: &UserInfo) -> (r: Vec<Push>)
    ensures
        r@.map_values(|p: Push| p@) == push_list(
            history_request(*s, user_info@.chat_id),
            s.cons,
            Seq::<char>::empty(),
            seq![user_info@],
        ),
{
    let msg_list = s.repo.message.get(user_info.chat_id);
    let req = Request::new(Command::ChatMessageList { message_list: msg_list });
    proof {
        reveal_strlit("");
        assert(""@ =~= Seq::<char>::empty());
    }
    let to = vec![user_info.clone()];
    proof {
        assert(to@.map_values(|u: UserInfo| u@) =~= seq![user_info@]);
    }
    push_to_user(req, s, "", &to)
}

} // verus!
