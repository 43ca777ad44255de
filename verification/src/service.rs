//! Chat service: login validation and persistence, the session guard's
//! check, and message sending.

use vstd::prelude::*;
use vstd::string::StringExecFns;

use crate::command::{Command, CommandV, Login, LoginV};
use crate::errors::{Errno, ErrnoV};
use crate::model::{Message, MessageV, User, UserInfo, UserInfoV, Request, user_of};
use crate::push::{push_list, push_to_chat_user, request_of, Push};
use crate::seqtools::remove_where;
use crate::server::Server;
use crate::session_store::by_address;
use crate::strutil::str_eq;

verus! {

/// Whether some member of the room already uses the name.
pub open spec fn room_has_name(ms: Seq<UserInfoV>, name: Seq<char>) -> bool {
    exists|i: int| 0 <= i < ms.len() && (#[trigger] ms[i]).name == name
}

/// Whether an address is among the members.
pub open spec fn room_contains_address(ms: Seq<UserInfoV>, addr: Seq<char>) -> bool {
    exists|i: int| 0 <= i < ms.len() && (#[trigger] ms[i]).address == addr
}

/// The fixed shared secret that stands in for a real credential check.
pub open spec fn spec_password() -> Seq<char> {
    "666666"@
}

/// The placeholder authentication: password equality against the fixed
/// secret.
pub fn auth(request: &Login) -> (r: bool)
    ensures
        r == (request@.password == spec_password()),
{
    str_eq(request.password.as_str(), "666666")
}

/// True when no member of the room uses the name yet.
pub fn check_user_name(s: &Server, user_name: &str, chat_id: i64) -> (r: bool)
    ensures
        r == !room_has_name(s.repo.chat.spec_members(chat_id as int), user_name@),
{
    let members = s.repo.chat.get(chat_id);
    let ghost views = members@.map_values(|u: UserInfo| u@);
    let n = members.len();
    for i in 0..n
        invariant
            n == members.len(),
            forall|j: int| 0 <= j < i ==> (#[trigger] views[j]).name != user_name@,
    {
        proof {
            assert(views[i as int] == members@[i as int]@);
        }
        if str_eq(members[i].name.as_str(), user_name) {
            proof {
                assert(views[i as int].name == user_name@);
            }
            return false;
        }
    }
    true
}

/// The session guard's core check: the session must exist and be bound to
/// the caller's own address, defending against replay from another
/// connection.
pub fn check_session(s: &Server, session_id: &str, remote: &str) -> (r: Result<(), Errno>)
    ensures
        (r is Ok) == (s.repo.session.spec_get(session_id@) matches Some(u) && u.address
            == remote@),
        s.repo.session.spec_get(session_id@) is None ==> (r matches Err(e) && e@ == ErrnoV::New(
            "session_id invalid"@,
        )),
        (s.repo.session.spec_get(session_id@) matches Some(u) && u.address != remote@) ==> (
        r matches Err(e) && e@ == ErrnoV::New("address invalid"@)),
{
    match s.repo.session.get(session_id) {
        None => Err(Errno::New(String::from_str("session_id invalid"))),
        Some(user) => {
            if !str_eq(user.address.as_str(), remote) {
                Err(Errno::New(String::from_str("address invalid")))
            } else {
                Ok(())
            }
        },
    }
}

/// The session record a successful login creates.
pub open spec fn session_record(login: LoginV, remote: Seq<char>, sid: Seq<char>, now: int) -> UserInfoV {
    UserInfoV {
        name: login.user_name,
        session_id: sid,
        address: remote,
        chat_id: login.chat_id,
        login_time: now,
    }
}

/// Matches a session record that would collide with a new login: same
/// session id or same address.
pub open spec fn clashes_with(u: UserInfoV) -> spec_fn(UserInfoV) -> bool {
    |x: UserInfoV| x.session_id == u.session_id || x.address == u.address
}

/// Persists a validated login: builds the session record and writes it to
/// both session indices and into the room's membership, overwriting any
/// record held under the same address.
pub fn login_handler(s: &mut Server, login: Login, remote: String, session_id: String, now: i64) -> (u: UserInfo)
    requires
        old(s).wf(),
    ensures
        final(s).wf(),
        u@ == session_record(login@, remote@, session_id@, now as int),
        final(s).repo.session.records() == remove_where(
            old(s).repo.session.records(),
            clashes_with(u@),
        ).push(u@),
        final(s).repo.chat.spec_members(login@.chat_id) == remove_where(
            old(s).repo.chat.spec_members(login@.chat_id),
            by_address(remote@),
        ).push(u@),
        final(s).repo.chat.has_room(login@.chat_id),
        forall|c: int|
            c != login@.chat_id ==> final(s).repo.chat.spec_members(c) == old(
                s,
            ).repo.chat.spec_members(c) && final(s).repo.chat.has_room(c) == old(
                s,
            ).repo.chat.has_room(c),
        final(s).repo.message == old(s).repo.message,
        final(s).cons == old(s).cons,
{
    let chat_id = login.chat_id;
    let user_info = UserInfo::new(
        login.user_name,
        remote,
        session_id.clone(),
        chat_id,
        now,
    );
    s.repo.session.save(session_id, user_info.clone());
    s.repo.chat.save(chat_id, user_info.clone());
    user_info
}

/// The stored message a send produces.
pub open spec fn message_of(u: UserInfoV, content: Seq<char>, now: int) -> MessageV {
    MessageV { user: user_of(u), time: now, content }
}

/// Appends a message to the sender's room history and fans it out to
/// every member of the room — the sender included, who receives the
/// server's copy of its own message besides any local echo.
pub fn send(s: &mut Server, user: UserInfo, msg: &str, now: i64) -> (r: Vec<Push>)
    requires
        old(s).wf(),
    ensures
        final(s).wf(),
        final(s).repo.message.spec_messages(user@.chat_id) == old(s).repo.message.spec_messages(
            user@.chat_id,
        ).push(message_of(user@, msg@, now as int)),
        forall|c: int|
            c != user@.chat_id ==> final(s).repo.message.spec_messages(c) == old(
                s,
            ).repo.message.spec_messages(c),
        final(s).repo.session == old(s).repo.session,
        final(s).repo.chat == old(s).repo.chat,
        final(s).cons == old(s).cons,
        r@.map_values(|p: Push| p@) == push_list(
            request_of(CommandV::NewMessage(message_of(user@, msg@, now as int))),
            old(s).cons,
            Seq::<char>::empty(),
            old(s).repo.chat.spec_members(user@.chat_id),
        ),
{
    let u = User::from_user_info(&user);
    let message = Message { user: u, time: now, content: msg.to_owned() };
    s.repo.message.save(message.clone());
    let req = Request::new(Command::NewMessage(message));
    proof {
        reveal_strlit("");
        assert(""@ =~= Seq::<char>::empty());
        assert(req@ =~= request_of(CommandV::NewMessage(message_of(user@, msg@, now as int))));
    }
    push_to_chat_user(req, s, "", user.chat_id)
}

} // verus!
