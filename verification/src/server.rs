//! The server's shared state: the three directory stores and the
//! connection registry, and the command dispatch built on them.

use vstd::prelude::*;
use vstd::string::StringExecFns;

use crate::chat_store::ChatMemoryImpl;
use crate::command::{Command, CommandResult, CommandResultV, CommandType, CommandV, LoginV};
use crate::conn_manager::{same_address, ConnectionManager};
use crate::consts;
use crate::errors::{spec_text, Errno, ErrnoV};
use crate::ext::{generate_session_id, now_timestamp};
use crate::message_store::MessageMemoryImpl;
use crate::model::{BaseV, Request, Response, ResponseV, UserInfoV};
use crate::push::{
    chat_message_list, history_request, presence_request, push_list, roster_request,
    user_offline_event, user_online_event, Push, PushV,
};
use crate::seqtools::{lemma_remove_where_absent, lemma_remove_where_clears, remove_where};
use crate::service::{
    auth, check_session, check_user_name, clashes_with, message_of, room_has_name, send,
    session_record, spec_password,
};
use crate::session_store::{by_address, SessionMemoryImpl};

verus! {

/// The three directory stores.
pub struct Repository {
    pub session: SessionMemoryImpl,
    pub chat: ChatMemoryImpl,
    pub message: MessageMemoryImpl,
}

impl Repository {
    /// All stores are well formed.
    pub open spec fn wf(self) -> bool {
        self.session.wf() && self.chat.wf() && self.message.wf()
    }
}

/// Fresh, empty stores.
pub fn setup_repo_impl() -> (r: Repository)
    ensures
        r.wf(),
        r.session.records() == Seq::<crate::model::UserInfoV>::empty(),
        r.chat.records() == Seq::<crate::chat_store::ChatRoomV>::empty(),
        r.message.records() == Seq::<crate::message_store::MessageLogV>::empty(),
{
    Repository {
        chat: ChatMemoryImpl::new(),
        session: SessionMemoryImpl::new(),
        message: MessageMemoryImpl::new(),
    }
}

/// The server: stores plus the registry of live connections.
pub struct Server {
    pub cons: ConnectionManager,
    pub repo: Repository,
}

impl Server {
    /// Stores and registry are well formed.
    pub open spec fn wf(self) -> bool {
        self.cons.wf() && self.repo.wf()
    }

    /// A server over the given stores, with no live connections yet.
    pub fn new(repo: Repository) -> (s: Self)
        ensures
            s.repo == repo,
            s.cons.addresses() == Seq::<Seq<char>>::empty(),
            repo.wf() ==> s.wf(),
    {
        let cons = ConnectionManager::new();
        proof {
            assert(cons.addresses() =~= Seq::<Seq<char>>::empty());
        }
        Server { cons, repo }
    }
}

/// A session authorizes a request when it exists under the request's
/// session id and is bound to the request's own remote address.
pub open spec fn session_authorized(s: Server, base: BaseV) -> bool {
    match s.repo.session.spec_get(base.session_id) {
        Some(u) => u.address == base.remote_add,
        None => false,
    }
}

/// The message an unauthorized request is answered with.
pub open spec fn auth_fail_message(s: Server, base: BaseV) -> Seq<char> {
    if s.repo.session.spec_get(base.session_id) is None {
        spec_text(ErrnoV::New("session_id invalid"@))
    } else {
        spec_text(ErrnoV::New("address invalid"@))
    }
}

/// The reply a successful guard check or handler produces.
pub open spec fn ok_response() -> ResponseV {
    ResponseV { msg: "ok"@, code: consts::SUCCESS as int, data: None }
}

/// The human message when a login repeats a name the room already has.
pub open spec fn dup_name_message(name: Seq<char>) -> Seq<char> {
    "username "@ + name + " already exists, please choose a different username and try signing in again "@
}

/// What a login leaves behind and answers, given the session id and the
/// clock reading it was performed with.  The checks run in order: empty
/// name, duplicate name in the room, wrong password; each failure answers
/// with its own code and leaves the state untouched.  A validated login
/// persists the record, announces the user online to the whole room (the
/// joiner included), pushes the fresh roster under the same empty
/// exclusion, and replays the room history to the joiner alone.
pub open spec fn login_outcome(
    pre: Server,
    post: Server,
    login: LoginV,
    remote: Seq<char>,
    sid: Seq<char>,
    now: int,
    r: Result<(Response, Vec<Push>), Errno>,
) -> bool {
    let members = pre.repo.chat.spec_members(login.chat_id);
    let u = session_record(login, remote, sid, now);
    if login.user_name.len() == 0 {
        post == pre && (r matches Ok(res) && res.0@ == (ResponseV {
            msg: "user name invalid"@,
            code: consts::LOGIN_FAILED as int,
            data: None,
        }) && res.1@.len() == 0)
    } else if room_has_name(members, login.user_name) {
        post == pre && (r matches Ok(res) && res.0@ == (ResponseV {
            msg: dup_name_message(login.user_name),
            code: consts::USER_NAME_DUPLICATE_ERROR as int,
            data: None,
        }) && res.1@.len() == 0)
    } else if login.password != spec_password() {
        post == pre && (r matches Ok(res) && res.0@ == (ResponseV {
            msg: "password invalid"@,
            code: consts::LOGIN_FAILED as int,
            data: None,
        }) && res.1@.len() == 0)
    } else {
        &&& r matches Ok(res)
        &&& (r matches Ok(res) ==> {
            &&& res.0@ == (ResponseV {
                msg: sid,
                code: consts::SUCCESS as int,
                data: Some(CommandResultV::DataStr(sid)),
            })
            &&& res.1@.map_values(|p: Push| p@) == push_list(
                presence_request(true, u, now),
                pre.cons,
                Seq::<char>::empty(),
                post.repo.chat.spec_members(login.chat_id),
            ) + push_list(
                roster_request(post, login.chat_id),
                pre.cons,
                Seq::<char>::empty(),
                post.repo.chat.spec_members(login.chat_id),
            ) + push_list(
                history_request(post, login.chat_id),
                pre.cons,
                Seq::<char>::empty(),
                seq![u],
            )
        })
        &&& post.repo.session.records() == remove_where(
            pre.repo.session.records(),
            clashes_with(u),
        ).push(u)
        &&& post.repo.chat.spec_members(login.chat_id) == remove_where(
            members,
            by_address(remote),
        ).push(u)
        &&& post.repo.chat.has_room(login.chat_id)
        &&& (forall|c: int|
            c != login.chat_id ==> post.repo.chat.spec_members(c) == pre.repo.chat.spec_members(c)
                && post.repo.chat.has_room(c) == pre.repo.chat.has_room(c))
        &&& post.repo.message == pre.repo.message
        &&& post.cons == pre.cons
    }
}

/// What a send leaves behind and answers, given the clock reading.  A
/// message tagged with a room other than the sender's own is refused and
/// changes nothing; otherwise the message is appended to the room history
/// and fanned out to every member, the sender included.
pub open spec fn send_outcome(
    pre: Server,
    post: Server,
    msg: Seq<char>,
    chat_id: int,
    sid: Seq<char>,
    now: int,
    r: Result<(Response, Vec<Push>), Errno>,
) -> bool {
    match pre.repo.session.spec_get(sid) {
        None => post == pre && (r matches Err(e) && e@ == ErrnoV::New("session_id invalid"@)),
        Some(u) => {
            if chat_id != u.chat_id {
                post == pre && (r matches Ok(res) && res.0@ == (ResponseV {
                    msg: "chat_id invalid"@,
                    code: consts::CHAT_ID_INVALID as int,
                    data: None,
                }) && res.1@.len() == 0)
            } else {
                &&& r matches Ok(res)
                &&& (r matches Ok(res) ==> {
                    &&& res.0@ == (ResponseV {
                        msg: Seq::<char>::empty(),
                        code: consts::SUCCESS as int,
                        data: None,
                    })
                    &&& res.1@.map_values(|p: Push| p@) == push_list(
                        crate::push::request_of(CommandV::NewMessage(message_of(u, msg, now))),
                        pre.cons,
                        Seq::<char>::empty(),
                        pre.repo.chat.spec_members(u.chat_id),
                    )
                })
                &&& post.repo.message.spec_messages(u.chat_id)
                    == pre.repo.message.spec_messages(u.chat_id).push(message_of(u, msg, now))
                &&& (forall|c: int|
                    c != u.chat_id ==> post.repo.message.spec_messages(c)
                        == pre.repo.message.spec_messages(c))
                &&& post.repo.session == pre.repo.session
                &&& post.repo.chat == pre.repo.chat
                &&& post.cons == pre.cons
            }
        },
    }
}

impl Server {
    /// The session guard: every command but login must carry a session
    /// that exists and is bound to the caller's own address.  A failed
    /// check answers with its text under the invalid-session code; the
    /// connection is not torn down for one bad request.
    pub fn auth_session(&self, request: &Request) -> (r: Response)
        ensures
            request.cmd_type == CommandType::Login ==> r@ == ok_response(),
            request.cmd_type != CommandType::Login && session_authorized(*self, request@.base)
                ==> r@ == ok_response(),
            request.cmd_type != CommandType::Login && !session_authorized(*self, request@.base)
                ==> r@ == (ResponseV {
                msg: auth_fail_message(*self, request@.base),
                code: consts::SESSION_ID_INVALID as int,
                data: None,
            }),
    {
        if matches!(request.cmd_type, CommandType::Login) {
            return Response::success(String::from_str("ok"));
        }
        let res = check_session(
            self,
            request.base.session_id.as_str(),
            request.base.remote_add.as_str(),
        );
        match res {
            Ok(()) => Response::success(String::from_str("ok")),
            Err(e) => Response::new(consts::SESSION_ID_INVALID, e.text()),
        }
    }

    /// Handles a login request deterministically, with the session id and
    /// clock reading passed in.
    pub fn login_with_session(
        &mut self,
        request: Request,
        session_id: String,
        now: i64,
    ) -> (r: Result<(Response, Vec<Push>), Errno>)
        requires
            old(self).wf(),
        ensures
            final(self).wf(),
            !(request@.cmd matches CommandV::Login(_)) ==> (r matches Err(e) && e@ == ErrnoV::New(
                "cmd invalid!"@,
            ) && *final(self) == *old(self)),
            request@.cmd matches CommandV::Login(login) ==> login_outcome(
                *old(self),
                *final(self),
                login,
                request@.base.remote_add,
                session_id@,
                now as int,
                r,
            ),
    {
        let remote = request.base.remote_add;
        if let Command::Login(login) = request.cmd {
            if login.user_name.as_str().is_empty() {
                let response = Response::new(
                    consts::LOGIN_FAILED,
                    String::from_str("user name invalid"),
                );
                return Ok((response, Vec::new()));
            }
            if !check_user_name(self, login.user_name.as_str(), login.chat_id) {
                let mut msg = String::from_str("username ");
                msg.append(login.user_name.as_str());
                msg.append(
                    " already exists, please choose a different username and try signing in again ",
                );
                let response = Response::new(consts::USER_NAME_DUPLICATE_ERROR, msg);
                return Ok((response, Vec::new()));
            }
            if !auth(&login) {
                let response = Response::new(
                    consts::LOGIN_FAILED,
                    String::from_str("password invalid"),
                );
                return Ok((response, Vec::new()));
            }
            let ghost pre = *old(self);
            let user_info = crate::service::login_handler(
                self,
                login,
                remote,
                session_id.clone(),
                now,
            );
            let mut pushes = user_online_event(self, &user_info, now);
            let mut hist = chat_message_list(self, &user_info);
            let ghost ev = pushes@.map_values(|p: Push| p@);
            let ghost hi = hist@.map_values(|p: Push| p@);
            pushes.append(&mut hist);
            proof {
                assert(pushes@.map_values(|p: Push| p@) =~= ev + hi);
            }
            let resp = Response {
                code: consts::SUCCESS,
                msg: session_id.clone(),
                data: Some(CommandResult::DataStr(session_id)),
            };
            return Ok((resp, pushes));
        }
        Err(Errno::New(String::from_str("cmd invalid!")))
    }

    /// Handles a login request: draws a fresh session id, reads the
    /// clock, and proceeds as [`Server::login_with_session`].
    pub fn login_handler(&mut self, request: Request) -> (r: Result<(Response, Vec<Push>), Errno>)
        requires
            old(self).wf(),
        ensures
            final(self).wf(),
            !(request@.cmd matches CommandV::Login(_)) ==> (r matches Err(e) && e@ == ErrnoV::New(
                "cmd invalid!"@,
            ) && *final(self) == *old(self)),
            request@.cmd matches CommandV::Login(login) ==> exists|sid: Seq<char>, t: int|
                sid.len() == 32 && #[trigger] login_outcome(
                    *old(self),
                    *final(self),
                    login,
                    request@.base.remote_add,
                    sid,
                    t,
                    r,
                ),
    {
        let session_id = generate_session_id();
        let ghost sid = session_id@;
        let now = now_timestamp();
        let ghost t = now as int;
        let r = self.login_with_session(request, session_id, now);
        proof {
            match request@.cmd {
                CommandV::Login(login) => {
                    assert(login_outcome(
                        *old(self),
                        *final(self),
                        login,
                        request@.base.remote_add,
                        sid,
                        t,
                        r,
                    ));
                },
                _ => {},
            }
        }
        r
    }

    /// Handles a send-message request deterministically, with the clock
    /// reading passed in.
    pub fn send_message_at(&mut self, request: Request, now: i64) -> (r: Result<
        (Response, Vec<Push>),
        Errno,
    >)
        requires
            old(self).wf(),
        ensures
            final(self).wf(),
            !(request@.cmd matches CommandV::SendTextMessage { .. }) ==> (r matches Err(e) && e@
                == ErrnoV::New("cmd invalid!"@) && *final(self) == *old(self)),
            request@.cmd matches CommandV::SendTextMessage { msg, chat_id } ==> send_outcome(
                *old(self),
                *final(self),
                msg,
                chat_id,
                request@.base.session_id,
                now as int,
                r,
            ),
    {
        if let Command::SendTextMessage { msg, chat_id } = request.cmd {
            let user = match self.repo.session.get(request.base.session_id.as_str()) {
                None => {
                    return Err(Errno::New(String::from_str("session_id invalid")));
                },
                Some(user) => user,
            };
            if chat_id != user.chat_id {
                let response = Response::new(
                    consts::CHAT_ID_INVALID,
                    String::from_str("chat_id invalid"),
                );
                return Ok((response, Vec::new()));
            }
            let pushes = send(self, user, msg.as_str(), now);
            let resp = Response::success(String::new());
            return Ok((resp, pushes));
        }
        Err(Errno::New(String::from_str("cmd invalid!")))
    }

    /// Handles a send-message request: reads the clock and proceeds as
    /// [`Server::send_message_at`].
    pub fn send_message_handler(&mut self, request: Request) -> (r: Result<
        (Response, Vec<Push>),
        Errno,
    >)
        requires
            old(self).wf(),
        ensures
            final(self).wf(),
            !(request@.cmd matches CommandV::SendTextMessage { .. }) ==> (r matches Err(e) && e@
                == ErrnoV::New("cmd invalid!"@) && *final(self) == *old(self)),
            request@.cmd matches CommandV::SendTextMessage { msg, chat_id } ==> exists|t: int|
                #[trigger] send_outcome(
                    *old(self),
                    *final(self),
                    msg,
                    chat_id,
                    request@.base.session_id,
                    t,
                    r,
                ),
    {
        let now = now_timestamp();
        let ghost t = now as int;
        let r = self.send_message_at(request, now);
        proof {
            match request@.cmd {
                CommandV::SendTextMessage { msg, chat_id } => {
                    assert(send_outcome(
                        *old(self),
                        *final(self),
                        msg,
                        chat_id,
                        request@.base.session_id,
                        t,
                        r,
                    ));
                },
                _ => {},
            }
        }
        r
    }

    /// Cleans up after a connection ends, deterministically with the
    /// clock reading passed in: the connection handle goes first; when a
    /// session is bound to the address, the user leaves the room's
    /// membership and both session indices, and the room is told — the
    /// offline event and the fresh roster, neither sent to the departed
    /// address.  When no session is bound there is nothing to clean up or
    /// announce, and the state is left exactly as it was.
    pub fn kick_out_at(&mut self, remote_addr: &str, now: i64) -> (r: Vec<Push>)
        requires
            old(self).wf(),
        ensures
            final(self).wf(),
            final(self).cons.addresses() == remove_where(
                old(self).cons.addresses(),
                same_address(remote_addr@),
            ),
            old(self).repo.session.spec_get_by_addr(remote_addr@) is None ==> final(self).repo
                == old(self).repo && r@.len() == 0,
            old(self).repo.session.spec_get_by_addr(remote_addr@) matches Some(u) ==> {
                &&& final(self).repo.session.records() == remove_where(
                    old(self).repo.session.records(),
                    by_address(remote_addr@),
                )
                &&& final(self).repo.chat.spec_members(u.chat_id) == remove_where(
                    old(self).repo.chat.spec_members(u.chat_id),
                    by_address(remote_addr@),
                )
                &&& (forall|c: int|
                    c != u.chat_id ==> final(self).repo.chat.spec_members(c) == old(
                        self,
                    ).repo.chat.spec_members(c))
                &&& final(self).repo.message == old(self).repo.message
                &&& r@.map_values(|p: Push| p@) == push_list(
                    presence_request(false, u, now as int),
                    final(self).cons,
                    u.address,
                    final(self).repo.chat.spec_members(u.chat_id),
                ) + push_list(
                    roster_request(*final(self), u.chat_id),
                    final(self).cons,
                    u.address,
                    final(self).repo.chat.spec_members(u.chat_id),
                )
            },
    {
        self.cons.remove(remote_addr);
        let user = match self.repo.session.get_with_remote_addr(remote_addr) {
            None => {
                return Vec::new();
            },
            Some(user) => user,
        };
        let ghost members_pre = self.repo.chat.spec_members(user@.chat_id);
        let removed = self.repo.chat.remove(user.chat_id, remote_addr);
        proof {
            if removed is Err {
                if old(self).repo.chat.has_room(user@.chat_id) {
                    lemma_remove_where_absent(members_pre, by_address(remote_addr@));
                } else {
                    assert(members_pre =~= Seq::<UserInfoV>::empty());
                    assert(remove_where(members_pre, by_address(remote_addr@))
                        =~= Seq::<UserInfoV>::empty());
                }
            }
        }
        self.repo.session.remove(remote_addr);
        user_offline_event(self, &user, now)
    }

    /// Cleans up after a connection ends, reading the clock for the
    /// offline announcement.  Invoking it again for the same address
    /// finds no session and changes nothing.
    pub fn kick_out(&mut self, remote_addr: &str) -> (r: Vec<Push>)
        requires
            old(self).wf(),
        ensures
            final(self).wf(),
            final(self).cons.addresses() == remove_where(
                old(self).cons.addresses(),
                same_address(remote_addr@),
            ),
            old(self).repo.session.spec_get_by_addr(remote_addr@) is None ==> final(self).repo
                == old(self).repo && r@.len() == 0,
            old(self).repo.session.spec_get_by_addr(remote_addr@) matches Some(u) ==> {
                &&& final(self).repo.session.records() == remove_where(
                    old(self).repo.session.records(),
                    by_address(remote_addr@),
                )
                &&& final(self).repo.chat.spec_members(u.chat_id) == remove_where(
                    old(self).repo.chat.spec_members(u.chat_id),
                    by_address(remote_addr@),
                )
                &&& (forall|c: int|
                    c != u.chat_id ==> final(self).repo.chat.spec_members(c) == old(
                        self,
                    ).repo.chat.spec_members(c))
                &&& final(self).repo.message == old(self).repo.message
                &&& exists|t: int|
                    r@.map_values(|p: Push| p@) == push_list(
                        #[trigger] presence_request(false, u, t),
                        final(self).cons,
                        u.address,
                        final(self).repo.chat.spec_members(u.chat_id),
                    ) + push_list(
                        roster_request(*final(self), u.chat_id),
                        final(self).cons,
                        u.address,
                        final(self).repo.chat.spec_members(u.chat_id),
                    )
            },
    {
        let now = now_timestamp();
        let r = self.kick_out_at(remote_addr, now);
        proof {
            match old(self).repo.session.spec_get_by_addr(remote_addr@) {
                Some(u) => {
                    assert(presence_request(false, u, now as int) == presence_request(
                        false,
                        u,
                        now as int,
                    ));
                },
                None => {},
            }
        }
        r
    }

    /// Routes one inbound request: the session guard first — its failure
    /// is answered, not fatal — then the handler matching the command
    /// tag.  A tag the server does not handle, or a payload that does not
    /// match its tag, is an error for the caller to answer generically.
    pub fn handle_request(&mut self, request: Request) -> (r: Result<(Response, Vec<Push>), Errno>)
        requires
            old(self).wf(),
        ensures
            final(self).wf(),
            request@.cmd_type != CommandType::Login && !session_authorized(
                *old(self),
                request@.base,
            ) ==> *final(self) == *old(self) && (r matches Ok(res) && res.0@ == (ResponseV {
                msg: auth_fail_message(*old(self), request@.base),
                code: consts::SESSION_ID_INVALID as int,
                data: None,
            }) && res.1@.len() == 0),
            request@.cmd_type == CommandType::Login ==> (match request@.cmd {
                CommandV::Login(login) => exists|sid: Seq<char>, t: int|
                    sid.len() == 32 && #[trigger] login_outcome(
                        *old(self),
                        *final(self),
                        login,
                        request@.base.remote_add,
                        sid,
                        t,
                        r,
                    ),
                _ => r matches Err(e) && e@ == ErrnoV::New("cmd invalid!"@) && *final(self)
                    == *old(self),
            }),
            request@.cmd_type == CommandType::SendMessage && session_authorized(
                *old(self),
                request@.base,
            ) ==> (match request@.cmd {
                CommandV::SendTextMessage { msg, chat_id } => exists|t: int|
                    #[trigger] send_outcome(
                        *old(self),
                        *final(self),
                        msg,
                        chat_id,
                        request@.base.session_id,
                        t,
                        r,
                    ),
                _ => r matches Err(e) && e@ == ErrnoV::New("cmd invalid!"@) && *final(self)
                    == *old(self),
            }),
            request@.cmd_type != CommandType::Login && request@.cmd_type != CommandType::SendMessage
                && session_authorized(*old(self), request@.base) ==> (r matches Err(e) && e@
                == ErrnoV::New("server receive cmd handler unsupported"@) && *final(self) == *old(
                self,
            )),
    {
        let auth_resp = self.auth_session(&request);
        if auth_resp.code != 0 {
            return Ok((auth_resp, Vec::new()));
        }
        match request.cmd_type {
            CommandType::Login => self.login_handler(request),
            CommandType::SendMessage => self.send_message_handler(request),
            _ => Err(Errno::New(String::from_str("server receive cmd handler unsupported"))),
        }
    }
}

/// Idempotent kick-out: the cleanup leaves no session record and no
/// handle under the address, so a second cleanup for the same address —
/// as when a read error races an external close — finds nothing, removes
/// nothing and announces nothing: the state after two runs is the state
/// after one.
pub proof fn lemma_kick_out_idempotent(s0: Server, s1: Server, remote: Seq<char>)
    requires
        s0.wf(),
        s1.cons.addresses() == remove_where(s0.cons.addresses(), same_address(remote)),
        s1.repo.session.records() == remove_where(s0.repo.session.records(), by_address(remote)),
    ensures
        s1.repo.session.spec_get_by_addr(remote) is None,
        remove_where(s1.cons.addresses(), same_address(remote)) == s1.cons.addresses(),
        remove_where(s1.repo.session.records(), by_address(remote)) == s1.repo.session.records(),
{
    lemma_remove_where_clears(s0.repo.session.records(), by_address(remote));
    lemma_remove_where_clears(s0.cons.addresses(), same_address(remote));
    lemma_remove_where_absent(s1.repo.session.records(), by_address(remote));
    lemma_remove_where_absent(s1.cons.addresses(), same_address(remote));
}

} // verus!
