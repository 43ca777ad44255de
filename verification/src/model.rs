//! Data model: participants, sessions, messages and the request/response
//! envelope, together with their mathematical views.

use vstd::prelude::*;

use crate::command::{Command, CommandResult, CommandResultV, CommandType, CommandV};
use crate::consts;

verus! {

/// The authoritative per-login record, owned by the session store.
pub struct UserInfo {
    pub name: String,
    pub session_id: String,
    pub address: String,
    pub chat_id: i64,
    pub login_time: i64,
}

/// Mathematical view of a [`UserInfo`].
#[verifier::ext_equal]
pub ghost struct UserInfoV {
    pub name: Seq<char>,
    pub session_id: Seq<char>,
    pub address: Seq<char>,
    pub chat_id: int,
    pub login_time: int,
}

impl View for UserInfo {
    type V = UserInfoV;

    open spec fn view(&self) -> UserInfoV {
        UserInfoV {
            name: self.name@,
            session_id: self.session_id@,
            address: self.address@,
            chat_id: self.chat_id as int,
            login_time: self.login_time as int,
        }
    }
}

impl Clone for UserInfo {
    fn clone(&self) -> (r: Self)
        ensures
            r@ == self@,
    {
        UserInfo {
            name: self.name.clone(),
            session_id: self.session_id.clone(),
            address: self.address.clone(),
            chat_id: self.chat_id,
            login_time: self.login_time,
        }
    }
}

/// A lightweight snapshot of a participant, derived from a [`UserInfo`]
/// and freely copied into events and messages.
pub struct User {
    pub user_name: String,
    pub address: String,
    pub chat_id: i64,
    pub login_time: i64,
}

/// Mathematical view of a [`User`].
#[verifier::ext_equal]
pub ghost struct UserV {
    pub user_name: Seq<char>,
    pub address: Seq<char>,
    pub chat_id: int,
    pub login_time: int,
}

impl View for User {
    type V = UserV;

    open spec fn view(&self) -> UserV {
        UserV {
            user_name: self.user_name@,
            address: self.address@,
            chat_id: self.chat_id as int,
            login_time: self.login_time as int,
        }
    }
}

impl Clone for User {
    fn clone(&self) -> (r: Self)
        ensures
            r@ == self@,
    {
        User {
            user_name: self.user_name.clone(),
            address: self.address.clone(),
            chat_id: self.chat_id,
            login_time: self.login_time,
        }
    }
}

/// The participant snapshot that corresponds to a session record.
pub open spec fn user_of(u: UserInfoV) -> UserV {
    UserV { user_name: u.name, address: u.address, chat_id: u.chat_id, login_time: u.login_time }
}

/// A chat message, immutable once created.
pub struct Message {
    pub user: User,
    pub time: i64,
    pub content: String,
}

/// Mathematical view of a [`Message`].
#[verifier::ext_equal]
pub ghost struct MessageV {
    pub user: UserV,
    pub time: int,
    pub content: Seq<char>,
}

impl View for Message {
    type V = MessageV;

    open spec fn view(&self) -> MessageV {
        MessageV { user: self.user@, time: self.time as int, content: self.content@ }
    }
}

impl Clone for Message {
    fn clone(&self) -> (r: Self)
        ensures
            r@ == self@,
    {
        Message { user: self.user.clone(), time: self.time, content: self.content.clone() }
    }
}

/// Caller identification attached to every request.
pub struct Base {
    pub session_id: String,
    pub remote_add: String,
    pub user_info: Option<UserInfo>,
}

/// Mathematical view of a [`Base`].
#[verifier::ext_equal]
pub ghost struct BaseV {
    pub session_id: Seq<char>,
    pub remote_add: Seq<char>,
    pub user_info: Option<UserInfoV>,
}

impl View for Base {
    type V = BaseV;

    open spec fn view(&self) -> BaseV {
        BaseV {
            session_id: self.session_id@,
            remote_add: self.remote_add@,
            user_info: match self.user_info {
                Some(u) => Some(u@),
                None => None,
            },
        }
    }
}

impl Clone for Base {
    fn clone(&self) -> (r: Self)
        ensures
            r@ == self@,
    {
        Base {
            session_id: self.session_id.clone(),
            remote_add: self.remote_add.clone(),
            user_info: match &self.user_info {
                Some(u) => Some(u.clone()),
                None => None,
            },
        }
    }
}

/// An inbound command together with its routing tag.
pub struct Request {
    pub base: Base,
    pub cmd: Command,
    pub cmd_type: CommandType,
}

/// Mathematical view of a [`Request`].
#[verifier::ext_equal]
pub ghost struct RequestV {
    pub base: BaseV,
    pub cmd: CommandV,
    pub cmd_type: CommandType,
}

impl View for Request {
    type V = RequestV;

    open spec fn view(&self) -> RequestV {
        RequestV { base: self.base@, cmd: self.cmd@, cmd_type: self.cmd_type }
    }
}

impl Clone for Request {
    fn clone(&self) -> (r: Self)
        ensures
            r@ == self@,
    {
        Request { base: self.base.clone(), cmd: self.cmd.clone(), cmd_type: self.cmd_type }
    }
}

/// The reply to one request.
pub struct Response {
    pub msg: String,
    pub code: usize,
    pub data: Option<CommandResult>,
}

/// Mathematical view of a [`Response`].
#[verifier::ext_equal]
pub ghost struct ResponseV {
    pub msg: Seq<char>,
    pub code: int,
    pub data: Option<CommandResultV>,
}

impl View for Response {
    type V = ResponseV;

    open spec fn view(&self) -> ResponseV {
        ResponseV {
            msg: self.msg@,
            code: self.code as int,
            data: match self.data {
                Some(d) => Some(d@),
                None => None,
            },
        }
    }
}

impl Clone for Response {
    fn clone(&self) -> (r: Self)
        ensures
            r@ == self@,
    {
        Response {
            msg: self.msg.clone(),
            code: self.code,
            data: match &self.data {
                Some(d) => Some(d.clone()),
                None => None,
            },
        }
    }
}

impl Base {
    /// An empty base: the transport fills in the remote address on receipt.
    pub fn new() -> (r: Self)
        ensures
            r@ == (BaseV {
                session_id: Seq::<char>::empty(),
                remote_add: Seq::<char>::empty(),
                user_info: None::<UserInfoV>,
            }),
    {
        Base { session_id: String::default(), remote_add: String::new(), user_info: None }
    }
}

impl Request {
    /// Wraps a command in an envelope whose tag agrees with the command's
    /// variant and whose base is empty.
    pub fn new(cmd: Command) -> (r: Self)
        ensures
            r.cmd@ == cmd@,
            r.cmd_type == cmd@.tag(),
            r.base@ == (BaseV {
                session_id: Seq::<char>::empty(),
                remote_add: Seq::<char>::empty(),
                user_info: None::<UserInfoV>,
            }),
    {
        let cmd_type = cmd.command_type();
        let base = Base::new();
        Request { base, cmd, cmd_type }
    }
}

impl Response {
    /// A reply carrying an arbitrary code and no data payload.
    pub fn new(code: usize, msg: String) -> (r: Self)
        ensures
            r@ == (ResponseV { msg: msg@, code: code as int, data: None::<CommandResultV> }),
    {
        Response { code, msg, data: None }
    }

    /// A successful reply.
    pub fn success(msg: String) -> (r: Self)
        ensures
            r@ == (ResponseV {
                msg: msg@,
                code: consts::SUCCESS as int,
                data: None::<CommandResultV>,
            }),
    {
        Response { code: consts::SUCCESS, msg, data: None }
    }
}

impl User {
    pub fn new(user_name: String, address: String, chat_id: i64, login_time: i64) -> (r: Self)
        ensures
            r@ == (UserV {
                user_name: user_name@,
                address: address@,
                chat_id: chat_id as int,
                login_time: login_time as int,
            }),
    {
        User { user_name, address, chat_id, login_time }
    }

    /// The snapshot a session record presents to other participants.
    pub fn from_user_info(u: &UserInfo) -> (r: Self)
        ensures
            r@ == user_of(u@),
    {
        User {
            user_name: u.name.clone(),
            address: u.address.clone(),
            chat_id: u.chat_id,
            login_time: u.login_time,
        }
    }
}

impl UserInfo {
    pub fn new(
        user_name: String,
        remote_address: String,
        session_id: String,
        chat_id: i64,
        login_time: i64,
    ) -> (r: Self)
        ensures
            r@ == (UserInfoV {
                name: user_name@,
                session_id: session_id@,
                address: remote_address@,
                chat_id: chat_id as int,
                login_time: login_time as int,
            }),
    {
        Self { name: user_name, address: remote_address, session_id, chat_id, login_time }
    }
}

} // verus!
