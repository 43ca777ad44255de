//! Commands exchanged between server and client, and their routing tags.

use vstd::prelude::*;

use crate::model::{Message, MessageV, User, UserV};

verus! {

/// The routing tag of a command.  The first two tags are handled by the
/// server; the rest are pushed to clients.
#[derive(Debug, Clone, Copy, PartialEq, Eq, Hash, Structural)]
pub enum CommandType {
    Login,
    SendMessage,
    ChatMessageList,
    UserOnline,
    UserOffline,
    ChatUserList,
    NewMessage,
}

/// The login command payload.
pub struct Login {
    pub user_name: String,
    pub password: String,
    pub chat_id: i64,
}

/// Mathematical view of a [`Login`].
#[verifier::ext_equal]
pub ghost struct LoginV {
    pub user_name: Seq<char>,
    pub password: Seq<char>,
    pub chat_id: int,
}

impl View for Login {
    type V = LoginV;

    open spec fn view(&self) -> LoginV {
        LoginV { user_name: self.user_name@, password: self.password@, chat_id: self.chat_id as int }
    }
}

impl Clone for Login {
    fn clone(&self) -> (r: Self)
        ensures
            r@ == self@,
    {
        Login {
            user_name: self.user_name.clone(),
            password: self.password.clone(),
            chat_id: self.chat_id,
        }
    }
}

/// A command payload: what a request asks for, or what a push announces.
pub enum Command {
    Login(Login),
    SendTextMessage { msg: String, chat_id: i64 },
    UserOnline { time: i64, user: User },
    UserOffline { time: i64, user: User },
    ChatUserList { user_list: Vec<User> },
    NewMessage(Message),
    ChatMessageList { message_list: Vec<Message> },
}

/// Mathematical view of a [`Command`].
#[verifier::ext_equal]
pub ghost enum CommandV {
    Login(LoginV),
    SendTextMessage { msg: Seq<char>, chat_id: int },
    UserOnline { time: int, user: UserV },
    UserOffline { time: int, user: UserV },
    ChatUserList { user_list: Seq<UserV> },
    NewMessage(MessageV),
    ChatMessageList { message_list: Seq<MessageV> },
}

impl View for Command {
    type V = CommandV;

    open spec fn view(&self) -> CommandV {
        match self {
            Command::Login(l) => CommandV::Login(l@),
            Command::SendTextMessage { msg, chat_id } => CommandV::SendTextMessage {
                msg: msg@,
                chat_id: *chat_id as int,
            },
            Command::UserOnline { time, user } => CommandV::UserOnline {
                time: *time as int,
                user: user@,
            },
            Command::UserOffline { time, user } => CommandV::UserOffline {
                time: *time as int,
                user: user@,
            },
            Command::ChatUserList { user_list } => CommandV::ChatUserList {
                user_list: user_list@.map_values(|u: User| u@),
            },
            Command::NewMessage(m) => CommandV::NewMessage(m@),
            Command::ChatMessageList { message_list } => CommandV::ChatMessageList {
                message_list: message_list@.map_values(|m: Message| m@),
            },
        }
    }
}

impl CommandV {
    /// The tag that routes a command with this payload.
    pub open spec fn tag(self) -> CommandType {
        match self {
            CommandV::Login(_) => CommandType::Login,
            CommandV::SendTextMessage { .. } => CommandType::SendMessage,
            CommandV::UserOnline { .. } => CommandType::UserOnline,
            CommandV::UserOffline { .. } => CommandType::UserOffline,
            CommandV::ChatUserList { .. } => CommandType::ChatUserList,
            CommandV::NewMessage(_) => CommandType::NewMessage,
            CommandV::ChatMessageList { .. } => CommandType::ChatMessageList,
        }
    }
}

impl Command {
    /// The routing tag that matches this command's variant.
    pub fn command_type(&self) -> (t: CommandType)
        ensures
            t == self@.tag(),
    {
        match self {
            Command::Login(_) => CommandType::Login,
            Command::SendTextMessage { .. } => CommandType::SendMessage,
            Command::UserOffline { .. } => CommandType::UserOffline,
            Command::UserOnline { .. } => CommandType::UserOnline,
            Command::ChatUserList { .. } => CommandType::ChatUserList,
            Command::NewMessage(_) => CommandType::NewMessage,
            Command::ChatMessageList { .. } => CommandType::ChatMessageList,
        }
    }
}

impl Clone for Command {
    fn clone(&self) -> (r: Self)
        ensures
            r@ == self@,
    {
        match self {
            Command::Login(l) => Command::Login(l.clone()),
            Command::SendTextMessage { msg, chat_id } => Command::SendTextMessage {
                msg: msg.clone(),
                chat_id: *chat_id,
            },
            Command::UserOnline { time, user } => Command::UserOnline {
                time: *time,
                user: user.clone(),
            },
            Command::UserOffline { time, user } => Command::UserOffline {
                time: *time,
                user: user.clone(),
            },
            Command::ChatUserList { user_list } => Command::ChatUserList {
                user_list: clone_users(user_list),
            },
            Command::NewMessage(m) => Command::NewMessage(m.clone()),
            Command::ChatMessageList { message_list } => Command::ChatMessageList {
                message_list: clone_messages(message_list),
            },
        }
    }
}

/// Clones a participant list, preserving its view.
pub fn clone_users(users: &Vec<User>) -> (r: Vec<User>)
    ensures
        r@.map_values(|u: User| u@) == users@.map_values(|u: User| u@),
{
    let mut out: Vec<User> = Vec::new();
    let n = users.len();
    for i in 0..n
        invariant
            n == users.len(),
            out.len() == i,
            forall|j: int| 0 <= j < i ==> out@[j]@ == users@[j]@,
    {
        out.push(users[i].clone());
    }
    proof {
        assert(out@.map_values(|u: User| u@) =~= users@.map_values(|u: User| u@));
    }
    out
}

/// Clones a message list, preserving its view.
pub fn clone_messages(msgs: &Vec<Message>) -> (r: Vec<Message>)
    ensures
        r@.map_values(|m: Message| m@) == msgs@.map_values(|m: Message| m@),
{
    let mut out: Vec<Message> = Vec::new();
    let n = msgs.len();
    for i in 0..n
        invariant
            n == msgs.len(),
            out.len() == i,
            forall|j: int| 0 <= j < i ==> out@[j]@ == msgs@[j]@,
    {
        out.push(msgs[i].clone());
    }
    proof {
        assert(out@.map_values(|m: Message| m@) =~= msgs@.map_values(|m: Message| m@));
    }
    out
}

/// A data payload attached to a successful response.
pub enum CommandResult {
    DataStr(String),
    Abc,
}

/// Mathematical view of a [`CommandResult`].
#[verifier::ext_equal]
pub ghost enum CommandResultV {
    DataStr(Seq<char>),
    Abc,
}

impl View for CommandResult {
    type V = CommandResultV;

    open spec fn view(&self) -> CommandResultV {
        match self {
            CommandResult::DataStr(s) => CommandResultV::DataStr(s@),
            CommandResult::Abc => CommandResultV::Abc,
        }
    }
}

impl Clone for CommandResult {
    fn clone(&self) -> (r: Self)
        ensures
            r@ == self@,
    {
        match self {
            CommandResult::DataStr(s) => CommandResult::DataStr(s.clone()),
            CommandResult::Abc => CommandResult::Abc,
        }
    }
}

} // verus!
