//! Client-side command handling — what each pushed command does to the
//! view — and the decisions of the client's reconnect loop.

use vstd::prelude::*;
use vstd::string::StringExecFns;

use crate::command::{Command, CommandType, CommandV};
use crate::errors::{Errno, ErrnoV};
use crate::model::{Message as ModelMessage, Request, Response, ResponseV, User, UserV};
use crate::server::ok_response;
use crate::view_model::app::AppViewModel;
use crate::view_model::messages::{displayed, Message, MessageVmV, SomeUser, SomeUserV};

verus! {

/// The system line announcing a presence change.
pub open spec fn presence_text(u: UserV, online: bool) -> Seq<char> {
    u.address + " "@ + u.user_name + " is "@ + (if online {
        "online "@
    } else {
        "offline "@
    })
}

/// The panels a pushed command does not touch keep their state.
pub open spec fn panels_untouched(pre: AppViewModel, post: AppViewModel) -> bool {
    post.log_vm == pre.log_vm && post.input_vm == pre.input_vm && post.conf == pre.conf
}

/// What one pushed command does to the view.
pub open spec fn push_applied(pre: AppViewModel, post: AppViewModel, cmd: CommandV) -> bool {
    match cmd {
        CommandV::NewMessage(m) => {
            &&& post.msg_vm.messages@.map_values(|x: Message| x@) == pre.msg_vm.messages@.map_values(
                |x: Message| x@,
            ).push(displayed(m))
            &&& post.msg_vm.scroll_to_pos == post.msg_vm.messages@.len()
            &&& post.msg_vm.scroll_pos == pre.msg_vm.scroll_pos
            &&& post.user_vm == pre.user_vm
            &&& panels_untouched(pre, post)
        },
        CommandV::ChatMessageList { message_list } => {
            &&& post.msg_vm.messages@.map_values(|x: Message| x@) == message_list.map_values(
                |m: crate::model::MessageV| displayed(m),
            )
            &&& post.msg_vm.scroll_to_pos == post.msg_vm.messages@.len()
            &&& post.msg_vm.scroll_pos == pre.msg_vm.scroll_pos
            &&& post.user_vm == pre.user_vm
            &&& panels_untouched(pre, post)
        },
        CommandV::UserOnline { time, user } => {
            &&& post.msg_vm.messages@.map_values(|x: Message| x@) == pre.msg_vm.messages@.map_values(
                |x: Message| x@,
            ).push(MessageVmV { time, content: presence_text(user, true), user: SomeUserV::System })
            &&& post.msg_vm.scroll_to_pos == post.msg_vm.messages@.len()
            &&& post.msg_vm.scroll_pos == pre.msg_vm.scroll_pos
            &&& post.user_vm == pre.user_vm
            &&& panels_untouched(pre, post)
        },
        CommandV::UserOffline { time, user } => {
            &&& post.msg_vm.messages@.map_values(|x: Message| x@) == pre.msg_vm.messages@.map_values(
                |x: Message| x@,
            ).push(MessageVmV { time, content: presence_text(user, false), user: SomeUserV::System })
            &&& post.msg_vm.scroll_to_pos == post.msg_vm.messages@.len()
            &&& post.msg_vm.scroll_pos == pre.msg_vm.scroll_pos
            &&& post.user_vm == pre.user_vm
            &&& panels_untouched(pre, post)
        },
        CommandV::ChatUserList { user_list } => {
            &&& post.user_vm.users@.map_values(|x: User| x@) == user_list
            &&& post.msg_vm == pre.msg_vm
            &&& panels_untouched(pre, post)
        },
        _ => false,
    }
}

/// The handlers for commands the server pushes to the client.
pub struct HandlerImpl {}

impl HandlerImpl {
    /// A new chat message: appended to the panel, which scrolls to it.
    pub fn receive_message(vm: &mut AppViewModel, request: Request) -> (r: Result<Response, Errno>)
        ensures
            request@.cmd matches CommandV::NewMessage(_) ==> (r matches Ok(resp) && resp@
                == ok_response() && push_applied(*old(vm), *final(vm), request@.cmd)),
            !(request@.cmd matches CommandV::NewMessage(_)) ==> (r matches Err(e) && e@
                == ErrnoV::New("cmd invalid!"@) && *final(vm) == *old(vm)),
    {
        if let Command::NewMessage(message) = request.cmd {
            let msg = Message::from_message(message);
            let ghost pre = vm.msg_vm.messages@.map_values(|x: Message| x@);
            vm.msg_vm.messages.push(msg);
            vm.msg_vm.scroll_to_end();
            proof {
                assert(vm.msg_vm.messages@.map_values(|x: Message| x@) =~= pre.push(
                    vm.msg_vm.messages@.last()@,
                ));
            }
            return Ok(Response::success(String::from_str("ok")));
        }
        Err(Errno::New(String::from_str("cmd invalid!")))
    }

    /// A history replay: replaces the panel's contents, which scrolls to
    /// the end.
    pub fn receive_message_list(vm: &mut AppViewModel, request: Request) -> (r: Result<
        Response,
        Errno,
    >)
        ensures
            request@.cmd matches CommandV::ChatMessageList { .. } ==> (r matches Ok(resp) && resp@
                == ok_response() && push_applied(*old(vm), *final(vm), request@.cmd)),
            !(request@.cmd matches CommandV::ChatMessageList { .. }) ==> (r matches Err(e) && e@
                == ErrnoV::New("cmd invalid!"@) && *final(vm) == *old(vm)),
    {
        if let Command::ChatMessageList { message_list } = request.cmd {
            let ghost source = message_list@.map_values(|m: ModelMessage| m@);
            let mut shown: Vec<Message> = Vec::new();
            let n = message_list.len();
            for i in 0..n
                invariant
                    n == message_list.len(),
                    shown.len() == i,
                    forall|j: int| 0 <= j < i ==> shown@[j]@ == displayed(message_list@[j]@),
            {
                shown.push(Message::from_message(message_list[i].clone()));
            }
            vm.msg_vm.messages = shown;
            vm.msg_vm.scroll_to_end();
            proof {
                assert(vm.msg_vm.messages@.map_values(|x: Message| x@) =~= source.map_values(
                    |m: crate::model::MessageV| displayed(m),
                ));
            }
            return Ok(Response::success(String::from_str("ok")));
        }
        Err(Errno::New(String::from_str("cmd invalid!")))
    }

    /// A user came online: the panel shows a system line saying so.
    pub fn user_online(vm: &mut AppViewModel, request: Request) -> (r: Result<Response, Errno>)
        ensures
            request@.cmd matches CommandV::UserOnline { .. } ==> (r matches Ok(resp) && resp@
                == ok_response() && push_applied(*old(vm), *final(vm), request@.cmd)),
            !(request@.cmd matches CommandV::UserOnline { .. }) ==> (r matches Err(e) && e@
                == ErrnoV::New("cmd invalid!"@) && *final(vm) == *old(vm)),
    {
        if let Command::UserOnline { user, time } = request.cmd {
            return user_connection_change(vm, user, time, true);
        }
        Err(Errno::New(String::from_str("cmd invalid!")))
    }

    /// A user went offline: the panel shows a system line saying so.
    pub fn user_offline(vm: &mut AppViewModel, request: Request) -> (r: Result<Response, Errno>)
        ensures
            request@.cmd matches CommandV::UserOffline { .. } ==> (r matches Ok(resp) && resp@
                == ok_response() && push_applied(*old(vm), *final(vm), request@.cmd)),
            !(request@.cmd matches CommandV::UserOffline { .. }) ==> (r matches Err(e) && e@
                == ErrnoV::New("cmd invalid!"@) && *final(vm) == *old(vm)),
    {
        if let Command::UserOffline { user, time } = request.cmd {
            return user_connection_change(vm, user, time, false);
        }
        Err(Errno::New(String::from_str("cmd invalid!")))
    }

    /// A fresh roster: replaces the user panel.
    pub fn chat_user_list_to_user(vm: &mut AppViewModel, request: Request) -> (r: Result<
        Response,
        Errno,
    >)
        ensures
            request@.cmd matches CommandV::ChatUserList { .. } ==> (r matches Ok(resp) && resp@
                == ok_response() && push_applied(*old(vm), *final(vm), request@.cmd)),
            !(request@.cmd matches CommandV::ChatUserList { .. }) ==> (r matches Err(e) && e@
                == ErrnoV::New("cmd invalid!"@) && *final(vm) == *old(vm)),
    {
        if let Command::ChatUserList { user_list } = request.cmd {
            vm.user_vm.users = user_list;
            return Ok(Response::success(String::from_str("ok")));
        }
        Err(Errno::New(String::from_str("cmd invalid!")))
    }
}

/// Announces a presence change in the message panel as a system line.
pub fn user_connection_change(vm: &mut AppViewModel, user: User, time: i64, online: bool) -> (r:
    Result<Response, Errno>)
    ensures
        r matches Ok(resp) && resp@ == ok_response(),
        push_applied(
            *old(vm),
            *final(vm),
            if online {
                CommandV::UserOnline { time: time as int, user: user@ }
            } else {
                CommandV::UserOffline { time: time as int, user: user@ }
            },
        ),
{
    let mut content = user.address.clone();
    content.append(" ");
    content.append(user.user_name.as_str());
    content.append(" is ");
    if online {
        content.append("online ");
    } else {
        content.append("offline ");
    }
    let msg = Message::new(time, content, SomeUser::System);
    let ghost pre = vm.msg_vm.messages@.map_values(|x: Message| x@);
    vm.msg_vm.messages.push(msg);
    vm.msg_vm.scroll_to_end();
    proof {
        assert(vm.msg_vm.messages@.map_values(|x: Message| x@) =~= pre.push(
            vm.msg_vm.messages@.last()@,
        ));
    }
    Ok(Response::success(String::from_str("ok")))
}

/// Routes one pushed command to its handler by tag.  A tag the client
/// does not handle is an error; so is a payload that does not match its
/// tag.
pub fn handle_push(vm: &mut AppViewModel, request: Request) -> (r: Result<Response, Errno>)
    ensures
        request@.cmd_type == request@.cmd.tag() && !(request@.cmd_type == CommandType::Login
            || request@.cmd_type == CommandType::SendMessage) ==> (r matches Ok(resp) && resp@
            == ok_response() && push_applied(*old(vm), *final(vm), request@.cmd)),
        request@.cmd_type != request@.cmd.tag() && !(request@.cmd_type == CommandType::Login
            || request@.cmd_type == CommandType::SendMessage) ==> (r matches Err(e) && e@
            == ErrnoV::New("cmd invalid!"@) && *final(vm) == *old(vm)),
        request@.cmd_type == CommandType::Login || request@.cmd_type == CommandType::SendMessage
            ==> (r matches Err(e) && e@ == ErrnoV::New("cmd handler unsupported"@) && *final(vm)
            == *old(vm)),
{
    match request.cmd_type {
        CommandType::NewMessage => HandlerImpl::receive_message(vm, request),
        CommandType::ChatMessageList => HandlerImpl::receive_message_list(vm, request),
        CommandType::UserOnline => HandlerImpl::user_online(vm, request),
        CommandType::UserOffline => HandlerImpl::user_offline(vm, request),
        CommandType::ChatUserList => HandlerImpl::chat_user_list_to_user(vm, request),
        _ => Err(Errno::New(String::from_str("cmd handler unsupported"))),
    }
}

/// Turns a failed response into an error, passing a success through.
pub fn if_response_code_not_zero_return_err(resp: &Response) -> (r: Result<(), Errno>)
    ensures
        (r is Ok) == (resp.code == 0),
        resp.code != 0 ==> (r matches Err(e) && e@ == ErrnoV::New(
            "response code not zero, msg = "@ + resp@.msg,
        )),
{
    if resp.code != 0 {
        let mut text = String::from_str("response code not zero, msg = ");
        text.append(resp.msg.as_str());
        return Err(Errno::New(text));
    }
    Ok(())
}

/// The longest message the client will send.
pub const MAX_MSG_LEN: usize = 1024;

/// The text to send for the current input line: nothing when the line is
/// empty or longer than the limit, otherwise the line's characters as one
/// string.
pub fn prepare_message(input: &crate::view_model::input::InputViewModel) -> (r: Option<String>)
    ensures
        input.text@.len() == 0 || input.text@.len() > MAX_MSG_LEN ==> r is None,
        0 < input.text@.len() <= MAX_MSG_LEN ==> (r matches Some(s) && s@ == input.text@),
{
    if input.text.len() == 0 {
        return None;
    }
    if input.text.len() > MAX_MSG_LEN {
        return None;
    }
    Some(crate::ext::collect_chars(&input.text))
}

/// Where the client's reconnect loop stands.
#[derive(Clone, Copy, PartialEq, Eq, Structural, Debug)]
pub enum ClientPhase {
    /// No live connection; the loop should connect.
    Disconnected,
    /// Connected but not yet logged in.
    Connected,
    /// Logged in and listening for pushes.
    LoggedIn,
    /// The user asked to leave, or login was refused.
    Stopped,
}

/// What the outside world reported to the loop.
pub enum ClientEvent {
    Exit,
    ConnectOk,
    ConnectFailed,
    LoginOk(String),
    LoginFailed,
    ConnectionLost,
}

/// What the loop should do next.
#[derive(Clone, Copy, PartialEq, Eq, Structural, Debug)]
pub enum ClientAction {
    Connect,
    RetryAfterDelay,
    Login,
    Listen,
    Stop,
}

/// The reconnect loop's state: its phase and the session of the current
/// login, if any.
pub struct ClientLoopState {
    pub phase: ClientPhase,
    pub session_id: String,
}

/// The loop's transition: connection failures are retried after a delay,
/// a refused login or an exit request stops the loop for good, and a lost
/// connection goes back to connecting.  An event that does not belong to
/// the current phase changes nothing and re-issues the phase's own
/// action.
pub open spec fn client_step_spec(s: ClientLoopState, e: ClientEvent) -> (
    ClientLoopState,
    ClientAction,
) {
    match e {
        ClientEvent::Exit => (
            ClientLoopState { phase: ClientPhase::Stopped, session_id: s.session_id },
            ClientAction::Stop,
        ),
        ClientEvent::ConnectOk => if s.phase == ClientPhase::Disconnected {
            (
                ClientLoopState { phase: ClientPhase::Connected, session_id: s.session_id },
                ClientAction::Login,
            )
        } else {
            (s, phase_action(s.phase))
        },
        ClientEvent::ConnectFailed => if s.phase == ClientPhase::Disconnected {
            (s, ClientAction::RetryAfterDelay)
        } else {
            (s, phase_action(s.phase))
        },
        ClientEvent::LoginOk(sid) => if s.phase == ClientPhase::Connected {
            (
                ClientLoopState { phase: ClientPhase::LoggedIn, session_id: sid },
                ClientAction::Listen,
            )
        } else {
            (s, phase_action(s.phase))
        },
        ClientEvent::LoginFailed => if s.phase == ClientPhase::Connected {
            (
                ClientLoopState { phase: ClientPhase::Stopped, session_id: s.session_id },
                ClientAction::Stop,
            )
        } else {
            (s, phase_action(s.phase))
        },
        ClientEvent::ConnectionLost => if s.phase == ClientPhase::LoggedIn {
            (
                ClientLoopState { phase: ClientPhase::Disconnected, session_id: s.session_id },
                ClientAction::Connect,
            )
        } else {
            (s, phase_action(s.phase))
        },
    }
}

/// The action a phase keeps asking for until an event moves it on.
pub open spec fn phase_action(p: ClientPhase) -> ClientAction {
    match p {
        ClientPhase::Disconnected => ClientAction::Connect,
        ClientPhase::Connected => ClientAction::Login,
        ClientPhase::LoggedIn => ClientAction::Listen,
        ClientPhase::Stopped => ClientAction::Stop,
    }
}

/// Feeds one event to the reconnect loop and decides what to do next.
pub fn client_step(state: &mut ClientLoopState, event: ClientEvent) -> (a: ClientAction)
    ensures
        (*final(state), a) == client_step_spec(*old(state), event),
{
    match event {
        ClientEvent::Exit => {
            state.phase = ClientPhase::Stopped;
            ClientAction::Stop
        },
        ClientEvent::ConnectOk => {
            if matches!(state.phase, ClientPhase::Disconnected) {
                state.phase = ClientPhase::Connected;
                ClientAction::Login
            } else {
                current_action(state)
            }
        },
        ClientEvent::ConnectFailed => {
            if matches!(state.phase, ClientPhase::Disconnected) {
                ClientAction::RetryAfterDelay
            } else {
                current_action(state)
            }
        },
        ClientEvent::LoginOk(sid) => {
            if matches!(state.phase, ClientPhase::Connected) {
                state.phase = ClientPhase::LoggedIn;
                state.session_id = sid;
                ClientAction::Listen
            } else {
                current_action(state)
            }
        },
        ClientEvent::LoginFailed => {
            if matches!(state.phase, ClientPhase::Connected) {
                state.phase = ClientPhase::Stopped;
                ClientAction::Stop
            } else {
                current_action(state)
            }
        },
        ClientEvent::ConnectionLost => {
            if matches!(state.phase, ClientPhase::LoggedIn) {
                state.phase = ClientPhase::Disconnected;
                ClientAction::Connect
            } else {
                current_action(state)
            }
        },
    }
}

/// The phase's standing action.
fn current_action(state: &ClientLoopState) -> (a: ClientAction)
    ensures
        a == phase_action(state.phase),
{
    match state.phase {
        ClientPhase::Disconnected => ClientAction::Connect,
        ClientPhase::Connected => ClientAction::Login,
        ClientPhase::LoggedIn => ClientAction::Listen,
        ClientPhase::Stopped => ClientAction::Stop,
    }
}

} // verus!
