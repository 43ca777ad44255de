use sophia::command::{Command, CommandType, Login};
use sophia::consts;
use sophia::model::Request;
use sophia::push::Push;
use sophia::server::{setup_repo_impl, Server};

fn login_request(name: &str, password: &str, chat_id: i64, remote: &str) -> Request {
    let mut req = Request::new(Command::Login(Login {
        user_name: name.to_string(),
        password: password.to_string(),
        chat_id,
    }));
    req.base.remote_add = remote.to_string();
    req
}

fn sid(tag: u8) -> String {
    let mut s = String::new();
    for _ in 0..32 {
        s.push((b'a' + tag) as char);
    }
    s
}

fn login(s: &mut Server, name: &str, chat_id: i64, remote: &str, tag: u8, now: i64) -> String {
    s.cons.put(remote.to_string());
    let req = login_request(name, "666666", chat_id, remote);
    let (resp, _pushes) = s.login_with_session(req, sid(tag), now).unwrap();
    assert_eq!(resp.code, consts::SUCCESS);
    resp.msg
}

#[test]
fn session_invariant_login_then_kick_out() {
    let mut s = Server::new(setup_repo_impl());
    let session = login(&mut s, "alice", 7, "10.0.0.1:4000", 0, 100);
    assert_eq!(session, sid(0));

    let by_sid = s.repo.session.get(&session).expect("session lookup");
    let by_addr = s
        .repo
        .session
        .get_with_remote_addr("10.0.0.1:4000")
        .expect("address lookup");
    assert_eq!(by_sid.name, by_addr.name);
    assert_eq!(by_sid.session_id, by_addr.session_id);
    assert_eq!(by_sid.address, by_addr.address);
    assert_eq!(by_sid.chat_id, by_addr.chat_id);
    assert_eq!(by_sid.login_time, by_addr.login_time);

    s.kick_out("10.0.0.1:4000");
    assert!(s.repo.session.get(&session).is_none());
    assert!(s.repo.session.get_with_remote_addr("10.0.0.1:4000").is_none());
}

#[test]
fn duplicate_name_rejected_in_same_room_only() {
    let mut s = Server::new(setup_repo_impl());
    login(&mut s, "alice", 1, "10.0.0.1:1", 0, 10);

    let req = login_request("alice", "666666", 1, "10.0.0.2:2");
    let (resp, pushes) = s.login_with_session(req, sid(1), 11).unwrap();
    assert_eq!(resp.code, consts::USER_NAME_DUPLICATE_ERROR);
    assert!(pushes.is_empty());

    let req = login_request("alice", "666666", 2, "10.0.0.2:2");
    let (resp, _) = s.login_with_session(req, sid(2), 12).unwrap();
    assert_eq!(resp.code, consts::SUCCESS);
}

#[test]
fn login_rejects_empty_name_and_bad_password() {
    let mut s = Server::new(setup_repo_impl());
    let req = login_request("", "666666", 1, "10.0.0.1:1");
    let (resp, _) = s.login_with_session(req, sid(0), 10).unwrap();
    assert_eq!(resp.code, consts::LOGIN_FAILED);
    assert_eq!(resp.msg, "user name invalid");

    let req = login_request("bob", "123456", 1, "10.0.0.1:1");
    let (resp, _) = s.login_with_session(req, sid(0), 10).unwrap();
    assert_eq!(resp.code, consts::LOGIN_FAILED);
    assert_eq!(resp.msg, "password invalid");
}

#[test]
fn room_mismatch_returns_chat_id_invalid_and_appends_nothing() {
    let mut s = Server::new(setup_repo_impl());
    let session = login(&mut s, "bob", 10086, "10.0.0.1:1", 0, 10);

    let mut req = Request::new(Command::SendTextMessage { msg: "hi".to_string(), chat_id: 1 });
    req.base.session_id = session.clone();
    req.base.remote_add = "10.0.0.1:1".to_string();
    let (resp, pushes) = s.send_message_at(req, 20).unwrap();
    assert_eq!(resp.code, consts::CHAT_ID_INVALID);
    assert!(pushes.is_empty());
    assert!(s.repo.message.get(10086).is_empty());
    assert!(s.repo.message.get(1).is_empty());
}

fn pushes_to<'a>(pushes: &'a [Push], addr: &str) -> Vec<&'a Push> {
    pushes.iter().filter(|p| p.address == addr).collect()
}

#[test]
fn offline_fanout_excludes_departing_address() {
    let mut s = Server::new(setup_repo_impl());
    login(&mut s, "a", 5, "10.0.0.1:1", 0, 10);
    login(&mut s, "b", 5, "10.0.0.2:2", 1, 11);
    login(&mut s, "c", 5, "10.0.0.3:3", 2, 12);

    let pushes = s.kick_out("10.0.0.1:1");
    assert!(pushes_to(&pushes, "10.0.0.1:1").is_empty());
    for addr in ["10.0.0.2:2", "10.0.0.3:3"] {
        let mine = pushes_to(&pushes, addr);
        assert_eq!(mine.len(), 2);
        let offline = mine
            .iter()
            .filter(|p| matches!(p.req.cmd, Command::UserOffline { .. }))
            .count();
        let roster = mine
            .iter()
            .filter(|p| matches!(p.req.cmd, Command::ChatUserList { .. }))
            .count();
        assert_eq!(offline, 1);
        assert_eq!(roster, 1);
    }
}

#[test]
fn roster_lists_every_member_sorted_by_login_time() {
    let mut s = Server::new(setup_repo_impl());
    login(&mut s, "a", 5, "10.0.0.1:1", 0, 30);
    login(&mut s, "b", 5, "10.0.0.2:2", 1, 10);
    let pushes = {
        s.cons.put("10.0.0.3:3".to_string());
        let req = login_request("c", "666666", 5, "10.0.0.3:3");
        let (resp, pushes) = s.login_with_session(req, sid(2), 20).unwrap();
        assert_eq!(resp.code, consts::SUCCESS);
        pushes
    };

    let roster = pushes
        .iter()
        .find_map(|p| match &p.req.cmd {
            Command::ChatUserList { user_list } => Some(user_list),
            _ => None,
        })
        .expect("roster push");
    assert_eq!(roster.len(), 3);
    let times: Vec<i64> = roster.iter().map(|u| u.login_time).collect();
    assert_eq!(times, vec![10, 20, 30]);
    let mut names: Vec<&str> = roster.iter().map(|u| u.user_name.as_str()).collect();
    names.sort();
    assert_eq!(names, vec!["a", "b", "c"]);
}

#[test]
fn relogin_under_same_address_overwrites_membership() {
    let mut s = Server::new(setup_repo_impl());
    login(&mut s, "a", 5, "10.0.0.1:1", 0, 10);
    login(&mut s, "b", 5, "10.0.0.2:2", 1, 11);

    // the same address reconnects under a fresh session and name
    let req = login_request("a2", "666666", 5, "10.0.0.1:1");
    let (resp, _) = s.login_with_session(req, sid(3), 40).unwrap();
    assert_eq!(resp.code, consts::SUCCESS);

    let members = s.repo.chat.get(5);
    assert_eq!(members.len(), 2);
    assert!(s.repo.session.get(&sid(0)).is_none());
    let rebound = s.repo.session.get(&sid(3)).expect("new session");
    assert_eq!(rebound.name, "a2");
}

#[test]
fn kick_out_twice_is_idempotent() {
    let mut s = Server::new(setup_repo_impl());
    login(&mut s, "a", 5, "10.0.0.1:1", 0, 10);
    login(&mut s, "b", 5, "10.0.0.2:2", 1, 11);

    let first = s.kick_out("10.0.0.1:1");
    assert!(!first.is_empty());
    let members_once = s.repo.chat.get(5).len();
    let second = s.kick_out("10.0.0.1:1");
    assert!(second.is_empty());
    assert_eq!(s.repo.chat.get(5).len(), members_once);
    assert_eq!(members_once, 1);
    assert!(s.repo.session.get_with_remote_addr("10.0.0.1:1").is_none());
    assert!(!s.cons.get("10.0.0.1:1"));
    assert!(s.cons.get("10.0.0.2:2"));
}

#[test]
fn end_to_end_login_and_send() {
    let mut s = Server::new(setup_repo_impl());

    // bob logs in
    s.cons.put("10.0.0.1:1".to_string());
    let req = login_request("bob", "666666", 10086, "10.0.0.1:1");
    let (resp, _) = s.login_with_session(req, sid(0), 10).unwrap();
    assert_eq!(resp.code, consts::SUCCESS);
    let session = resp.msg;

    // a second client joins the same room
    login(&mut s, "carol", 10086, "10.0.0.2:2", 1, 11);

    // bob sends a message through the dispatcher
    let mut req = Request::new(Command::SendTextMessage {
        msg: "hi".to_string(),
        chat_id: 10086,
    });
    req.base.session_id = session;
    req.base.remote_add = "10.0.0.1:1".to_string();
    let (resp, pushes) = s.handle_request(req).unwrap();
    assert_eq!(resp.code, consts::SUCCESS);

    let messages = s.repo.message.get(10086);
    assert_eq!(messages.len(), 1);
    assert_eq!(messages[0].user.user_name, "bob");
    assert_eq!(messages[0].content, "hi");

    let carols: Vec<_> = pushes
        .iter()
        .filter(|p| p.address == "10.0.0.2:2")
        .collect();
    assert_eq!(carols.len(), 1);
    match &carols[0].req.cmd {
        Command::NewMessage(m) => {
            assert_eq!(m.content, "hi");
            assert_eq!(m.user.user_name, "bob");
        }
        other => panic!("unexpected push: {:?}", other.command_type()),
    }
}

#[test]
fn guard_rejects_missing_and_replayed_sessions() {
    let mut s = Server::new(setup_repo_impl());
    let session = login(&mut s, "bob", 1, "10.0.0.1:1", 0, 10);

    // unknown session id
    let mut req = Request::new(Command::SendTextMessage { msg: "x".to_string(), chat_id: 1 });
    req.base.session_id = "nope".to_string();
    req.base.remote_add = "10.0.0.1:1".to_string();
    let (resp, pushes) = s.handle_request(req).unwrap();
    assert_eq!(resp.code, consts::SESSION_ID_INVALID);
    assert_eq!(resp.msg, "error `session_id invalid`");
    assert!(pushes.is_empty());

    // valid session replayed from another address
    let mut req = Request::new(Command::SendTextMessage { msg: "x".to_string(), chat_id: 1 });
    req.base.session_id = session;
    req.base.remote_add = "10.9.9.9:9".to_string();
    let (resp, _) = s.handle_request(req).unwrap();
    assert_eq!(resp.code, consts::SESSION_ID_INVALID);
    assert_eq!(resp.msg, "error `address invalid`");
    assert!(s.repo.message.get(1).is_empty());
}

#[test]
fn unsupported_and_mismatched_commands_are_errors() {
    let mut s = Server::new(setup_repo_impl());
    let session = login(&mut s, "bob", 1, "10.0.0.1:1", 0, 10);

    // a push-only tag reaching the server
    let mut req = Request::new(Command::ChatUserList { user_list: Vec::new() });
    req.base.session_id = session.clone();
    req.base.remote_add = "10.0.0.1:1".to_string();
    assert!(s.handle_request(req).is_err());

    // a tag that does not match its payload
    let mut req = Request::new(Command::SendTextMessage { msg: "x".to_string(), chat_id: 1 });
    req.cmd_type = CommandType::Login;
    req.base.session_id = session;
    req.base.remote_add = "10.0.0.1:1".to_string();
    assert!(s.handle_request(req).is_err());
}

#[test]
fn random_login_path_issues_32_char_session() {
    let mut s = Server::new(setup_repo_impl());
    s.cons.put("10.0.0.1:1".to_string());
    let req = login_request("dora", "666666", 3, "10.0.0.1:1");
    let (resp, _) = s.login_handler(req).unwrap();
    assert_eq!(resp.code, consts::SUCCESS);
    assert_eq!(resp.msg.chars().count(), 32);
    assert!(s.repo.session.get(&resp.msg).is_some());
}

#[test]
fn new_message_fanout_includes_sender() {
    let mut s = Server::new(setup_repo_impl());
    let session = login(&mut s, "bob", 1, "10.0.0.1:1", 0, 10);
    let mut req = Request::new(Command::SendTextMessage { msg: "solo".to_string(), chat_id: 1 });
    req.base.session_id = session;
    req.base.remote_add = "10.0.0.1:1".to_string();
    let (resp, pushes) = s.send_message_at(req, 42).unwrap();
    assert_eq!(resp.code, consts::SUCCESS);
    // the sender receives the server's copy of its own message
    assert_eq!(pushes.len(), 1);
    assert_eq!(pushes[0].address, "10.0.0.1:1");
}

#[test]
fn online_event_reaches_the_joiner_too() {
    let mut s = Server::new(setup_repo_impl());
    login(&mut s, "a", 5, "10.0.0.1:1", 0, 10);
    s.cons.put("10.0.0.2:2".to_string());
    let req = login_request("b", "666666", 5, "10.0.0.2:2");
    let (_, pushes) = s.login_with_session(req, sid(1), 11).unwrap();
    let joiner_online = pushes
        .iter()
        .filter(|p| p.address == "10.0.0.2:2" && matches!(p.req.cmd, Command::UserOnline { .. }))
        .count();
    assert_eq!(joiner_online, 1);
    let history = pushes
        .iter()
        .filter(|p| matches!(p.req.cmd, Command::ChatMessageList { .. }))
        .collect::<Vec<_>>();
    // history is replayed to the joiner only
    assert_eq!(history.len(), 1);
    assert_eq!(history[0].address, "10.0.0.2:2");
}

#[test]
fn disconnected_member_silently_misses_events() {
    let mut s = Server::new(setup_repo_impl());
    login(&mut s, "a", 5, "10.0.0.1:1", 0, 10);
    login(&mut s, "b", 5, "10.0.0.2:2", 1, 11);
    // b's handle goes away without a kick-out
    s.cons.remove("10.0.0.2:2");
    let pushes = {
        s.cons.put("10.0.0.3:3".to_string());
        let req = login_request("c", "666666", 5, "10.0.0.3:3");
        s.login_with_session(req, sid(2), 12).unwrap().1
    };
    assert!(pushes_to(&pushes, "10.0.0.2:2").is_empty());
    assert!(!pushes_to(&pushes, "10.0.0.1:1").is_empty());
}
