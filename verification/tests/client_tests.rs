use sophia::command::{Command, CommandType, Login};
use sophia::config::Config;
use sophia::controller::{
    client_step, handle_push, if_response_code_not_zero_return_err, prepare_message, ClientAction,
    ClientEvent, ClientLoopState, ClientPhase,
};
use sophia::errors::Errno;
use sophia::model::{Message, Request, Response, User};
use sophia::quic::Client;
use sophia::text::split_each;
use sophia::view_model::app::AppViewModel;
use sophia::view_model::input::{CursorMove, InputViewModel};
use sophia::view_model::messages::{ScrollMove, SomeUser};

fn test_config() -> Config {
    Config {
        cert_path: String::new(),
        server_addr: String::new(),
        server_name: String::new(),
        application_level_protocols: Vec::new(),
        user_name: "me".to_string(),
        theme: "dark".to_string(),
        chat_id: 1,
        password: "666666".to_string(),
    }
}

fn sample_user(name: &str, addr: &str) -> User {
    User::new(name.to_string(), addr.to_string(), 1, 5)
}

#[test]
fn input_editing_keeps_cursor_in_text() {
    let mut vm = InputViewModel::new();
    vm.input_write('h');
    vm.input_write('i');
    assert_eq!(vm.input(), &['h', 'i']);
    assert_eq!(vm.cursor, 2);

    vm.input_move_cursor(CursorMove::Left);
    assert_eq!(vm.cursor, 1);
    vm.input_write('e');
    assert_eq!(vm.input(), &['h', 'e', 'i']);

    vm.input_remove();
    assert_eq!(vm.input(), &['h', 'e']);

    vm.input_remove_previous();
    assert_eq!(vm.input(), &['h']);
    assert_eq!(vm.cursor, 1);

    vm.input_move_cursor(CursorMove::Home);
    assert_eq!(vm.cursor, 0);
    vm.input_move_cursor(CursorMove::Left);
    assert_eq!(vm.cursor, 0);
    vm.input_move_cursor(CursorMove::End);
    assert_eq!(vm.cursor, 1);
    vm.input_move_cursor(CursorMove::Right);
    assert_eq!(vm.cursor, 1);

    vm.clean_input();
    assert!(vm.input().is_empty());
    assert_eq!(vm.cursor, 0);
}

#[test]
fn message_scrolling() {
    let mut vm = AppViewModel::new(test_config());
    vm.msg_vm.messages_scroll(ScrollMove::Up);
    assert_eq!(vm.msg_vm.scroll_pos, 0);
    vm.msg_vm.messages_scroll(ScrollMove::Down);
    vm.msg_vm.messages_scroll(ScrollMove::Down);
    assert_eq!(vm.msg_vm.scroll_pos, 2);
    vm.msg_vm.messages_scroll(ScrollMove::PageUp);
    assert_eq!(vm.msg_vm.scroll_pos, 2);
    vm.msg_vm.messages_scroll(ScrollMove::Up);
    assert_eq!(vm.msg_vm.scroll_pos, 1);
}

#[test]
fn pushed_message_lands_in_panel_and_scrolls() {
    let mut vm = AppViewModel::new(test_config());
    let msg = Message {
        user: sample_user("bob", "10.0.0.1:1"),
        time: 9,
        content: "hello".to_string(),
    };
    let req = Request::new(Command::NewMessage(msg));
    let resp = handle_push(&mut vm, req).unwrap();
    assert_eq!(resp.code, 0);
    assert_eq!(vm.msg_vm.messages.len(), 1);
    assert_eq!(vm.msg_vm.messages[0].content, "hello");
    assert_eq!(vm.msg_vm.scroll_to_pos, 1);
    assert!(matches!(vm.msg_vm.messages[0].user, SomeUser::User(_)));
}

#[test]
fn pushed_history_replaces_panel() {
    let mut vm = AppViewModel::new(test_config());
    let mk = |content: &str, t: i64| Message {
        user: sample_user("bob", "10.0.0.1:1"),
        time: t,
        content: content.to_string(),
    };
    let req = Request::new(Command::ChatMessageList {
        message_list: vec![mk("one", 1), mk("two", 2)],
    });
    handle_push(&mut vm, req).unwrap();
    assert_eq!(vm.msg_vm.messages.len(), 2);
    assert_eq!(vm.msg_vm.messages[1].content, "two");
    assert_eq!(vm.msg_vm.scroll_to_pos, 2);
}

#[test]
fn presence_push_shows_system_line() {
    let mut vm = AppViewModel::new(test_config());
    let req = Request::new(Command::UserOnline {
        time: 3,
        user: sample_user("carol", "10.0.0.2:2"),
    });
    handle_push(&mut vm, req).unwrap();
    assert_eq!(vm.msg_vm.messages.len(), 1);
    assert_eq!(vm.msg_vm.messages[0].content, "10.0.0.2:2 carol is online ");
    assert!(matches!(vm.msg_vm.messages[0].user, SomeUser::System));

    let req = Request::new(Command::UserOffline {
        time: 4,
        user: sample_user("carol", "10.0.0.2:2"),
    });
    handle_push(&mut vm, req).unwrap();
    assert_eq!(vm.msg_vm.messages[1].content, "10.0.0.2:2 carol is offline ");
}

#[test]
fn roster_push_replaces_user_panel() {
    let mut vm = AppViewModel::new(test_config());
    let req = Request::new(Command::ChatUserList {
        user_list: vec![sample_user("a", "1"), sample_user("b", "2")],
    });
    handle_push(&mut vm, req).unwrap();
    assert_eq!(vm.user_vm.users.len(), 2);
    assert_eq!(vm.user_vm.users[0].user_name, "a");
}

#[test]
fn server_bound_tags_are_not_handled_by_the_client() {
    let mut vm = AppViewModel::new(test_config());
    let req = Request::new(Command::Login(Login {
        user_name: "x".to_string(),
        password: "y".to_string(),
        chat_id: 1,
    }));
    assert!(handle_push(&mut vm, req).is_err());
}

#[test]
fn mismatched_payload_is_rejected() {
    let mut vm = AppViewModel::new(test_config());
    let mut req = Request::new(Command::ChatUserList { user_list: Vec::new() });
    req.cmd_type = CommandType::NewMessage;
    assert!(handle_push(&mut vm, req).is_err());
}

#[test]
fn response_code_gate() {
    let ok = Response::success("fine".to_string());
    assert!(if_response_code_not_zero_return_err(&ok).is_ok());
    let bad = Response::new(1000, "denied".to_string());
    match if_response_code_not_zero_return_err(&bad) {
        Err(Errno::New(text)) => assert_eq!(text, "response code not zero, msg = denied"),
        other => panic!("expected error, got {:?}", other.is_ok()),
    }
}

#[test]
fn reconnect_loop_retries_until_login_then_stops_on_refusal() {
    let mut st = ClientLoopState {
        phase: ClientPhase::Disconnected,
        session_id: String::new(),
    };
    assert_eq!(client_step(&mut st, ClientEvent::ConnectFailed), ClientAction::RetryAfterDelay);
    assert_eq!(client_step(&mut st, ClientEvent::ConnectOk), ClientAction::Login);
    assert_eq!(client_step(&mut st, ClientEvent::LoginOk("s1".to_string())), ClientAction::Listen);
    assert_eq!(st.session_id, "s1");
    assert_eq!(client_step(&mut st, ClientEvent::ConnectionLost), ClientAction::Connect);
    assert_eq!(client_step(&mut st, ClientEvent::ConnectOk), ClientAction::Login);
    assert_eq!(client_step(&mut st, ClientEvent::LoginFailed), ClientAction::Stop);
    assert!(matches!(st.phase, ClientPhase::Stopped));

    let mut st = ClientLoopState {
        phase: ClientPhase::LoggedIn,
        session_id: "s".to_string(),
    };
    assert_eq!(client_step(&mut st, ClientEvent::Exit), ClientAction::Stop);
}

#[test]
fn command_tags_match_variants() {
    let cmd = Command::SendTextMessage { msg: "m".to_string(), chat_id: 2 };
    assert_eq!(cmd.command_type(), CommandType::SendMessage);
    let cmd = Command::NewMessage(Message {
        user: sample_user("a", "1"),
        time: 0,
        content: String::new(),
    });
    assert_eq!(cmd.command_type(), CommandType::NewMessage);
}

#[test]
fn split_each_wraps_and_loses_nothing() {
    assert_eq!(split_each("hello".to_string(), 2), vec!["he", "ll", "o"]);
    assert_eq!(split_each(String::new(), 4), Vec::<String>::new());
    assert_eq!(split_each("ab".to_string(), 5), vec!["ab"]);
    // wide characters occupy two columns each
    assert_eq!(split_each("\u{4f60}\u{597d}".to_string(), 2), vec!["\u{4f60}", "\u{597d}"]);
    let rows = split_each("the quick brown fox".to_string(), 4);
    assert_eq!(rows.concat(), "the quick brown fox");
}

#[test]
fn client_builder_accumulates_settings() {
    let mut cli = Client::new();
    assert_eq!(cli.application_level_protocols, vec!["hq-29", "quic-demo"]);
    cli.with_cert_path("cert.der".to_string())
        .with_server_addr("127.0.0.1:5858".to_string())
        .with_server_name("localhost".to_string());
    assert_eq!(cli.cert_path, "cert.der");
    assert_eq!(cli.server_addr, "127.0.0.1:5858");
    assert_eq!(cli.server_name, "localhost");
    cli.with_application_level_protocols(vec!["quic-demo".to_string()]);
    assert_eq!(cli.application_level_protocols, vec!["quic-demo"]);
}

#[test]
fn trusted_clock_and_session_id_behave() {
    let sid = sophia::ext::generate_session_id();
    assert_eq!(sid.chars().count(), 32);
    assert!(sid.chars().all(|c| c.is_ascii_alphanumeric()));
    let t = sophia::ext::now_timestamp();
    assert!(t > 1_500_000_000);
    assert_eq!(sophia::ext::measure_char_width('a'), 1);
    assert_eq!(sophia::ext::measure_char_width('\n'), 0);
    assert_eq!(sophia::ext::measure_char_width('\u{4f60}'), 2);
}

#[test]
fn outgoing_message_is_gated_and_collected() {
    let mut vm = InputViewModel::new();
    assert!(prepare_message(&vm).is_none());
    for c in "hi there".chars() {
        vm.input_write(c);
    }
    assert_eq!(prepare_message(&vm).unwrap(), "hi there");
    for _ in 0..1024 {
        vm.input_write('x');
    }
    assert!(prepare_message(&vm).is_none());
}

#[test]
fn error_text_renders() {
    let e = Errno::New("boom".to_string());
    assert_eq!(e.text(), "error `boom`");
    assert_eq!(Errno::ConnectionClosed.text(), "connection closed");
}
