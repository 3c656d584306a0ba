use tcp_chat::broadcast::{failed_recipients, Broadcast};
use tcp_chat::client::{is_exit_notice, is_quit_command};
use tcp_chat::event::{format_connect, format_disconnect, format_text, Event};
use tcp_chat::handshake::{is_refusal, nickname_from_line, STATUS_ERR, STATUS_OK};
use tcp_chat::registry::Registry;
use tcp_chat::session::{read_step, ReaderStep};

fn s(x: &str) -> String {
    x.to_string()
}

fn connect(reg: &mut Registry<u32>, nick: &str, handle: u32) -> Broadcast<u32> {
    let (reply, ev) = reg.accept_nickname(s(nick), s("127.0.0.1:5000"), handle);
    assert_eq!(reply.status, STATUS_OK);
    assert!(reply.message.is_none());
    reg.apply(&ev.unwrap())
}

#[test]
fn duplicate_nickname_is_refused() {
    let mut reg: Registry<u32> = Registry::new();
    connect(&mut reg, "alice", 1);
    let (reply, ev) = reg.accept_nickname(s("alice"), s("127.0.0.1:5001"), 2);
    assert_eq!(reply.status, STATUS_ERR);
    assert_eq!(reply.message, Some(s("Nickname already taken!\n")));
    assert!(ev.is_none());
    assert!(reg.contains(&s("alice")));
    assert_eq!(reg.len(), 1);
    assert_eq!(*reg.handle_mut(0), 1);
}

#[test]
fn text_goes_to_others_without_echo() {
    let mut reg: Registry<u32> = Registry::new();
    connect(&mut reg, "alice", 1);
    let joined = connect(&mut reg, "bob", 2);
    assert_eq!(joined.recipients, vec![s("alice")]);
    assert_eq!(joined.line, "User bob connected from ip: 127.0.0.1:5000!\n");
    let b = reg.apply(&Event::Text { nickname: s("alice"), line: s("hello\n") });
    assert_eq!(b.recipients, vec![s("bob")]);
    assert_eq!(b.line, "alice: hello\n");
    assert!(b.closed.is_none());
    assert_eq!(reg.len(), 2);
}

#[test]
fn closed_stream_announces_and_frees_nickname() {
    let mut reg: Registry<u32> = Registry::new();
    connect(&mut reg, "alice", 1);
    connect(&mut reg, "bob", 2);
    let step = read_step(&s("alice"), Some(String::new()));
    let ev = match step {
        ReaderStep::Finish(ev) => ev,
        _ => panic!("end of stream must end the session"),
    };
    let b = reg.apply(&ev);
    assert_eq!(b.recipients, vec![s("bob")]);
    assert_eq!(b.line, "User alice disconnected.\n");
    assert_eq!(b.closed, Some(1));
    assert!(!reg.contains(&s("alice")));
    let again = connect(&mut reg, "alice", 3);
    assert_eq!(again.recipients, vec![s("bob")]);
    assert!(reg.contains(&s("alice")));
}

#[test]
fn second_disconnect_is_a_no_op() {
    let mut reg: Registry<u32> = Registry::new();
    connect(&mut reg, "alice", 1);
    connect(&mut reg, "bob", 2);
    let first = reg.apply(&Event::Disconnect { nickname: s("alice") });
    assert_eq!(first.closed, Some(1));
    let second = reg.apply(&Event::Disconnect { nickname: s("alice") });
    assert!(second.recipients.is_empty());
    assert!(second.closed.is_none());
    assert_eq!(reg.len(), 1);
}

#[test]
fn one_failed_write_among_three() {
    let mut reg: Registry<u32> = Registry::new();
    connect(&mut reg, "alice", 1);
    connect(&mut reg, "bob", 2);
    connect(&mut reg, "carol", 3);
    connect(&mut reg, "dave", 4);
    let b = reg.apply(&Event::Text { nickname: s("alice"), line: s("hi\n") });
    assert_eq!(b.recipients, vec![s("bob"), s("carol"), s("dave")]);
    let drops = failed_recipients(&b.recipients, &vec![true, false, true]);
    assert_eq!(drops.len(), 1);
    for ev in &drops {
        assert_eq!(ev.nickname(), "carol");
        let d = reg.apply(ev);
        assert_eq!(d.recipients, vec![s("alice"), s("bob"), s("dave")]);
        assert_eq!(d.closed, Some(3));
    }
    assert!(reg.contains(&s("bob")));
    assert!(reg.contains(&s("dave")));
    assert!(!reg.contains(&s("carol")));
}

#[test]
fn all_writes_delivered_drops_nobody() {
    let drops = failed_recipients(&vec![s("a"), s("b")], &vec![true, true]);
    assert!(drops.is_empty());
}

#[test]
fn reservation_is_exclusive() {
    let mut reg: Registry<u32> = Registry::new();
    assert!(reg.reserve(s("zed"), 1));
    assert!(!reg.reserve(s("zed"), 2));
    assert_eq!(reg.len(), 1);
    assert_eq!(reg.remove(&s("zed")), Some(1));
    assert_eq!(reg.remove(&s("zed")), None);
    assert!(reg.reserve(s("zed"), 5));
}

#[test]
fn others_keeps_join_order() {
    let mut reg: Registry<u32> = Registry::new();
    reg.reserve(s("c"), 1);
    reg.reserve(s("a"), 2);
    reg.reserve(s("b"), 3);
    assert_eq!(reg.others(&s("a")), vec![s("c"), s("b")]);
    assert_eq!(reg.others(&s("x")), vec![s("c"), s("a"), s("b")]);
    assert_eq!(reg.position(&s("b")), Some(2));
    assert_eq!(reg.position(&s("x")), None);
}

#[test]
fn reader_steps() {
    let nick = s("alice");
    assert!(matches!(read_step(&nick, None), ReaderStep::Finish(Event::Disconnect { .. })));
    assert!(matches!(
        read_step(&nick, Some(s("disconnect\n"))),
        ReaderStep::Finish(Event::Disconnect { .. })
    ));
    assert!(matches!(read_step(&nick, Some(s("\n"))), ReaderStep::Skip));
    match read_step(&nick, Some(s("hello\n"))) {
        ReaderStep::Forward(Event::Text { nickname, line }) => {
            assert_eq!(nickname, "alice");
            assert_eq!(line, "hello\n");
        }
        _ => panic!("a line of text must be forwarded"),
    }
    assert!(matches!(read_step(&nick, Some(s("disconnect"))), ReaderStep::Forward(_)));
}

#[test]
fn line_formats() {
    assert_eq!(format_connect(&s("bob"), &s("10.0.0.2:4000")), "User bob connected from ip: 10.0.0.2:4000!\n");
    assert_eq!(format_disconnect(&s("bob")), "User bob disconnected.\n");
    assert_eq!(format_text(&s("bob"), &s("yo\n")), "bob: yo\n");
}

#[test]
fn handshake_helpers() {
    assert_eq!(nickname_from_line(&s("alice\n")), "alice");
    assert_eq!(nickname_from_line(&s("alice")), "alice");
    assert_eq!(nickname_from_line(&s("")), "");
    assert_eq!(nickname_from_line(&s("élan\n")), "élan");
    assert!(is_refusal(0xFF));
    assert!(!is_refusal(0x01));
}

#[test]
fn client_commands() {
    assert!(is_quit_command(&s("/exit\n")));
    assert!(is_quit_command(&s("/quit\n")));
    assert!(!is_quit_command(&s("/quit")));
    assert!(!is_quit_command(&s("hello\n")));
    assert!(is_exit_notice(&s("exit\n")));
    assert!(!is_exit_notice(&s("exit")));
}
