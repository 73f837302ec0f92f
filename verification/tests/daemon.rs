use forkbox::client::{ClientAction, ClientEvent, Exchange, REFUSAL, SOCKET_MODE, SOCKET_PATH};
use forkbox::command_line::{read_arguments, Invocation};
use forkbox::session::{SessionCounter, SessionPaths};
use forkbox::text::{blank, decimal_text, join_from, white_space};

fn line(text: &str) -> ClientEvent {
    ClientEvent::Line(text.to_string())
}

/// All that is sent in the course of some events.
fn sent(events: Vec<ClientEvent>) -> String {
    let mut exchange = Exchange::new();
    let mut all = String::new();
    for event in events {
        if let ClientAction::Send(text) = exchange.advance(event) {
            all.push_str(&text);
        }
    }
    all
}

#[test]
fn request_is_answered_with_a_line() {
    let mut exchange = Exchange::new();
    match exchange.advance(line("{\"cmd\":\"id\"}\n")) {
        ClientAction::Decode(text) => assert_eq!(text, "{\"cmd\":\"id\"}\n"),
        other => panic!("{:?}", other),
    }
    assert!(matches!(
        exchange.advance(ClientEvent::Decoded(true)),
        ClientAction::Execute
    ));
    assert!(matches!(
        exchange.advance(ClientEvent::Executed),
        ClientAction::Encode
    ));
    match exchange.advance(ClientEvent::Encoded("{}".to_string())) {
        ClientAction::Send(text) => assert_eq!(text, "{}"),
        other => panic!("{:?}", other),
    }
    match exchange.advance(ClientEvent::Sent) {
        ClientAction::Send(text) => assert_eq!(text, "\n"),
        other => panic!("{:?}", other),
    }
    assert!(matches!(
        exchange.advance(ClientEvent::Sent),
        ClientAction::Flush
    ));
    assert!(matches!(
        exchange.advance(ClientEvent::Sent),
        ClientAction::Close
    ));
    assert!(matches!(
        exchange.advance(ClientEvent::Sent),
        ClientAction::Continue
    ));
}

#[test]
fn invalid_payload_is_refused() {
    let mut exchange = Exchange::new();
    exchange.advance(line("not json\n"));
    match exchange.advance(ClientEvent::Decoded(false)) {
        ClientAction::Send(text) => {
            assert_eq!(text, "{\"error\": \"Payload JSON invalido\"}\n")
        }
        other => panic!("{:?}", other),
    }
    assert!(matches!(
        exchange.advance(ClientEvent::Sent),
        ClientAction::Close
    ));
    assert_eq!(
        sent(vec![
            line("not json\n"),
            ClientEvent::Decoded(false),
            ClientEvent::Sent,
            ClientEvent::Decoded(false),
        ]),
        REFUSAL
    );
}

#[test]
fn blank_lines_get_no_answer() {
    for text in ["", "\n", " \t\r\n", "\u{a0}\u{3000}\n"] {
        let mut exchange = Exchange::new();
        assert!(matches!(exchange.advance(line(text)), ClientAction::Close));
        assert_eq!(sent(vec![line(text), ClientEvent::Decoded(false)]), "");
    }
    let mut exchange = Exchange::new();
    assert!(matches!(
        exchange.advance(ClientEvent::LineFailed),
        ClientAction::Close
    ));
}

/// A response as JSON.
fn encoded(exit_code: i32, timed_out: bool, stdout: &str, stderr: &str) -> serde_json::Value {
    let mut fields = serde_json::Map::new();
    fields.insert("exit_code".to_string(), serde_json::Value::from(exit_code));
    fields.insert("timed_out".to_string(), serde_json::Value::from(timed_out));
    fields.insert("stdout".to_string(), serde_json::Value::from(stdout));
    fields.insert("stderr".to_string(), serde_json::Value::from(stderr));
    fields.insert("duration_us".to_string(), serde_json::Value::from(713u64));
    serde_json::Value::Object(fields)
}

#[test]
fn encoded_response_is_one_line_that_reads_back() {
    let controls: String = (0..0x80u8).map(char::from).collect();
    for response in [
        encoded(0, false, "", ""),
        encoded(124, true, "two\nlines\n", "\n"),
        encoded(-1, false, "\"quoted\" \\ \\n", "Falha ao disparar fork"),
        encoded(159, false, &controls, "\u{85}\u{2028}\u{fffd}\u{1f600}"),
    ] {
        let answer = sent(vec![
            line("{}"),
            ClientEvent::Decoded(true),
            ClientEvent::Executed,
            ClientEvent::Encoded(serde_json::to_string(&response).unwrap()),
            ClientEvent::Sent,
            ClientEvent::Sent,
            ClientEvent::Sent,
        ]);
        assert_eq!(answer.matches('\n').count(), 1);
        assert!(answer.ends_with('\n'));
        let read: serde_json::Value = serde_json::from_str(&answer).unwrap();
        assert_eq!(read, response);
    }
}

#[test]
fn request_is_carried_out_once() {
    let mut exchange = Exchange::new();
    let mut executions = 0;
    for event in [
        line("{}"),
        ClientEvent::Decoded(true),
        ClientEvent::Decoded(true),
        ClientEvent::Executed,
        ClientEvent::Decoded(true),
        line("{}"),
        ClientEvent::Decoded(true),
    ] {
        if matches!(exchange.advance(event), ClientAction::Execute) {
            executions += 1;
        }
    }
    assert_eq!(executions, 1);
}

#[test]
fn response_that_cannot_be_encoded_is_dropped() {
    let events = vec![
        line("{}"),
        ClientEvent::Decoded(true),
        ClientEvent::Executed,
        ClientEvent::EncodeFailed,
        ClientEvent::Sent,
    ];
    assert_eq!(sent(events), "");
}

#[test]
fn socket_is_open_to_local_users() {
    assert_eq!(SOCKET_PATH, "/tmp/forkbox.sock");
    assert_eq!(SOCKET_MODE, 0o777);
}

#[test]
fn white_space_is_that_of_unicode() {
    for code in 0..=0x10ffffu32 {
        if let Some(c) = char::from_u32(code) {
            assert_eq!(white_space(c), c.is_whitespace());
        }
    }
}

#[test]
fn blank_is_what_trims_to_nothing() {
    for text in ["", " ", "\n", "x", " x ", "\u{2003}\u{85}", "\u{200b}", "{}\n"] {
        assert_eq!(blank(text), text.trim().is_empty());
    }
}

fn words(args: &[&str]) -> Vec<String> {
    args.iter().map(|arg| arg.to_string()).collect()
}

#[test]
fn daemon_is_asked_for() {
    assert!(matches!(
        read_arguments(&words(&["forkbox", "daemon"])),
        Invocation::Daemon
    ));
    assert!(matches!(
        read_arguments(&words(&["forkbox", "daemon", "exec"])),
        Invocation::Daemon
    ));
}

#[test]
fn command_is_asked_for() {
    match read_arguments(&words(&["forkbox", "exec", "echo", "a  b", "", "c"])) {
        Invocation::Exec(request) => {
            assert_eq!(request.cmd, "echo a  b  c");
            assert_eq!(request.timeout_ms, 5000);
            assert_eq!(request.allow_network, Some(false));
        }
        other => panic!("{:?}", other),
    }
}

#[test]
fn anything_else_is_the_self_test() {
    for args in [
        vec![],
        vec!["forkbox"],
        vec!["forkbox", "exec"],
        vec!["forkbox", "Daemon"],
        vec!["daemon", "x", "exec"],
    ] {
        assert!(matches!(
            read_arguments(&words(&args)),
            Invocation::SelfTest
        ));
    }
}

#[test]
fn words_are_joined_by_spaces() {
    let all = words(&["a", "b", "c"]);
    assert_eq!(join_from(&all, 0), "a b c");
    assert_eq!(join_from(&all, 2), "c");
    assert_eq!(join_from(&all, 3), "");
}

#[test]
fn numbers_are_written_in_decimal() {
    for n in [0, 7, 9, 10, 42, 100, 65536, u64::MAX] {
        assert_eq!(decimal_text(n), n.to_string());
    }
}

#[test]
fn sessions_are_counted_from_one() {
    let mut counter = SessionCounter::new();
    assert_eq!(counter.begin(), 1);
    assert_eq!(counter.begin(), 2);
    assert_eq!(counter.begin(), 3);
}

#[test]
fn session_has_directories_of_its_own() {
    let paths = SessionPaths::new(17);
    assert_eq!(paths.root, "/tmp/forkbox_sess_17");
    assert_eq!(paths.upper, "/tmp/forkbox_sess_17/upper");
    assert_eq!(paths.work, "/tmp/forkbox_sess_17/work");
    assert_eq!(paths.merged, "/tmp/forkbox_sess_17/merged");
    assert_eq!(
        paths.overlay_options(),
        "lowerdir=/,upperdir=/tmp/forkbox_sess_17/upper,workdir=/tmp/forkbox_sess_17/work"
    );
    assert_ne!(SessionPaths::new(1).root, SessionPaths::new(10).root);
}
