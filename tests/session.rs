use meager::client::{Event, ServInfo};
use meager::protocol::{ServCmd};
use meager::session::{Session, SessionAction, SessionInput};

fn info() -> ServInfo {
    ServInfo {
        addr: "irc.example.net".to_string(),
        port: 6667,
        nick: "bob".to_string(),
        user: "guest".to_string(),
        realname: "Bob".to_string(),
    }
}

#[test]
fn handshake_sends_nick_then_user() {
    assert_eq!(
        Session::handshake(&info()),
        vec!["NICK bob\r\n".to_string(), "USER guest 0 * :Bob\r\n".to_string()]
    );
}

#[test]
fn ping_gets_exactly_one_pong_and_no_event() {
    let mut s = Session::new();
    let acts = s.step(SessionInput::Line("PING :token123".to_string()));
    let writes: Vec<&String> = acts
        .iter()
        .filter_map(|a| match a {
            SessionAction::Write(w) => Some(w),
            _ => None,
        })
        .collect();
    assert_eq!(writes, vec![&"PONG :token123\r\n".to_string()]);
    assert!(!acts.iter().any(|a| matches!(a, SessionAction::Deliver(_))));
    for a in &acts {
        if let SessionAction::Debug(d) = a {
            assert_eq!(d, "PING :token123");
        }
    }
    assert!(!s.is_closed());
}

#[test]
fn line_is_shown_raw_then_delivered() {
    let mut s = Session::new();
    let acts = s.step(SessionInput::Line(":a!u@h JOIN :#c".to_string()));
    assert_eq!(acts.len(), 2);
    assert!(matches!(&acts[0], SessionAction::Debug(d) if d == ":a!u@h JOIN :#c"));
    match &acts[1] {
        SessionAction::Deliver(Event::Msg { msg }) => {
            assert_eq!(msg.command, ServCmd::Join { chan: "#c".to_string() })
        }
        other => panic!("unexpected {:?}", other),
    }
}

#[test]
fn end_of_stream_reports_once_then_nothing() {
    let mut s = Session::new();
    let acts = s.step(SessionInput::EndOfStream);
    assert_eq!(acts.len(), 1);
    assert!(matches!(acts[0], SessionAction::Deliver(Event::Disconnected)));
    assert!(s.is_closed());
    assert!(s.step(SessionInput::Command("QUIT :x\r\n".to_string())).is_empty());
    assert!(s.step(SessionInput::EndOfStream).is_empty());
    assert!(s.step(SessionInput::Line("PING :x".to_string())).is_empty());
}

#[test]
fn transport_error_also_reports_disconnect() {
    let mut s = Session::new();
    let acts = s.step(SessionInput::TransportError);
    assert_eq!(acts.len(), 1);
    assert!(matches!(acts[0], SessionAction::Deliver(Event::Disconnected)));
    assert!(s.is_closed());
}

#[test]
fn command_is_written_verbatim() {
    let mut s = Session::new();
    let acts = s.step(SessionInput::Command("JOIN #c\r\n".to_string()));
    assert_eq!(acts.len(), 1);
    assert!(matches!(&acts[0], SessionAction::Write(w) if w == "JOIN #c\r\n"));
}
