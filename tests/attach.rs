use nanocl_attach::{
    decode, heartbeat_message, keystroke_message, raw_mode, record_from_members, route,
    to_frame, with_restore, Action, AttachError, CargoReplication, DecodeError, DisplayFormat, Event, Frame,
    OutboundMessage, OutputKind, OutputRecord, Phase, Relay, RelayState, ReplicaValue, Session, TermConfig,
    TerminalGuard, HEARTBEAT_INTERVAL_SECS,
};

const ICANON: u32 = 0o000002;
const ECHO: u32 = 0o000010;

fn config() -> TermConfig {
    let mut cc = [0u8; 32];
    for (i, c) in cc.iter_mut().enumerate() {
        *c = (i * 7) as u8;
    }
    TermConfig { iflag: 0x1d00, oflag: 0x5, cflag: 0xbf, lflag: 0x8a3b, cc }
}

fn same_config(a: &TermConfig, b: &TermConfig) -> bool {
    a.iflag == b.iflag && a.oflag == b.oflag && a.cflag == b.cflag && a.lflag == b.lflag && a.cc == b.cc
}

fn binary(json: &str) -> Event {
    Event::Frame(Frame::Binary(json.as_bytes().to_vec()))
}

#[test]
fn decode_stdout_record() {
    let r = decode(br#"{"Kind":"StdOut","Data":"hello"}"#).unwrap();
    assert_eq!(r.kind, OutputKind::StdOut);
    assert_eq!(r.data, "hello");
}

#[test]
fn decode_stderr_and_console_records() {
    let e = decode(br#"{"Data":"oops","Kind":"StdErr"}"#).unwrap();
    assert_eq!(e.kind, OutputKind::StdErr);
    assert_eq!(e.data, "oops");
    let c = decode(br#"{"Kind":"Console","Data":"login: "}"#).unwrap();
    assert_eq!(c.kind, OutputKind::Console);
    assert_eq!(c.data, "login: ");
}

#[test]
fn decode_reserved_and_unknown_kinds() {
    assert_eq!(decode(br#"{"Kind":"StdIn","Data":"a"}"#).unwrap().kind, OutputKind::Other);
    assert_eq!(decode(br#"{"Kind":"Video","Data":"a"}"#).unwrap().kind, OutputKind::Other);
}

#[test]
fn decode_rejects_malformed_bytes() {
    let cases: [&[u8]; 8] = [
        b"",
        b"not json",
        b"[1,2]",
        br#"{"Kind":"StdOut"}"#,
        br#"{"Data":"x"}"#,
        br#"{"Kind":"StdOut","Data":5}"#,
        br#"{"Kind":"StdOut","Data":"x""#,
        &[0xff, 0xfe, 0x00],
    ];
    for c in cases {
        assert!(matches!(decode(c), Err(DecodeError::Malformed)));
    }
}

#[test]
fn members_build_a_record() {
    let ms = vec![("Data".to_string(), "d".to_string()), ("Kind".to_string(), "StdErr".to_string())];
    let r = record_from_members(&ms).unwrap();
    assert_eq!(r.kind, OutputKind::StdErr);
    assert_eq!(r.data, "d");
    assert!(record_from_members(&vec![("Kind".to_string(), "StdOut".to_string())]).is_none());
}

#[test]
fn route_sends_console_to_stdout() {
    let a = route(OutputRecord { kind: OutputKind::Console, data: "c".to_string() });
    assert!(matches!(a, Action::WriteStdout(ref s) if s == "c"));
    let b = route(OutputRecord { kind: OutputKind::Other, data: "c".to_string() });
    assert!(matches!(b, Action::Nothing));
}

#[test]
fn stderr_record_goes_to_error_stream_only() {
    let mut s = Session::start(config());
    let a = s.dispatch(binary(r#"{"Kind":"StdErr","Data":"x"}"#));
    match a {
        Action::WriteStderr(d) => assert_eq!(d, "x"),
        _ => panic!("expected a write to the error stream"),
    }
    assert_eq!(s.phase(), Phase::Running);
}

#[test]
fn ping_is_answered_by_one_pong_before_later_messages() {
    let mut s = Session::start(config());
    let a = s.dispatch(Event::Frame(Frame::Ping(vec![1, 2, 3])));
    let pong = match a {
        Action::Queue(m) => m,
        _ => panic!("expected a queued pong"),
    };
    assert!(matches!(pong, OutboundMessage::Pong(ref p) if p == &vec![1, 2, 3]));
    assert!(s.is_running());
    let mut queue = vec![pong, keystroke_message(b'l').unwrap(), heartbeat_message()];
    let mut relay = Relay::new();
    let mut written = Vec::new();
    for m in queue.drain(..) {
        written.push(relay.on_message(m));
        relay.on_write_result(true);
    }
    assert!(matches!(written[0], Frame::Pong(ref p) if p == &vec![1, 2, 3]));
    assert_eq!(written.iter().filter(|f| matches!(f, Frame::Pong(_))).count(), 1);
    assert!(matches!(written[1], Frame::Text(ref t) if t == &vec![b'l']));
    assert!(matches!(written[2], Frame::Ping(ref p) if p.is_empty()));
}

#[test]
fn relay_writes_every_tick_and_keystroke_in_order() {
    let order = [true, false, false, true, false, true, true, false];
    let keys = b"ls\n\x04";
    let mut queue = Vec::new();
    let mut k = 0;
    for tick in order {
        if tick {
            queue.push(heartbeat_message());
        } else {
            queue.push(keystroke_message(keys[k]).unwrap());
            k += 1;
        }
    }
    let mut relay = Relay::new();
    let mut frames = Vec::new();
    for m in queue {
        frames.push(relay.on_message(m));
        relay.on_write_result(true);
    }
    relay.on_queue_closed();
    assert_eq!(relay.state_now(), RelayState::Drained);
    assert_eq!(frames.len(), 8);
    assert_eq!(frames.iter().filter(|f| matches!(f, Frame::Ping(_))).count(), 4);
    let texts: Vec<u8> = frames
        .iter()
        .filter_map(|f| match f {
            Frame::Text(t) => Some(t[0]),
            _ => None,
        })
        .collect();
    assert_eq!(texts, keys.to_vec());
}

#[test]
fn relay_stops_on_write_failure() {
    let mut relay = Relay::new();
    let f = relay.on_message(heartbeat_message());
    assert!(matches!(f, Frame::Ping(_)));
    relay.on_write_result(false);
    assert_eq!(relay.state_now(), RelayState::WriteFailed);
}

#[test]
fn to_frame_keeps_kind_and_payload() {
    assert!(matches!(to_frame(OutboundMessage::Text(vec![b'q'])), Frame::Text(ref t) if t == &vec![b'q']));
    assert!(matches!(to_frame(OutboundMessage::Pong(vec![9])), Frame::Pong(ref t) if t == &vec![9]));
}

#[test]
fn keystrokes_must_be_single_byte_text() {
    assert!(matches!(keystroke_message(b'a'), Some(OutboundMessage::Text(ref t)) if t == &vec![b'a']));
    assert!(keystroke_message(0x7f).is_some());
    assert!(keystroke_message(0x80).is_none());
    assert!(keystroke_message(0xc3).is_none());
}

#[test]
fn heartbeat_is_an_empty_ping_every_five_seconds() {
    assert!(matches!(heartbeat_message(), OutboundMessage::Ping(ref p) if p.is_empty()));
    assert_eq!(HEARTBEAT_INTERVAL_SECS, 5);
}

#[test]
fn snapshot_round_trip_is_exact() {
    let cfg = config();
    let mut guard = TerminalGuard::acquire(cfg);
    let raw = raw_mode(&cfg, ICANON | ECHO);
    assert_eq!(raw.lflag, 0x8a3b & !(ICANON | ECHO));
    assert_eq!(raw.lflag & (ICANON | ECHO), 0);
    assert!(raw.iflag == cfg.iflag && raw.oflag == cfg.oflag && raw.cflag == cfg.cflag && raw.cc == cfg.cc);
    let restored = guard.release().unwrap();
    assert!(same_config(&restored, &cfg));
    assert!(guard.released());
    assert!(guard.release().is_none());
}

#[test]
fn clean_end_succeeds_and_restores_once() {
    let cfg = config();
    let mut s = Session::start(cfg);
    let events = vec![
        binary(r#"{"Kind":"StdOut","Data":"boot\n"}"#),
        Event::Frame(Frame::Text(vec![1])),
        Event::Frame(Frame::Pong(vec![])),
        Event::Frame(Frame::Other),
        Event::EndOfStream,
    ];
    for e in events {
        s.dispatch(e);
    }
    assert_eq!(s.phase(), Phase::Closed);
    let (res, restore) = s.finish();
    assert_eq!(res, Ok(()));
    assert!(same_config(&restore.unwrap(), &cfg));
    let (res2, restore2) = s.finish();
    assert_eq!(res2, Ok(()));
    assert!(restore2.is_none());
}

#[test]
fn end_of_stream_without_frames_succeeds() {
    let mut s = Session::start(config());
    s.dispatch(Event::EndOfStream);
    let (res, restore) = s.finish();
    assert_eq!(res, Ok(()));
    assert!(restore.is_some());
}

#[test]
fn first_write_failure_is_reported_and_restores_once() {
    let mut s = Session::start(config());
    s.dispatch(Event::WriteFailed);
    s.dispatch(binary(r#"{"Kind":"StdOut","Data":"late"}"#));
    s.dispatch(Event::EndOfStream);
    assert_eq!(s.phase(), Phase::Failed(AttachError::TransportWrite));
    let (res, restore) = s.finish();
    assert_eq!(res, Err(AttachError::TransportWrite));
    assert!(restore.is_some());
    assert!(s.finish().1.is_none());
}

#[test]
fn each_failure_has_its_error() {
    let cases = vec![
        (binary("{}"), AttachError::Decode),
        (Event::PongRejected, AttachError::QueueClosed),
        (Event::OutputFailed, AttachError::LocalOutput),
        (Event::TerminalFailed, AttachError::TerminalControl),
        (Event::WriteFailed, AttachError::TransportWrite),
    ];
    for (e, err) in cases {
        let mut s = Session::start(config());
        s.dispatch(e);
        assert!(!s.is_running());
        assert_eq!(s.finish().0, Err(err));
    }
}

#[test]
fn close_and_read_errors_end_quietly() {
    for e in [Event::Frame(Frame::Close), Event::ReadError] {
        let mut s = Session::start(config());
        s.dispatch(e);
        assert_eq!(s.phase(), Phase::Closed);
        let after = s.dispatch(Event::Frame(Frame::Ping(vec![7])));
        assert!(matches!(after, Action::Nothing));
        assert_eq!(s.finish().0, Ok(()));
    }
}

#[test]
fn failed_restore_turns_success_into_terminal_error() {
    assert_eq!(with_restore(Ok(()), true), Ok(()));
    assert_eq!(with_restore(Ok(()), false), Err(AttachError::TerminalControl));
    assert_eq!(with_restore(Err(AttachError::Decode), false), Err(AttachError::Decode));
}

#[test]
fn display_format_names() {
    assert_eq!(DisplayFormat::Yaml.to_string(), "yaml");
    assert_eq!(DisplayFormat::Toml.to_string(), "toml");
    assert_eq!(DisplayFormat::Json.to_string(), "json");
    assert_eq!(DisplayFormat::default(), DisplayFormat::Yaml);
}

#[test]
fn replication_values() {
    let r = CargoReplication { min_replicas: Some(1), max_replicas: None };
    assert_eq!(r.min_replicas, Some(1));
    assert_ne!(ReplicaValue::Number(2), ReplicaValue::Auto);
}
