use jmap_client::event_source::{
    event_type_of, on_chunk_error, sse_step, take_line, EventType, PushData, PushNotification, PushStreamState,
    SseParser, StreamAction, StreamInput,
};
use jmap_client::jmap_core::transport::TransportError;
use jmap_client::{CalendarAlert, DataType, Error};

fn feed_all(parser: &mut SseParser, text: &str) -> Vec<(String, String, String)> {
    let mut buf = text.as_bytes().to_vec();
    let mut events = Vec::new();
    while let Some(line) = take_line(&mut buf) {
        let line = String::from_utf8(line).unwrap();
        if let Some(e) = parser.feed_line(&line) {
            events.push((e.event, e.id, e.data));
        }
    }
    events
}

#[test]
fn take_line_splits_at_line_feeds() {
    let mut buf = b"abc\r\ndef\nrest".to_vec();
    assert_eq!(take_line(&mut buf), Some(b"abc".to_vec()));
    assert_eq!(take_line(&mut buf), Some(b"def".to_vec()));
    assert_eq!(take_line(&mut buf), None);
    assert_eq!(buf, b"rest".to_vec());
    let mut empty = b"\n".to_vec();
    assert_eq!(take_line(&mut empty), Some(Vec::new()));
    assert!(empty.is_empty());
}

#[test]
fn parser_reads_events() {
    let mut parser = SseParser::new();
    let events = feed_all(
        &mut parser,
        ": comment\nevent: state\nid: 42\ndata: {\"a\":\ndata:1}\n\nevent: ping\ndata: {}\n\n\n",
    );
    assert_eq!(
        events,
        vec![
            ("state".to_string(), "42".to_string(), "{\"a\":\n1}".to_string()),
            ("ping".to_string(), "42".to_string(), "{}".to_string()),
        ]
    );
}

#[test]
fn parser_skips_events_without_data() {
    let mut parser = SseParser::new();
    let events = feed_all(&mut parser, "event: state\n\nretry: 10\nfoo\n\n");
    assert!(events.is_empty());
    assert_eq!(parser.event, "");
    assert!(!parser.has_data);
}

#[test]
fn event_types_by_name() {
    assert_eq!(event_type_of("state"), Some(EventType::State));
    assert_eq!(event_type_of("ping"), Some(EventType::Ping));
    assert_eq!(event_type_of("calendarAlert"), Some(EventType::CalendarAlert));
    assert_eq!(event_type_of("message"), None);
}

#[test]
fn state_events_hand_out_changes() {
    let changed = vec![("A1".to_string(), vec![(DataType::Email, "s9".to_string())])];
    match sse_step(EventType::State, "7", PushData::StateChange(changed)) {
        StreamAction::Emit(PushNotification::StateChange(c)) => {
            assert_eq!(c.id(), Some("7"));
            assert_eq!(c.changes("A1").unwrap()[0], (DataType::Email, "s9".to_string()));
            assert!(c.changes("A2").is_none());
        }
        _ => panic!("expected a state change"),
    }
    match sse_step(EventType::State, "", PushData::StateChange(vec![])) {
        StreamAction::Emit(PushNotification::StateChange(c)) => assert_eq!(c.id(), None),
        _ => panic!("expected a state change"),
    }
}

#[test]
fn pings_and_other_pushes_are_skipped() {
    assert!(matches!(sse_step(EventType::Ping, "1", PushData::OtherPush), StreamAction::Skip));
    assert!(matches!(sse_step(EventType::State, "1", PushData::OtherPush), StreamAction::Skip));
}

#[test]
fn unreadable_data_ends_the_stream() {
    let a = sse_step(EventType::State, "1", PushData::Invalid("bad json".to_string()));
    assert!(matches!(a, StreamAction::Stop(Error::Parse(m)) if m == "bad json"));
    let a = on_chunk_error(TransportError::new("reset"));
    assert!(matches!(a, StreamAction::Stop(Error::Transport(e)) if e.message == "reset"));
}

#[test]
fn calendar_alert_events_hand_out_the_alert() {
    let alert = CalendarAlert {
        account_id: "A1".to_string(),
        calendar_event_id: "E1".to_string(),
        uid: "u".to_string(),
        recurrence_id: None,
        alert_id: "al1".to_string(),
    };
    match sse_step(EventType::CalendarAlert, "", PushData::CalendarAlert(alert.clone())) {
        StreamAction::Emit(PushNotification::CalendarAlert(a)) => assert_eq!(a, alert),
        _ => panic!("expected an alert"),
    }
}

#[test]
fn data_type_names_read_back() {
    assert_eq!(DataType::from_name("MDN"), Some(DataType::Mdn));
    assert_eq!(DataType::from_name("CalendarEvent"), Some(DataType::CalendarEvent));
    assert_eq!(DataType::from_name("Mdn"), None);
    for t in [DataType::Email, DataType::Quota, DataType::ParticipantIdentity] {
        assert_eq!(DataType::from_name(t.as_str()), Some(t));
    }
}

#[test]
fn stream_error_is_the_last_item() {
    let mut state = PushStreamState::new();
    let changed = vec![("A1".to_string(), vec![(DataType::Mailbox, "m2".to_string())])];
    assert!(matches!(
        state.step(StreamInput::Event(EventType::State, "1".to_string(), PushData::StateChange(changed))),
        Some(Ok(PushNotification::StateChange(_)))
    ));
    assert!(state.step(StreamInput::Event(EventType::Ping, String::new(), PushData::OtherPush)).is_none());
    assert!(!state.done);
    assert!(matches!(
        state.step(StreamInput::ChunkError(TransportError::new("reset"))),
        Some(Err(Error::Transport(_)))
    ));
    assert!(state.done);
    assert!(state
        .step(StreamInput::Event(EventType::State, "2".to_string(), PushData::StateChange(vec![])))
        .is_none());
}

#[test]
fn stream_ends_with_the_bytes() {
    let mut state = PushStreamState::new();
    assert!(state.step(StreamInput::End).is_none());
    assert!(state.done);
    assert!(state.step(StreamInput::ChunkError(TransportError::new("late"))).is_none());
}

#[test]
fn stream_stops_on_unreadable_data() {
    let mut state = PushStreamState::new();
    let r = state.step(StreamInput::Event(EventType::State, "3".to_string(), PushData::Invalid("eof".to_string())));
    assert!(matches!(r, Some(Err(Error::Parse(m))) if m == "eof"));
    assert!(state.done);
}
