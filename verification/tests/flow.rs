use screentime_monitor::config::{
    setting, Config, DEFAULT_BIND, DEFAULT_NATS_STREAM, DEFAULT_NATS_SUBJECT, DEFAULT_NATS_URL,
};
use screentime_monitor::event::{ParseError, ScreenTimeEvent, Timestamp};
use screentime_monitor::state::AppState;
use screentime_monitor::subscriber::{
    event_time, receive_message, record_parsed, subscribe_to_screentime, MessageOutcome,
    SubscriberAction, SubscriberEvent,
};
use screentime_monitor::websocket::{
    handle_websocket, BacklogAction, BacklogEvent, SocketAction, SocketEvent, WebSocketSession,
};

const NOW: Timestamp = Timestamp { seconds: 100, nanoseconds: 7 };
const EARLIER: Timestamp = Timestamp { seconds: 50, nanoseconds: 3 };

fn receive(state: &mut AppState, subject: &str, payload: &str) -> MessageOutcome {
    receive_message(state, subject, payload.as_bytes(), Some(EARLIER), NOW)
}

fn sample(left_day: i64) -> ScreenTimeEvent {
    ScreenTimeEvent {
        host: "h".to_string(),
        user: "u".to_string(),
        timestamp: NOW,
        left_day,
        spent_balance: 0,
        spent_month: 0,
        spent_week: 0,
        spent_day: 0,
    }
}

fn next(event: SubscriberEvent) -> SubscriberAction {
    subscribe_to_screentime("OBSERVATIONS", "time.obs.>", event)
}

#[test]
fn messages_are_recorded() {
    let mut state = AppState::new();
    match receive(&mut state, "time.obs.h.u", r#"{"left_day": 9}"#) {
        MessageOutcome::Recorded { key, event } => {
            assert_eq!(key, "h:u");
            assert_eq!(event.left_day, 9);
            assert_eq!(event.timestamp, EARLIER);
        }
        MessageOutcome::Rejected(error) => panic!("{}", error.message()),
    }
    let latest = state.latest_events();
    assert_eq!(latest.len(), 1);
    assert_eq!(latest[0].left_day, 9);
}

#[test]
fn rejected_messages_leave_no_trace() {
    let mut state = AppState::new();
    receive(&mut state, "time.obs.h.u", r#"{"left_day": 1}"#);
    match receive(&mut state, "time.obs.h", "{}") {
        MessageOutcome::Rejected(error) => assert_eq!(error.message(), "Invalid subject format"),
        MessageOutcome::Recorded { key, .. } => panic!("{}", key),
    }
    match receive(&mut state, "time.obs.h.u", "nope") {
        MessageOutcome::Rejected(error) => {
            assert_eq!(error.message(), "expected ident at line 1 column 2")
        }
        MessageOutcome::Recorded { key, .. } => panic!("{}", key),
    }
    let data = state.get_screentime_data();
    assert_eq!(data.len(), 1);
    assert_eq!(data[0].1.len(), 1);
}

#[test]
fn parsed_messages_are_recorded_or_passed_over() {
    let mut state = AppState::new();
    assert!(matches!(record_parsed(&mut state, Ok(sample(4))), MessageOutcome::Recorded { .. }));
    let rejected = record_parsed(&mut state, Err(ParseError::InvalidSubject));
    assert!(matches!(rejected, MessageOutcome::Rejected(ParseError::InvalidSubject)));
    assert_eq!(state.latest_events().len(), 1);
}

#[test]
fn time_falls_back_to_now() {
    assert_eq!(event_time(Some(EARLIER), NOW), EARLIER);
    assert_eq!(event_time(None, NOW), NOW);
    let mut state = AppState::new();
    receive_message(&mut state, "time.obs.h.u", b"{}", None, NOW);
    assert_eq!(state.latest_events()[0].timestamp, NOW);
}

#[test]
fn subscription_is_set_up_step_by_step() {
    match next(SubscriberEvent::Started) {
        SubscriberAction::GetStream(name) => assert_eq!(name, "OBSERVATIONS"),
        _ => panic!("stream"),
    }
    match next(SubscriberEvent::StreamFound) {
        SubscriberAction::CreateConsumer(settings) => {
            assert!(settings.durable_name.is_none());
            assert!(settings.last_per_subject);
            assert_eq!(settings.filter_subject, "time.obs.>");
        }
        _ => panic!("consumer"),
    }
    assert!(matches!(next(SubscriberEvent::ConsumerCreated), SubscriberAction::OpenMessages));
    assert!(matches!(next(SubscriberEvent::MessagesOpened), SubscriberAction::NextMessage));
}

#[test]
fn failed_setup_and_end_stop_the_subscription() {
    assert!(matches!(next(SubscriberEvent::StreamMissing), SubscriberAction::Stop));
    assert!(matches!(next(SubscriberEvent::ConsumerRefused), SubscriberAction::Stop));
    assert!(matches!(next(SubscriberEvent::MessagesRefused), SubscriberAction::Stop));
    assert!(matches!(next(SubscriberEvent::MessagesEnded), SubscriberAction::Stop));
    assert!(matches!(next(SubscriberEvent::ReceiveFailed), SubscriberAction::NextMessage));
}

#[test]
fn every_message_is_acknowledged() {
    let recorded = MessageOutcome::Recorded { key: "h:u".to_string(), event: sample(2) };
    match next(SubscriberEvent::Received(recorded)) {
        SubscriberAction::Broadcast(event) => assert_eq!(event.left_day, 2),
        _ => panic!("broadcast"),
    }
    assert!(matches!(next(SubscriberEvent::Broadcasted), SubscriberAction::Acknowledge));
    assert!(matches!(next(SubscriberEvent::BroadcastFailed), SubscriberAction::Acknowledge));
    let rejected = MessageOutcome::Rejected(ParseError::InvalidSubject);
    assert!(matches!(next(SubscriberEvent::Received(rejected)), SubscriberAction::Acknowledge));
    assert!(matches!(next(SubscriberEvent::Acknowledged), SubscriberAction::NextMessage));
    assert!(matches!(next(SubscriberEvent::AcknowledgeFailed), SubscriberAction::NextMessage));
}

#[test]
fn clients_are_handed_the_parsed_events_in_order() {
    let mut state = AppState::new();
    let mut handed = Vec::new();
    for (subject, payload) in [
        ("time.obs.h.u", r#"{"left_day": 1}"#),
        ("time.obs.h", "{}"),
        ("time.obs.g.u", r#"{"left_day": 2}"#),
        ("time.obs.h.u", "nope"),
        ("time.obs.h.u", r#"{"left_day": 1}"#),
    ] {
        let outcome = receive(&mut state, subject, payload);
        if let SubscriberAction::Broadcast(event) = next(SubscriberEvent::Received(outcome)) {
            handed.push((event.key(), event.left_day));
        }
    }
    let event = |key: &str, left_day: i64| (key.to_string(), left_day);
    assert_eq!(handed, vec![event("h:u", 1), event("g:u", 2), event("h:u", 1)]);
}

#[test]
fn new_client_is_sent_the_latest_events() {
    let mut state = AppState::new();
    receive(&mut state, "time.obs.h.u", r#"{"left_day": 1}"#);
    receive(&mut state, "time.obs.g.u", r#"{"left_day": 2}"#);
    receive(&mut state, "time.obs.h.u", r#"{"left_day": 3}"#);
    let mut session = WebSocketSession::open(&state);
    let mut sent = Vec::new();
    let mut event = BacklogEvent::Opened;
    loop {
        match session.send_known(event) {
            BacklogAction::Send(known) => sent.push((known.key(), known.left_day)),
            BacklogAction::Subscribe => break,
            BacklogAction::Close => panic!("closed"),
        }
        event = if sent.len() == 1 { BacklogEvent::NotSerialized } else { BacklogEvent::Sent };
    }
    sent.sort();
    assert_eq!(sent, vec![("g:u".to_string(), 2), ("h:u".to_string(), 3)]);
}

#[test]
fn failed_send_closes_a_new_connection() {
    let mut state = AppState::new();
    receive(&mut state, "time.obs.h.u", "{}");
    let mut session = WebSocketSession::open(&state);
    assert!(matches!(session.send_known(BacklogEvent::Opened), BacklogAction::Send(_)));
    assert!(matches!(session.send_known(BacklogEvent::SendFailed), BacklogAction::Close));
    let mut session = WebSocketSession::open(&AppState::new());
    assert!(matches!(session.send_known(BacklogEvent::Opened), BacklogAction::Subscribe));
}

#[test]
fn live_connection_follows_its_events() {
    match handle_websocket(SocketEvent::NewEvent(sample(6))) {
        SocketAction::Send(event) => assert_eq!(event.left_day, 6),
        _ => panic!("send"),
    }
    assert!(matches!(handle_websocket(SocketEvent::CloseFrame), SocketAction::Close));
    assert!(matches!(handle_websocket(SocketEvent::SocketError), SocketAction::Close));
    assert!(matches!(handle_websocket(SocketEvent::SocketEnded), SocketAction::Close));
    assert!(matches!(handle_websocket(SocketEvent::EventsEnded), SocketAction::Close));
    assert!(matches!(handle_websocket(SocketEvent::SendFailed), SocketAction::Close));
    assert!(matches!(handle_websocket(SocketEvent::OtherFrame), SocketAction::Wait));
    assert!(matches!(handle_websocket(SocketEvent::Lagged), SocketAction::Wait));
    assert!(matches!(handle_websocket(SocketEvent::Sent), SocketAction::Wait));
    assert!(matches!(handle_websocket(SocketEvent::NotSerialized), SocketAction::Wait));
}

#[test]
fn documented_defaults() {
    assert_eq!(DEFAULT_BIND, "127.0.0.1:3000");
    assert_eq!(DEFAULT_NATS_URL, "nats://localhost:4222");
    assert_eq!(DEFAULT_NATS_SUBJECT, "time.obs.>");
    assert_eq!(DEFAULT_NATS_STREAM, "OBSERVATIONS");
    let config = Config::default();
    assert_eq!(config.bind, DEFAULT_BIND);
    assert_eq!(config.nats_url, DEFAULT_NATS_URL);
    assert_eq!(config.nats_subject, DEFAULT_NATS_SUBJECT);
    assert_eq!(config.nats_stream, DEFAULT_NATS_STREAM);
}

#[test]
fn environment_comes_before_the_command_line() {
    let config = Config::default().with_environment(
        Some("nats://elsewhere".to_string()),
        None,
        Some("".to_string()),
    );
    assert_eq!(config.bind, DEFAULT_BIND);
    assert_eq!(config.nats_url, "nats://elsewhere");
    assert_eq!(config.nats_subject, DEFAULT_NATS_SUBJECT);
    assert_eq!(config.nats_stream, "");
    assert_eq!(setting(None, "given".to_string()), "given");
}
