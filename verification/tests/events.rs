use screentime_monitor::event::{
    event_from_document, parse_nats_message, parse_subject, ParseError, ScreenTimeEvent, Timestamp,
};
use screentime_monitor::json::{has_number_member, has_text_member, integer_member, lacks_member};
use screentime_monitor::text::{concat_text, same_text, split_text};

const TIME: Timestamp = Timestamp { seconds: 1_700_000_000, nanoseconds: 5 };

fn parse(subject: &str, payload: &str) -> Result<ScreenTimeEvent, ParseError> {
    parse_nats_message(subject, payload.as_bytes(), TIME)
}

fn durations(event: &ScreenTimeEvent) -> (i64, i64, i64, i64, i64) {
    (event.left_day, event.spent_balance, event.spent_month, event.spent_week, event.spent_day)
}

#[test]
fn documented_message_is_parsed() {
    let payload = r#"{
      "left_day": 3600,
      "spent_balance": 1200,
      "spent_month": 50000,
      "spent_week": 12000,
      "spent_day": 4000
    }"#;
    let event = parse("time.obs.laptop.alice", payload).unwrap();
    assert_eq!(event.host, "laptop");
    assert_eq!(event.user, "alice");
    assert_eq!(event.timestamp, TIME);
    assert_eq!(durations(&event), (3600, 1200, 50000, 12000, 4000));
    assert_eq!(event.key(), "laptop:alice");
}

#[test]
fn unreadable_members_are_zero() {
    let payload = r#"{
      "left_day": -7,
      "spent_balance": "12",
      "spent_month": 1.5,
      "spent_week": 9223372036854775808
    }"#;
    assert_eq!(durations(&parse("time.obs.h.u", payload).unwrap()), (-7, 0, 0, 0, 0));
    assert_eq!(durations(&parse("time.obs.h.u", "[1, 2]").unwrap()), (0, 0, 0, 0, 0));
    assert_eq!(durations(&parse("time.obs.h.u", "null").unwrap()), (0, 0, 0, 0, 0));
    let extremes = r#"{"left_day": 9223372036854775807, "spent_day": -9223372036854775808}"#;
    let event = parse("time.obs.h.u", extremes).unwrap();
    assert_eq!(durations(&event), (i64::MAX, 0, 0, 0, i64::MIN));
}

#[test]
fn last_of_two_equal_members_counts() {
    let event = parse("time.obs.h.u", r#"{"left_day": 1, "left_day": 2}"#).unwrap();
    assert_eq!(event.left_day, 2);
}

#[test]
fn further_subject_parts_are_ignored() {
    let event = parse("time.obs.h.u.more.parts", "{}").unwrap();
    assert_eq!((event.host.as_str(), event.user.as_str()), ("h", "u"));
}

#[test]
fn empty_host_and_user_are_names() {
    let event = parse("time.obs..", "{}").unwrap();
    assert_eq!((event.host.as_str(), event.user.as_str()), ("", ""));
    assert_eq!(event.key(), ":");
}

#[test]
fn wrong_subjects_are_rejected() {
    for subject in ["", "time", "time.obs", "time.obs.h", "time.obx.h.u", "tim.obs.h.u", "x.time.obs.h.u", "Time.obs.h.u"] {
        let error = parse(subject, "{}").unwrap_err();
        assert!(matches!(error, ParseError::InvalidSubject), "{}", subject);
        assert_eq!(error.message(), "Invalid subject format");
    }
}

#[test]
fn subject_is_judged_before_payload() {
    assert!(matches!(parse("time.obs", "{"), Err(ParseError::InvalidSubject)));
}

#[test]
fn broken_json_is_rejected_with_its_wording() {
    let error = parse("time.obs.h.u", "{").unwrap_err();
    assert_eq!(error.message(), "EOF while parsing an object at line 1 column 1");
    match error {
        ParseError::InvalidJson(message) => {
            assert_eq!(message, "EOF while parsing an object at line 1 column 1")
        }
        ParseError::InvalidSubject => panic!("subject"),
    }
}

#[test]
fn ill_formed_utf8_is_replaced() {
    let event = parse_nats_message("time.obs.h.u", b"{\"x\xff\": 1, \"left_day\": 3}", TIME).unwrap();
    assert_eq!(event.left_day, 3);
    let event = parse_nats_message("time.obs.h.u", "{\"\u{fc}\": 1, \"left_day\": 4}".as_bytes(), TIME);
    assert_eq!(event.unwrap().left_day, 4);
    assert!(parse_nats_message("time.obs.h.u", b"\xff", TIME).is_err());
}

#[test]
fn document_is_read_member_by_member() {
    let document: serde_json::Value = serde_json::from_str(r#"{"spent_week": 8}"#).unwrap();
    assert_eq!(integer_member(&document, "spent_week"), 8);
    assert_eq!(integer_member(&document, "spent_day"), 0);
    let event = event_from_document("h".to_string(), "u".to_string(), &document, TIME);
    assert_eq!(durations(&event), (0, 0, 0, 8, 0));
}

#[test]
fn subjects_name_host_and_user() {
    let names = |host: &str, user: &str| Some((host.to_string(), user.to_string()));
    assert_eq!(parse_subject("time.obs.h\u{f6}st.us\u{e9}r"), names("h\u{f6}st", "us\u{e9}r"));
    assert_eq!(parse_subject("time.obs.a:b.c d"), names("a:b", "c d"));
    assert_eq!(parse_subject("time.obs.a"), None);
}

#[test]
fn clone_keeps_everything() {
    let event = parse("time.obs.h.u", r#"{"left_day": 1, "spent_day": 5}"#).unwrap();
    let copy = event.clone();
    assert_eq!(copy.key(), event.key());
    assert_eq!(copy.timestamp, event.timestamp);
    assert_eq!(durations(&copy), durations(&event));
}

#[test]
fn key_separates_hosts_without_colon() {
    let key = |subject: &str| parse(subject, "{}").unwrap().key();
    assert_ne!(key("time.obs.a.b:c"), key("time.obs.b.a:c"));
    assert_eq!(key("time.obs.a.b:c"), "a:b:c");
    // A colon in the host can make two keys coincide.
    assert_eq!(key("time.obs.a:b.c"), key("time.obs.a.b:c"));
}

#[test]
fn splitting_and_joining() {
    assert_eq!(split_text("", '.'), vec![""]);
    assert_eq!(split_text("a", '.'), vec!["a"]);
    assert_eq!(split_text(".a..b.", '.'), vec!["", "a", "", "b", ""]);
    assert_eq!(split_text("\u{1f600}.\u{e9}x", '.'), vec!["\u{1f600}", "\u{e9}x"]);
    assert_eq!(split_text(".a..b.", '.').join("."), ".a..b.");
    assert_eq!(concat_text("ab", "c"), "abc");
    assert!(same_text("ab", "ab"));
    assert!(!same_text("ab", "abc"));
}

#[test]
fn written_event_is_read_back() {
    for number in [0, 3600, -3600, i64::MIN, i64::MAX] {
        let mut members = serde_json::Map::new();
        members.insert("host".to_string(), "laptop".into());
        members.insert("user".to_string(), "alice".into());
        members.insert("timestamp".to_string(), "2023-11-14T22:13:20.000000005Z".into());
        members.insert("left_day".to_string(), number.into());
        members.insert("spent_balance".to_string(), 1.into());
        members.insert("spent_month".to_string(), 2.into());
        members.insert("spent_week".to_string(), 3.into());
        members.insert("spent_day".to_string(), number.into());
        let payload = serde_json::Value::Object(members).to_string();
        let event = parse("time.obs.laptop.alice", &payload).unwrap();
        assert_eq!((event.host.as_str(), event.user.as_str()), ("laptop", "alice"));
        assert_eq!(event.timestamp, TIME);
        assert_eq!(durations(&event), (number, 1, 2, 3, number));
    }
}

#[test]
fn members_are_compared() {
    let document: serde_json::Value =
        serde_json::from_str(r#"{"text": "a", "number": 7, "negative": -7, "null": null}"#).unwrap();
    assert!(has_text_member(&document, "text", "a"));
    assert!(!has_text_member(&document, "text", "b"));
    assert!(!has_text_member(&document, "number", "7"));
    assert!(!has_text_member(&document, "none", "a"));
    assert!(has_number_member(&document, "number", 7));
    assert!(!has_number_member(&document, "number", 8));
    assert!(!has_number_member(&document, "negative", 7));
    assert!(!has_number_member(&document, "text", 7));
    assert!(!has_number_member(&document, "none", 0));
    assert!(lacks_member(&document, "none"));
    assert!(lacks_member(&document, "null"));
    assert!(!lacks_member(&document, "number"));
}
