//! What every call of the library's operations gives, told from its arguments and its result.
use vstd::prelude::*;

use crate::access_laws::{
    law_decision_follows_verdict, law_first_key_with_id_is_found,
    law_served_identity_is_written_in_token, law_token_is_first_line, token_lines,
};
use crate::auth::{
    access_leads_to, access_of, carried_token, cf_access_claims_read, cf_access_keys_fetched,
    cf_access_middleware, choose_key, claims_result_view, config_option_view, extract_cf_jwt,
    identity_of, is_success, judge_status, refuse, AccessStep, AccessStepView, CfAccessClaims,
    CfAccessConfig, CloudflareIdentity, JwksCache, JwksReply, KeyChoice,
};
use crate::config::{setting, Config};
use crate::event::{
    event_from_document, law_key_form, law_message_is_read_part_by_part,
    law_subject_names_exactly, parse_nats_message, parse_subject, subject_names, ParseError,
    ScreenTimeEvent, Timestamp,
};
use crate::headers::header_lines;
use crate::json::{
    has_number_member, has_text_member, integer_member, json_view, lacks_member, parsed_json,
    JsonView,
};
use crate::jwt::{
    jwk_decoding_key, jwk_set_entries, token_header, token_text, token_verdict, DecodeErrorView,
    TokenHeader, TokenHeaderView,
};
use crate::state::{
    event_views, law_latest_are_last_of_histories, law_listing_is_the_data, law_recording_appends,
    law_state_data_valid, AppState,
};
use crate::subscriber::{
    event_time, receive_message, subscribe_to_screentime, MessageOutcome, SubscriberAction,
    SubscriberEvent,
};
use crate::text::{
    concat_text, join_with, law_split_join, lossy_utf8, same_text, split_text, str_views,
};
use crate::websocket::{
    handle_websocket, BacklogAction, BacklogEvent, SocketAction, SocketEvent, WebSocketSession,
};

verus! {

/// Whether two events are the same in all of their parts.
pub open spec fn same_event(a: ScreenTimeEvent, b: ScreenTimeEvent) -> bool {
    &&& a.host@ == b.host@
    &&& a.user@ == b.user@
    &&& a.timestamp == b.timestamp
    &&& a.left_day == b.left_day
    &&& a.spent_balance == b.spent_balance
    &&& a.spent_month == b.spent_month
    &&& a.spent_week == b.spent_week
    &&& a.spent_day == b.spent_day
}

/// The key of an event is its host, a colon and its user.
pub proof fn law_call_key(event: ScreenTimeEvent, key: String)
    requires
        call_ensures(ScreenTimeEvent::key, (&event,), key),
    ensures
        key@ == event.host@ + ":"@ + event.user@,
{
    law_key_form(event@);
}

/// A subject gives the host and user that it names, where it has the form
/// `time.obs.<host>.<user>`, with or without further parts.
pub proof fn law_call_parse_subject(
    subject: &str,
    names: Option<(String, String)>,
    host: Seq<char>,
    user: Seq<char>,
)
    requires
        call_ensures(parse_subject, (subject,), names),
    ensures
        (names matches Some((h, u)) && h@ == host && u@ == user) <==> {
            &&& !host.contains('.')
            &&& !user.contains('.')
            &&& {
                ||| subject@ == "time.obs."@ + host + "."@ + user
                ||| ("time.obs."@ + host + "."@ + user + "."@).is_prefix_of(subject@)
            }
        },
{
    law_subject_names_exactly(subject@, host, user);
}

/// A message is an event where its subject names a host and user and its payload is JSON: the
/// event has these names, the time given, and each duration that the payload gives under its
/// name as a whole number that fits, zero for each that it does not. Otherwise the error says
/// which of the two it is, the subject first.
pub proof fn law_call_parse_nats_message(
    subject: &str,
    payload: &[u8],
    timestamp: Timestamp,
    result: Result<ScreenTimeEvent, ParseError>,
    n: i64,
)
    requires
        call_ensures(parse_nats_message, (subject, payload, timestamp), result),
    ensures
        result is Ok <==> subject_names(subject@) is Some && parsed_json(
            lossy_utf8(payload@),
        ) is Ok,
        result matches Err(error) ==> (error is InvalidSubject <==> subject_names(
            subject@,
        ) is None),
        result matches Err(ParseError::InvalidJson(message)) ==> parsed_json(lossy_utf8(payload@))
            == Err::<JsonView, Seq<char>>(message@),
        result matches Ok(event) ==> {
            let members = parsed_json(lossy_utf8(payload@))->Ok_0;
            let given = Some(JsonView::Integer(n as int));
            &&& subject_names(subject@) == Some((event.host@, event.user@))
            &&& event.timestamp == timestamp
            &&& members.member("left_day"@) == given ==> event.left_day == n
            &&& members.member("spent_balance"@) == given ==> event.spent_balance == n
            &&& members.member("spent_month"@) == given ==> event.spent_month == n
            &&& members.member("spent_week"@) == given ==> event.spent_week == n
            &&& members.member("spent_day"@) == given ==> event.spent_day == n
            &&& n != 0 && event.left_day == n ==> members.member("left_day"@) == given
            &&& n != 0 && event.spent_balance == n ==> members.member("spent_balance"@) == given
            &&& n != 0 && event.spent_month == n ==> members.member("spent_month"@) == given
            &&& n != 0 && event.spent_week == n ==> members.member("spent_week"@) == given
            &&& n != 0 && event.spent_day == n ==> members.member("spent_day"@) == given
        },
{
    law_message_is_read_part_by_part(
        subject@,
        parsed_json(lossy_utf8(payload@)),
        timestamp,
        n,
    );
}

/// A document gives each duration of an event by the member of its name, and zero for each that
/// is missing or is not a whole number that fits.
pub proof fn law_call_event_from_document(
    host: String,
    user: String,
    document: &serde_json::Value,
    timestamp: Timestamp,
    event: ScreenTimeEvent,
    n: i64,
)
    requires
        call_ensures(event_from_document, (host, user, document, timestamp), event),
    ensures
        ({
            let members = json_view(*document);
            let given = Some(JsonView::Integer(n as int));
            &&& event.host@ == host@ && event.user@ == user@ && event.timestamp == timestamp
            &&& members.member("left_day"@) == given ==> event.left_day == n
            &&& members.member("spent_balance"@) == given ==> event.spent_balance == n
            &&& members.member("spent_month"@) == given ==> event.spent_month == n
            &&& members.member("spent_week"@) == given ==> event.spent_week == n
            &&& members.member("spent_day"@) == given ==> event.spent_day == n
            &&& n != 0 && event.left_day == n ==> members.member("left_day"@) == given
            &&& n != 0 && event.spent_balance == n ==> members.member("spent_balance"@) == given
            &&& n != 0 && event.spent_month == n ==> members.member("spent_month"@) == given
            &&& n != 0 && event.spent_week == n ==> members.member("spent_week"@) == given
            &&& n != 0 && event.spent_day == n ==> members.member("spent_day"@) == given
        }),
{
}

/// A number is read from the member of its name, and zero where there is no whole number that
/// fits.
pub proof fn law_call_integer_member(document: &serde_json::Value, name: &str, number: i64, n: i64)
    requires
        call_ensures(integer_member, (document, name), number),
    ensures
        json_view(*document).member(name@) == Some(JsonView::Integer(n as int)) ==> number == n,
        number != 0 ==> json_view(*document).member(name@) == Some(
            JsonView::Integer(number as int),
        ),
{
}

/// Every parse error has its own wording.
pub proof fn law_call_parse_error_message(error: ParseError, message: String)
    requires
        call_ensures(ParseError::message, (&error,), message),
    ensures
        match error {
            ParseError::InvalidSubject => message@ == "Invalid subject format"@,
            ParseError::InvalidJson(wording) => message@ == wording@,
        },
{
}

/// The time of an event is when its message was published, whatever the present is; it is the
/// present only where the other is unknown.
pub proof fn law_call_event_time(published: Option<Timestamp>, now: Timestamp, time: Timestamp)
    requires
        call_ensures(event_time, (published, now), time),
    ensures
        published matches Some(known) ==> time == known,
        published is None ==> time == now,
{
}

/// Recording an event adds it behind those of its key; a full history of a thousand events loses
/// its oldest. Nothing else changes.
pub proof fn law_call_record(state: &mut AppState, event: ScreenTimeEvent, key: String)
    requires
        old(state).wf(),
        call_ensures(AppState::record, (state, event), key),
    ensures
        final(state).wf(),
        key@ == event.host@ + ":"@ + event.user@,
        ({
            let before = if old(state)@.contains_key(key@) {
                old(state)@[key@]
            } else {
                Seq::empty()
            };
            &&& before.len() < 1000 ==> final(state)@[key@] == before + seq![event@]
            &&& before.len() >= 1000 ==> final(state)@[key@] == before.skip(1) + seq![event@]
        }),
        final(state)@.dom() == old(state)@.dom().insert(key@),
        forall|other: Seq<char>|
            other != key@ && old(state)@.contains_key(other) ==> #[trigger] final(state)@[other]
                == old(state)@[other],
{
    law_key_form(event@);
    law_state_data_valid(*old(state));
    law_recording_appends(old(state)@, event@);
}

/// A message that parses is recorded as the event that it holds, dated by its publication; one
/// that does not parse leaves the data as it was.
pub proof fn law_call_receive_message(
    state: &mut AppState,
    subject: &str,
    payload: &[u8],
    published: Option<Timestamp>,
    now: Timestamp,
    outcome: MessageOutcome,
    n: i64,
)
    requires
        old(state).wf(),
        call_ensures(receive_message, (state, subject, payload, published, now), outcome),
    ensures
        final(state).wf(),
        outcome is Recorded <==> subject_names(subject@) is Some && parsed_json(
            lossy_utf8(payload@),
        ) is Ok,
        outcome is Rejected ==> final(state)@ == old(state)@,
        outcome matches MessageOutcome::Rejected(error) ==> (error is InvalidSubject
            <==> subject_names(subject@) is None),
        outcome matches MessageOutcome::Rejected(ParseError::InvalidJson(message)) ==> parsed_json(
            lossy_utf8(payload@),
        ) == Err::<JsonView, Seq<char>>(message@),
        outcome matches MessageOutcome::Recorded { key, event } ==> {
            let members = parsed_json(lossy_utf8(payload@))->Ok_0;
            let given = Some(JsonView::Integer(n as int));
            let before = if old(state)@.contains_key(key@) {
                old(state)@[key@]
            } else {
                Seq::empty()
            };
            &&& subject_names(subject@) == Some((event.host@, event.user@))
            &&& key@ == event.host@ + ":"@ + event.user@
            &&& published matches Some(time) ==> event.timestamp == time
            &&& published is None ==> event.timestamp == now
            &&& members.member("left_day"@) == given ==> event.left_day == n
            &&& members.member("spent_balance"@) == given ==> event.spent_balance == n
            &&& members.member("spent_month"@) == given ==> event.spent_month == n
            &&& members.member("spent_week"@) == given ==> event.spent_week == n
            &&& members.member("spent_day"@) == given ==> event.spent_day == n
            &&& n != 0 && event.left_day == n ==> members.member("left_day"@) == given
            &&& n != 0 && event.spent_balance == n ==> members.member("spent_balance"@) == given
            &&& n != 0 && event.spent_month == n ==> members.member("spent_month"@) == given
            &&& n != 0 && event.spent_week == n ==> members.member("spent_week"@) == given
            &&& n != 0 && event.spent_day == n ==> members.member("spent_day"@) == given
            &&& before.len() < 1000 ==> final(state)@[key@] == before + seq![event@]
            &&& before.len() >= 1000 ==> final(state)@[key@] == before.skip(1) + seq![event@]
            &&& final(state)@.dom() == old(state)@.dom().insert(key@)
            &&& forall|other: Seq<char>|
                other != key@ && old(state)@.contains_key(other) ==> #[trigger] final(state)@[other] == old(state)@[other]
        },
{
    law_state_data_valid(*old(state));
    if let MessageOutcome::Recorded { key, event } = outcome {
        law_key_form(event@);
        law_recording_appends(old(state)@, event@);
    }
}

/// The subscription looks up the configured stream, creates on it an unnamed consumer for the
/// configured subject that starts with the last message of every subject, and reads its
/// messages. The event of a recorded message is handed to the clients in all of its parts, and
/// every message is acknowledged; only failed setup and the end of the messages stop it.
pub proof fn law_call_subscribe_to_screentime(
    stream_name: &str,
    subject: &str,
    event: SubscriberEvent,
    action: SubscriberAction,
)
    requires
        call_ensures(subscribe_to_screentime, (stream_name, subject, event), action),
    ensures
        match event {
            SubscriberEvent::Started => action matches SubscriberAction::GetStream(name) && name@
                == stream_name@,
            SubscriberEvent::StreamFound => action matches SubscriberAction::CreateConsumer(
                settings,
            ) && settings.durable_name is None && settings.last_per_subject
                && settings.filter_subject@ == subject@,
            SubscriberEvent::ConsumerCreated => action is OpenMessages,
            SubscriberEvent::MessagesOpened => action is NextMessage,
            SubscriberEvent::Received(MessageOutcome::Recorded { key, event: recorded }) => (
            action matches SubscriberAction::Broadcast(sent) && same_event(sent, recorded)),
            SubscriberEvent::Received(MessageOutcome::Rejected(_)) => action is Acknowledge,
            SubscriberEvent::ReceiveFailed => action is NextMessage,
            SubscriberEvent::Broadcasted => action is Acknowledge,
            SubscriberEvent::BroadcastFailed => action is Acknowledge,
            SubscriberEvent::Acknowledged => action is NextMessage,
            SubscriberEvent::AcknowledgeFailed => action is NextMessage,
            SubscriberEvent::StreamMissing => action is Stop,
            SubscriberEvent::ConsumerRefused => action is Stop,
            SubscriberEvent::MessagesRefused => action is Stop,
            SubscriberEvent::MessagesEnded => action is Stop,
        },
{
    if let SubscriberEvent::Received(MessageOutcome::Recorded { key, event: recorded }) = event {
        assert(action is Broadcast);
        assert(action->Broadcast_0@ == recorded@);
    }
}

/// A client is sent every new event in all of its parts and nothing else. Its connection ends
/// when it closes or is gone, when reading or sending fails, and when there are no more events.
pub proof fn law_call_handle_websocket(event: SocketEvent, action: SocketAction)
    requires
        call_ensures(handle_websocket, (event,), action),
    ensures
        match event {
            SocketEvent::NewEvent(new) => (action matches SocketAction::Send(sent) && same_event(
                sent,
                new,
            )),
            SocketEvent::CloseFrame => action is Close,
            SocketEvent::SocketError => action is Close,
            SocketEvent::SocketEnded => action is Close,
            SocketEvent::EventsEnded => action is Close,
            SocketEvent::SendFailed => action is Close,
            SocketEvent::OtherFrame => action is Wait,
            SocketEvent::Lagged => action is Wait,
            SocketEvent::Sent => action is Wait,
            SocketEvent::NotSerialized => action is Wait,
        },
{
    if let SocketEvent::NewEvent(new) = event {
        assert(action is Send);
        assert(action->Send_0@ == new@);
    }
}

/// A new connection has the most recent event of every key to send, each once, and nothing else.
pub proof fn law_call_open(state: AppState, session: WebSocketSession)
    requires
        state.wf(),
        call_ensures(WebSocketSession::open, (&state,), session),
    ensures
        forall|event| #[trigger]
            session@.contains(event) <==> exists|key: Seq<char>|
                state@.contains_key(key) && event == (#[trigger] state@[key])[state@[key].len()
                    - 1],
        session@.no_duplicates(),
        session@.len() == state@.len(),
{
    law_state_data_valid(state);
    law_latest_are_last_of_histories(state@, session@);
}

/// The known events are sent from the front, as they are, and those behind stay to be sent; a
/// failed sending ends the connection, and the client is subscribed when nothing is left.
pub proof fn law_call_send_known(
    session: &mut WebSocketSession,
    event: BacklogEvent,
    action: BacklogAction,
)
    requires
        call_ensures(WebSocketSession::send_known, (session, event), action),
    ensures
        action is Close <==> event is SendFailed,
        action is Subscribe <==> !(event is SendFailed) && old(session)@.len() == 0,
        action matches BacklogAction::Send(sent) ==> old(session)@ == seq![sent@] + final(session)@,
        !(action is Send) ==> final(session)@ == old(session)@,
{
    if action is Send {
        assert(old(session)@ == seq![old(session)@[0]] + old(session)@.drop_first());
    }
}

/// The latest events are the last of each history, each once, and nothing else.
pub proof fn law_call_latest_events(state: AppState, events: Vec<ScreenTimeEvent>)
    requires
        state.wf(),
        call_ensures(AppState::latest_events, (&state,), events),
    ensures
        events@.len() == state@.len(),
        forall|i: int|
            0 <= i < events@.len() ==> {
                let event = #[trigger] events@[i];
                let key = event.host@ + ":"@ + event.user@;
                state@.contains_key(key) && event@ == state@[key][state@[key].len() - 1]
            },
        forall|key: Seq<char>| #[trigger]
            state@.contains_key(key) ==> exists|i: int|
                0 <= i < events@.len() && (#[trigger] events@[i])@ == state@[key][state@[key].len()
                    - 1],
{
    law_state_data_valid(state);
    let views = event_views(events@);
    law_latest_are_last_of_histories(state@, views);
    assert forall|i: int| 0 <= i < events@.len() implies {
        let event = #[trigger] events@[i];
        let key = event.host@ + ":"@ + event.user@;
        state@.contains_key(key) && event@ == state@[key][state@[key].len() - 1]
    } by {
        law_key_form(views[i]);
        assert(views[i] == events@[i]@);
        assert(state@.contains_key(views[i].key()));
    }
    assert forall|key: Seq<char>| #[trigger] state@.contains_key(key) implies exists|i: int|
        0 <= i < events@.len() && (#[trigger] events@[i])@ == state@[key][state@[key].len() - 1] by {
        let last = state@[key][state@[key].len() - 1];
        assert(views.contains(last));
        let i = choose|i: int| 0 <= i < views.len() && views[i] == last;
        assert(events@[i]@ == last);
    }
}

/// The data is listed whole: every key in one place, and there exactly the events kept under it,
/// in their order.
pub proof fn law_call_get_screentime_data(
    state: AppState,
    data: Vec<(String, Vec<ScreenTimeEvent>)>,
)
    requires
        state.wf(),
        call_ensures(AppState::get_screentime_data, (&state,), data),
    ensures
        forall|key: Seq<char>| #[trigger]
            state@.contains_key(key) <==> exists|i: int|
                0 <= i < data@.len() && (#[trigger] data@[i]).0@ == key,
        forall|i: int, j: int|
            0 <= i < data@.len() && 0 <= j < data@.len() && (#[trigger] data@[i]).0@ == (
            #[trigger] data@[j]).0@ ==> i == j,
        forall|i: int|
            0 <= i < data@.len() ==> state@[(#[trigger] data@[i]).0@].len() == data@[i].1@.len(),
        forall|i: int, j: int|
            0 <= i < data@.len() && 0 <= j < data@[i].1@.len() ==> (#[trigger] data@[i].1@[j])@
                == state@[data@[i].0@][j],
{
    law_listing_is_the_data(state@, data@);
}

/// A new state holds nothing.
pub proof fn law_call_new_state(state: AppState, key: Seq<char>)
    requires
        call_ensures(AppState::new, (), state),
    ensures
        state.wf(),
        !state@.contains_key(key),
{
}

/// An environment variable that is set gives the setting; otherwise it is what was given.
pub proof fn law_call_setting(variable: Option<String>, given: String, value: String)
    requires
        call_ensures(setting, (variable, given), value),
    ensures
        variable matches Some(own) ==> value@ == own@,
        variable is None ==> value@ == given@,
{
}

/// Each of the three settings is taken from its own environment variable where that is set, and
/// stays as it was otherwise; the address stays as it was.
pub proof fn law_call_with_environment(
    given: Config,
    nats_url: Option<String>,
    nats_subject: Option<String>,
    nats_stream: Option<String>,
    config: Config,
)
    requires
        call_ensures(
            Config::with_environment,
            (given, nats_url, nats_subject, nats_stream),
            config,
        ),
    ensures
        config.bind@ == given.bind@,
        nats_url matches Some(own) ==> config.nats_url@ == own@,
        nats_url is None ==> config.nats_url@ == given.nats_url@,
        nats_subject matches Some(own) ==> config.nats_subject@ == own@,
        nats_subject is None ==> config.nats_subject@ == given.nats_subject@,
        nats_stream matches Some(own) ==> config.nats_stream@ == own@,
        nats_stream is None ==> config.nats_stream@ == given.nats_stream@,
{
}

/// Authentication is configured exactly where team and audience are both set and not empty, and
/// then with these and without keys.
pub proof fn law_call_from_env(
    team: Option<String>,
    audience: Option<String>,
    config: Option<CfAccessConfig>,
)
    requires
        call_ensures(CfAccessConfig::from_env, (team, audience), config),
    ensures
        config is Some <==> {
            &&& team is Some && team->0@.len() > 0
            &&& audience is Some && audience->0@.len() > 0
        },
        config matches Some(made) ==> {
            &&& made.audience@ == audience->0@
            &&& made.jwks_cache@.team == team->0@
            &&& made.jwks_cache@.keys is None
        },
{
}

/// The addresses of a team are made from its name.
pub proof fn law_call_addresses(cache: JwksCache, url: String, issuer: String)
    requires
        call_ensures(JwksCache::jwks_url, (&cache,), url),
        call_ensures(JwksCache::issuer, (&cache,), issuer),
    ensures
        url@ == "https://"@ + cache@.team + ".cloudflareaccess.com/cdn-cgi/access/certs"@,
        issuer@ == "https://"@ + cache@.team + ".cloudflareaccess.com"@,
{
}

/// A new cache has its team and no keys, and the cached keys are given as they are.
pub proof fn law_call_cache(
    team: String,
    made: JwksCache,
    cache: JwksCache,
    keys: Option<&jsonwebtoken::jwk::JwkSet>,
)
    requires
        call_ensures(JwksCache::new, (team,), made),
        call_ensures(JwksCache::get_jwks, (&cache,), keys),
    ensures
        made@.team == team@,
        made@.keys is None,
        keys is Some <==> cache@.keys is Some,
        keys matches Some(own) ==> cache@.keys == Some(*own),
{
}

/// Success is a status from 200 up to 299, and any other status is a refusal with its wording.
pub proof fn law_call_statuses(
    status: u16,
    success: bool,
    wording: String,
    reply: Option<JwksReply>,
)
    requires
        call_ensures(is_success, (status,), success),
        call_ensures(judge_status, (status, wording), reply),
    ensures
        success <==> 200 <= status && status < 300,
        reply is None <==> success,
        reply matches Some(made) ==> (made matches JwksReply::Refused(own) && own@ == wording@),
{
}

/// A reply to the request for the keys gives them, or the reason why there are none.
pub proof fn law_call_fetch_jwks(
    reply: JwksReply,
    result: Result<jsonwebtoken::jwk::JwkSet, String>,
)
    requires
        call_ensures(JwksCache::fetch_jwks, (reply,), result),
    ensures
        match reply {
            JwksReply::Body(Ok(keys)) => result == Ok::<jsonwebtoken::jwk::JwkSet, String>(keys),
            JwksReply::Body(Err(error)) => result matches Err(reason) && reason@
                == "Failed to parse JWKS: "@ + error@,
            JwksReply::Refused(status) => result matches Err(reason) && reason@
                == "JWKS fetch returned status: "@ + status@,
            JwksReply::Unreachable(error) => result matches Err(reason) && reason@
                == "Failed to fetch JWKS: "@ + error@,
        },
{
}

/// Fetched keys replace the cached ones; a failed fetch leaves the cache as it was and hands its
/// error on. The team stays.
pub proof fn law_call_refresh(
    cache: &mut JwksCache,
    fetched: Result<jsonwebtoken::jwk::JwkSet, String>,
    result: Result<(), String>,
)
    requires
        call_ensures(JwksCache::refresh, (cache, fetched), result),
    ensures
        final(cache)@.team == old(cache)@.team,
        match fetched {
            Ok(keys) => result is Ok && final(cache)@.keys == Some(keys),
            Err(error) => (result matches Err(own) && own@ == error@) && final(cache)@.keys
                == old(cache)@.keys,
        },
{
}

/// The token of a request is the first line of its header, character for byte, where all of its
/// bytes are printable ASCII or tabs.
pub proof fn law_call_extract_cf_jwt(
    headers: &axum::http::HeaderMap<axum::http::HeaderValue>,
    found: Option<&str>,
    token: Seq<char>,
)
    requires
        call_ensures(extract_cf_jwt, (headers,), found),
    ensures
        (found matches Some(own) && own@ == token) <==> {
            let lines = token_lines(header_lines(*headers));
            &&& lines.len() > 0
            &&& token.len() == lines[0].len()
            &&& forall|i: int|
                0 <= i < token.len() ==> {
                    let byte = #[trigger] lines[0][i];
                    &&& (32 <= byte < 127 || byte == 9)
                    &&& token[i] == byte as char
                }
        },
{
    law_token_is_first_line(header_lines(*headers), token);
}

/// An identity has the parts of the claims that state it, and a refusal is a 401 with its reason.
pub proof fn law_call_identity_and_refusal(
    claims: CfAccessClaims,
    identity: CloudflareIdentity,
    reason: &str,
    step: AccessStep,
)
    requires
        call_ensures(identity_of, (claims,), identity),
        call_ensures(refuse, (reason,), step),
    ensures
        same_identity(identity, claims),
        step matches AccessStep::Reject { status, body } && status == 401 && body@
            == "Invalid authentication token: "@ + reason@,
{
    assert(identity@ == claims@);
}

/// Whether an identity has the parts of `claims`.
pub open spec fn same_identity(identity: CloudflareIdentity, claims: CfAccessClaims) -> bool {
    &&& identity.email@ == claims.email@
    &&& identity.sub@ == claims.sub@
    &&& identity.iat == claims.iat
    &&& identity.exp == claims.exp
    &&& identity.identity_nonce is Some <==> claims.identity_nonce is Some
    &&& identity.identity_nonce matches Some(nonce) ==> nonce@ == claims.identity_nonce->0@
}

/// A request is served anonymously exactly where authentication is not configured or it has no
/// line of the token's header. Before its claims are read it is served in no other way.
pub proof fn law_call_cf_access_middleware(
    config: &Option<CfAccessConfig>,
    headers: &axum::http::HeaderMap<axum::http::HeaderValue>,
    access: AccessStep,
)
    requires
        call_ensures(cf_access_middleware, (config, headers), access),
    ensures
        access@ == access_of(config_option_view(*config), header_lines(*headers)),
        access is Proceed <==> *config is None || token_lines(header_lines(*headers)).len() == 0,
        access matches AccessStep::Proceed(identity) ==> identity is None,
        access matches AccessStep::Reject { status, body } ==> status == 401
            && "Invalid authentication token: "@.is_prefix_of(body@),
        access matches AccessStep::ReadClaims(token) ==> carried_token(header_lines(*headers))
            == Some(token@),
        access matches AccessStep::FetchKeys(url) ==> (*config matches Some(own)
            && own.jwks_cache@.keys is None && url@ == "https://"@ + own.jwks_cache@.team
            + ".cloudflareaccess.com/cdn-cgi/access/certs"@),
{
    law_token_is_first_line(header_lines(*headers), Seq::empty());
}

/// After the keys were fetched the request is treated with them, as at first; where the fetch
/// failed it is answered with 401 and the reason, and the cache stays as it was.
pub proof fn law_call_cf_access_keys_fetched(
    config: &mut CfAccessConfig,
    headers: &axum::http::HeaderMap<axum::http::HeaderValue>,
    reply: JwksReply,
    access: AccessStep,
)
    requires
        call_ensures(cf_access_keys_fetched, (config, headers, reply), access),
    ensures
        final(config)@.audience == old(config)@.audience,
        final(config)@.cache.team == old(config)@.cache.team,
        !(access is FetchKeys),
        match reply {
            JwksReply::Body(Ok(keys)) => final(config)@.cache.keys == Some(keys) && access@
                == access_of(Some(final(config)@), header_lines(*headers)),
            JwksReply::Body(Err(error)) => final(config)@ == old(config)@ && (
            access matches AccessStep::Reject { status, body } && status == 401 && body@
                == "Invalid authentication token: "@ + ("Failed to parse JWKS: "@ + error@)),
            JwksReply::Refused(wording) => final(config)@ == old(config)@ && (
            access matches AccessStep::Reject { status, body } && status == 401 && body@
                == "Invalid authentication token: "@ + ("JWKS fetch returned status: "@
                + wording@)),
            JwksReply::Unreachable(error) => final(config)@ == old(config)@ && (
            access matches AccessStep::Reject { status, body } && status == 401 && body@
                == "Invalid authentication token: "@ + ("Failed to fetch JWKS: "@ + error@)),
        },
{
}

/// With the claims of an authentic token read, the verdict on it at the time of the decision
/// decides: where it holds and its claims are written as they were read, the request is served
/// under the identity with all parts of these claims; where it does not hold, it is answered with
/// 401 and the reason. Tells the time.
pub proof fn law_call_cf_access_claims_read(
    config: CfAccessConfig,
    headers: &axum::http::HeaderMap<axum::http::HeaderValue>,
    claims: CfAccessClaims,
    access: AccessStep,
    token: Seq<char>,
    header: TokenHeaderView,
    place: int,
    key: jsonwebtoken::DecodingKey,
) -> (now: u64)
    requires
        call_ensures(cf_access_claims_read, (&Some(config), headers, Ok(claims)), access),
        carried_token(header_lines(*headers)) == Some(token),
        token_header(token) == Ok::<TokenHeaderView, Seq<char>>(header),
        header.key_id is Some,
        config.jwks_cache@.keys is Some,
        ({
            let entries = jwk_set_entries(config.jwks_cache@.keys->0);
            &&& 0 <= place < entries.len()
            &&& entries[place].0 == header.key_id
            &&& forall|i: int| 0 <= i < place ==> (#[trigger] entries[i]).0 != header.key_id
            &&& jwk_decoding_key(entries[place].1) == Ok::<jsonwebtoken::DecodingKey, Seq<char>>(
                key,
            )
        }),
        !(token_text(token, key, header.algorithm) matches Err(DecodeErrorView::Other(_))),
    ensures
        match token_verdict(
            token,
            key,
            header.algorithm,
            config.audience@,
            "https://"@ + config.jwks_cache@.team + ".cloudflareaccess.com"@,
            now,
        ) {
            Err(error) => access matches AccessStep::Reject { status, body } && status == 401
                && body@ == "Invalid authentication token: "@ + ("JWT validation failed: "@
                + error),
            Ok(_) => match token_text(token, key, header.algorithm) {
                Ok(text) => match parsed_json(text) {
                    Ok(document) => {
                        let written = {
                            &&& document.member("email"@) == Some(JsonView::Text(claims.email@))
                            &&& document.member("sub"@) == Some(JsonView::Text(claims.sub@))
                            &&& document.member("iat"@) == Some(
                                JsonView::Integer(claims.iat as int),
                            )
                            &&& document.member("exp"@) == Some(
                                JsonView::Integer(claims.exp as int),
                            )
                            &&& document.member("aud"@) is Some
                            &&& claims.identity_nonce matches Some(nonce) ==> document.member(
                                "identity_nonce"@,
                            ) == Some(JsonView::Text(nonce@))
                            &&& claims.identity_nonce is None ==> document.member(
                                "identity_nonce"@,
                            ) is None || document.member("identity_nonce"@) == Some(JsonView::Null)
                        };
                        &&& written ==> (access matches AccessStep::Proceed(Some(identity))
                            && same_identity(identity, claims))
                        &&& !written ==> access is Reject
                    },
                    Err(_) => access matches AccessStep::Proceed(Some(identity)) && same_identity(
                        identity,
                        claims,
                    ),
                },
                Err(_) => access matches AccessStep::Proceed(Some(identity)) && same_identity(
                    identity,
                    claims,
                ),
            },
        },
{
    let now = law_decision_follows_verdict(
        config@,
        header_lines(*headers),
        token,
        header,
        place,
        key,
        claims@,
        access@,
    );
    if let AccessStep::Proceed(Some(identity)) = access {
        assert(access@ == AccessStepView::Proceed(Some(identity@)));
        if access@ == AccessStepView::Proceed(Some(claims@)) {
            assert(identity@ == claims@);
            assert(same_identity(identity, claims));
        }
    }
    now
}

/// Once claims were read, or could not be, a request is served under an identity only where it
/// carries a token, and then under the one that was read; anonymously only without configuration
/// or without a line of the token's header; and is otherwise answered with 401.
pub proof fn law_call_claims_read_serves_whom(
    config: &Option<CfAccessConfig>,
    headers: &axum::http::HeaderMap<axum::http::HeaderValue>,
    read: Result<CfAccessClaims, String>,
    access: AccessStep,
)
    requires
        call_ensures(cf_access_claims_read, (config, headers, read), access),
    ensures
        access matches AccessStep::Proceed(Some(identity)) ==> read is Ok && same_identity(
            identity,
            read->Ok_0,
        ) && *config is Some && carried_token(header_lines(*headers)) is Some,
        (access matches AccessStep::Proceed(None)) <==> *config is None || token_lines(
            header_lines(*headers),
        ).len() == 0,
        access matches AccessStep::Reject { status, body } ==> status == 401
            && "Invalid authentication token: "@.is_prefix_of(body@),
        !(access is ReadClaims),
        access_leads_to(
            config_option_view(*config),
            header_lines(*headers),
            claims_result_view(read),
            access@,
        ),
{
    law_token_is_first_line(header_lines(*headers), Seq::empty());
    if let AccessStep::Proceed(Some(identity)) = access {
        assert(access@ == AccessStepView::Proceed(Some(identity@)));
        if let Some(own) = config {
            let _ = law_served_identity_is_written_in_token(
                own@,
                header_lines(*headers),
                claims_result_view(read),
                identity@,
            );
            assert(identity@ == read->Ok_0@);
        }
    }
}

/// Texts are compared, put together and taken apart as they are.
pub proof fn law_call_texts(a: &str, b: &str, same: bool, whole: String)
    requires
        call_ensures(same_text, (a, b), same),
        call_ensures(concat_text, (a, b), whole),
    ensures
        same <==> a@ == b@,
        whole@ == a@ + b@,
{
}

/// The pieces of a text hold no separator and make up the text again, with a separator between
/// neighbours.
pub proof fn law_call_split_text(s: &str, sep: char, pieces: Vec<&str>)
    requires
        call_ensures(split_text, (s, sep), pieces),
    ensures
        pieces@.len() >= 1,
        forall|i: int| 0 <= i < pieces@.len() ==> !(#[trigger] pieces@[i])@.contains(sep),
        join_with(str_views(pieces@), sep) == s@,
{
    law_split_join(s@, sep);
    let views = str_views(pieces@);
    assert forall|i: int| 0 <= i < pieces@.len() implies !(#[trigger] pieces@[i])@.contains(sep) by {
        assert(views[i] == pieces@[i]@);
    }
}

/// A copy is the same in all of its parts.
pub proof fn law_call_clones(
    event: ScreenTimeEvent,
    event_copy: ScreenTimeEvent,
    identity: CloudflareIdentity,
    identity_copy: CloudflareIdentity,
)
    requires
        call_ensures(ScreenTimeEvent::clone, (&event,), event_copy),
        call_ensures(CloudflareIdentity::clone, (&identity,), identity_copy),
    ensures
        same_event(event_copy, event),
        identity_copy@.email == identity.email@,
        identity_copy@.sub == identity.sub@,
        identity_copy@.identity_nonce == identity@.identity_nonce,
        identity_copy.iat == identity.iat,
        identity_copy.exp == identity.exp,
{
    assert(event_copy@ == event@);
    assert(identity_copy@ == identity@);
}

/// The settings are the documented ones unless others are given.
pub proof fn law_call_default_settings(config: Config)
    requires
        call_ensures(Config::default, (), config),
    ensures
        config.bind@ == "127.0.0.1:3000"@,
        config.nats_url@ == "nats://localhost:4222"@,
        config.nats_subject@ == "time.obs.>"@,
        config.nats_stream@ == "OBSERVATIONS"@,
{
}

/// A member of a document is found to be a text, a number or nothing exactly where it is.
pub proof fn law_call_members(
    document: &serde_json::Value,
    name: &str,
    text: &str,
    number: u64,
    has_text: bool,
    has_number: bool,
    lacks: bool,
)
    requires
        call_ensures(has_text_member, (document, name, text), has_text),
        call_ensures(has_number_member, (document, name, number), has_number),
        call_ensures(lacks_member, (document, name), lacks),
    ensures
        has_text <==> json_view(*document).member(name@) == Some(JsonView::Text(text@)),
        has_number <==> json_view(*document).member(name@) == Some(
            JsonView::Integer(number as int),
        ),
        lacks <==> json_view(*document).member(name@) is None || json_view(*document).member(name@)
            == Some(JsonView::Null),
{
}

/// A token is verified with the first cached key that bears the id of its header, and with the
/// algorithm of its header.
pub proof fn law_call_choose_key(
    header: TokenHeader,
    cache: JwksCache,
    place: int,
    key: jsonwebtoken::DecodingKey,
    choice: KeyChoice,
)
    requires
        call_ensures(choose_key, (Ok(header), &cache), choice),
        header.key_id is Some,
        cache@.keys is Some,
        ({
            let entries = jwk_set_entries(cache@.keys->0);
            &&& 0 <= place < entries.len()
            &&& entries[place].0 == Some(header.key_id->0@)
            &&& forall|i: int|
                0 <= i < place ==> (#[trigger] entries[i]).0 != Some(header.key_id->0@)
            &&& jwk_decoding_key(entries[place].1) == Ok::<jsonwebtoken::DecodingKey, Seq<char>>(
                key,
            )
        }),
    ensures
        choice == (KeyChoice::Key { key, algorithm: header.algorithm }),
{
    law_first_key_with_id_is_found(jwk_set_entries(cache@.keys->0), header.key_id->0@, place);
}

} // verus!
