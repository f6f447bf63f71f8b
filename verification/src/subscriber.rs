//! The subscription to screen time messages: what is done with each message, and which step
//! follows which.
use vstd::prelude::*;

use crate::event::{
    law_key_form, message_event, parse_nats_message, parse_result_view, subject_names, EventView,
    ParseError, ParseErrorView, ScreenTimeEvent, Timestamp,
};
use crate::json::{parsed_json, JsonView};
use crate::state::{replay, with_recorded, AppState};
use crate::text::lossy_utf8;

verus! {

/// What became of a message.
pub enum MessageOutcome {
    /// The message held `event`, which is now recorded under `key`.
    Recorded { key: String, event: ScreenTimeEvent },
    /// The message is not a screen time event; nothing was recorded.
    Rejected(ParseError),
}

/// The mathematical content of a [`MessageOutcome`].
pub enum MessageOutcomeView {
    Recorded { key: Seq<char>, event: EventView },
    Rejected(ParseErrorView),
}

impl View for MessageOutcome {
    type V = MessageOutcomeView;

    open spec fn view(&self) -> MessageOutcomeView {
        match self {
            MessageOutcome::Recorded { key, event } => MessageOutcomeView::Recorded {
                key: key@,
                event: event@,
            },
            MessageOutcome::Rejected(error) => MessageOutcomeView::Rejected(error@),
        }
    }
}

/// What becomes of a message that parsed to `parsed`.
pub open spec fn outcome_of(parsed: Result<EventView, ParseErrorView>) -> MessageOutcomeView {
    match parsed {
        Ok(event) => MessageOutcomeView::Recorded { key: event.key(), event },
        Err(error) => MessageOutcomeView::Rejected(error),
    }
}

/// The data after a message that parsed to `parsed`.
pub open spec fn data_after(
    data: Map<Seq<char>, Seq<EventView>>,
    parsed: Result<EventView, ParseErrorView>,
) -> Map<Seq<char>, Seq<EventView>> {
    match parsed {
        Ok(event) => with_recorded(data, event),
        Err(_) => data,
    }
}

/// The time of an event: when its message was published, or `now` where that is unknown.
pub open spec fn event_time_view(published: Option<Timestamp>, now: Timestamp) -> Timestamp {
    match published {
        Some(time) => time,
        None => now,
    }
}

/// The time of an event: when its message was published, or `now` where that is unknown.
pub fn event_time(published: Option<Timestamp>, now: Timestamp) -> (time: Timestamp)
    ensures
        time == event_time_view(published, now),
{
    match published {
        Some(time) => time,
        None => now,
    }
}

/// Records the event of a parsed message; a message that did not parse changes nothing.
pub fn record_parsed(
    state: &mut AppState,
    parsed: Result<ScreenTimeEvent, ParseError>,
) -> (outcome: MessageOutcome)
    requires
        old(state).wf(),
    ensures
        final(state).wf(),
        outcome@ == outcome_of(parse_result_view(parsed)),
        final(state)@ == data_after(old(state)@, parse_result_view(parsed)),
{
    match parsed {
        Ok(event) => {
            let key: String = state.record(event.clone());
            MessageOutcome::Recorded { key, event }
        },
        Err(error) => MessageOutcome::Rejected(error),
    }
}

/// Handles one message: parses it and records its event. A message that does not parse leaves
/// the state as it was.
pub fn receive_message(
    state: &mut AppState,
    subject: &str,
    payload: &[u8],
    published: Option<Timestamp>,
    now: Timestamp,
) -> (outcome: MessageOutcome)
    requires
        old(state).wf(),
    ensures
        final(state).wf(),
        ({
            let parsed = message_event(
                subject@,
                parsed_json(lossy_utf8(payload@)),
                event_time_view(published, now),
            );
            &&& outcome@ == outcome_of(parsed)
            &&& final(state)@ == data_after(old(state)@, parsed)
        }),
{
    let timestamp: Timestamp = event_time(published, now);
    record_parsed(state, parse_nats_message(subject, payload, timestamp))
}

/// How the consumer of the message stream is set up.
pub struct ConsumerSettings {
    /// The name under which the server remembers the consumer; none for an ephemeral one.
    pub durable_name: Option<String>,
    /// Whether delivery starts with the last message of every subject.
    pub last_per_subject: bool,
    /// The subjects to deliver.
    pub filter_subject: String,
}

/// Something that happened to the subscription.
pub enum SubscriberEvent {
    /// The subscription begins.
    Started,
    /// The stream exists.
    StreamFound,
    /// The stream could not be had.
    StreamMissing,
    /// The consumer was created.
    ConsumerCreated,
    /// The consumer could not be created.
    ConsumerRefused,
    /// The consumer's messages can be read.
    MessagesOpened,
    /// The consumer's messages cannot be read.
    MessagesRefused,
    /// A message came and was handled.
    Received(MessageOutcome),
    /// Waiting for a message failed.
    ReceiveFailed,
    /// There will be no more messages.
    MessagesEnded,
    /// The event was handed to the connected clients.
    Broadcasted,
    /// The event could not be handed to any client.
    BroadcastFailed,
    /// The message was acknowledged.
    Acknowledged,
    /// The message could not be acknowledged.
    AcknowledgeFailed,
}

/// What the subscription does next.
pub enum SubscriberAction {
    /// Look up the stream of this name.
    GetStream(String),
    /// Create a consumer on the stream.
    CreateConsumer(ConsumerSettings),
    /// Open the consumer's messages.
    OpenMessages,
    /// Wait for the next message.
    NextMessage,
    /// Hand the event to the connected clients.
    Broadcast(ScreenTimeEvent),
    /// Acknowledge the message that came last.
    Acknowledge,
    /// End the subscription.
    Stop,
}

/// The mathematical content of a [`SubscriberAction`].
pub enum SubscriberActionView {
    GetStream(Seq<char>),
    CreateConsumer {
        durable_name: Option<Seq<char>>,
        last_per_subject: bool,
        filter_subject: Seq<char>,
    },
    OpenMessages,
    NextMessage,
    Broadcast(EventView),
    Acknowledge,
    Stop,
}

impl View for SubscriberAction {
    type V = SubscriberActionView;

    open spec fn view(&self) -> SubscriberActionView {
        match self {
            SubscriberAction::GetStream(name) => SubscriberActionView::GetStream(name@),
            SubscriberAction::CreateConsumer(settings) => SubscriberActionView::CreateConsumer {
                durable_name: match settings.durable_name {
                    Some(name) => Some(name@),
                    None => None,
                },
                last_per_subject: settings.last_per_subject,
                filter_subject: settings.filter_subject@,
            },
            SubscriberAction::OpenMessages => SubscriberActionView::OpenMessages,
            SubscriberAction::NextMessage => SubscriberActionView::NextMessage,
            SubscriberAction::Broadcast(event) => SubscriberActionView::Broadcast(event@),
            SubscriberAction::Acknowledge => SubscriberActionView::Acknowledge,
            SubscriberAction::Stop => SubscriberActionView::Stop,
        }
    }
}

/// What follows `event` in a subscription to `subject` on the stream `stream_name`.
pub open spec fn next_action(
    stream_name: Seq<char>,
    subject: Seq<char>,
    event: SubscriberEvent,
) -> SubscriberActionView {
    match event {
        SubscriberEvent::Started => SubscriberActionView::GetStream(stream_name),
        SubscriberEvent::StreamFound => SubscriberActionView::CreateConsumer {
            durable_name: None,
            last_per_subject: true,
            filter_subject: subject,
        },
        SubscriberEvent::ConsumerCreated => SubscriberActionView::OpenMessages,
        SubscriberEvent::MessagesOpened
        | SubscriberEvent::ReceiveFailed
        | SubscriberEvent::Acknowledged
        | SubscriberEvent::AcknowledgeFailed => SubscriberActionView::NextMessage,
        SubscriberEvent::Received(outcome) => match outcome {
            MessageOutcome::Recorded { key, event } => SubscriberActionView::Broadcast(event@),
            MessageOutcome::Rejected(error) => SubscriberActionView::Acknowledge,
        },
        SubscriberEvent::Broadcasted
        | SubscriberEvent::BroadcastFailed => SubscriberActionView::Acknowledge,
        SubscriberEvent::StreamMissing
        | SubscriberEvent::ConsumerRefused
        | SubscriberEvent::MessagesRefused
        | SubscriberEvent::MessagesEnded => SubscriberActionView::Stop,
    }
}

/// Decides the next step of the subscription to `subject` on the stream `stream_name`.
///
/// The stream is looked up, an ephemeral consumer that starts with the last message of every
/// subject is created on it, and its messages are read until there are no more; the
/// subscription ends where one of the first three steps fails. The event of a message is
/// handed to the connected clients. Every message is acknowledged, whether or not it held an
/// event and whether or not there was a client; a failure to receive or to acknowledge one
/// message does not end the subscription.
pub fn subscribe_to_screentime(
    stream_name: &str,
    subject: &str,
    event: SubscriberEvent,
) -> (action: SubscriberAction)
    ensures
        action@ == next_action(stream_name@, subject@, event),
{
    match event {
        SubscriberEvent::Started => SubscriberAction::GetStream(stream_name.to_string()),
        SubscriberEvent::StreamFound => SubscriberAction::CreateConsumer(
            ConsumerSettings {
                durable_name: None,
                last_per_subject: true,
                filter_subject: subject.to_string(),
            },
        ),
        SubscriberEvent::ConsumerCreated => SubscriberAction::OpenMessages,
        SubscriberEvent::MessagesOpened => SubscriberAction::NextMessage,
        SubscriberEvent::Received(outcome) => match outcome {
            MessageOutcome::Recorded { key: _, event } => SubscriberAction::Broadcast(event),
            MessageOutcome::Rejected(_) => SubscriberAction::Acknowledge,
        },
        SubscriberEvent::ReceiveFailed => SubscriberAction::NextMessage,
        SubscriberEvent::Broadcasted => SubscriberAction::Acknowledge,
        SubscriberEvent::BroadcastFailed => SubscriberAction::Acknowledge,
        SubscriberEvent::Acknowledged => SubscriberAction::NextMessage,
        SubscriberEvent::AcknowledgeFailed => SubscriberAction::NextMessage,
        SubscriberEvent::StreamMissing => SubscriberAction::Stop,
        SubscriberEvent::ConsumerRefused => SubscriberAction::Stop,
        SubscriberEvent::MessagesRefused => SubscriberAction::Stop,
        SubscriberEvent::MessagesEnded => SubscriberAction::Stop,
    }
}

/// Every message is acknowledged: at once where it held no event, and otherwise after its
/// event went to the clients, whether or not that succeeded. The next message is then waited
/// for, whether or not the acknowledgement succeeded.
pub proof fn law_every_message_acknowledged(
    stream_name: Seq<char>,
    subject: Seq<char>,
    outcome: MessageOutcome,
)
    ensures
        match outcome@ {
            MessageOutcomeView::Rejected(_) => next_action(
                stream_name,
                subject,
                SubscriberEvent::Received(outcome),
            ) is Acknowledge,
            MessageOutcomeView::Recorded { key: _, event } => {
                &&& next_action(stream_name, subject, SubscriberEvent::Received(outcome))
                    == SubscriberActionView::Broadcast(event)
                &&& next_action(stream_name, subject, SubscriberEvent::Broadcasted) is Acknowledge
                &&& next_action(
                    stream_name,
                    subject,
                    SubscriberEvent::BroadcastFailed,
                ) is Acknowledge
            },
        },
        next_action(stream_name, subject, SubscriberEvent::Acknowledged) is NextMessage,
        next_action(stream_name, subject, SubscriberEvent::AcknowledgeFailed) is NextMessage,
{
}

/// The subscription ends only where it cannot be set up or its messages have ended; no single
/// message ends it.
pub proof fn law_only_setup_or_end_stops(
    stream_name: Seq<char>,
    subject: Seq<char>,
    event: SubscriberEvent,
)
    ensures
        next_action(stream_name, subject, event) is Stop <==> {
            ||| event is StreamMissing
            ||| event is ConsumerRefused
            ||| event is MessagesRefused
            ||| event is MessagesEnded
        },
{
}

/// What is handed to the clients on a message is the event that was recorded for it, and that
/// is then the most recent event of its key; a rejected message hands out nothing and leaves
/// the data as it was.
pub proof fn law_broadcast_is_recorded(
    data: Map<Seq<char>, Seq<EventView>>,
    parsed: Result<EventView, ParseErrorView>,
)
    ensures
        match outcome_of(parsed) {
            MessageOutcomeView::Recorded { key, event } => {
                &&& parsed == Ok::<EventView, ParseErrorView>(event)
                &&& data_after(data, parsed).contains_key(key)
                &&& data_after(data, parsed)[key].last() == event
            },
            MessageOutcomeView::Rejected(_) => data_after(data, parsed) == data,
        },
{
}

/// A message is waited for only once the messages are open, and after that only when the one
/// before it has been acknowledged or there was none: no message is passed over without an
/// attempt to acknowledge it.
pub proof fn law_next_message_after_acknowledgement(
    stream_name: Seq<char>,
    subject: Seq<char>,
    event: SubscriberEvent,
)
    ensures
        next_action(stream_name, subject, event) is NextMessage <==> {
            ||| event is MessagesOpened
            ||| event is ReceiveFailed
            ||| event is Acknowledged
            ||| event is AcknowledgeFailed
        },
{
}

/// The data after messages that parsed to `messages`, in order, from an empty state.
pub open spec fn data_after_all(
    messages: Seq<Result<EventView, ParseErrorView>>,
) -> Map<Seq<char>, Seq<EventView>>
    decreases messages.len(),
{
    if messages.len() == 0 {
        Map::empty()
    } else {
        data_after(data_after_all(messages.drop_last()), messages.last())
    }
}

/// The events of those messages that parsed, in order.
pub open spec fn parsed_events(messages: Seq<Result<EventView, ParseErrorView>>) -> Seq<EventView>
    decreases messages.len(),
{
    if messages.len() == 0 {
        Seq::empty()
    } else {
        match messages.last() {
            Ok(event) => parsed_events(messages.drop_last()).push(event),
            Err(_) => parsed_events(messages.drop_last()),
        }
    }
}

/// Messages that do not parse leave no trace: after any messages the data is what recording
/// the events of the others makes it.
pub proof fn law_data_is_replay_of_parsed(messages: Seq<Result<EventView, ParseErrorView>>)
    ensures
        data_after_all(messages) == replay(parsed_events(messages)),
    decreases messages.len(),
{
    if messages.len() > 0 {
        law_data_is_replay_of_parsed(messages.drop_last());
        if let Ok(event) = messages.last() {
            let before = parsed_events(messages.drop_last());
            assert(before.push(event).drop_last() == before);
        }
    }
}

/// The events that are handed to the clients when messages come to `outcomes`, in order.
pub open spec fn handed_to_clients(
    stream_name: Seq<char>,
    subject: Seq<char>,
    outcomes: Seq<MessageOutcome>,
) -> Seq<EventView>
    decreases outcomes.len(),
{
    if outcomes.len() == 0 {
        Seq::empty()
    } else {
        let before = handed_to_clients(stream_name, subject, outcomes.drop_last());
        match next_action(stream_name, subject, SubscriberEvent::Received(outcomes.last())) {
            SubscriberActionView::Broadcast(event) => before.push(event),
            _ => before,
        }
    }
}

/// Over any run of messages the clients are handed exactly the events of those that parsed,
/// each once and in the order of the messages.
pub proof fn law_clients_are_handed_parsed_events(
    stream_name: Seq<char>,
    subject: Seq<char>,
    messages: Seq<Result<EventView, ParseErrorView>>,
    outcomes: Seq<MessageOutcome>,
)
    requires
        outcomes.len() == messages.len(),
        forall|i: int|
            0 <= i < messages.len() ==> (#[trigger] outcomes[i])@ == outcome_of(messages[i]),
    ensures
        handed_to_clients(stream_name, subject, outcomes) == parsed_events(messages),
    decreases messages.len(),
{
    if messages.len() > 0 {
        let n = messages.len() - 1;
        assert forall|i: int| 0 <= i < n implies (#[trigger] outcomes.drop_last()[i])@
            == outcome_of(messages.drop_last()[i]) by {
            assert(outcomes[i]@ == outcome_of(messages[i]));
        }
        law_clients_are_handed_parsed_events(
            stream_name,
            subject,
            messages.drop_last(),
            outcomes.drop_last(),
        );
        assert(outcomes[n]@ == outcome_of(messages[n]));
    }
}

/// The time of an event is when its message was published, however long ago that is, and the
/// present only where that is unknown.
pub proof fn law_event_is_dated_by_publication(
    published: Timestamp,
    now: Timestamp,
    later: Timestamp,
)
    ensures
        event_time_view(Some(published), now) == published,
        event_time_view(Some(published), now) == event_time_view(Some(published), later),
        event_time_view(None, now) == now,
{
}

/// A message that parses is recorded as the event that it holds, dated by its publication or,
/// where that is unknown, by the present; one that does not parse is rejected with its error and
/// changes nothing.
pub proof fn law_received_message_is_recorded(
    data: Map<Seq<char>, Seq<EventView>>,
    subject: Seq<char>,
    document: Result<JsonView, Seq<char>>,
    published: Option<Timestamp>,
    now: Timestamp,
)
    ensures
        ({
            let parsed = message_event(subject, document, event_time_view(published, now));
            match outcome_of(parsed) {
                MessageOutcomeView::Recorded { key, event } => {
                    &&& parsed == Ok::<EventView, ParseErrorView>(event)
                    &&& subject_names(subject) == Some((event.host, event.user))
                    &&& key == event.host + ":"@ + event.user
                    &&& published matches Some(time) ==> event.timestamp == time
                    &&& published is None ==> event.timestamp == now
                    &&& data_after(data, parsed) == with_recorded(data, event)
                    &&& data_after(data, parsed)[key].last() == event
                },
                MessageOutcomeView::Rejected(error) => {
                    &&& parsed == Err::<EventView, ParseErrorView>(error)
                    &&& data_after(data, parsed) == data
                },
            }
        }),
        subject_names(subject) is Some && document is Ok <==> outcome_of(
            message_event(subject, document, event_time_view(published, now)),
        ) is Recorded,
{
    if let Ok(event) = message_event(subject, document, event_time_view(published, now)) {
        law_key_form(event);
    }
}

/// What becomes of a message is settled by what it parsed to, and tells it in full.
pub proof fn law_outcome_tells_what_was_parsed(event: EventView, error: ParseErrorView)
    ensures
        outcome_of(Ok(event)) == (MessageOutcomeView::Recorded {
            key: event.host + ":"@ + event.user,
            event,
        }),
        outcome_of(Err(error)) == MessageOutcomeView::Rejected(error),
{
    law_key_form(event);
}

/// The subscription follows its settings: it is the configured stream that is looked up, at the
/// start and then only, and on that stream a consumer without a name is created, which delivers
/// the configured subject and starts with the last message of every subject.
pub proof fn law_subscription_follows_settings(
    stream_name: Seq<char>,
    subject: Seq<char>,
    event: SubscriberEvent,
)
    ensures
        next_action(stream_name, subject, event) matches SubscriberActionView::GetStream(name)
            ==> name == stream_name,
        next_action(stream_name, subject, event) is GetStream <==> event is Started,
        next_action(stream_name, subject, event) matches SubscriberActionView::CreateConsumer {
            durable_name,
            last_per_subject,
            filter_subject,
        } ==> durable_name is None && last_per_subject && filter_subject == subject,
        next_action(stream_name, subject, event) is CreateConsumer <==> event is StreamFound,
        next_action(stream_name, subject, event) is OpenMessages <==> event is ConsumerCreated,
{
}

/// Clients are handed the event of a recorded message, as it was recorded, and nothing else; and
/// a message is acknowledged once it was rejected or its event went out, and at no other time.
pub proof fn law_clients_are_handed_recorded_events_only(
    stream_name: Seq<char>,
    subject: Seq<char>,
    event: SubscriberEvent,
    sent: EventView,
)
    ensures
        next_action(stream_name, subject, event) == SubscriberActionView::Broadcast(sent) <==> (
        event matches SubscriberEvent::Received(MessageOutcome::Recorded { key, event: recorded })
            && recorded@ == sent),
        next_action(stream_name, subject, event) is Acknowledge <==> {
            ||| event is Broadcasted
            ||| event is BroadcastFailed
            ||| event matches SubscriberEvent::Received(outcome) && outcome is Rejected
        },
{
}

/// The views of outcomes and actions leave nothing out and change nothing.
pub proof fn law_subscription_views_are_faithful(
    outcome: MessageOutcome,
    settings: ConsumerSettings,
    name: String,
    event: ScreenTimeEvent,
)
    ensures
        match outcome {
            MessageOutcome::Recorded { key, event } => outcome@ == (MessageOutcomeView::Recorded {
                key: key@,
                event: event@,
            }),
            MessageOutcome::Rejected(error) => outcome@ == MessageOutcomeView::Rejected(error@),
        },
        SubscriberAction::GetStream(name)@ == SubscriberActionView::GetStream(name@),
        SubscriberAction::CreateConsumer(settings)@ matches SubscriberActionView::CreateConsumer {
            durable_name,
            last_per_subject,
            filter_subject,
        } && last_per_subject == settings.last_per_subject && filter_subject
            == settings.filter_subject@ && durable_name is Some == settings.durable_name is Some
            && (settings.durable_name matches Some(own) ==> durable_name == Some(own@)),
        SubscriberAction::OpenMessages@ is OpenMessages,
        SubscriberAction::NextMessage@ is NextMessage,
        SubscriberAction::Broadcast(event)@ == SubscriberActionView::Broadcast(event@),
        SubscriberAction::Acknowledge@ is Acknowledge,
        SubscriberAction::Stop@ is Stop,
{
}

} // verus!
