//! A client's WebSocket connection: the events it is sent on connecting, and what follows.
use vstd::prelude::*;

use crate::event::{EventView, ScreenTimeEvent};
use crate::state::{event_views, latest_of_each, law_record_is_local, with_recorded, AppState};

verus! {

/// A connection whose client still has to be sent the events that were known when it
/// connected.
pub struct WebSocketSession {
    pending: Vec<ScreenTimeEvent>,
}

impl View for WebSocketSession {
    type V = Seq<EventView>;

    /// The events still to be sent, in order.
    closed spec fn view(&self) -> Seq<EventView> {
        event_views(self.pending@)
    }
}

/// Something that happened while the known events are being sent.
pub enum BacklogEvent {
    /// The connection was opened.
    Opened,
    /// The event was sent.
    Sent,
    /// The event could not be written as JSON and was skipped.
    NotSerialized,
    /// Sending failed.
    SendFailed,
}

/// What to do next while the known events are being sent.
pub enum BacklogAction {
    /// Send the event.
    Send(ScreenTimeEvent),
    /// Everything known has been sent: subscribe to new events.
    Subscribe,
    /// Drop the connection.
    Close,
}

/// The mathematical content of a [`BacklogAction`].
pub enum BacklogActionView {
    Send(EventView),
    Subscribe,
    Close,
}

impl View for BacklogAction {
    type V = BacklogActionView;

    open spec fn view(&self) -> BacklogActionView {
        match self {
            BacklogAction::Send(event) => BacklogActionView::Send(event@),
            BacklogAction::Subscribe => BacklogActionView::Subscribe,
            BacklogAction::Close => BacklogActionView::Close,
        }
    }
}

/// What follows `event` while `pending` is still to be sent: what is pending then, and the
/// action.
pub open spec fn backlog_next(
    pending: Seq<EventView>,
    event: BacklogEvent,
) -> (Seq<EventView>, BacklogActionView) {
    if event is SendFailed {
        (pending, BacklogActionView::Close)
    } else if pending.len() == 0 {
        (pending, BacklogActionView::Subscribe)
    } else {
        (pending.drop_first(), BacklogActionView::Send(pending[0]))
    }
}

impl WebSocketSession {
    /// A connection made now: its client is to be sent the most recent event of every key.
    pub fn open(state: &AppState) -> (session: WebSocketSession)
        requires
            state.wf(),
        ensures
            latest_of_each(state@, session@),
    {
        WebSocketSession { pending: state.latest_events() }
    }

    /// Decides the next step while the known events are being sent: one after the other, an
    /// event that cannot be written as JSON being skipped, until all are sent or sending
    /// fails.
    pub fn send_known(&mut self, event: BacklogEvent) -> (action: BacklogAction)
        ensures
            (final(self)@, action@) == backlog_next(old(self)@, event),
    {
        match event {
            BacklogEvent::SendFailed => BacklogAction::Close,
            BacklogEvent::Opened | BacklogEvent::Sent | BacklogEvent::NotSerialized => {
                if self.pending.len() == 0 {
                    BacklogAction::Subscribe
                } else {
                    let ghost before = self@;
                    let first: ScreenTimeEvent = self.pending.remove(0);
                    assert(self@ == before.drop_first());
                    BacklogAction::Send(first)
                }
            },
        }
    }
}

/// The events that are sent when `pending` is to be sent and `happenings` occur.
pub open spec fn backlog_sent(
    pending: Seq<EventView>,
    happenings: Seq<BacklogEvent>,
) -> Seq<EventView>
    decreases happenings.len(),
{
    if happenings.len() == 0 {
        Seq::empty()
    } else {
        let (rest, action) = backlog_next(pending, happenings[0]);
        match action {
            BacklogActionView::Send(event) => seq![event] + backlog_sent(
                rest,
                happenings.drop_first(),
            ),
            _ => Seq::empty(),
        }
    }
}

/// As long as no sending fails, a client is sent exactly the pending events, each once and in
/// order, and the subscription to new events follows the last of them.
pub proof fn law_backlog_sent_in_order(pending: Seq<EventView>, happenings: Seq<BacklogEvent>)
    requires
        happenings.len() == pending.len(),
        forall|i: int| 0 <= i < happenings.len() ==> !(#[trigger] happenings[i] is SendFailed),
    ensures
        backlog_sent(pending, happenings) == pending,
        forall|last: BacklogEvent|
            !(last is SendFailed) ==> (#[trigger] backlog_next(
                Seq::<EventView>::empty(),
                last,
            )).1 is Subscribe,
    decreases pending.len(),
{
    if pending.len() > 0 {
        assert(!(happenings[0] is SendFailed));
        let rest = happenings.drop_first();
        assert forall|i: int| 0 <= i < rest.len() implies !(#[trigger] rest[i] is SendFailed) by {
            assert(!(happenings[i + 1] is SendFailed));
        }
        law_backlog_sent_in_order(pending.drop_first(), rest);
        assert(seq![pending[0]] + pending.drop_first() == pending);
    }
}

/// A client that connects and to which no sending fails is sent the most recent event of every
/// key, each once.
pub proof fn law_new_client_is_sent_latest(
    data: Map<Seq<char>, Seq<EventView>>,
    pending: Seq<EventView>,
    happenings: Seq<BacklogEvent>,
)
    requires
        latest_of_each(data, pending),
        happenings.len() == pending.len(),
        forall|i: int| 0 <= i < happenings.len() ==> !(#[trigger] happenings[i] is SendFailed),
    ensures
        latest_of_each(data, backlog_sent(pending, happenings)),
{
    law_backlog_sent_in_order(pending, happenings);
}

/// A client that connects right after an event was recorded is to be sent that event.
pub proof fn law_recorded_event_reaches_new_client(
    data: Map<Seq<char>, Seq<EventView>>,
    event: EventView,
    pending: Seq<EventView>,
)
    requires
        latest_of_each(with_recorded(data, event), pending),
    ensures
        pending.contains(event),
{
    law_record_is_local(data, event, event.key());
    let after = with_recorded(data, event);
    assert(after.contains_key(event.key()));
    let i = choose|i: int| 0 <= i < pending.len() && (#[trigger] pending[i]).key() == event.key();
    assert(pending[i] == event);
}

/// Something that happened on a connection that is subscribed to new events.
pub enum SocketEvent {
    /// The client asked to close the connection.
    CloseFrame,
    /// The client sent anything else.
    OtherFrame,
    /// Reading from the client failed.
    SocketError,
    /// The client is gone.
    SocketEnded,
    /// A new event arrived.
    NewEvent(ScreenTimeEvent),
    /// Events were missed because the client is slow.
    Lagged,
    /// There will be no more events.
    EventsEnded,
    /// The event was sent.
    Sent,
    /// The event could not be written as JSON and was skipped.
    NotSerialized,
    /// Sending failed.
    SendFailed,
}

/// What to do next on a connection that is subscribed to new events.
pub enum SocketAction {
    /// Wait for the client or for a new event.
    Wait,
    /// Send the event.
    Send(ScreenTimeEvent),
    /// Drop the connection.
    Close,
}

/// The mathematical content of a [`SocketAction`].
pub enum SocketActionView {
    Wait,
    Send(EventView),
    Close,
}

impl View for SocketAction {
    type V = SocketActionView;

    open spec fn view(&self) -> SocketActionView {
        match self {
            SocketAction::Wait => SocketActionView::Wait,
            SocketAction::Send(event) => SocketActionView::Send(event@),
            SocketAction::Close => SocketActionView::Close,
        }
    }
}

/// What follows `event` on a connection that is subscribed to new events.
pub open spec fn socket_next(event: SocketEvent) -> SocketActionView {
    match event {
        SocketEvent::NewEvent(event) => SocketActionView::Send(event@),
        SocketEvent::CloseFrame
        | SocketEvent::SocketError
        | SocketEvent::SocketEnded
        | SocketEvent::EventsEnded
        | SocketEvent::SendFailed => SocketActionView::Close,
        SocketEvent::OtherFrame
        | SocketEvent::Lagged
        | SocketEvent::Sent
        | SocketEvent::NotSerialized => SocketActionView::Wait,
    }
}

/// Decides the next step on a connection that is subscribed to new events: every new event is
/// sent on, and the connection is dropped when the client closes it or is gone, when reading
/// or sending fails, or when there will be no more events. What else the client sends, and
/// events it was too slow for, are passed over.
pub fn handle_websocket(event: SocketEvent) -> (action: SocketAction)
    ensures
        action@ == socket_next(event),
{
    match event {
        SocketEvent::CloseFrame => SocketAction::Close,
        SocketEvent::OtherFrame => SocketAction::Wait,
        SocketEvent::SocketError => SocketAction::Close,
        SocketEvent::SocketEnded => SocketAction::Close,
        SocketEvent::NewEvent(event) => SocketAction::Send(event),
        SocketEvent::Lagged => SocketAction::Wait,
        SocketEvent::EventsEnded => SocketAction::Close,
        SocketEvent::Sent => SocketAction::Wait,
        SocketEvent::NotSerialized => SocketAction::Wait,
        SocketEvent::SendFailed => SocketAction::Close,
    }
}

/// A slow client, an event that cannot be written, or a frame other than a close request never
/// costs a client its connection.
pub proof fn law_connection_kept(event: SocketEvent)
    ensures
        socket_next(event) is Close <==> {
            ||| event is CloseFrame
            ||| event is SocketError
            ||| event is SocketEnded
            ||| event is EventsEnded
            ||| event is SendFailed
        },
{
}

/// A new event is sent on, and as it is: what is sent is the new event, whatever it holds, and
/// nothing is sent but a new event.
pub proof fn law_new_event_is_sent_unchanged(event: SocketEvent, sent: EventView)
    ensures
        socket_next(event) == SocketActionView::Send(sent) <==> (event matches SocketEvent::NewEvent(
            new,
        ) && new@ == sent),
        socket_next(event) is Send <==> event is NewEvent,
{
}

/// A connection goes on waiting after everything that neither brings an event nor ends it.
pub proof fn law_connection_goes_on(event: SocketEvent)
    ensures
        socket_next(event) is Wait <==> {
            ||| event is OtherFrame
            ||| event is Lagged
            ||| event is Sent
            ||| event is NotSerialized
        },
{
}

/// The known events are sent from the front, one at a time and as they are, and those behind stay
/// pending in their order; a failed sending closes the connection and sends nothing more, and
/// the client is subscribed exactly when nothing is pending.
pub proof fn law_backlog_is_sent_from_the_front(
    first: EventView,
    rest: Seq<EventView>,
    pending: Seq<EventView>,
    event: BacklogEvent,
)
    ensures
        !(event is SendFailed) ==> backlog_next(seq![first] + rest, event) == (
            rest,
            BacklogActionView::Send(first),
        ),
        backlog_next(pending, event).1 is Close <==> event is SendFailed,
        backlog_next(pending, event).1 is Subscribe <==> !(event is SendFailed) && pending.len()
            == 0,
        !(backlog_next(pending, event).1 is Send) ==> backlog_next(pending, event).0 == pending,
{
    assert((seq![first] + rest).drop_first() == rest);
}

/// The views of what is done on a connection leave nothing out and change nothing.
pub proof fn law_connection_views_are_faithful(event: ScreenTimeEvent)
    ensures
        BacklogAction::Send(event)@ == BacklogActionView::Send(event@),
        BacklogAction::Subscribe@ is Subscribe,
        BacklogAction::Close@ is Close,
        SocketAction::Wait@ is Wait,
        SocketAction::Send(event)@ == SocketActionView::Send(event@),
        SocketAction::Close@ is Close,
{
}

/// What is still to be sent is what the connection holds, event by event and in order.
proof fn law_session_view_is_faithful(session: WebSocketSession)
    ensures
        session@.len() == session.pending@.len(),
        forall|i: int|
            0 <= i < session.pending@.len() ==> #[trigger] session@[i] == session.pending@[i]@,
{
}

} // verus!
