//! Screen time events and the NATS messages that carry them.
use vstd::prelude::*;

use crate::json::{integer_member, integer_member_view, json_view, parse_json, parsed_json, JsonView};
use crate::text::{
    concat_text, join_with, law_split_join, lemma_join_take_prefix, lemma_split_concat, lemma_split_single, lossy_utf8, same_text,
    split_on, split_text, str_views, text_from_utf8_lossy,
};

verus! {

/// An instant in UTC: whole seconds since the Unix epoch and the nanoseconds within the second.
#[derive(Clone, Copy, Debug, PartialEq, Eq, Structural)]
pub struct Timestamp {
    pub seconds: i64,
    pub nanoseconds: u32,
}

/// One report of a user's screen time on a host. All durations are in seconds.
#[derive(Debug)]
pub struct ScreenTimeEvent {
    pub host: String,
    pub user: String,
    pub timestamp: Timestamp,
    pub left_day: i64,
    pub spent_balance: i64,
    pub spent_month: i64,
    pub spent_week: i64,
    pub spent_day: i64,
}

/// The mathematical content of a [`ScreenTimeEvent`].
#[verifier::ext_equal]
pub struct EventView {
    pub host: Seq<char>,
    pub user: Seq<char>,
    pub timestamp: Timestamp,
    pub left_day: i64,
    pub spent_balance: i64,
    pub spent_month: i64,
    pub spent_week: i64,
    pub spent_day: i64,
}

impl View for ScreenTimeEvent {
    type V = EventView;

    open spec fn view(&self) -> EventView {
        EventView {
            host: self.host@,
            user: self.user@,
            timestamp: self.timestamp,
            left_day: self.left_day,
            spent_balance: self.spent_balance,
            spent_month: self.spent_month,
            spent_week: self.spent_week,
            spent_day: self.spent_day,
        }
    }
}

impl Clone for ScreenTimeEvent {
    fn clone(&self) -> (copy: Self)
        ensures
            copy@ == self@,
    {
        ScreenTimeEvent {
            host: self.host.clone(),
            user: self.user.clone(),
            timestamp: self.timestamp,
            left_day: self.left_day,
            spent_balance: self.spent_balance,
            spent_month: self.spent_month,
            spent_week: self.spent_week,
            spent_day: self.spent_day,
        }
    }
}

impl EventView {
    /// The key under which events of this host and user are kept: `host:user`.
    pub open spec fn key(self) -> Seq<char> {
        self.host.push(':') + self.user
    }
}

impl ScreenTimeEvent {
    /// The key under which events of this host and user are kept: `host:user`.
    pub fn key(&self) -> (key: String)
        ensures
            key@ == self@.key(),
    {
        proof {
            reveal_strlit(":");
        }
        let prefix: String = concat_text(self.host.as_str(), ":");
        let key: String = concat_text(prefix.as_str(), self.user.as_str());
        assert(":"@ == seq![':']);
        assert(key@ == self@.key());
        key
    }
}

/// Why a message is not a screen time event.
#[derive(Debug)]
pub enum ParseError {
    /// The subject does not start with `time.obs.<host>.<user>`.
    InvalidSubject,
    /// The payload is not JSON; holds the wording of the JSON error.
    InvalidJson(String),
}

/// The mathematical content of a [`ParseError`].
pub enum ParseErrorView {
    InvalidSubject,
    InvalidJson(Seq<char>),
}

impl View for ParseError {
    type V = ParseErrorView;

    open spec fn view(&self) -> ParseErrorView {
        match self {
            ParseError::InvalidSubject => ParseErrorView::InvalidSubject,
            ParseError::InvalidJson(message) => ParseErrorView::InvalidJson(message@),
        }
    }
}

impl ParseErrorView {
    /// The wording of the error.
    pub open spec fn message(self) -> Seq<char> {
        match self {
            ParseErrorView::InvalidSubject => "Invalid subject format"@,
            ParseErrorView::InvalidJson(message) => message,
        }
    }
}

impl ParseError {
    /// The wording of the error.
    pub fn message(&self) -> (message: String)
        ensures
            message@ == self@.message(),
    {
        match self {
            ParseError::InvalidSubject => "Invalid subject format".to_string(),
            ParseError::InvalidJson(message) => message.clone(),
        }
    }
}

/// The host and user that a subject names: the third and fourth of its dot-separated parts,
/// where the first two are `time` and `obs`. Further parts are ignored.
pub open spec fn subject_names(subject: Seq<char>) -> Option<(Seq<char>, Seq<char>)> {
    let parts = split_on(subject, '.');
    if parts.len() < 4 || parts[0] != "time"@ || parts[1] != "obs"@ {
        None
    } else {
        Some((parts[2], parts[3]))
    }
}

/// The event of `host` and `user` that `document` describes.
pub open spec fn event_of(
    host: Seq<char>,
    user: Seq<char>,
    document: JsonView,
    timestamp: Timestamp,
) -> EventView {
    EventView {
        host,
        user,
        timestamp,
        left_day: integer_member_view(document, "left_day"@),
        spent_balance: integer_member_view(document, "spent_balance"@),
        spent_month: integer_member_view(document, "spent_month"@),
        spent_week: integer_member_view(document, "spent_week"@),
        spent_day: integer_member_view(document, "spent_day"@),
    }
}

/// What a message on `subject` whose payload reads as `document` comes to.
pub open spec fn message_event(
    subject: Seq<char>,
    document: Result<JsonView, Seq<char>>,
    timestamp: Timestamp,
) -> Result<EventView, ParseErrorView> {
    match subject_names(subject) {
        None => Err(ParseErrorView::InvalidSubject),
        Some((host, user)) => match document {
            Err(message) => Err(ParseErrorView::InvalidJson(message)),
            Ok(document) => Ok(event_of(host, user, document, timestamp)),
        },
    }
}

/// The subject on which events of `host` and `user` are published: `time.obs.<host>.<user>`.
pub open spec fn event_subject(host: Seq<char>, user: Seq<char>) -> Seq<char> {
    ("time"@.push('.') + "obs"@).push('.') + (host.push('.') + user)
}

/// A subject `time.obs.<host>.<user>`, whose host and user hold no dot, names exactly that
/// host and user.
pub proof fn law_event_subject_names(host: Seq<char>, user: Seq<char>)
    requires
        !host.contains('.'),
        !user.contains('.'),
    ensures
        subject_names(event_subject(host, user)) == Some((host, user)),
{
    let prefix = "time"@.push('.') + "obs"@;
    let names = host.push('.') + user;
    lemma_split_names(host, user);
    lemma_split_concat(prefix, names, '.');
    lemma_split_prefix();
    let parts = split_on(event_subject(host, user), '.');
    assert(parts == seq!["time"@, "obs"@, host, user]);
}

/// Whether a JSON document gives the durations of `event`, whatever else it holds.
pub open spec fn gives_durations(document: JsonView, event: EventView) -> bool {
    &&& document.member("left_day"@) == Some(JsonView::Integer(event.left_day as int))
    &&& document.member("spent_balance"@) == Some(JsonView::Integer(event.spent_balance as int))
    &&& document.member("spent_month"@) == Some(JsonView::Integer(event.spent_month as int))
    &&& document.member("spent_week"@) == Some(JsonView::Integer(event.spent_week as int))
    &&& document.member("spent_day"@) == Some(JsonView::Integer(event.spent_day as int))
}

/// An event that is published on its subject, in any payload that gives its durations, is read
/// back as it was, provided its host and user hold no dot.
pub proof fn law_published_event_is_read_back(event: EventView, payload: Seq<u8>)
    requires
        !event.host.contains('.'),
        !event.user.contains('.'),
        parsed_json(lossy_utf8(payload)) is Ok,
        gives_durations(parsed_json(lossy_utf8(payload))->Ok_0, event),
    ensures
        message_event(
            event_subject(event.host, event.user),
            parsed_json(lossy_utf8(payload)),
            event.timestamp,
        ) == Ok::<EventView, ParseErrorView>(event),
{
    law_event_subject_names(event.host, event.user);
}

/// The JSON document that an event is written as: an object of its eight members, with the
/// timestamp in the form `time`.
pub open spec fn event_document(event: EventView, time: JsonView) -> JsonView {
    JsonView::Object(
        map![
            "host"@ => JsonView::Text(event.host),
            "user"@ => JsonView::Text(event.user),
            "timestamp"@ => time,
            "left_day"@ => JsonView::Integer(event.left_day as int),
            "spent_balance"@ => JsonView::Integer(event.spent_balance as int),
            "spent_month"@ => JsonView::Integer(event.spent_month as int),
            "spent_week"@ => JsonView::Integer(event.spent_week as int),
            "spent_day"@ => JsonView::Integer(event.spent_day as int),
        ],
    )
}

/// An event that is published on its subject, as the JSON document that it is written as, is
/// read back as it was, provided its host and user hold no dot.
pub proof fn law_written_event_is_read_back(event: EventView, time: JsonView, payload: Seq<u8>)
    requires
        !event.host.contains('.'),
        !event.user.contains('.'),
        parsed_json(lossy_utf8(payload)) == Ok::<JsonView, Seq<char>>(event_document(event, time)),
    ensures
        message_event(
            event_subject(event.host, event.user),
            parsed_json(lossy_utf8(payload)),
            event.timestamp,
        ) == Ok::<EventView, ParseErrorView>(event),
{
    reveal_strlit("left_day");
    reveal_strlit("spent_balance");
    reveal_strlit("spent_month");
    reveal_strlit("spent_week");
    reveal_strlit("spent_day");
    assert("left_day"@.len() == 8 && "spent_balance"@.len() == 13 && "spent_month"@.len() == 11
        && "spent_week"@.len() == 10 && "spent_day"@.len() == 9);
    law_published_event_is_read_back(event, payload);
}

/// Parts after the fourth do not change what a subject names.
pub proof fn law_further_parts_ignored(subject: Seq<char>, rest: Seq<char>)
    requires
        subject_names(subject) is Some,
    ensures
        subject_names(subject.push('.') + rest) == subject_names(subject),
{
    lemma_split_concat(subject, rest, '.');
    law_split_join(rest, '.');
}

/// The host and user that a subject names hold no dot, and the subject starts with
/// `time.obs.`, the host, a dot and the user.
pub proof fn law_subject_names_sound(subject: Seq<char>)
    requires
        subject_names(subject) is Some,
    ensures
        ({
            let (host, user) = subject_names(subject)->0;
            &&& !host.contains('.')
            &&& !user.contains('.')
            &&& event_subject(host, user).is_prefix_of(subject)
        }),
{
    law_split_join(subject, '.');
    let parts = split_on(subject, '.');
    let (host, user) = subject_names(subject)->0;
    let head = parts.take(4);
    assert(parts[2] == host && parts[3] == user);
    assert(head == seq!["time"@, "obs"@, host, user]);
    assert(head.drop_last() == seq!["time"@, "obs"@, host]);
    assert(head.drop_last().drop_last() == seq!["time"@, "obs"@]);
    assert(head.drop_last().drop_last().drop_last() == seq!["time"@]);
    reveal_with_fuel(join_with, 5);
    assert(join_with(head, '.') == event_subject(host, user));
    lemma_join_take_prefix(parts, 4, '.');
}

/// Two events have one key only where host and user agree, provided neither host holds a
/// colon.
pub proof fn law_key_separates(a: EventView, b: EventView)
    requires
        !a.host.contains(':'),
        !b.host.contains(':'),
    ensures
        a.key() == b.key() <==> a.host == b.host && a.user == b.user,
{
    if a.key() == b.key() {
        lemma_key_parts(a);
        lemma_key_parts(b);
        assert(a.key()[a.host.len() as int] == ':');
        assert(b.key()[b.host.len() as int] == ':');
        if a.host.len() < b.host.len() {
            assert(b.host[a.host.len() as int] == ':');
        }
        if b.host.len() < a.host.len() {
            assert(a.host[b.host.len() as int] == ':');
        }
        assert(a.host == b.host);
        assert(a.user == b.user);
    }
}

proof fn lemma_key_parts(e: EventView)
    ensures
        e.key().take(e.host.len() as int) == e.host,
        e.key().skip(e.host.len() as int + 1) == e.user,
        e.key()[e.host.len() as int] == ':',
        forall|i: int| 0 <= i < e.host.len() ==> e.key()[i] == #[trigger] e.host[i],
{
    assert(e.key().take(e.host.len() as int) == e.host);
    assert(e.key().skip(e.host.len() as int + 1) == e.user);
}

proof fn lemma_split_names(host: Seq<char>, user: Seq<char>)
    requires
        !host.contains('.'),
        !user.contains('.'),
    ensures
        split_on(host.push('.') + user, '.') == seq![host, user],
{
    lemma_split_concat(host, user, '.');
    lemma_split_single(host, '.');
    lemma_split_single(user, '.');
    assert(seq![host] + seq![user] == seq![host, user]);
}

proof fn lemma_split_prefix()
    ensures
        split_on("time"@.push('.') + "obs"@, '.') == seq!["time"@, "obs"@],
{
    reveal_strlit("time");
    reveal_strlit("obs");
    lemma_split_names("time"@, "obs"@);
}

/// The view of what parsing a message returned.
pub open spec fn parse_result_view(
    result: Result<ScreenTimeEvent, ParseError>,
) -> Result<EventView, ParseErrorView> {
    match result {
        Ok(event) => Ok(event@),
        Err(error) => Err(error@),
    }
}

/// The host and user that `subject` names, if it has the form `time.obs.<host>.<user>`,
/// possibly with further parts.
pub fn parse_subject(subject: &str) -> (names: Option<(String, String)>)
    ensures
        match names {
            Some((host, user)) => subject_names(subject@) == Some((host@, user@)),
            None => subject_names(subject@) is None,
        },
{
    let parts: Vec<&str> = split_text(subject, '.');
    let ghost views = str_views(parts@);
    assert(views.len() == parts.len());
    if parts.len() < 4 {
        return None;
    }
    assert(views[0] == parts@[0]@ && views[1] == parts@[1]@);
    assert(views[2] == parts@[2]@ && views[3] == parts@[3]@);
    if !same_text(parts[0], "time") || !same_text(parts[1], "obs") {
        return None;
    }
    Some((parts[2].to_string(), parts[3].to_string()))
}

/// Builds the event that `document` describes: each duration is the member of its name, zero
/// where that is missing or not a whole number that fits.
pub fn event_from_document(
    host: String,
    user: String,
    document: &serde_json::Value,
    timestamp: Timestamp,
) -> (event: ScreenTimeEvent)
    ensures
        event@ == event_of(host@, user@, json_view(*document), timestamp),
{
    ScreenTimeEvent {
        host,
        user,
        timestamp,
        left_day: integer_member(document, "left_day"),
        spent_balance: integer_member(document, "spent_balance"),
        spent_month: integer_member(document, "spent_month"),
        spent_week: integer_member(document, "spent_week"),
        spent_day: integer_member(document, "spent_day"),
    }
}

/// Parses a NATS message into a screen time event.
///
/// The subject is `time.obs.<host>.<user>`. The payload is JSON text; ill-formed UTF-8 in it
/// is replaced before parsing.
pub fn parse_nats_message(
    subject: &str,
    payload: &[u8],
    timestamp: Timestamp,
) -> (result: Result<ScreenTimeEvent, ParseError>)
    ensures
        parse_result_view(result) == message_event(
            subject@,
            parsed_json(lossy_utf8(payload@)),
            timestamp,
        ),
{
    match parse_subject(subject) {
        None => Err(ParseError::InvalidSubject),
        Some((host, user)) => {
            let text: String = text_from_utf8_lossy(payload);
            match parse_json(text.as_str()) {
                Err(message) => Err(ParseError::InvalidJson(message)),
                Ok(document) => Ok(event_from_document(host, user, &document, timestamp)),
            }
        },
    }
}

/// The key of an event is its host, a colon and its user.
pub proof fn law_key_form(event: EventView)
    ensures
        event.key() == event.host + ":"@ + event.user,
{
    reveal_strlit(":");
    assert(":"@ == seq![':']);
    assert(event.key() == event.host + ":"@ + event.user);
}

/// The subject of a host and user is `time.obs.`, the host, a dot and the user.
pub proof fn law_event_subject_form(host: Seq<char>, user: Seq<char>)
    ensures
        event_subject(host, user) == "time.obs."@ + host + "."@ + user,
{
    reveal_strlit("time");
    reveal_strlit("obs");
    reveal_strlit("time.obs.");
    reveal_strlit(".");
    assert("time.obs."@ == "time"@ + seq!['.'] + "obs"@ + seq!['.']);
    assert("."@ == seq!['.']);
    assert(event_subject(host, user) == "time.obs."@ + host + "."@ + user);
}

/// A subject names a host and a user exactly where these hold no dot and the subject is
/// `time.obs.<host>.<user>`, or that followed by a dot and anything else.
pub proof fn law_subject_names_exactly(subject: Seq<char>, host: Seq<char>, user: Seq<char>)
    ensures
        subject_names(subject) == Some((host, user)) <==> {
            &&& !host.contains('.')
            &&& !user.contains('.')
            &&& {
                ||| subject == "time.obs."@ + host + "."@ + user
                ||| ("time.obs."@ + host + "."@ + user + "."@).is_prefix_of(subject)
            }
        },
{
    law_event_subject_form(host, user);
    reveal_strlit(".");
    let plain = event_subject(host, user);
    let dotted = plain + "."@;
    assert("."@ == seq!['.']);
    assert(dotted == plain.push('.'));
    if !host.contains('.') && !user.contains('.') {
        law_event_subject_names(host, user);
        if dotted.is_prefix_of(subject) {
            let rest = subject.skip(dotted.len() as int);
            assert(subject == dotted + rest);
            law_further_parts_ignored(plain, rest);
        }
    }
    if subject_names(subject) == Some((host, user)) {
        law_subject_names_sound(subject);
        if subject != plain {
            lemma_named_subject_goes_on_with_dot(subject);
        }
    }
}

proof fn lemma_named_subject_goes_on_with_dot(subject: Seq<char>)
    requires
        subject_names(subject) is Some,
    ensures
        ({
            let (host, user) = subject_names(subject)->0;
            ||| subject == event_subject(host, user)
            ||| event_subject(host, user).push('.').is_prefix_of(subject)
        }),
{
    law_split_join(subject, '.');
    let parts = split_on(subject, '.');
    let (host, user) = subject_names(subject)->0;
    let head = parts.take(4);
    assert(head == seq!["time"@, "obs"@, host, user]);
    assert(head.drop_last() == seq!["time"@, "obs"@, host]);
    assert(head.drop_last().drop_last() == seq!["time"@, "obs"@]);
    assert(head.drop_last().drop_last().drop_last() == seq!["time"@]);
    reveal_with_fuel(join_with, 5);
    assert(join_with(head, '.') == event_subject(host, user));
    if parts.len() == 4 {
        assert(head == parts);
    } else {
        lemma_join_take_prefix(parts, 5, '.');
        let more = parts.take(5);
        assert(more.drop_last() == head);
        assert(join_with(more, '.') == join_with(head, '.').push('.') + more.last());
        assert(event_subject(host, user).push('.').is_prefix_of(join_with(more, '.')));
    }
}

/// What a message comes to, part by part. The subject is looked at first, then the payload. The
/// host and user of an event are those of the subject, its time is the one given, and each of
/// its durations is the whole number that the document gives under that name and that fits, or
/// zero; no duration depends on another member.
pub proof fn law_message_is_read_part_by_part(
    subject: Seq<char>,
    document: Result<JsonView, Seq<char>>,
    timestamp: Timestamp,
    n: i64,
)
    ensures
        match message_event(subject, document, timestamp) {
            Err(ParseErrorView::InvalidSubject) => subject_names(subject) is None,
            Err(ParseErrorView::InvalidJson(message)) => subject_names(subject) is Some
                && document == Err::<JsonView, Seq<char>>(message),
            Ok(event) => {
                &&& subject_names(subject) == Some((event.host, event.user))
                &&& document is Ok
                &&& event.timestamp == timestamp
            },
        },
        message_event(subject, document, timestamp) matches Ok(event) ==> {
            let given = Some(JsonView::Integer(n as int));
            let members = document->Ok_0;
            &&& members.member("left_day"@) == given ==> event.left_day == n
            &&& members.member("spent_balance"@) == given ==> event.spent_balance == n
            &&& members.member("spent_month"@) == given ==> event.spent_month == n
            &&& members.member("spent_week"@) == given ==> event.spent_week == n
            &&& members.member("spent_day"@) == given ==> event.spent_day == n
        },
        message_event(subject, document, timestamp) matches Ok(event) ==> {
            let members = document->Ok_0;
            &&& event.left_day != 0 ==> members.member("left_day"@) == Some(
                JsonView::Integer(event.left_day as int),
            )
            &&& event.spent_balance != 0 ==> members.member("spent_balance"@) == Some(
                JsonView::Integer(event.spent_balance as int),
            )
            &&& event.spent_month != 0 ==> members.member("spent_month"@) == Some(
                JsonView::Integer(event.spent_month as int),
            )
            &&& event.spent_week != 0 ==> members.member("spent_week"@) == Some(
                JsonView::Integer(event.spent_week as int),
            )
            &&& event.spent_day != 0 ==> members.member("spent_day"@) == Some(
                JsonView::Integer(event.spent_day as int),
            )
        },
{
}

/// The event that a document describes takes each duration from the member of its name: the
/// number there, where it is whole and fits, and zero otherwise.
pub proof fn law_durations_come_member_by_member(
    host: Seq<char>,
    user: Seq<char>,
    document: JsonView,
    timestamp: Timestamp,
    n: i64,
)
    ensures
        ({
            let event = event_of(host, user, document, timestamp);
            let given = Some(JsonView::Integer(n as int));
            &&& event.host == host && event.user == user && event.timestamp == timestamp
            &&& document.member("left_day"@) == given ==> event.left_day == n
            &&& document.member("spent_balance"@) == given ==> event.spent_balance == n
            &&& document.member("spent_month"@) == given ==> event.spent_month == n
            &&& document.member("spent_week"@) == given ==> event.spent_week == n
            &&& document.member("spent_day"@) == given ==> event.spent_day == n
            &&& n != 0 && event.left_day == n ==> document.member("left_day"@) == given
            &&& n != 0 && event.spent_balance == n ==> document.member("spent_balance"@) == given
            &&& n != 0 && event.spent_month == n ==> document.member("spent_month"@) == given
            &&& n != 0 && event.spent_week == n ==> document.member("spent_week"@) == given
            &&& n != 0 && event.spent_day == n ==> document.member("spent_day"@) == given
        }),
{
}

/// Every error keeps the wording it has: a wrong subject is called an invalid subject format,
/// and a JSON error is passed on as it is.
pub proof fn law_parse_errors_are_worded(message: Seq<char>)
    ensures
        ParseErrorView::InvalidSubject.message() == "Invalid subject format"@,
        ParseErrorView::InvalidJson(message).message() == message,
{
}

/// A view leaves nothing out and changes nothing: it has the texts and numbers of the event, and
/// of the error, that it is the view of.
pub proof fn law_event_views_are_faithful(event: ScreenTimeEvent, error: ParseError)
    ensures
        event@.host == event.host@,
        event@.user == event.user@,
        event@.timestamp == event.timestamp,
        event@.left_day == event.left_day,
        event@.spent_balance == event.spent_balance,
        event@.spent_month == event.spent_month,
        event@.spent_week == event.spent_week,
        event@.spent_day == event.spent_day,
        error is InvalidSubject <==> error@ is InvalidSubject,
        error matches ParseError::InvalidJson(message) ==> error@ == ParseErrorView::InvalidJson(
            message@,
        ),
        parse_result_view(Ok(event)) == Ok::<EventView, ParseErrorView>(event@),
        parse_result_view(Err(error)) == Err::<EventView, ParseErrorView>(error@),
{
}

} // verus!
