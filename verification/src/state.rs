//! The screen time data that the service keeps: the latest events of every user on every host.
use vstd::prelude::*;

use crate::event::{law_key_form, EventView, ScreenTimeEvent};

verus! {

/// How many events are kept for one user on one host.
pub const MAX_HISTORY: usize = 1000;

/// The events kept under one key.
struct UserHistory {
    key: String,
    events: Vec<ScreenTimeEvent>,
}

/// The screen time data of the service: for each key `host:user` the events received, oldest
/// first.
pub struct AppState {
    screen_time_data: Vec<UserHistory>,
}

/// The views of `events`, in order.
pub open spec fn event_views(events: Seq<ScreenTimeEvent>) -> Seq<EventView> {
    Seq::new(events.len(), |i: int| events[i]@)
}

spec fn history_map(histories: Seq<UserHistory>) -> Map<Seq<char>, Seq<EventView>>
    decreases histories.len(),
{
    if histories.len() == 0 {
        Map::empty()
    } else {
        history_map(histories.drop_last()).insert(
            histories.last().key@,
            event_views(histories.last().events@),
        )
    }
}

spec fn keys_distinct(histories: Seq<UserHistory>) -> bool {
    forall|i: int, j: int|
        0 <= i < j < histories.len() ==> (#[trigger] histories[i]).key@ != (#[trigger] histories[j]).key@
}

impl View for AppState {
    type V = Map<Seq<char>, Seq<EventView>>;

    closed spec fn view(&self) -> Map<Seq<char>, Seq<EventView>> {
        history_map(self.screen_time_data@)
    }
}

/// What holds of the data at all times: every history has at least one and at most
/// [`MAX_HISTORY`] events, all of them under their own key.
pub open spec fn data_valid(data: Map<Seq<char>, Seq<EventView>>) -> bool {
    &&& data.dom().finite()
    &&& forall|key: Seq<char>| #[trigger]
        data.contains_key(key) ==> {
            &&& 1 <= data[key].len() <= MAX_HISTORY
            &&& forall|i: int| 0 <= i < data[key].len() ==> (#[trigger] data[key][i]).key() == key
        }
}

/// The events kept under `key`, none where the key is unknown.
pub open spec fn history_of(data: Map<Seq<char>, Seq<EventView>>, key: Seq<char>) -> Seq<EventView> {
    if data.contains_key(key) {
        data[key]
    } else {
        Seq::empty()
    }
}

/// A history after `event` has been added to it: the oldest event leaves where there would be
/// more than [`MAX_HISTORY`].
pub open spec fn with_event(history: Seq<EventView>, event: EventView) -> Seq<EventView> {
    let all = history.push(event);
    if all.len() > MAX_HISTORY {
        all.drop_first()
    } else {
        all
    }
}

/// The data after `event` has been recorded.
pub open spec fn with_recorded(
    data: Map<Seq<char>, Seq<EventView>>,
    event: EventView,
) -> Map<Seq<char>, Seq<EventView>> {
    data.insert(event.key(), with_event(history_of(data, event.key()), event))
}

/// `events` are the most recent events of the keys in `data`, each key once.
pub open spec fn latest_of_each(
    data: Map<Seq<char>, Seq<EventView>>,
    events: Seq<EventView>,
) -> bool {
    &&& forall|i: int|
        0 <= i < events.len() ==> data.contains_key((#[trigger] events[i]).key()) && events[i]
            == data[events[i].key()].last()
    &&& forall|i: int, j: int|
        0 <= i < j < events.len() ==> (#[trigger] events[i]).key() != (#[trigger] events[j]).key()
    &&& forall|key: Seq<char>| #[trigger]
        data.contains_key(key) ==> exists|i: int|
            0 <= i < events.len() && (#[trigger] events[i]).key() == key
}

/// `listing` holds every key of `data` once, with the events kept under it.
pub open spec fn lists_data(
    data: Map<Seq<char>, Seq<EventView>>,
    listing: Seq<(String, Vec<ScreenTimeEvent>)>,
) -> bool {
    &&& forall|i: int|
        0 <= i < listing.len() ==> data.contains_key((#[trigger] listing[i]).0@)
            && data[listing[i].0@] == event_views(listing[i].1@)
    &&& forall|i: int, j: int|
        0 <= i < j < listing.len() ==> (#[trigger] listing[i]).0@ != (#[trigger] listing[j]).0@
    &&& forall|key: Seq<char>| #[trigger]
        data.contains_key(key) ==> exists|i: int|
            0 <= i < listing.len() && (#[trigger] listing[i]).0@ == key
}

proof fn lemma_recorded_valid(data: Map<Seq<char>, Seq<EventView>>, event: EventView)
    requires
        data_valid(data),
    ensures
        data_valid(with_recorded(data, event)),
{
    let after = with_recorded(data, event);
    assert forall|key: Seq<char>| #[trigger] after.contains_key(key) implies {
        &&& 1 <= after[key].len() <= MAX_HISTORY
        &&& forall|i: int| 0 <= i < after[key].len() ==> (#[trigger] after[key][i]).key() == key
    } by {
        if key == event.key() {
            let kept = history_of(data, key);
            assert forall|i: int| 0 <= i < after[key].len() implies (
            #[trigger] after[key][i]).key() == key by {
                let shift: int = if kept.len() + 1 > MAX_HISTORY { 1 } else { 0 };
                assert(after[key][i] == kept.push(event)[i + shift]);
                if i + shift < kept.len() {
                    assert(data.contains_key(key));
                    assert(kept[i + shift].key() == key);
                }
            }
        } else {
            assert(data.contains_key(key));
        }
    }
}

/// The data after recording `events`, in order, from an empty state.
pub open spec fn replay(events: Seq<EventView>) -> Map<Seq<char>, Seq<EventView>>
    decreases events.len(),
{
    if events.len() == 0 {
        Map::empty()
    } else {
        with_recorded(replay(events.drop_last()), events.last())
    }
}

/// Those of `events` that belong under `key`, in order.
pub open spec fn events_under(events: Seq<EventView>, key: Seq<char>) -> Seq<EventView>
    decreases events.len(),
{
    if events.len() == 0 {
        events
    } else {
        let before = events_under(events.drop_last(), key);
        if events.last().key() == key {
            before.push(events.last())
        } else {
            before
        }
    }
}

/// The last `n` elements of `events`, all of them where there are no more.
pub open spec fn last_events(events: Seq<EventView>, n: int) -> Seq<EventView> {
    if events.len() <= n {
        events
    } else {
        events.skip(events.len() - n)
    }
}

/// However many events arrive, what is kept under a key is exactly the last [`MAX_HISTORY`]
/// events of that key in the order of their arrival, and a key is known as soon as an event
/// of it has arrived.
pub proof fn law_history_is_latest(events: Seq<EventView>, key: Seq<char>)
    ensures
        replay(events).contains_key(key) <==> events_under(events, key).len() > 0,
        history_of(replay(events), key) == last_events(
            events_under(events, key),
            MAX_HISTORY as int,
        ),
    decreases events.len(),
{
    if events.len() > 0 {
        let before = events.drop_last();
        law_history_is_latest(before, key);
        if events.last().key() == key {
            let all = events_under(before, key);
            let kept = last_events(all, MAX_HISTORY as int);
            assert(with_event(kept, events.last()) == last_events(
                all.push(events.last()),
                MAX_HISTORY as int,
            ));
        }
    }
}

/// Recording an event makes it the most recent one of its key and leaves every other key as
/// it was.
pub proof fn law_record_is_local(data: Map<Seq<char>, Seq<EventView>>, event: EventView, other: Seq<char>)
    ensures
        with_recorded(data, event).contains_key(event.key()),
        with_recorded(data, event)[event.key()].last() == event,
        other != event.key() ==> with_recorded(data, event).contains_key(other)
            == data.contains_key(other),
        other != event.key() ==> history_of(with_recorded(data, event), other) == history_of(
            data,
            other,
        ),
{
}

/// The data is valid at the start, and recording keeps it so.
pub proof fn law_data_stays_valid(data: Map<Seq<char>, Seq<EventView>>, event: EventView)
    requires
        data_valid(data),
    ensures
        data_valid(with_recorded(data, event)),
        data_valid(Map::<Seq<char>, Seq<EventView>>::empty()),
{
    lemma_recorded_valid(data, event);
}

/// The data of a consistent state is valid.
pub proof fn law_state_data_valid(state: AppState)
    requires
        state.wf(),
    ensures
        data_valid(state@),
{
}

/// There is one most recent event for each key, so a client is sent as many events on
/// connecting as there are keys.
pub proof fn law_latest_count(data: Map<Seq<char>, Seq<EventView>>, events: Seq<EventView>)
    requires
        data_valid(data),
        latest_of_each(data, events),
    ensures
        events.len() == data.len(),
    decreases events.len(),
{
    if events.len() == 0 {
        assert forall|key: Seq<char>| !data.contains_key(key) by {}
        assert(data.dom() == Set::<Seq<char>>::empty());
    } else {
        let last = events.last();
        let rest = events.drop_last();
        let less = data.remove(last.key());
        assert(data.contains_key(last.key()));
        assert forall|key: Seq<char>| #[trigger] less.contains_key(key) implies exists|i: int|
            0 <= i < rest.len() && (#[trigger] rest[i]).key() == key by {
            assert(data.contains_key(key));
            let i = choose|i: int| 0 <= i < events.len() && (#[trigger] events[i]).key() == key;
            assert(rest[i].key() == key);
        }
        assert forall|i: int| 0 <= i < rest.len() implies less.contains_key(
            (#[trigger] rest[i]).key(),
        ) && rest[i] == less[rest[i].key()].last() by {
            assert(rest[i] == events[i]);
            assert(events[i].key() != events[events.len() - 1].key());
        }
        assert forall|i: int, j: int| 0 <= i < j < rest.len() implies (#[trigger] rest[i]).key()
            != (#[trigger] rest[j]).key() by {
            assert(events[i].key() != events[j].key());
        }
        assert(data_valid(less)) by {
            assert forall|key: Seq<char>| #[trigger] less.contains_key(key) implies {
                &&& 1 <= less[key].len() <= MAX_HISTORY
                &&& forall|i: int|
                    0 <= i < less[key].len() ==> (#[trigger] less[key][i]).key() == key
            } by {
                assert(data.contains_key(key));
            }
        }
        law_latest_count(less, rest);
    }
}

proof fn lemma_history_map(histories: Seq<UserHistory>)
    requires
        keys_distinct(histories),
    ensures
        forall|i: int|
            0 <= i < histories.len() ==> {
                &&& history_map(histories).contains_key((#[trigger] histories[i]).key@)
                &&& history_map(histories)[histories[i].key@] == event_views(histories[i].events@)
            },
        forall|key: Seq<char>| #[trigger]
            history_map(histories).contains_key(key) ==> exists|i: int|
                0 <= i < histories.len() && (#[trigger] histories[i]).key@ == key,
        history_map(histories).dom().finite(),
        history_map(histories).len() == histories.len(),
    decreases histories.len(),
{
    if histories.len() > 0 {
        let before = histories.drop_last();
        lemma_history_map(before);
        let last = histories.last();
        let map = history_map(histories);
        if history_map(before).contains_key(last.key@) {
            let i = choose|i: int| 0 <= i < before.len() && (#[trigger] before[i]).key@ == last.key@;
            assert(histories[i].key@ == histories[histories.len() - 1].key@);
        }
        assert forall|i: int| 0 <= i < histories.len() implies {
            &&& map.contains_key((#[trigger] histories[i]).key@)
            &&& map[histories[i].key@] == event_views(histories[i].events@)
        } by {
            if i < before.len() {
                assert(before[i] == histories[i]);
                assert(histories[i].key@ != histories[histories.len() - 1].key@);
            }
        }
        assert forall|key: Seq<char>| #[trigger] map.contains_key(key) implies exists|i: int|
            0 <= i < histories.len() && (#[trigger] histories[i]).key@ == key by {
            if key == last.key@ {
                assert(histories[histories.len() - 1].key@ == key);
            } else {
                assert(history_map(before).contains_key(key));
                let i = choose|i: int| 0 <= i < before.len() && (#[trigger] before[i]).key@ == key;
                assert(histories[i].key@ == key);
            }
        }
    }
}

impl AppState {
    /// The state is consistent: no key occurs twice, and the data is valid.
    pub closed spec fn wf(&self) -> bool {
        &&& keys_distinct(self.screen_time_data@)
        &&& data_valid(self@)
    }

    /// A state without any data.
    pub fn new() -> (state: AppState)
        ensures
            state.wf(),
            state@ == Map::<Seq<char>, Seq<EventView>>::empty(),
    {
        AppState { screen_time_data: Vec::new() }
    }

    /// Where the events of `key` are, if there are any.
    fn position(&self, key: &String) -> (found: Option<usize>)
        ensures
            match found {
                Some(i) => i < self.screen_time_data@.len() && self.screen_time_data@[i as int].key@
                    == key@,
                None => forall|i: int|
                    0 <= i < self.screen_time_data@.len() ==> (
                    #[trigger] self.screen_time_data@[i]).key@ != key@,
            },
    {
        let mut i: usize = 0;
        while i < self.screen_time_data.len()
            invariant
                i <= self.screen_time_data@.len(),
                forall|j: int|
                    0 <= j < i ==> (#[trigger] self.screen_time_data@[j]).key@ != key@,
            decreases self.screen_time_data@.len() - i,
        {
            if self.screen_time_data[i].key == *key {
                return Some(i);
            }
            i = i + 1;
        }
        None
    }

    /// Records `event` under its key, dropping the oldest event of that key where more than
    /// [`MAX_HISTORY`] would be kept. Nothing else changes. Returns the key.
    pub fn record(&mut self, event: ScreenTimeEvent) -> (key: String)
        requires
            old(self).wf(),
        ensures
            final(self).wf(),
            final(self)@ == with_recorded(old(self)@, event@),
            key@ == event@.key(),
    {
        let key: String = event.key();
        let ghost before = self.screen_time_data@;
        let ghost data = self@;
        let ghost event_view = event@;
        proof {
            lemma_history_map(before);
        }
        match self.position(&key) {
            Some(i) => {
                let ghost kept = before[i as int].events@;
                assert(data[key@] == event_views(kept));
                let events: &mut Vec<ScreenTimeEvent> = &mut self.screen_time_data[i].events;
                events.push(event);
                if events.len() > MAX_HISTORY {
                    events.remove(0);
                }
                proof {
                    let after = self.screen_time_data@;
                    assert(after.len() == before.len());
                    assert(after[i as int].key@ == before[i as int].key@);
                    assert(event_views(after[i as int].events@) == with_event(
                        event_views(kept),
                        event_view,
                    ));
                    assert forall|a: int, b: int| 0 <= a < b < after.len() implies (
                    #[trigger] after[a]).key@ != (#[trigger] after[b]).key@ by {
                        assert(before[a].key@ != before[b].key@);
                    }
                    lemma_history_map(after);
                    assert forall|k: Seq<char>|
                        history_map(after).contains_key(k) <==> data.contains_key(k) by {
                        if history_map(after).contains_key(k) {
                            let j = choose|j: int|
                                0 <= j < after.len() && (#[trigger] after[j]).key@ == k;
                            assert(before[j].key@ == k);
                        }
                        if data.contains_key(k) {
                            let j = choose|j: int|
                                0 <= j < before.len() && (#[trigger] before[j]).key@ == k;
                            assert(after[j].key@ == k);
                        }
                    }
                    assert forall|k: Seq<char>| #[trigger]
                        history_map(after).contains_key(k) implies history_map(after)[k]
                        == with_recorded(data, event_view)[k] by {
                        let j = choose|j: int|
                            0 <= j < after.len() && (#[trigger] after[j]).key@ == k;
                        assert(before[j].key@ == k);
                        if j != i {
                            assert(after[j] == before[j]);
                            assert(before[j].key@ != before[i as int].key@);
                        }
                    }
                    assert(self@ == with_recorded(data, event_view));
                    lemma_recorded_valid(data, event_view);
                }
            },
            None => {
                let mut events: Vec<ScreenTimeEvent> = Vec::new();
                events.push(event);
                assert(event_views(events@) == seq![event_view]);
                self.screen_time_data.push(UserHistory { key: key.clone(), events });
                proof {
                    let after = self.screen_time_data@;
                    assert(after.drop_last() == before);
                    if data.contains_key(key@) {
                        let j = choose|j: int|
                            0 <= j < before.len() && (#[trigger] before[j]).key@ == key@;
                        assert(before[j].key@ != key@);
                    }
                    assert(Seq::<EventView>::empty().push(event_view) == seq![event_view]);
                    assert(self@ == with_recorded(data, event_view));
                    lemma_recorded_valid(data, event_view);
                }
            },
        }
        key
    }

    /// The most recent event of every key, each key once, in no particular order.
    pub fn latest_events(&self) -> (events: Vec<ScreenTimeEvent>)
        requires
            self.wf(),
        ensures
            latest_of_each(self@, event_views(events@)),
    {
        let ghost histories = self.screen_time_data@;
        proof {
            lemma_history_map(histories);
        }
        let mut events: Vec<ScreenTimeEvent> = Vec::new();
        let mut i: usize = 0;
        while i < self.screen_time_data.len()
            invariant
                self.wf(),
                histories == self.screen_time_data@,
                i <= histories.len(),
                events@.len() == i,
                forall|j: int|
                    0 <= j < histories.len() ==> {
                        &&& self@.contains_key((#[trigger] histories[j]).key@)
                        &&& self@[histories[j].key@] == event_views(histories[j].events@)
                    },
                forall|j: int|
                    0 <= j < i ==> (#[trigger] events@[j])@ == self@[histories[j].key@].last(),
            decreases histories.len() - i,
        {
            let kept: &Vec<ScreenTimeEvent> = &self.screen_time_data[i].events;
            assert(self@.contains_key(histories[i as int].key@));
            assert(self@[histories[i as int].key@] == event_views(kept@));
            events.push(kept[kept.len() - 1].clone());
            i = i + 1;
        }
        proof {
            let views = event_views(events@);
            assert forall|j: int| 0 <= j < views.len() implies (#[trigger] views[j]).key()
                == histories[j].key@ && self@.contains_key(views[j].key()) && views[j]
                == self@[views[j].key()].last() by {
                let k = histories[j].key@;
                assert(self@.contains_key(k));
                assert(views[j] == events@[j]@);
                assert(self@[k][self@[k].len() - 1].key() == k);
            }
            assert forall|a: int, b: int| 0 <= a < b < views.len() implies (
            #[trigger] views[a]).key() != (#[trigger] views[b]).key() by {
                assert(histories[a].key@ != histories[b].key@);
            }
            assert forall|k: Seq<char>| #[trigger] self@.contains_key(k) implies exists|j: int|
                0 <= j < views.len() && (#[trigger] views[j]).key() == k by {
                let j = choose|j: int|
                    0 <= j < histories.len() && (#[trigger] histories[j]).key@ == k;
                assert(views[j].key() == k);
            }
        }
        events
    }

    /// A copy of all the data: every key with its events, oldest first, the keys in no
    /// particular order.
    pub fn get_screentime_data(&self) -> (data: Vec<(String, Vec<ScreenTimeEvent>)>)
        requires
            self.wf(),
        ensures
            lists_data(self@, data@),
    {
        let ghost histories = self.screen_time_data@;
        proof {
            lemma_history_map(histories);
        }
        let mut data: Vec<(String, Vec<ScreenTimeEvent>)> = Vec::new();
        let mut i: usize = 0;
        while i < self.screen_time_data.len()
            invariant
                histories == self.screen_time_data@,
                i <= histories.len(),
                data@.len() == i,
                forall|j: int|
                    0 <= j < i ==> {
                        &&& (#[trigger] data@[j]).0@ == histories[j].key@
                        &&& event_views(data@[j].1@) == event_views(histories[j].events@)
                    },
            decreases histories.len() - i,
        {
            let history: &UserHistory = &self.screen_time_data[i];
            data.push((history.key.clone(), copy_events(&history.events)));
            i = i + 1;
        }
        proof {
            assert forall|j: int| 0 <= j < data@.len() implies self@.contains_key(
                (#[trigger] data@[j]).0@,
            ) && self@[data@[j].0@] == event_views(data@[j].1@) by {
                assert(self@.contains_key(histories[j].key@));
            }
            assert forall|a: int, b: int| 0 <= a < b < data@.len() implies (
            #[trigger] data@[a]).0@ != (#[trigger] data@[b]).0@ by {
                assert(histories[a].key@ != histories[b].key@);
            }
            assert forall|k: Seq<char>| #[trigger] self@.contains_key(k) implies exists|j: int|
                0 <= j < data@.len() && (#[trigger] data@[j]).0@ == k by {
                let j = choose|j: int|
                    0 <= j < histories.len() && (#[trigger] histories[j]).key@ == k;
                assert(data@[j].0@ == k);
            }
        }
        data
    }
}

/// A copy of `events`.
fn copy_events(events: &Vec<ScreenTimeEvent>) -> (copy: Vec<ScreenTimeEvent>)
    ensures
        event_views(copy@) == event_views(events@),
{
    let mut copy: Vec<ScreenTimeEvent> = Vec::new();
    let mut i: usize = 0;
    while i < events.len()
        invariant
            i <= events@.len(),
            copy@.len() == i,
            forall|j: int| 0 <= j < i ==> (#[trigger] copy@[j])@ == events@[j]@,
        decreases events@.len() - i,
    {
        copy.push(events[i].clone());
        i = i + 1;
    }
    copy
}

/// Recording adds an event behind those of its key and takes nothing else away than, from a full
/// history, its oldest event: up to a thousand events of a key are kept.
pub proof fn law_recording_appends(data: Map<Seq<char>, Seq<EventView>>, event: EventView)
    requires
        data_valid(data),
    ensures
        ({
            let key = event.host + ":"@ + event.user;
            let before = if data.contains_key(key) {
                data[key]
            } else {
                Seq::empty()
            };
            let after = with_recorded(data, event)[key];
            &&& with_recorded(data, event).dom() == data.dom().insert(key)
            &&& before.len() < 1000 ==> after == before + seq![event]
            &&& before.len() >= 1000 ==> after.len() == 1000 && after == before.skip(1) + seq![event]
            &&& forall|other: Seq<char>|
                other != key && data.contains_key(other) ==> #[trigger] with_recorded(
                    data,
                    event,
                )[other] == data[other]
        }),
{
    law_key_form(event);
    let key = event.key();
    let before = history_of(data, key);
    let after = with_recorded(data, event)[key];
    assert(with_recorded(data, event).dom() == data.dom().insert(key));
    if before.len() < 1000 {
        assert(after == before + seq![event]);
    } else {
        assert(data.contains_key(key));
        assert(after == before.skip(1) + seq![event]);
    }
}

/// The data of a consistent state holds, under each key, between one and a thousand events, and
/// all of them are of the host and user that make up the key.
pub proof fn law_kept_events_are_of_their_key(state: AppState, key: Seq<char>, i: int)
    requires
        state.wf(),
        state@.contains_key(key),
        0 <= i < state@[key].len(),
    ensures
        1 <= state@[key].len() <= 1000,
        key == state@[key][i].host + ":"@ + state@[key][i].user,
        state@.dom().finite(),
{
    law_key_form(state@[key][i]);
}

/// The latest events are the last of each history and nothing else, and none of them comes
/// twice.
pub proof fn law_latest_are_last_of_histories(
    data: Map<Seq<char>, Seq<EventView>>,
    events: Seq<EventView>,
)
    requires
        data_valid(data),
        latest_of_each(data, events),
    ensures
        forall|event: EventView| #[trigger]
            events.contains(event) <==> exists|key: Seq<char>|
                data.contains_key(key) && event == (#[trigger] data[key])[data[key].len() - 1],
        events.no_duplicates(),
        events.len() == data.len(),
{
    law_latest_count(data, events);
    assert forall|event: EventView| #[trigger] events.contains(event) implies exists|key: Seq<char>|
        data.contains_key(key) && event == (#[trigger] data[key])[data[key].len() - 1] by {
        let i = choose|i: int| 0 <= i < events.len() && events[i] == event;
        assert(data.contains_key(events[i].key()));
        assert(event == data[event.key()][data[event.key()].len() - 1]);
    }
    assert forall|event: EventView|
        (exists|key: Seq<char>|
            data.contains_key(key) && event == (#[trigger] data[key])[data[key].len()
                - 1]) implies #[trigger] events.contains(event) by {
        let key = choose|key: Seq<char>|
            data.contains_key(key) && event == (#[trigger] data[key])[data[key].len() - 1];
        let i = choose|i: int| 0 <= i < events.len() && (#[trigger] events[i]).key() == key;
        assert(events[i] == data[key].last());
        assert(events[i] == event);
    }
    assert forall|i: int, j: int|
        0 <= i < events.len() && 0 <= j < events.len() && i != j implies events[i]
        != events[j] by {
        if i < j {
            assert(events[i].key() != events[j].key());
        } else {
            assert(events[j].key() != events[i].key());
        }
    }
}

/// A listing has every key of the data in exactly one place, and there exactly the events kept
/// under it, in their order; it has no other keys.
pub proof fn law_listing_is_the_data(
    data: Map<Seq<char>, Seq<EventView>>,
    listing: Seq<(String, Vec<ScreenTimeEvent>)>,
)
    requires
        lists_data(data, listing),
    ensures
        forall|key: Seq<char>| #[trigger]
            data.contains_key(key) <==> exists|i: int|
                0 <= i < listing.len() && (#[trigger] listing[i]).0@ == key,
        forall|i: int, j: int|
            0 <= i < listing.len() && 0 <= j < listing.len() && (#[trigger] listing[i]).0@ == (
            #[trigger] listing[j]).0@ ==> i == j,
        forall|i: int|
            0 <= i < listing.len() ==> data[(#[trigger] listing[i]).0@].len()
                == listing[i].1@.len(),
        forall|i: int, j: int|
            0 <= i < listing.len() && 0 <= j < listing[i].1@.len() ==> (
            #[trigger] listing[i].1@[j])@ == data[listing[i].0@][j],
{
    assert forall|i: int, j: int|
        0 <= i < listing.len() && 0 <= j < listing.len() && (#[trigger] listing[i]).0@ == (
        #[trigger] listing[j]).0@ implies i == j by {
        if i < j {
            assert(listing[i].0@ != listing[j].0@);
        }
        if j < i {
            assert(listing[j].0@ != listing[i].0@);
        }
    }
    assert forall|i: int, j: int| 0 <= i < listing.len() && 0 <= j < listing[i].1@.len() implies (
    #[trigger] listing[i].1@[j])@ == data[listing[i].0@][j] by {
        assert(data[listing[i].0@] == event_views(listing[i].1@));
    }
}

/// The views of events are those of the events, one for one and in order.
pub proof fn law_event_lists_are_viewed_in_order(events: Seq<ScreenTimeEvent>)
    ensures
        event_views(events).len() == events.len(),
        forall|i: int| 0 <= i < events.len() ==> #[trigger] event_views(events)[i] == events[i]@,
{
}

} // verus!
