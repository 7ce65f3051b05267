//! What subscribers and clients are told, and when.
use crate::actions::ApiError;
use crate::client;
use crate::client::{ClipCorrelation, TrackedId};
use crate::daemon;
use crate::daemon::subscription;
use crate::daemon::subscription::{
    HistoryEvent, HistoryObserver, HistoryState, HistoryUpdate, RequestedStreams,
};
use crate::daemon::Cancelled;
use crate::limit;
use crate::limit::{InvalidLimit, LimitFile};
use crate::protocol;
use crate::protocol::stream;
use crate::text;
use vstd::prelude::*;
use vstd::string::*;
use vstd::utf8::*;

verus! {

/// The names of the streams.
pub open spec fn stream_names() -> Seq<Seq<char>> {
    seq![
        "clipboard.history.changed"@,
        "clipboard.current.changed"@,
        "clipboard.operation"@,
        "clipboard.capture.changed"@,
        "clipboard.session"@,
    ]
}

proof fn streams_are_named()
    ensures
        stream::HISTORY@ == stream_names()[0],
        stream::CURRENT@ == stream_names()[1],
        stream::OPERATION@ == stream_names()[2],
        stream::CAPTURE@ == stream_names()[3],
        stream::SESSION@ == stream_names()[4],
{
}

/// A stream is known by its name, and no other name is one.
pub proof fn streams_are_known_by_name(name: &str, known: bool)
    requires
        call_ensures(protocol::is_stream, (name,), known),
    ensures
        known <==> exists|i: int| 0 <= i < 5 && #[trigger] stream_names()[i] == name@,
{
    streams_are_named();
    if known {
        assert(stream_names()[0] == name@ || stream_names()[1] == name@ || stream_names()[2]
            == name@ || stream_names()[3] == name@ || stream_names()[4] == name@);
    }
}

/// A subscription is to the streams that are named, at least one and none unknown.
pub proof fn subscriptions_are_to_what_is_named(
    streams: &[String],
    requested: Option<RequestedStreams>,
)
    requires
        call_ensures(RequestedStreams::parse, (streams,), requested),
    ensures
        requested is Some <==> streams@.len() > 0 && forall|i: int|
            0 <= i < streams@.len() ==> exists|k: int|
                0 <= k < 5 && #[trigger] stream_names()[k] == (#[trigger] streams@[i])@,
        requested matches Some(requested) ==> {
            &&& requested.history <==> exists|i: int|
                0 <= i < streams@.len() && (#[trigger] streams@[i])@ == stream_names()[0]
            &&& requested.current <==> exists|i: int|
                0 <= i < streams@.len() && (#[trigger] streams@[i])@ == stream_names()[1]
            &&& requested.operation <==> exists|i: int|
                0 <= i < streams@.len() && (#[trigger] streams@[i])@ == stream_names()[2]
            &&& requested.lifecycle <==> exists|i: int|
                0 <= i < streams@.len() && ((#[trigger] streams@[i])@ == stream_names()[2]
                    || streams@[i]@ == stream_names()[3] || streams@[i]@ == stream_names()[4])
        },
{
    streams_are_named();
    assert forall|i: int| 0 <= i < streams@.len() implies (protocol::stream_name(
        (#[trigger] streams@[i])@,
    ) <==> exists|k: int| 0 <= k < 5 && #[trigger] stream_names()[k] == streams@[i]@) by {
        if protocol::stream_name(streams@[i]@) {
            assert(stream_names()[0] == streams@[i]@ || stream_names()[1] == streams@[i]@
                || stream_names()[2] == streams@[i]@ || stream_names()[3] == streams@[i]@
                || stream_names()[4] == streams@[i]@);
        }
    }
}

/// The history is watched for whoever listens to it or to the current entry.
pub proof fn the_history_is_watched_for_listeners(requested: RequestedStreams, watched: bool)
    requires
        call_ensures(RequestedStreams::watches_clipboard, (requested,), watched),
    ensures
        watched <==> requested.history || requested.current,
{
}

/// A state of the history is told exactly where it is another one than was told last,
/// or the first after an outage; an outage is told once.
pub proof fn news_is_told_once(
    before: HistoryState,
    found: Result<u64, ApiError>,
    after: HistoryState,
    update: Option<HistoryUpdate>,
)
    requires
        exists|asked: &mut HistoryState|
            *asked == before && *final(asked) == after && #[trigger] call_ensures(
                HistoryState::update,
                (asked, found),
                update,
            ),
    ensures
        found matches Ok(token) ==> {
            &&& before.unavailable || before.previous != Some(token) ==> update == Some(
                HistoryUpdate::Changed(token),
            )
            &&& !before.unavailable && before.previous == Some(token) ==> update is None
            &&& after.previous == Some(token)
            &&& !after.unavailable
        },
        found matches Err(error) ==> {
            &&& before.unavailable ==> update is None
            &&& !before.unavailable ==> update == Some(HistoryUpdate::Unavailable(error))
            &&& after.unavailable
            &&& after.previous == before.previous
        },
{
}

/// Each change that is sent has a number of its own, one more than the last, and says
/// which state of the history it is.
pub proof fn changes_are_numbered(
    before: HistoryObserver,
    found: Result<u64, ApiError>,
    after: HistoryObserver,
    event: Option<HistoryEvent>,
)
    requires
        before.revision < u64::MAX,
        exists|asked: &mut HistoryObserver|
            *asked == before && *final(asked) == after && #[trigger] call_ensures(
                HistoryObserver::observe,
                (asked, found),
                event,
            ),
    ensures
        event matches Some(HistoryEvent::Changed { revision, history_revision }) ==> revision
            == before.revision + 1 && after.revision == revision && found == Ok::<u64, ApiError>(
            history_revision,
        ),
        !(event is Some && event->0 is Changed) ==> after.revision == before.revision,
        found is Ok && (before.state.unavailable || before.state.previous != Some(found->Ok_0))
            ==> event is Some && event->0 is Changed,
        found is Ok && !before.state.unavailable && before.state.previous == Some(found->Ok_0)
            ==> event is None,
        found is Err && !before.state.unavailable ==> event == Some(
            HistoryEvent::Unavailable(found->Err_0),
        ),
        found is Err && before.state.unavailable ==> event is None,
{
}

/// Once nobody listens, the next listener is told the state of the history again.
pub proof fn new_listeners_are_told(
    before: HistoryObserver,
    rested: HistoryObserver,
    token: u64,
    after: HistoryObserver,
    event: Option<HistoryEvent>,
)
    requires
        exists|asked: &mut HistoryObserver|
            *asked == before && *final(asked) == rested && #[trigger] call_ensures(
                HistoryObserver::rest,
                (asked,),
                (),
            ),
        exists|asked: &mut HistoryObserver|
            *asked == rested && *final(asked) == after && #[trigger] call_ensures(
                HistoryObserver::observe,
                (asked, Ok(token)),
                event,
            ),
    ensures
        event is Some && event->0 is Changed,
        rested.revision == before.revision,
{
}

/// A change goes to the streams that were asked for, and to no other, under the name
/// that it has there.
pub proof fn changes_go_to_their_streams(
    requested: RequestedStreams,
    available: bool,
    events: Vec<(&'static str, &'static str)>,
    i: int,
)
    requires
        call_ensures(subscription::emissions, (requested, available), events),
    ensures
        requested.history && requested.current ==> events@.len() == 2,
        requested.history != requested.current ==> events@.len() == 1,
        !requested.history && !requested.current ==> events@.len() == 0,
        requested.history ==> events@[0].0@ == "clipboard.history.changed"@,
        requested.history && available ==> events@[0].1@ == "reset"@,
        requested.current ==> events@.last().0@ == "clipboard.current.changed"@,
        requested.current && available ==> events@.last().1@ == "changed"@,
        !available && 0 <= i < events@.len() ==> events@[i].1@ == "unavailable"@,
{
    let all = Seq::new(events@.len(), |i: int| (events@[i].0@, events@[i].1@));
    assert(all.len() == events@.len());
    if events@.len() > 0 {
        assert(all[0] == (events@[0].0@, events@[0].1@));
        assert(all[all.len() - 1] == (events@.last().0@, events@.last().1@));
    }
    if 0 <= i < events@.len() {
        assert(all[i] == (events@[i].0@, events@[i].1@));
    }
}

/// An event goes to whoever asked for its stream.
pub proof fn events_go_to_their_listeners(streams: &[String], name: &str, sent: bool)
    requires
        call_ensures(subscription::forwards, (streams, name), sent),
    ensures
        sent <==> exists|i: int| 0 <= i < streams@.len() && (#[trigger] streams@[i])@ == name@,
{
}

/// Whoever missed events of an operation is told that it failed, of the capture that it
/// changed, and of a session to look for themselves; the history needs no such word.
pub proof fn missed_events_are_made_up_for(name: &str, event: Option<&'static str>)
    requires
        call_ensures(subscription::lag_event, (name,), event),
    ensures
        name@ == "clipboard.operation"@ ==> (event matches Some(event) && event@ == "failed"@),
        name@ == "clipboard.capture.changed"@ ==> (event matches Some(event) && event@
            == "changed"@),
        name@ == "clipboard.session"@ ==> (event matches Some(event) && event@ == "fallback"@),
        name@ == "clipboard.history.changed"@ || name@ == "clipboard.current.changed"@
            ==> event is None,
{
    reveal_strlit("clipboard.operation");
    reveal_strlit("clipboard.capture.changed");
    reveal_strlit("clipboard.session");
    reveal_strlit("clipboard.history.changed");
    reveal_strlit("clipboard.current.changed");
    assert("clipboard.operation"@.len() == 19);
    assert("clipboard.capture.changed"@.len() == 25);
    assert("clipboard.session"@.len() == 17);
    assert("clipboard.history.changed"@.len() == 25);
    assert("clipboard.current.changed"@.len() == 25);
    assert("clipboard.history.changed"@[10] != "clipboard.capture.changed"@[10]);
    assert("clipboard.current.changed"@[11] != "clipboard.capture.changed"@[11]);
}

/// Cancelling tries subscriptions first, then operations, and says where there was
/// neither.
pub proof fn cancelling_says_what_was_cancelled(
    request_id: &str,
    subscription: bool,
    operation: bool,
    result: Result<Cancelled, ApiError>,
)
    requires
        call_ensures(daemon::cancelled, (request_id, subscription, operation), result),
    ensures
        subscription ==> (result matches Ok(what) && what is Subscription),
        !subscription && operation ==> (result matches Ok(what) && what is Operation),
        !subscription && !operation ==> (result matches Err(error) && error.code@
            == "request-not-found"@),
{
}

/// A reply begins the operation that it names, else the subscription; an event belongs
/// to the one whose stream it is on, and the last of an operation is told by its name.
pub proof fn replies_and_events_belong_together(
    correlation: ClipCorrelation,
    operation: Option<String>,
    subscription: Option<String>,
    begun: Option<TrackedId>,
    name: &str,
    id: Option<String>,
    event: Option<&str>,
    last: bool,
)
    requires
        call_ensures(ClipCorrelation::response_id, (&correlation, operation, subscription), begun),
        call_ensures(
            ClipCorrelation::event_id,
            (&correlation, name, operation, subscription),
            id,
        ),
        call_ensures(ClipCorrelation::is_terminal, (&correlation, name, event), last),
    ensures
        operation is Some ==> begun is Some && begun->0.id == operation->0
            && begun->0.kind is Operation,
        operation is None && subscription is Some ==> begun is Some && begun->0.id
            == subscription->0 && begun->0.kind is Subscription,
        operation is None && subscription is None ==> begun is None,
        name@ == "clipboard.operation"@ ==> id == operation,
        name@ != "clipboard.operation"@ ==> id == subscription,
        last <==> name@ == "clipboard.operation"@ && (event matches Some(event) && (event@
            == "completed"@ || event@ == "failed"@ || event@ == "cancelled"@)),
{
}

/// A reply counts as accepted only where it says so; else it is refused with what it
/// says, or with what the caller has to say for it.
pub proof fn replies_must_say_that_they_accept(
    accepted: Option<bool>,
    message: Option<String>,
    otherwise: &str,
    result: Result<(), String>,
    length: u64,
    fits: Result<(), String>,
)
    requires
        call_ensures(client::reply_outcome, (accepted, message, otherwise), result),
        call_ensures(client::validate_input, (length,), fits),
    ensures
        result is Ok <==> accepted == Some(true),
        result is Err && message is Some ==> result->Err_0@ == message->0@,
        result is Err && message is None ==> result->Err_0@ == otherwise@,
        fits is Ok <==> length <= 64 * 1024 * 1024,
{
}

/// A limit is what its file says, in digits with white space around them or not, from
/// 64 KiB to 512 MiB, and never more than 64 MiB is in force; anything else is none.
pub proof fn limits_are_what_their_file_says(
    n: u64,
    written: String,
    contents: Vec<u8>,
    read: Result<u64, InvalidLimit>,
)
    requires
        call_ensures(text::format_u64, (n,), written),
        contents@ == encode_utf8(written@),
        valid_utf8(contents@),
        decode_utf8(contents@) == written@,
        contents@.len() <= 32,
        call_ensures(limit::load, (&LimitFile::Contents(contents),), read),
    ensures
        65_536 <= n <= 67_108_864 ==> read == Ok::<u64, InvalidLimit>(n),
        67_108_864 < n <= 536_870_912 ==> read == Ok::<u64, InvalidLimit>(67_108_864),
        n < 65_536 || n > 536_870_912 ==> read is Err,
{
    text::numeral_of_decimal(n as nat);
    text::decimal_is_digits(n as nat);
    assert('0' <= written@[0] <= '9');
    assert('0' <= written@.last() <= '9');
    text::trimmed_is_same(written@);
}

} // verus!
