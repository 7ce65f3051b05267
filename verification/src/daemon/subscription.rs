//! Which events a subscriber gets.
use crate::actions::ApiError;
use crate::protocol;
use crate::protocol::stream;
use crate::text;
use vstd::prelude::*;
use vstd::string::*;

verus! {

/// How often the history is looked at while somebody listens, in milliseconds.
pub const HISTORY_POLL_INTERVAL: u64 = 100;

/// The streams that a subscriber asked for.
#[derive(Debug, Clone, Copy, PartialEq, Eq, Structural)]
pub struct RequestedStreams {
    pub history: bool,
    pub current: bool,
    pub operation: bool,
    pub lifecycle: bool,
}

/// One of the streams has this name.
pub open spec fn wants(streams: Seq<String>, name: Seq<char>) -> bool {
    exists|i: int| 0 <= i < streams.len() && (#[trigger] streams[i])@ == name
}

/// A subscription can be made to these streams: there are some, and all are
/// known.
pub open spec fn supported(streams: Seq<String>) -> bool {
    &&& streams.len() > 0
    &&& forall|i: int| 0 <= i < streams.len() ==> protocol::stream_name((#[trigger] streams[i])@)
}

/// Whether one of the streams has this name.
fn asks_for(streams: &[String], name: &str) -> (result: bool)
    ensures
        result == wants(streams@, name@),
{
    let mut at: usize = 0;
    while at < streams.len()
        invariant
            at <= streams@.len(),
            forall|i: int| 0 <= i < at ==> (#[trigger] streams@[i])@ != name@,
        decreases streams@.len() - at,
    {
        if text::same(streams[at].as_str(), name) {
            return true;
        }
        at = at + 1;
    }
    false
}

impl RequestedStreams {
    /// The streams among `streams`, where a subscription can be made to them.
    pub fn parse(streams: &[String]) -> (requested: Option<Self>)
        ensures
            match requested {
                Some(requested) => {
                    &&& supported(streams@)
                    &&& requested.history == wants(streams@, stream::HISTORY@)
                    &&& requested.current == wants(streams@, stream::CURRENT@)
                    &&& requested.operation == wants(streams@, stream::OPERATION@)
                    &&& requested.lifecycle == (wants(streams@, stream::OPERATION@) || wants(
                        streams@,
                        stream::CAPTURE@,
                    ) || wants(streams@, stream::SESSION@))
                },
                None => !supported(streams@),
            },
    {
        if streams.len() == 0 {
            return None;
        }
        let mut at: usize = 0;
        while at < streams.len()
            invariant
                at <= streams@.len(),
                forall|i: int| 0 <= i < at ==> protocol::stream_name((#[trigger] streams@[i])@),
            decreases streams@.len() - at,
        {
            if !protocol::is_stream(streams[at].as_str()) {
                return None;
            }
            at = at + 1;
        }
        let operation = asks_for(streams, stream::OPERATION);
        Some(
            RequestedStreams {
                history: asks_for(streams, stream::HISTORY),
                current: asks_for(streams, stream::CURRENT),
                operation,
                lifecycle: operation || asks_for(streams, stream::CAPTURE) || asks_for(
                    streams,
                    stream::SESSION,
                ),
            },
        )
    }

    /// Whether the history has to be looked at for the subscriber.
    pub fn watches_clipboard(self) -> (result: bool)
        ensures
            result == (self.history || self.current),
    {
        self.history || self.current
    }
}

/// The error of a subscription that cannot be made.
pub fn unsupported() -> (error: ApiError)
    ensures
        error.is(
            "unsupported-stream"@,
            "Subscription contains no supported clip-api streams"@,
        ),
{
    ApiError::new("unsupported-stream", "Subscription contains no supported clip-api streams")
}

/// What subscribers are told of the history.
#[derive(Debug, PartialEq, Eq)]
pub enum HistoryUpdate {
    /// It changed, to the state with this token.
    Changed(u64),
    /// It cannot be read.
    Unavailable(ApiError),
}

/// What subscribers know of the history.
#[derive(Debug, Clone, Copy, PartialEq, Eq, Structural)]
pub struct HistoryState {
    pub previous: Option<u64>,
    pub unavailable: bool,
}

impl Default for HistoryState {
    fn default() -> (state: Self)
        ensures
            state == (HistoryState { previous: None, unavailable: false }),
    {
        HistoryState { previous: None, unavailable: false }
    }
}

impl HistoryState {
    /// Subscribers have to be told of the state with this token: it is the first
    /// one, another one, or the first after an outage.
    pub open spec fn news(self, token: u64) -> bool {
        self.unavailable || self.previous != Some(token)
    }

    /// Takes in what the history was found as, and gives what subscribers are to
    /// be told of it.
    pub fn update(&mut self, result: Result<u64, ApiError>) -> (update: Option<HistoryUpdate>)
        ensures
            match result {
                Ok(token) => {
                    &&& *final(self) == (HistoryState {
                        previous: Some(token),
                        unavailable: false,
                    })
                    &&& update == if old(self).news(token) {
                        Some(HistoryUpdate::Changed(token))
                    } else {
                        None
                    }
                },
                Err(error) => {
                    &&& *final(self) == (HistoryState {
                        previous: old(self).previous,
                        unavailable: true,
                    })
                    &&& update == if old(self).unavailable {
                        None
                    } else {
                        Some(HistoryUpdate::Unavailable(error))
                    }
                },
            },
    {
        match result {
            Ok(token) => {
                if self.changed(token) {
                    Some(HistoryUpdate::Changed(token))
                } else {
                    None
                }
            },
            Err(error) => {
                let known: bool = self.unavailable;
                self.unavailable = true;
                if known {
                    None
                } else {
                    Some(HistoryUpdate::Unavailable(error))
                }
            },
        }
    }

    /// Takes in the state of the history; whether subscribers are to be told.
    pub fn changed(&mut self, token: u64) -> (changed: bool)
        ensures
            *final(self) == (HistoryState { previous: Some(token), unavailable: false }),
            changed == old(self).news(token),
    {
        let known: bool = match self.previous {
            Some(previous) => previous == token,
            None => false,
        };
        let recovered: bool = self.unavailable;
        self.previous = Some(token);
        self.unavailable = false;
        recovered || !known
    }
}

/// What is not new is not told twice.
pub proof fn each_state_is_told_once(state: HistoryState, token: u64)
    ensures
        !(HistoryState { previous: Some(token), unavailable: false }).news(token),
        (HistoryState { previous: state.previous, unavailable: true }).news(token),
        state.previous is None ==> state.news(token),
{
}

/// The observer of the history: what subscribers know, and how often they were
/// told of a change.
pub struct HistoryObserver {
    pub state: HistoryState,
    pub revision: u64,
}

/// A change that is sent to subscribers.
#[derive(Debug, PartialEq, Eq)]
pub enum HistoryEvent {
    Changed { revision: u64, history_revision: u64 },
    Unavailable(ApiError),
}

impl HistoryObserver {
    pub fn new() -> (observer: Self)
        ensures
            observer.state == (HistoryState { previous: None, unavailable: false }),
            observer.revision == 0,
    {
        HistoryObserver { state: HistoryState::default(), revision: 0 }
    }

    /// Nobody listens: the next listener begins anew.
    pub fn rest(&mut self)
        ensures
            final(self).state == (HistoryState { previous: None, unavailable: false }),
            final(self).revision == old(self).revision,
    {
        self.state = HistoryState::default();
    }

    /// Takes in what the history was found as, and gives what is to be sent.
    pub fn observe(&mut self, result: Result<u64, ApiError>) -> (event: Option<HistoryEvent>)
        ensures
            match result {
                Ok(token) => {
                    &&& final(self).state == (HistoryState {
                        previous: Some(token),
                        unavailable: false,
                    })
                    &&& if old(self).state.news(token) {
                        &&& final(self).revision == if old(self).revision < u64::MAX {
                            old(self).revision + 1
                        } else {
                            0
                        }
                        &&& event == Some(
                            HistoryEvent::Changed {
                                revision: final(self).revision,
                                history_revision: token,
                            },
                        )
                    } else {
                        final(self).revision == old(self).revision && event is None
                    }
                },
                Err(error) => {
                    &&& final(self).state == (HistoryState {
                        previous: old(self).state.previous,
                        unavailable: true,
                    })
                    &&& final(self).revision == old(self).revision
                    &&& event == if old(self).state.unavailable {
                        None
                    } else {
                        Some(HistoryEvent::Unavailable(error))
                    }
                },
            },
    {
        match self.state.update(result) {
            Some(HistoryUpdate::Changed(token)) => {
                self.revision = if self.revision < u64::MAX {
                    self.revision + 1
                } else {
                    0
                };
                Some(
                    HistoryEvent::Changed { revision: self.revision, history_revision: token },
                )
            },
            Some(HistoryUpdate::Unavailable(error)) => Some(HistoryEvent::Unavailable(error)),
            None => None,
        }
    }
}

/// The names of an event of the history on its two streams.
pub open spec fn event_names(available: bool) -> (Seq<char>, Seq<char>) {
    if available {
        ("reset"@, "changed"@)
    } else {
        ("unavailable"@, "unavailable"@)
    }
}

/// The streams on which an event of the history is sent, with its name on each.
pub fn emissions(requested: RequestedStreams, available: bool) -> (events: Vec<
    (&'static str, &'static str),
>)
    ensures
        ({
            let (history, current) = event_names(available);
            let all = Seq::new(events@.len(), |i: int| (events@[i].0@, events@[i].1@));
            all == if requested.history && requested.current {
                seq![(stream::HISTORY@, history), (stream::CURRENT@, current)]
            } else if requested.history {
                seq![(stream::HISTORY@, history)]
            } else if requested.current {
                seq![(stream::CURRENT@, current)]
            } else {
                Seq::empty()
            }
        }),
{
    let (history, current) = if available {
        ("reset", "changed")
    } else {
        ("unavailable", "unavailable")
    };
    let mut events: Vec<(&'static str, &'static str)> = Vec::new();
    if requested.history {
        events.push((stream::HISTORY, history));
    }
    if requested.current {
        events.push((stream::CURRENT, current));
    }
    proof {
        let all = Seq::new(events@.len(), |i: int| (events@[i].0@, events@[i].1@));
        let (first, second) = event_names(available);
        assert(all =~= if requested.history && requested.current {
            seq![(stream::HISTORY@, first), (stream::CURRENT@, second)]
        } else if requested.history {
            seq![(stream::HISTORY@, first)]
        } else if requested.current {
            seq![(stream::CURRENT@, second)]
        } else {
            Seq::empty()
        });
    }
    events
}

/// What is sent on a stream whose events were missed, so that its subscriber
/// looks for itself.
pub fn lag_event(name: &str) -> (event: Option<&'static str>)
    ensures
        match event {
            Some(event) => event@ == if name@ == stream::OPERATION@ {
                "failed"@
            } else if name@ == stream::CAPTURE@ {
                "changed"@
            } else {
                "fallback"@
            } && (name@ == stream::OPERATION@ || name@ == stream::CAPTURE@ || name@
                == stream::SESSION@),
            None => name@ != stream::OPERATION@ && name@ != stream::CAPTURE@ && name@
                != stream::SESSION@,
        },
{
    if text::same(name, stream::OPERATION) {
        Some("failed")
    } else if text::same(name, stream::CAPTURE) {
        Some("changed")
    } else if text::same(name, stream::SESSION) {
        Some("fallback")
    } else {
        None
    }
}

/// Whether an event of this stream goes to a subscriber of these.
pub fn forwards(streams: &[String], name: &str) -> (result: bool)
    ensures
        result == wants(streams@, name@),
{
    asks_for(streams, name)
}

} // verus!
