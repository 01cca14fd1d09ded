//! The client side: how an application's events become log entries, and how the
//! client keeps streaming them to the service across broken calls.
use vstd::prelude::*;

use crate::grpc::{LogEntryRequest, Timestamp};

verus! {

#[verifier::external_type_specification]
#[verifier::external_body]
pub struct ExEndpoint(tonic::transport::Endpoint);

#[verifier::external_type_specification]
#[verifier::external_body]
pub struct ExTransportError(tonic::transport::Error);

/// Whether a text parses as a URI, as `tonic::transport::Endpoint::from_shared`
/// parses it (through `http::Uri`).
pub uninterp spec fn endpoint_uri_valid(text: Seq<char>) -> bool;

/// The URI that an endpoint connects to, as `Endpoint::uri()` gives it,
/// written out.
pub uninterp spec fn endpoint_uri(endpoint: tonic::transport::Endpoint) -> Seq<char>;

/// The URI that a text parses to, written out (`http::Uri`'s parse and display).
pub uninterp spec fn parsed_uri_text(text: Seq<char>) -> Seq<char>;

/// Calls `tonic::transport::Endpoint::from_shared`, which parses the text as a
/// URI and builds an endpoint for that URI, or fails with an invalid-URI error;
/// it connects to nothing.
#[verifier::external_body]
fn endpoint_from_text(text: String) -> (r: Result<tonic::transport::Endpoint, tonic::transport::Error>)
    ensures
        r is Ok <==> endpoint_uri_valid(text@),
        r matches Ok(e) ==> endpoint_uri(e) == parsed_uri_text(text@),
{
    tonic::transport::Endpoint::from_shared(text)
}

/// The endpoint of the service that a client connects to, for the URI parsed
/// from its text; an error exactly when the text is not a URI.
pub fn client_endpoint(endpoint: String) -> (r: Result<tonic::transport::Endpoint, tonic::transport::Error>)
    ensures
        r is Ok <==> endpoint_uri_valid(endpoint@),
        r matches Ok(e) ==> endpoint_uri(e) == parsed_uri_text(endpoint@),
{
    endpoint_from_text(endpoint)
}

/// How many entries the client keeps in its own buffer.
pub const CLIENT_BUFFER_CAPACITY: usize = 1024;

/// How many entries a streaming call keeps in flight.
pub const CALL_BUFFER_CAPACITY: usize = 128;

/// How long the client waits before it opens a new call, in seconds.
pub const RECONNECT_PAUSE_SECONDS: u64 = 5;

/// The severity of an application event.
#[derive(Clone, Copy, Debug, PartialEq, Eq, Structural)]
pub enum EventLevel {
    Trace,
    Debug,
    Info,
    Warn,
    Error,
}

/// The level code sent for a severity: trace and debug are 0, info 1, warn 2 and
/// error 3.
pub open spec fn spec_level_code(level: EventLevel) -> i32 {
    match level {
        EventLevel::Trace => 0,
        EventLevel::Debug => 0,
        EventLevel::Info => 1,
        EventLevel::Warn => 2,
        EventLevel::Error => 3,
    }
}

/// The level code sent for a severity.
pub fn level_code(level: EventLevel) -> (r: i32)
    ensures
        r == spec_level_code(level),
{
    match level {
        EventLevel::Debug => 0,
        EventLevel::Trace => 0,
        EventLevel::Info => 1,
        EventLevel::Warn => 2,
        EventLevel::Error => 3,
    }
}

/// The timestamp of a time elapsed since the Unix epoch: its whole seconds and
/// the nanoseconds within the last second, each taken as a signed number of the
/// timestamp's width.
pub fn timestamp_since_epoch(seconds: u64, subsec_nanos: u32) -> (t: Timestamp)
    ensures
        t.seconds == seconds as i64,
        t.nanos == subsec_nanos as i32,
{
    Timestamp { seconds: seconds as i64, nanos: subsec_nanos as i32 }
}

/// The entry sent for an application event, or none for an event without a
/// message: the event's time, level code, the service's name and the message,
/// without metadata.
pub fn event_entry(service_name: &String, message: String, level: EventLevel, timestamp: Timestamp) -> (r: Option<
    LogEntryRequest,
>)
    ensures
        message@.len() == 0 ==> r is None,
        message@.len() != 0 ==> (r matches Some(e) && {
            &&& e.timestamp == Some(timestamp)
            &&& e.level == spec_level_code(level)
            &&& e.service_name@ == service_name@
            &&& e.message == message
            &&& e.metadata is None
        }),
{
    if message.as_str().is_empty() {
        return None;
    }
    Some(
        LogEntryRequest {
            timestamp: Some(timestamp),
            level: level_code(level),
            service_name: service_name.clone(),
            message,
            metadata: None,
        },
    )
}

/// Where a streaming client stands.
#[derive(Clone, Copy, Debug, PartialEq, Eq, Structural)]
pub enum StreamPhase {
    /// Opening a call to the service.
    Opening,
    /// Waiting for the next entry of the application.
    Receiving,
    /// Handing an entry to the call.
    Forwarding,
    /// Waiting for the call to end.
    Finishing,
    /// Waiting before the next call.
    Pausing,
}

/// What happened since the last action.
#[derive(Clone, Debug, PartialEq)]
pub enum StreamEvent {
    /// The call is open.
    Opened,
    /// The application sent an entry.
    Received(LogEntryRequest),
    /// The application's side of the buffer is closed.
    SourceClosed,
    /// The entry was handed to the call, or the call no longer takes entries.
    Forwarded(bool),
    /// The call ended.
    CallFinished,
    /// The pause elapsed.
    PauseElapsed,
}

/// What the client does next.
#[derive(Clone, Debug, PartialEq)]
pub enum StreamAction {
    /// Open a call that keeps this many entries in flight.
    OpenCall { capacity: usize },
    /// Wait for the next entry of the application.
    Receive,
    /// Hand this entry to the call.
    Forward(LogEntryRequest),
    /// Wait for the call to end.
    AwaitCall,
    /// Wait this many seconds.
    Pause { seconds: u64 },
}

/// Whether an event is the one a phase waits for.
pub open spec fn stream_accepts(phase: StreamPhase, event: StreamEvent) -> bool {
    match (phase, event) {
        (StreamPhase::Opening, StreamEvent::Opened) => true,
        (StreamPhase::Receiving, StreamEvent::Received(_)) => true,
        (StreamPhase::Receiving, StreamEvent::SourceClosed) => true,
        (StreamPhase::Forwarding, StreamEvent::Forwarded(_)) => true,
        (StreamPhase::Finishing, StreamEvent::CallFinished) => true,
        (StreamPhase::Pausing, StreamEvent::PauseElapsed) => true,
        _ => false,
    }
}

/// The next phase and action of a streaming client: an open call receives; a
/// received entry is forwarded as it is; after a forward the client receives
/// again, unless the call no longer takes entries; a closed source or a refused
/// forward ends the call; an ended call is followed by a pause of five seconds,
/// and the pause by a new call.
pub open spec fn stream_transition(phase: StreamPhase, event: StreamEvent) -> (StreamPhase, StreamAction) {
    match (phase, event) {
        (StreamPhase::Opening, StreamEvent::Opened) => (StreamPhase::Receiving, StreamAction::Receive),
        (StreamPhase::Receiving, StreamEvent::Received(entry)) => (
            StreamPhase::Forwarding,
            StreamAction::Forward(entry),
        ),
        (StreamPhase::Receiving, StreamEvent::SourceClosed) => (
            StreamPhase::Finishing,
            StreamAction::AwaitCall,
        ),
        (StreamPhase::Forwarding, StreamEvent::Forwarded(ok)) => if ok {
            (StreamPhase::Receiving, StreamAction::Receive)
        } else {
            (StreamPhase::Finishing, StreamAction::AwaitCall)
        },
        (StreamPhase::Finishing, StreamEvent::CallFinished) => (
            StreamPhase::Pausing,
            StreamAction::Pause { seconds: RECONNECT_PAUSE_SECONDS },
        ),
        (StreamPhase::Pausing, StreamEvent::PauseElapsed) => (
            StreamPhase::Opening,
            StreamAction::OpenCall { capacity: CALL_BUFFER_CAPACITY },
        ),
        _ => (phase, StreamAction::AwaitCall),
    }
}

/// A client that streams entries to the service, call after call.
pub struct StreamSession {
    phase: StreamPhase,
}

impl StreamSession {
    /// Where the client stands.
    pub closed spec fn spec_phase(&self) -> StreamPhase {
        self.phase
    }

    /// A client that first opens a call.
    pub fn start() -> (r: (StreamSession, StreamAction))
        ensures
            r.0.spec_phase() == StreamPhase::Opening,
            r.1 == (StreamAction::OpenCall { capacity: CALL_BUFFER_CAPACITY }),
    {
        (StreamSession { phase: StreamPhase::Opening }, StreamAction::OpenCall { capacity: CALL_BUFFER_CAPACITY })
    }

    /// Where the client stands.
    pub fn phase(&self) -> (r: StreamPhase)
        ensures
            r == self.spec_phase(),
    {
        self.phase
    }

    /// Takes what happened and gives the next action.
    pub fn step(&mut self, event: StreamEvent) -> (a: StreamAction)
        requires
            stream_accepts(old(self).spec_phase(), event),
        ensures
            (final(self).spec_phase(), a) == stream_transition(old(self).spec_phase(), event),
    {
        let (phase, action) = match (self.phase, event) {
            (StreamPhase::Opening, StreamEvent::Opened) => (StreamPhase::Receiving, StreamAction::Receive),
            (StreamPhase::Receiving, StreamEvent::Received(entry)) => (
                StreamPhase::Forwarding,
                StreamAction::Forward(entry),
            ),
            (StreamPhase::Receiving, StreamEvent::SourceClosed) => (
                StreamPhase::Finishing,
                StreamAction::AwaitCall,
            ),
            (StreamPhase::Forwarding, StreamEvent::Forwarded(ok)) => if ok {
                (StreamPhase::Receiving, StreamAction::Receive)
            } else {
                (StreamPhase::Finishing, StreamAction::AwaitCall)
            },
            (StreamPhase::Finishing, StreamEvent::CallFinished) => (
                StreamPhase::Pausing,
                StreamAction::Pause { seconds: RECONNECT_PAUSE_SECONDS },
            ),
            (StreamPhase::Pausing, StreamEvent::PauseElapsed) => (
                StreamPhase::Opening,
                StreamAction::OpenCall { capacity: CALL_BUFFER_CAPACITY },
            ),
            (p, _) => (p, StreamAction::AwaitCall),
        };
        self.phase = phase;
        action
    }
}

/// The phase reached and the actions given when a streaming client takes a
/// sequence of events from a phase, one step at a time.
pub open spec fn stream_run(phase: StreamPhase, events: Seq<StreamEvent>) -> (StreamPhase, Seq<StreamAction>)
    decreases events.len(),
{
    if events.len() == 0 {
        (phase, Seq::empty())
    } else {
        let (next, action) = stream_transition(phase, events[0]);
        let (last, actions) = stream_run(next, events.drop_first());
        (last, seq![action] + actions)
    }
}

/// The events of entries that the application sends and the call takes, one
/// after the other.
pub open spec fn delivery_events(entries: Seq<LogEntryRequest>) -> Seq<StreamEvent>
    decreases entries.len(),
{
    if entries.len() == 0 {
        Seq::empty()
    } else {
        seq![StreamEvent::Received(entries[0]), StreamEvent::Forwarded(true)] + delivery_events(
            entries.drop_first(),
        )
    }
}

/// The actions that hand each entry to the call and then wait for the next.
pub open spec fn delivery_actions(entries: Seq<LogEntryRequest>) -> Seq<StreamAction>
    decreases entries.len(),
{
    if entries.len() == 0 {
        Seq::empty()
    } else {
        seq![StreamAction::Forward(entries[0]), StreamAction::Receive] + delivery_actions(
            entries.drop_first(),
        )
    }
}

/// The actions after the application's side closes: wait for the call, pause
/// five seconds, open a new call.
pub open spec fn reconnect_actions() -> Seq<StreamAction> {
    seq![
        StreamAction::AwaitCall,
        StreamAction::Pause { seconds: RECONNECT_PAUSE_SECONDS },
        StreamAction::OpenCall { capacity: CALL_BUFFER_CAPACITY },
    ]
}

/// The events that end a call because the application's side closed.
pub open spec fn close_events() -> Seq<StreamEvent> {
    seq![StreamEvent::SourceClosed, StreamEvent::CallFinished, StreamEvent::PauseElapsed]
}

proof fn lemma_stream_run_unfold(phase: StreamPhase, events: Seq<StreamEvent>)
    requires
        events.len() > 0,
    ensures
        stream_run(phase, events) == ({
            let (next, action) = stream_transition(phase, events[0]);
            let (last, actions) = stream_run(next, events.drop_first());
            (last, seq![action] + actions)
        }),
{
}

proof fn lemma_close_run()
    ensures
        stream_run(StreamPhase::Receiving, close_events()) == (StreamPhase::Opening, reconnect_actions()),
{
    let e = close_events();
    lemma_stream_run_unfold(StreamPhase::Receiving, e);
    let e1 = e.drop_first();
    assert(e1 =~= seq![StreamEvent::CallFinished, StreamEvent::PauseElapsed]);
    lemma_stream_run_unfold(StreamPhase::Finishing, e1);
    let e2 = e1.drop_first();
    assert(e2 =~= seq![StreamEvent::PauseElapsed]);
    lemma_stream_run_unfold(StreamPhase::Pausing, e2);
    assert(e2.drop_first() =~= Seq::<StreamEvent>::empty());
    assert(stream_run(StreamPhase::Opening, e2.drop_first()) == (
        StreamPhase::Opening,
        Seq::<StreamAction>::empty(),
    ));
    assert(seq![StreamAction::AwaitCall] + (seq![StreamAction::Pause { seconds: RECONNECT_PAUSE_SECONDS }]
        + (seq![StreamAction::OpenCall { capacity: CALL_BUFFER_CAPACITY }]
        + Seq::<StreamAction>::empty())) =~= reconnect_actions());
}

/// While the call takes entries, every entry the application sends is handed to
/// the call as it is, in the order sent; once the application's side closes, the
/// client waits for the call to end, pauses five seconds and opens a new call.
pub proof fn lemma_stream_delivers_in_order(entries: Seq<LogEntryRequest>)
    ensures
        stream_run(StreamPhase::Receiving, delivery_events(entries) + close_events()) == (
            StreamPhase::Opening,
            delivery_actions(entries) + reconnect_actions(),
        ),
    decreases entries.len(),
{
    if entries.len() == 0 {
        assert(delivery_events(entries) + close_events() =~= close_events());
        assert(delivery_actions(entries) + reconnect_actions() =~= reconnect_actions());
        lemma_close_run();
    } else {
        let rest = entries.drop_first();
        let events = delivery_events(entries) + close_events();
        let tail = delivery_events(rest) + close_events();
        assert(events =~= seq![StreamEvent::Received(entries[0]), StreamEvent::Forwarded(true)] + tail);
        lemma_stream_run_unfold(StreamPhase::Receiving, events);
        let e1 = events.drop_first();
        assert(e1 =~= seq![StreamEvent::Forwarded(true)] + tail);
        lemma_stream_run_unfold(StreamPhase::Forwarding, e1);
        assert(e1.drop_first() =~= tail);
        lemma_stream_delivers_in_order(rest);
        assert(seq![StreamAction::Forward(entries[0])] + (seq![StreamAction::Receive] + (
        delivery_actions(rest) + reconnect_actions())) =~= delivery_actions(entries)
            + reconnect_actions());
    }
}

/// Whether a client in a phase can take a sequence of events, one step at a time.
pub open spec fn stream_valid(phase: StreamPhase, events: Seq<StreamEvent>) -> bool
    decreases events.len(),
{
    events.len() == 0 || (stream_accepts(phase, events[0]) && stream_valid(
        stream_transition(phase, events[0]).0,
        events.drop_first(),
    ))
}

/// The entries that the application sent, in order, in a sequence of events.
pub open spec fn received_entries(events: Seq<StreamEvent>) -> Seq<LogEntryRequest>
    decreases events.len(),
{
    if events.len() == 0 {
        Seq::empty()
    } else {
        let first = match events[0] {
            StreamEvent::Received(entry) => seq![entry],
            _ => Seq::empty(),
        };
        first + received_entries(events.drop_first())
    }
}

/// The entries handed to a call, in order, in a sequence of actions.
pub open spec fn forwarded_entries(actions: Seq<StreamAction>) -> Seq<LogEntryRequest>
    decreases actions.len(),
{
    if actions.len() == 0 {
        Seq::empty()
    } else {
        let first = match actions[0] {
            StreamAction::Forward(entry) => seq![entry],
            _ => Seq::empty(),
        };
        first + forwarded_entries(actions.drop_first())
    }
}

/// Across any number of calls and reconnections, the entries that the client
/// hands to its calls are exactly the entries that the application sent, in the
/// order sent, each once: none is dropped by the client, repeated or reordered.
/// (An entry that a call no longer takes ends that call and is not sent again.)
pub proof fn lemma_stream_forwards_each_entry_once(phase: StreamPhase, events: Seq<StreamEvent>)
    requires
        stream_valid(phase, events),
    ensures
        forwarded_entries(stream_run(phase, events).1) == received_entries(events),
    decreases events.len(),
{
    if events.len() > 0 {
        let (next, action) = stream_transition(phase, events[0]);
        let rest = events.drop_first();
        lemma_stream_forwards_each_entry_once(next, rest);
        lemma_stream_run_unfold(phase, events);
        let actions = stream_run(phase, events).1;
        let tail = stream_run(next, rest).1;
        assert(actions == seq![action] + tail);
        assert(actions[0] == action);
        assert(actions.drop_first() =~= tail);
    }
}

} // verus!
