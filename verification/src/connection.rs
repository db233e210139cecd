//! The life of one connection: the handshake, then one stream handler for each
//! stream the peer opens, until the connection ends.
//!
//! The handler does no waiting itself. It is told what happened on the
//! connection and says what to do next. Each connection has a handler of its
//! own; nothing is shared between them.

use vstd::prelude::*;

verus! {

/// How the transport says a connection ended.
#[derive(Clone, Copy, Debug, PartialEq, Eq, Structural)]
pub enum Termination {
    /// The peer speaks no version of the protocol that the endpoint does.
    VersionMismatch,
    /// The peer broke the protocol.
    TransportError,
    /// The peer's transport aborted the connection.
    ConnectionClosed,
    /// The peer's application closed the connection.
    ApplicationClosed,
    /// The peer reset the connection.
    Reset,
    /// The peer went silent.
    TimedOut,
    /// The connection was closed from this side.
    LocallyClosed,
}

/// Why a connection failed.
#[derive(Clone, Copy, Debug, PartialEq, Eq, Structural)]
pub enum ConnectionError {
    /// The handshake did not complete.
    HandshakeFailed(Termination),
    /// The connection ended in another way than by the peer closing it.
    Lost(Termination),
}

/// Where a connection is in its life.
#[derive(Clone, Copy, Debug, PartialEq, Eq, Structural)]
pub enum ConnectionState {
    /// The handshake is under way.
    Connecting,
    /// The connection is established; streams are accepted.
    Serving,
    /// The peer closed the connection.
    Closed,
    /// The connection failed.
    Failed(ConnectionError),
}

/// Something that happened on a connection.
#[derive(Clone, Copy, Debug, PartialEq, Eq, Structural)]
pub enum ConnectionEvent {
    /// The handshake completed.
    Established,
    /// The handshake failed.
    HandshakeFailed(Termination),
    /// The peer opened a stream.
    StreamOpened,
    /// No stream could be accepted: the connection ended.
    StreamFailed(Termination),
    /// There are no more streams to accept.
    StreamsEnded,
}

/// What to do next on a connection.
#[derive(Clone, Copy, Debug, PartialEq, Eq)]
pub enum ConnectionAction {
    /// Start accepting the streams that the peer opens.
    AcceptStreams,
    /// Start a stream handler for the stream just opened, as a task of its
    /// own, and go on accepting without waiting for it.
    ServeStream,
    /// The connection is over, with this result.
    Complete(Result<(), ConnectionError>),
    /// The event does not belong to the state the connection is in; do nothing.
    Ignore,
}

/// The state that follows `state` on `event`, and the action to take.
///
/// The peer closing the connection is its normal end; any other reason why no
/// stream can be accepted is a failure.
pub open spec fn step(state: ConnectionState, event: ConnectionEvent) -> (
    ConnectionState,
    ConnectionAction,
) {
    match (state, event) {
        (ConnectionState::Connecting, ConnectionEvent::Established) => (
            ConnectionState::Serving,
            ConnectionAction::AcceptStreams,
        ),
        (ConnectionState::Connecting, ConnectionEvent::HandshakeFailed(reason)) => (
            ConnectionState::Failed(ConnectionError::HandshakeFailed(reason)),
            ConnectionAction::Complete(Err(ConnectionError::HandshakeFailed(reason))),
        ),
        (ConnectionState::Serving, ConnectionEvent::StreamOpened) => (
            ConnectionState::Serving,
            ConnectionAction::ServeStream,
        ),
        (ConnectionState::Serving, ConnectionEvent::StreamsEnded) => (
            ConnectionState::Closed,
            ConnectionAction::Complete(Ok(())),
        ),
        (ConnectionState::Serving, ConnectionEvent::StreamFailed(reason)) => if reason
            == Termination::ApplicationClosed {
            (ConnectionState::Closed, ConnectionAction::Complete(Ok(())))
        } else {
            (
                ConnectionState::Failed(ConnectionError::Lost(reason)),
                ConnectionAction::Complete(Err(ConnectionError::Lost(reason))),
            )
        },
        _ => (state, ConnectionAction::Ignore),
    }
}

/// The state of a connection after `events`, in order, starting from
/// `Connecting`.
pub open spec fn state_after(events: Seq<ConnectionEvent>) -> ConnectionState
    decreases events.len(),
{
    if events.len() == 0 {
        ConnectionState::Connecting
    } else {
        step(state_after(events.drop_last()), events.last()).0
    }
}

/// The action taken on the event at `index` of `events`.
pub open spec fn action_at(events: Seq<ConnectionEvent>, index: int) -> ConnectionAction
    recommends
        0 <= index < events.len(),
{
    step(state_after(events.take(index)), events[index]).1
}

impl ConnectionState {
    /// The state of a connection whose handshake has just begun.
    pub fn new() -> (state: ConnectionState)
        ensures
            state == ConnectionState::Connecting,
    {
        ConnectionState::Connecting
    }

    /// Whether the connection is over, in success or in failure.
    pub fn is_over(self) -> (over: bool)
        ensures
            over == (self is Closed || self is Failed),
    {
        match self {
            ConnectionState::Closed => true,
            ConnectionState::Failed(_) => true,
            _ => false,
        }
    }

    /// Takes in what happened on the connection: the state that follows, and
    /// what to do next.
    pub fn on_event(self, event: ConnectionEvent) -> (next: (ConnectionState, ConnectionAction))
        ensures
            next == step(self, event),
    {
        match (self, event) {
            (ConnectionState::Connecting, ConnectionEvent::Established) => (
                ConnectionState::Serving,
                ConnectionAction::AcceptStreams,
            ),
            (ConnectionState::Connecting, ConnectionEvent::HandshakeFailed(reason)) => (
                ConnectionState::Failed(ConnectionError::HandshakeFailed(reason)),
                ConnectionAction::Complete(Err(ConnectionError::HandshakeFailed(reason))),
            ),
            (ConnectionState::Serving, ConnectionEvent::StreamOpened) => (
                ConnectionState::Serving,
                ConnectionAction::ServeStream,
            ),
            (ConnectionState::Serving, ConnectionEvent::StreamsEnded) => (
                ConnectionState::Closed,
                ConnectionAction::Complete(Ok(())),
            ),
            (ConnectionState::Serving, ConnectionEvent::StreamFailed(reason)) => {
                match reason {
                    Termination::ApplicationClosed => (
                        ConnectionState::Closed,
                        ConnectionAction::Complete(Ok(())),
                    ),
                    _ => (
                        ConnectionState::Failed(ConnectionError::Lost(reason)),
                        ConnectionAction::Complete(Err(ConnectionError::Lost(reason))),
                    ),
                }
            },
            _ => (self, ConnectionAction::Ignore),
        }
    }
}

/// A connection that is over stays over: no later event starts a stream
/// handler or changes the result.
pub proof fn lemma_over_is_final(state: ConnectionState, event: ConnectionEvent)
    requires
        state is Closed || state is Failed,
    ensures
        step(state, event) == (state, ConnectionAction::Ignore),
{
}

/// A stream handler is started for every stream opened on an established
/// connection, and only for those; the connection goes on serving afterwards.
pub proof fn lemma_one_handler_per_stream(state: ConnectionState, event: ConnectionEvent)
    ensures
        step(state, event).1 == ConnectionAction::ServeStream <==> (state is Serving && event
            is StreamOpened),
        step(state, event).1 == ConnectionAction::ServeStream ==> step(state, event).0
            is Serving,
{
}

/// A connection serves only after its handshake completed.
pub proof fn lemma_serving_follows_the_handshake(events: Seq<ConnectionEvent>) -> (at: int)
    requires
        state_after(events) is Serving,
    ensures
        0 <= at < events.len(),
        events[at] is Established,
        action_at(events, at) == ConnectionAction::AcceptStreams,
    decreases events.len(),
{
    let before = events.drop_last();
    let last = events.len() - 1;
    assert(events.take(last) == before);
    if state_after(before) is Connecting {
        last
    } else {
        let at = lemma_serving_follows_the_handshake(before);
        assert(before.take(at) == events.take(at));
        at
    }
}

/// No stream handler is started before the handshake completed, and each is
/// started for a stream that the peer opened.
pub proof fn lemma_streams_follow_the_handshake(events: Seq<ConnectionEvent>, index: int) -> (at:
    int)
    requires
        0 <= index < events.len(),
        action_at(events, index) == ConnectionAction::ServeStream,
    ensures
        0 <= at < index,
        events[at] is Established,
        events[index] is StreamOpened,
{
    let before = events.take(index);
    let at = lemma_serving_follows_the_handshake(before);
    assert(before.take(at) == events.take(at));
    at
}

/// How many streams the peer opened on the connection while it was served,
/// over `events`.
pub open spec fn streams_opened(events: Seq<ConnectionEvent>) -> nat
    decreases events.len(),
{
    if events.len() == 0 {
        0
    } else {
        let before = streams_opened(events.drop_last());
        if state_after(events.drop_last()) is Serving && events.last() is StreamOpened {
            before + 1
        } else {
            before
        }
    }
}

/// How many stream handlers were started over `events`.
pub open spec fn handlers_started(events: Seq<ConnectionEvent>) -> nat
    decreases events.len(),
{
    if events.len() == 0 {
        0
    } else {
        let before = handlers_started(events.drop_last());
        if action_at(events, events.len() - 1) == ConnectionAction::ServeStream {
            before + 1
        } else {
            before
        }
    }
}

/// Exactly one stream handler is started for each stream that the peer opens,
/// however many it opens.
pub proof fn lemma_as_many_handlers_as_streams(events: Seq<ConnectionEvent>)
    ensures
        handlers_started(events) == streams_opened(events),
    decreases events.len(),
{
    if events.len() > 0 {
        lemma_as_many_handlers_as_streams(events.drop_last());
        assert(events.take(events.len() - 1) == events.drop_last());
    }
}

/// A connection ends without error exactly when its streams run out or the
/// peer's application closes it; it fails on every other termination.
pub proof fn lemma_only_peer_close_is_clean(events: Seq<ConnectionEvent>)
    requires
        events.len() > 0,
    ensures
        ({
            let before = state_after(events.drop_last());
            let last = events.last();
            &&& (state_after(events) is Closed && !(before is Closed)) <==> (before is Serving && (
            last is StreamsEnded || last == ConnectionEvent::StreamFailed(
                Termination::ApplicationClosed,
            )))
            &&& (state_after(events) is Failed && !(before is Failed)) <==> ((before is Connecting
                && last is HandshakeFailed) || (before is Serving && last is StreamFailed && last
                != ConnectionEvent::StreamFailed(Termination::ApplicationClosed)))
        }),
{
}

} // verus!
