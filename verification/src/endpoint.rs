//! The endpoint: how it is configured, how it starts, and its accept loop.
//!
//! The endpoint does no binding or accepting itself. It is told what happened
//! and says what to do next. It starts in a fixed order: the identity is
//! provided, the TLS layer accepts it, the listen address is bound; only then
//! are connections accepted. How a connection fares is no event of the loop:
//! each connection handler runs as a task of its own, and its failure stays
//! its own.

use vstd::prelude::*;
use crate::security::{ConfigurationError, IdentityError};

verus! {

/// What the operator may choose about the endpoint.
#[derive(Clone, Copy, Debug, PartialEq, Eq, Structural)]
pub struct EndpointOptions {
    /// Log the TLS secrets, for debugging.
    pub keylog: bool,
    /// Make a client prove its address, by a retry, before any state is kept
    /// for it.
    pub stateless_retry: bool,
}

/// How the endpoint is configured.
#[derive(Clone, Debug, PartialEq, Eq)]
pub struct EndpointSettings {
    /// Flow control window for unidirectional streams. At zero the peer cannot
    /// open any.
    pub uni_stream_window: u64,
    /// The application protocols the endpoint accepts, most preferred first.
    pub protocols: Vec<Vec<u8>>,
    /// Log the TLS secrets.
    pub keylog: bool,
    /// Require a retry before keeping state for a client.
    pub stateless_retry: bool,
}

/// The application protocols the endpoint accepts: `hq-27` alone.
pub open spec fn accepted_protocols() -> Seq<Seq<u8>> {
    seq![seq![0x68u8, 0x71u8, 0x2du8, 0x32u8, 0x37u8]]
}

/// The application protocols the endpoint accepts.
pub fn protocols() -> (protocols: Vec<Vec<u8>>)
    ensures
        protocols.deep_view() == accepted_protocols(),
{
    let mut protocol: Vec<u8> = Vec::new();
    protocol.push(0x68u8);
    protocol.push(0x71u8);
    protocol.push(0x2du8);
    protocol.push(0x32u8);
    protocol.push(0x37u8);
    assert(protocol.deep_view() =~= accepted_protocols()[0]);
    let mut protocols: Vec<Vec<u8>> = Vec::new();
    protocols.push(protocol);
    assert(protocols.deep_view() =~= accepted_protocols()) by {
        assert(protocols.deep_view()[0] == protocols@[0].deep_view());
    }
    protocols
}

/// Configures the endpoint from the operator's options.
///
/// Unidirectional streams are shut out by configuration: their window is
/// zero. The accepted protocols are fixed. The two options are taken as
/// given.
pub fn endpoint_settings(options: EndpointOptions) -> (settings: EndpointSettings)
    ensures
        settings.uni_stream_window == 0,
        settings.protocols.deep_view() == accepted_protocols(),
        settings.keylog == options.keylog,
        settings.stateless_retry == options.stateless_retry,
{
    EndpointSettings {
        uni_stream_window: 0,
        protocols: protocols(),
        keylog: options.keylog,
        stateless_retry: options.stateless_retry,
    }
}

/// Why the endpoint could not be reached over the network.
#[derive(Clone, Copy, Debug, PartialEq, Eq, Structural)]
pub enum TransportError {
    /// The listen address could not be bound.
    BindFailed,
}

/// Why the broker did not start.
#[derive(Clone, Debug, PartialEq, Eq)]
pub enum StartupError {
    Configuration(ConfigurationError),
    Identity(IdentityError),
    Transport(TransportError),
}

/// Where the endpoint is.
#[derive(Clone, Copy, Debug, PartialEq, Eq, Structural)]
pub enum EndpointState {
    /// The identity is being provided.
    Provisioning,
    /// The identity is being handed to the TLS layer.
    Securing,
    /// The listen address is being bound.
    Binding,
    /// The endpoint is bound; connection attempts are accepted.
    Listening,
    /// The endpoint has stopped.
    Stopped,
}

/// Something that happened at the endpoint.
#[derive(Clone, Debug, PartialEq, Eq)]
pub enum EndpointEvent {
    /// The startup options were refused.
    ConfigurationRefused(ConfigurationError),
    /// No identity could be provided.
    IdentityFailed(IdentityError),
    /// The identity was provided.
    IdentityProvided,
    /// The TLS layer took the identity.
    IdentityAccepted,
    /// The TLS layer did not take the identity.
    IdentityRejected,
    /// The listen address was bound.
    Bound,
    /// The listen address could not be bound.
    BindFailed,
    /// A client attempts to connect.
    Incoming,
    /// There are no more connection attempts to accept.
    IncomingEnded,
}

/// What to do next at the endpoint.
#[derive(Debug, PartialEq, Eq)]
pub enum EndpointAction {
    /// Hand the identity to the TLS layer.
    Secure,
    /// Bind the listen address.
    Bind,
    /// Start accepting connection attempts.
    Accept,
    /// Start a connection handler for the attempt, as a task of its own, and go
    /// on accepting without waiting for it.
    ServeConnection,
    /// The endpoint is done, with this result.
    Complete(Result<(), StartupError>),
    /// The event does not belong to the state the endpoint is in; do nothing.
    Ignore,
}

/// The state that follows `state` on `event`, and the action to take.
///
/// Every failure before the endpoint listens is fatal. Once it listens,
/// nothing but the end of connection attempts stops it.
pub open spec fn step(state: EndpointState, event: EndpointEvent) -> (
    EndpointState,
    EndpointAction,
) {
    match (state, event) {
        (EndpointState::Provisioning, EndpointEvent::ConfigurationRefused(error)) => (
            EndpointState::Stopped,
            EndpointAction::Complete(Err(StartupError::Configuration(error))),
        ),
        (EndpointState::Provisioning, EndpointEvent::IdentityFailed(error)) => (
            EndpointState::Stopped,
            EndpointAction::Complete(Err(StartupError::Identity(error))),
        ),
        (EndpointState::Provisioning, EndpointEvent::IdentityProvided) => (
            EndpointState::Securing,
            EndpointAction::Secure,
        ),
        (EndpointState::Securing, EndpointEvent::IdentityAccepted) => (
            EndpointState::Binding,
            EndpointAction::Bind,
        ),
        (EndpointState::Securing, EndpointEvent::IdentityRejected) => (
            EndpointState::Stopped,
            EndpointAction::Complete(Err(StartupError::Identity(IdentityError::Rejected))),
        ),
        (EndpointState::Binding, EndpointEvent::Bound) => (
            EndpointState::Listening,
            EndpointAction::Accept,
        ),
        (EndpointState::Binding, EndpointEvent::BindFailed) => (
            EndpointState::Stopped,
            EndpointAction::Complete(Err(StartupError::Transport(TransportError::BindFailed))),
        ),
        (EndpointState::Listening, EndpointEvent::Incoming) => (
            EndpointState::Listening,
            EndpointAction::ServeConnection,
        ),
        (EndpointState::Listening, EndpointEvent::IncomingEnded) => (
            EndpointState::Stopped,
            EndpointAction::Complete(Ok(())),
        ),
        _ => (state, EndpointAction::Ignore),
    }
}

/// The state of the endpoint after `events`, in order, starting from `state`.
pub open spec fn state_after(state: EndpointState, events: Seq<EndpointEvent>) -> EndpointState
    decreases events.len(),
{
    if events.len() == 0 {
        state
    } else {
        step(state_after(state, events.drop_last()), events.last()).0
    }
}

/// The action taken on the event at `index` of `events`, for an endpoint that
/// was in `state` before the first of them.
pub open spec fn action_at(
    state: EndpointState,
    events: Seq<EndpointEvent>,
    index: int,
) -> EndpointAction
    recommends
        0 <= index < events.len(),
{
    step(state_after(state, events.take(index)), events[index]).1
}

impl EndpointState {
    /// The state of an endpoint that is about to start: its identity is still
    /// to be provided.
    pub fn new() -> (state: EndpointState)
        ensures
            state == EndpointState::Provisioning,
    {
        EndpointState::Provisioning
    }

    /// Takes in what happened at the endpoint: the state that follows, and what
    /// to do next.
    pub fn on_event(self, event: EndpointEvent) -> (next: (EndpointState, EndpointAction))
        ensures
            next == step(self, event),
    {
        match (self, event) {
            (EndpointState::Provisioning, EndpointEvent::ConfigurationRefused(error)) => (
                EndpointState::Stopped,
                EndpointAction::Complete(Err(StartupError::Configuration(error))),
            ),
            (EndpointState::Provisioning, EndpointEvent::IdentityFailed(error)) => (
                EndpointState::Stopped,
                EndpointAction::Complete(Err(StartupError::Identity(error))),
            ),
            (EndpointState::Provisioning, EndpointEvent::IdentityProvided) => (
                EndpointState::Securing,
                EndpointAction::Secure,
            ),
            (EndpointState::Securing, EndpointEvent::IdentityAccepted) => (
                EndpointState::Binding,
                EndpointAction::Bind,
            ),
            (EndpointState::Securing, EndpointEvent::IdentityRejected) => (
                EndpointState::Stopped,
                EndpointAction::Complete(Err(StartupError::Identity(IdentityError::Rejected))),
            ),
            (EndpointState::Binding, EndpointEvent::Bound) => (
                EndpointState::Listening,
                EndpointAction::Accept,
            ),
            (EndpointState::Binding, EndpointEvent::BindFailed) => (
                EndpointState::Stopped,
                EndpointAction::Complete(
                    Err(StartupError::Transport(TransportError::BindFailed)),
                ),
            ),
            (EndpointState::Listening, EndpointEvent::Incoming) => (
                EndpointState::Listening,
                EndpointAction::ServeConnection,
            ),
            (EndpointState::Listening, EndpointEvent::IncomingEnded) => (
                EndpointState::Stopped,
                EndpointAction::Complete(Ok(())),
            ),
            (state, _) => (state, EndpointAction::Ignore),
        }
    }
}

/// The exit code of the process: 0 after a clean shutdown, 1 where the broker
/// did not start.
pub fn exit_code(outcome: &Result<(), StartupError>) -> (code: i32)
    ensures
        code == if outcome is Ok {
            0i32
        } else {
            1i32
        },
{
    match outcome {
        Ok(_) => 0,
        Err(_) => 1,
    }
}

/// No connection stops the accept loop: however many clients attempt to
/// connect, a listening endpoint goes on listening, and each attempt gets a
/// handler.
pub proof fn lemma_attempts_never_stop_the_loop(events: Seq<EndpointEvent>)
    requires
        forall|i: int| 0 <= i < events.len() ==> #[trigger] events[i] == EndpointEvent::Incoming,
    ensures
        state_after(EndpointState::Listening, events) == EndpointState::Listening,
        forall|i: int|
            0 <= i < events.len() ==> #[trigger] action_at(EndpointState::Listening, events, i)
                == EndpointAction::ServeConnection,
    decreases events.len(),
{
    if events.len() > 0 {
        let before = events.drop_last();
        lemma_attempts_never_stop_the_loop(before);
        assert forall|i: int| 0 <= i < events.len() implies #[trigger] action_at(
            EndpointState::Listening,
            events,
            i,
        ) == EndpointAction::ServeConnection by {
            if i < events.len() - 1 {
                assert(events.take(i) == before.take(i));
                assert(events[i] == before[i]);
                assert(action_at(EndpointState::Listening, before, i)
                    == EndpointAction::ServeConnection);
            } else {
                assert(events.take(i) == before);
            }
        }
    }
}

/// The endpoint never binds or listens without its identity: a state in which
/// it does is reached only after the identity was provided and the TLS layer
/// took it, in this order.
pub proof fn lemma_no_listening_without_identity(events: Seq<EndpointEvent>) -> (at: (int, int))
    requires
        state_after(EndpointState::Provisioning, events) is Binding || state_after(
            EndpointState::Provisioning,
            events,
        ) is Listening,
    ensures
        0 <= at.0 < at.1 < events.len(),
        events[at.0] is IdentityProvided,
        events[at.1] is IdentityAccepted,
        action_at(EndpointState::Provisioning, events, at.0) == EndpointAction::Secure,
        action_at(EndpointState::Provisioning, events, at.1) == EndpointAction::Bind,
    decreases events.len(),
{
    let before = events.drop_last();
    let last = events.len() - 1;
    assert(events.take(last) == before);
    if state_after(EndpointState::Provisioning, before) is Securing {
        let provided = lemma_identity_was_provided(before);
        assert(before.take(provided) == events.take(provided));
        (provided, last)
    } else {
        let at = lemma_no_listening_without_identity(before);
        assert(before.take(at.0) == events.take(at.0));
        assert(before.take(at.1) == events.take(at.1));
        at
    }
}

/// The TLS layer is handed an identity only after one was provided.
pub proof fn lemma_identity_was_provided(events: Seq<EndpointEvent>) -> (at: int)
    requires
        state_after(EndpointState::Provisioning, events) is Securing,
    ensures
        0 <= at < events.len(),
        events[at] is IdentityProvided,
        action_at(EndpointState::Provisioning, events, at) == EndpointAction::Secure,
    decreases events.len(),
{
    let before = events.drop_last();
    let last = events.len() - 1;
    assert(events.take(last) == before);
    if state_after(EndpointState::Provisioning, before) is Provisioning {
        last
    } else {
        let at = lemma_identity_was_provided(before);
        assert(before.take(at) == events.take(at));
        at
    }
}

/// Only what fails before the endpoint listens is fatal: the endpoint ends
/// with an error exactly on refused options, a failed or rejected identity, or
/// a failure to bind.
pub proof fn lemma_only_startup_failures_are_fatal(state: EndpointState, event: EndpointEvent)
    ensures
        step(state, event).1 matches EndpointAction::Complete(Err(_)) <==> ((state
            is Provisioning && (event is ConfigurationRefused || event is IdentityFailed)) || (
        state is Securing && event is IdentityRejected) || (state is Binding && event
            is BindFailed)),
        state is Listening ==> !(step(state, event).1 matches EndpointAction::Complete(Err(_))),
{
}

} // verus!
