//! The life of one stream: one request read to its end, one response written,
//! the send side finished.
//!
//! The handler does no reading or writing itself. It is told what happened on
//! the stream and says what to do next.

use vstd::prelude::*;

verus! {

/// The most bytes a request may have. A longer request is not served.
pub const MAX_REQUEST_BYTES: usize = 65536;

/// Why an exchange on a stream failed.
#[derive(Clone, Copy, Debug, PartialEq, Eq, Structural)]
pub enum RequestError {
    /// The request could not be read, or was longer than `MAX_REQUEST_BYTES`.
    ReadFailed,
    /// The response could not be encoded or written.
    WriteFailed,
    /// The response was written, but the send side could not be finished.
    FinishFailed,
}

/// Where a stream is in its exchange.
#[derive(Clone, Copy, Debug, PartialEq, Eq, Structural)]
pub enum StreamState {
    /// The request is being read.
    Reading,
    /// The whole request was read and handed to the dispatcher.
    Dispatching,
    /// The response is being written.
    Writing,
    /// The response was written; the send side is being finished.
    Finishing,
    /// The exchange is complete.
    Closed,
    /// The exchange failed. The stream is abandoned.
    Failed(RequestError),
}

/// Something that happened on a stream.
#[derive(Clone, Debug, PartialEq, Eq)]
pub enum StreamEvent {
    /// The peer closed its send side; these are all the bytes it sent.
    RequestRead(Vec<u8>),
    /// Reading failed, or the peer sent more than the handler was willing to read.
    ReadFailed,
    /// The dispatcher answered; this is the encoded response.
    ResponseEncoded(Vec<u8>),
    /// The response was written in full.
    ResponseWritten,
    /// The response could not be encoded, or writing it failed.
    WriteFailed,
    /// The send side was finished.
    SendFinished,
    /// Finishing the send side failed.
    FinishFailed,
}

/// What to do next on a stream.
#[derive(Debug, PartialEq, Eq)]
pub enum StreamAction {
    /// Hand these request bytes to the dispatcher.
    Dispatch(Vec<u8>),
    /// Write these bytes to the stream.
    Write(Vec<u8>),
    /// Finish the send side.
    Finish,
    /// The exchange is over, with this result.
    Complete(Result<(), RequestError>),
    /// The event does not belong to the state the stream is in; do nothing.
    Ignore,
}

/// The state that follows `state` on `event`, and the action to take.
///
/// An event that does not belong to the state changes nothing.
pub open spec fn step(state: StreamState, event: StreamEvent) -> (StreamState, StreamAction) {
    match (state, event) {
        (StreamState::Reading, StreamEvent::RequestRead(bytes)) => if bytes@.len()
            <= MAX_REQUEST_BYTES {
            (StreamState::Dispatching, StreamAction::Dispatch(bytes))
        } else {
            (
                StreamState::Failed(RequestError::ReadFailed),
                StreamAction::Complete(Err(RequestError::ReadFailed)),
            )
        },
        (StreamState::Reading, StreamEvent::ReadFailed) => (
            StreamState::Failed(RequestError::ReadFailed),
            StreamAction::Complete(Err(RequestError::ReadFailed)),
        ),
        (StreamState::Dispatching, StreamEvent::ResponseEncoded(bytes)) => (
            StreamState::Writing,
            StreamAction::Write(bytes),
        ),
        (StreamState::Dispatching, StreamEvent::WriteFailed) => (
            StreamState::Failed(RequestError::WriteFailed),
            StreamAction::Complete(Err(RequestError::WriteFailed)),
        ),
        (StreamState::Writing, StreamEvent::ResponseWritten) => (
            StreamState::Finishing,
            StreamAction::Finish,
        ),
        (StreamState::Writing, StreamEvent::WriteFailed) => (
            StreamState::Failed(RequestError::WriteFailed),
            StreamAction::Complete(Err(RequestError::WriteFailed)),
        ),
        (StreamState::Finishing, StreamEvent::SendFinished) => (
            StreamState::Closed,
            StreamAction::Complete(Ok(())),
        ),
        (StreamState::Finishing, StreamEvent::FinishFailed) => (
            StreamState::Failed(RequestError::FinishFailed),
            StreamAction::Complete(Err(RequestError::FinishFailed)),
        ),
        _ => (state, StreamAction::Ignore),
    }
}

/// The state of a stream after `events`, in order, starting from `Reading`.
pub open spec fn state_after(events: Seq<StreamEvent>) -> StreamState
    decreases events.len(),
{
    if events.len() == 0 {
        StreamState::Reading
    } else {
        step(state_after(events.drop_last()), events.last()).0
    }
}

/// The action taken on the event at `index` of `events`.
pub open spec fn action_at(events: Seq<StreamEvent>, index: int) -> StreamAction
    recommends
        0 <= index < events.len(),
{
    step(state_after(events.take(index)), events[index]).1
}

/// How many responses were written to a stream over `events`.
pub open spec fn responses_written(events: Seq<StreamEvent>) -> nat
    decreases events.len(),
{
    if events.len() == 0 {
        0
    } else {
        let before = responses_written(events.drop_last());
        if action_at(events, events.len() - 1) is Write {
            before + 1
        } else {
            before
        }
    }
}

/// The handler of one stream.
pub struct StreamHandler {
    state: StreamState,
    history: Ghost<Seq<StreamEvent>>,
}

impl StreamHandler {
    #[verifier::type_invariant]
    spec fn consistent(self) -> bool {
        self.state == state_after(self.history@)
    }

    /// Every event this handler has been told of, in order.
    pub closed spec fn history(self) -> Seq<StreamEvent> {
        self.history@
    }

    /// The state this handler is in: the one that its history leads to.
    pub open spec fn current(self) -> StreamState {
        state_after(self.history())
    }

    /// A handler for a stream that the peer has just opened.
    pub fn new() -> (handler: StreamHandler)
        ensures
            handler.history() == Seq::<StreamEvent>::empty(),
            handler.current() == StreamState::Reading,
    {
        StreamHandler { state: StreamState::Reading, history: Ghost(Seq::empty()) }
    }

    /// The state this handler is in.
    pub fn state(&self) -> (state: StreamState)
        ensures
            state == self.current(),
    {
        proof {
            use_type_invariant(self);
        }
        self.state
    }

    /// Whether the exchange is over, in success or in failure.
    pub fn is_over(&self) -> (over: bool)
        ensures
            over == (self.current() is Closed || self.current() is Failed),
    {
        proof {
            use_type_invariant(self);
        }
        match self.state {
            StreamState::Closed => true,
            StreamState::Failed(_) => true,
            _ => false,
        }
    }

    /// Tells the handler what happened on the stream and returns what to do
    /// next.
    pub fn on_event(&mut self, event: StreamEvent) -> (action: StreamAction)
        ensures
            final(self).history() == old(self).history().push(event),
            (final(self).current(), action) == step(old(self).current(), event),
            action == action_at(final(self).history(), old(self).history().len() as int),
    {
        proof {
            use_type_invariant(&*self);
        }
        let ghost before = self.history@;
        let ghost after = before.push(event);
        proof {
            assert(after.drop_last() == before);
            assert(after.take(before.len() as int) == before);
        }
        let state = self.state;
        let (next, action) = match (state, event) {
            (StreamState::Reading, StreamEvent::RequestRead(bytes)) => {
                if bytes.len() <= MAX_REQUEST_BYTES {
                    (StreamState::Dispatching, StreamAction::Dispatch(bytes))
                } else {
                    (
                        StreamState::Failed(RequestError::ReadFailed),
                        StreamAction::Complete(Err(RequestError::ReadFailed)),
                    )
                }
            },
            (StreamState::Reading, StreamEvent::ReadFailed) => (
                StreamState::Failed(RequestError::ReadFailed),
                StreamAction::Complete(Err(RequestError::ReadFailed)),
            ),
            (StreamState::Dispatching, StreamEvent::ResponseEncoded(bytes)) => (
                StreamState::Writing,
                StreamAction::Write(bytes),
            ),
            (StreamState::Dispatching, StreamEvent::WriteFailed) => (
                StreamState::Failed(RequestError::WriteFailed),
                StreamAction::Complete(Err(RequestError::WriteFailed)),
            ),
            (StreamState::Writing, StreamEvent::ResponseWritten) => (
                StreamState::Finishing,
                StreamAction::Finish,
            ),
            (StreamState::Writing, StreamEvent::WriteFailed) => (
                StreamState::Failed(RequestError::WriteFailed),
                StreamAction::Complete(Err(RequestError::WriteFailed)),
            ),
            (StreamState::Finishing, StreamEvent::SendFinished) => (
                StreamState::Closed,
                StreamAction::Complete(Ok(())),
            ),
            (StreamState::Finishing, StreamEvent::FinishFailed) => (
                StreamState::Failed(RequestError::FinishFailed),
                StreamAction::Complete(Err(RequestError::FinishFailed)),
            ),
            _ => (state, StreamAction::Ignore),
        };
        *self = StreamHandler { state: next, history: Ghost(after) };
        action
    }
}

/// Whether a response has been handed out for writing in this state.
pub open spec fn has_written(state: StreamState) -> bool {
    state is Writing || state is Finishing || state is Closed || state == StreamState::Failed(
        RequestError::FinishFailed,
    )
}

/// Whether no response has been handed out for writing in this state.
pub open spec fn has_not_written(state: StreamState) -> bool {
    state is Reading || state is Dispatching || state == StreamState::Failed(
        RequestError::ReadFailed,
    )
}

/// The number of responses written goes by the state: one where a response
/// was handed out, none where none was, and at most one where the exchange
/// failed on its response.
pub proof fn lemma_written_by_state(events: Seq<StreamEvent>)
    ensures
        has_written(state_after(events)) ==> responses_written(events) == 1,
        has_not_written(state_after(events)) ==> responses_written(events) == 0,
        responses_written(events) <= 1,
    decreases events.len(),
{
    if events.len() > 0 {
        let before = events.drop_last();
        lemma_written_by_state(before);
        assert(events.take(events.len() - 1) == before);
    }
}

/// At most one response is written to a stream, whatever happens on it.
pub proof fn lemma_at_most_one_response(events: Seq<StreamEvent>)
    ensures
        responses_written(events) <= 1,
{
    lemma_written_by_state(events);
}

/// An exchange that completes has had exactly one response written; one that
/// failed while reading has had none.
pub proof fn lemma_complete_exchange_has_one_response(events: Seq<StreamEvent>)
    ensures
        state_after(events) is Closed ==> responses_written(events) == 1,
        state_after(events) == StreamState::Failed(RequestError::ReadFailed) ==> responses_written(
            events,
        ) == 0,
{
    lemma_written_by_state(events);
}

/// A state past `Reading`, but for a failure to read, is reached only through
/// a request that was read to its end, was within the limit, and was handed to
/// the dispatcher whole.
pub proof fn lemma_request_was_read(events: Seq<StreamEvent>) -> (read_at: int)
    requires
        !(state_after(events) is Reading) && state_after(events) != StreamState::Failed(
            RequestError::ReadFailed,
        ),
    ensures
        0 <= read_at < events.len(),
        events[read_at] matches StreamEvent::RequestRead(bytes) && bytes@.len()
            <= MAX_REQUEST_BYTES && action_at(events, read_at) == StreamAction::Dispatch(bytes),
    decreases events.len(),
{
    let before = events.drop_last();
    let last = events.len() - 1;
    assert(events.take(last) == before);
    if state_after(before) is Reading {
        last
    } else {
        let read_at = lemma_request_was_read(before);
        assert(before.take(read_at) == events.take(read_at));
        read_at
    }
}

/// A response is written only after the whole request was read and handed to
/// the dispatcher, and what is written is the response that the dispatcher's
/// answer was encoded to.
pub proof fn lemma_response_follows_request(events: Seq<StreamEvent>, index: int) -> (read_at:
    int)
    requires
        0 <= index < events.len(),
        action_at(events, index) is Write,
    ensures
        0 <= read_at < index,
        events[read_at] matches StreamEvent::RequestRead(bytes) && action_at(events, read_at)
            == StreamAction::Dispatch(bytes),
        events[index] matches StreamEvent::ResponseEncoded(bytes) && action_at(events, index)
            == StreamAction::Write(bytes),
{
    let before = events.take(index);
    assert(state_after(before) is Dispatching);
    let read_at = lemma_request_was_read(before);
    assert(before.take(read_at) == events.take(read_at));
    read_at
}

/// The dispatcher is handed a request only when the peer has finished sending
/// it, and then it is handed every byte of it.
pub proof fn lemma_no_partial_dispatch(events: Seq<StreamEvent>, index: int)
    requires
        0 <= index < events.len(),
        action_at(events, index) is Dispatch,
    ensures
        events[index] == StreamEvent::RequestRead(action_at(events, index)->Dispatch_0),
{
}

/// The events of one stream among those of many: of `trace`, where each event
/// comes with the number of the stream it happened on, the events of `stream`,
/// in order.
pub open spec fn own_events(trace: Seq<(nat, StreamEvent)>, stream: nat) -> Seq<StreamEvent>
    decreases trace.len(),
{
    if trace.len() == 0 {
        Seq::empty()
    } else {
        let before = own_events(trace.drop_last(), stream);
        if trace.last().0 == stream {
            before.push(trace.last().1)
        } else {
            before
        }
    }
}

/// The state of the handler of `stream` after `trace`, where every stream has
/// a handler of its own and each event is told to the handler of its stream
/// and to no other.
pub open spec fn stream_state(trace: Seq<(nat, StreamEvent)>, stream: nat) -> StreamState
    decreases trace.len(),
{
    if trace.len() == 0 {
        StreamState::Reading
    } else {
        let before = stream_state(trace.drop_last(), stream);
        if trace.last().0 == stream {
            step(before, trace.last().1).0
        } else {
            before
        }
    }
}

/// The action taken on the event at `index` of `trace`, by the handler of the
/// stream that the event happened on.
pub open spec fn shared_action_at(trace: Seq<(nat, StreamEvent)>, index: int) -> StreamAction
    recommends
        0 <= index < trace.len(),
{
    step(stream_state(trace.take(index), trace[index].0), trace[index].1).1
}

/// Streams do not touch each other: however the events of many streams are
/// interleaved, the handler of each is where its own events alone lead.
pub proof fn lemma_streams_are_independent(trace: Seq<(nat, StreamEvent)>, stream: nat)
    ensures
        stream_state(trace, stream) == state_after(own_events(trace, stream)),
    decreases trace.len(),
{
    if trace.len() > 0 {
        lemma_streams_are_independent(trace.drop_last(), stream);
        let before = own_events(trace.drop_last(), stream);
        assert(before.push(trace.last().1).drop_last() == before);
    }
}

/// What a handler does on an event among those of many streams is what it
/// does on that event among its own: the other streams have no say in it.
pub proof fn lemma_action_goes_by_own_events(trace: Seq<(nat, StreamEvent)>, index: int)
    requires
        0 <= index < trace.len(),
    ensures
        ({
            let stream = trace[index].0;
            let earlier = own_events(trace.take(index), stream);
            &&& own_events(trace.take(index + 1), stream) == earlier.push(trace[index].1)
            &&& shared_action_at(trace, index) == action_at(
                earlier.push(trace[index].1),
                earlier.len() as int,
            )
        }),
{
    let stream = trace[index].0;
    let earlier = own_events(trace.take(index), stream);
    let upto = trace.take(index + 1);
    assert(upto.drop_last() == trace.take(index));
    assert(upto.last() == trace[index]);
    lemma_streams_are_independent(trace.take(index), stream);
    assert(earlier.push(trace[index].1).take(earlier.len() as int) == earlier);
}

/// With many streams open at once, each is answered on its own. What is
/// written on a stream is the response that was encoded for that stream; it
/// is written only after a request was read on that same stream and handed to
/// the dispatcher whole; and no stream has more than one response written.
pub proof fn lemma_each_stream_is_answered_on_its_own(
    trace: Seq<(nat, StreamEvent)>,
    index: int,
) -> (read_at: int)
    requires
        0 <= index < trace.len(),
        shared_action_at(trace, index) is Write,
    ensures
        trace[index].1 matches StreamEvent::ResponseEncoded(bytes) && shared_action_at(
            trace,
            index,
        ) == StreamAction::Write(bytes),
        ({
            let own = own_events(trace.take(index + 1), trace[index].0);
            &&& 0 <= read_at < own.len() - 1
            &&& own[read_at] matches StreamEvent::RequestRead(request) && action_at(own, read_at)
                == StreamAction::Dispatch(request)
        }),
        forall|stream: nat| responses_written(#[trigger] own_events(trace, stream)) <= 1,
{
    let stream = trace[index].0;
    let earlier = own_events(trace.take(index), stream);
    let own = earlier.push(trace[index].1);
    lemma_action_goes_by_own_events(trace, index);
    let read_at = lemma_response_follows_request(own, earlier.len() as int);
    assert forall|stream: nat| responses_written(#[trigger] own_events(trace, stream)) <= 1 by {
        lemma_at_most_one_response(own_events(trace, stream));
    }
    read_at
}

} // verus!
