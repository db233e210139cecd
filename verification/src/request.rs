//! The command dispatcher: from a decoded request to one runtime call or an
//! error envelope, and from the runtime's result to the response envelope.
//!
//! The dispatcher keeps no state between requests. What it does with a request
//! is the table `plan`; the functions below compute it.

use vstd::prelude::*;
use crate::envelope::{Argument, Body, Command, CommandKind, Request, Response, ResponseView};
use crate::runtime::{RuntimeCall, STATS_SNAPSHOTS};

verus! {

/// Message of the envelope sent when no runtime handle can be had.
pub open spec fn runtime_unavailable() -> Seq<char> {
    "Docker not running."@
}

/// Message of the envelope sent when the request bytes do not decode.
pub open spec fn invalid_request() -> Seq<char> {
    "Invalid request format."@
}

/// Message of the envelope sent for a request tag the broker does not serve.
pub open spec fn tag_not_implemented() -> Seq<char> {
    "Not implemented."@
}

/// Message of the envelope sent when a client sends a response envelope.
pub open spec fn response_not_accepted() -> Seq<char> {
    "Server cannot receive Response."@
}

/// Message of the envelope sent for a command kind the broker does not serve.
pub open spec fn command_not_implemented() -> Seq<char> {
    "Not implemented"@
}

/// Message of the envelope sent when a command lacks its argument.
pub open spec fn no_parameter() -> Seq<char> {
    "No parameter received."@
}

/// Message of the envelope sent when a command's argument has the wrong shape.
pub open spec fn invalid_argument() -> Seq<char> {
    "Invalid argument."@
}

/// Whether the broker serves commands of this kind.
pub open spec fn is_served(kind: CommandKind) -> bool {
    !(kind is Rename || kind is Pause || kind is Unpause)
}

/// Whether a command of this kind must come with an argument.
pub open spec fn needs_argument(kind: CommandKind) -> bool {
    is_served(kind) && !(kind is List)
}

/// The runtime call that a command of `kind` with `argument` asks for, or `None`
/// where the argument does not have the shape that `kind` takes.
pub open spec fn call_for<S>(kind: CommandKind, argument: Argument<S>) -> Option<RuntimeCall<S>> {
    match (kind, argument) {
        (CommandKind::Change, Argument::ContainerChanges { name }) => Some(
            RuntimeCall::ContainerChanges { name },
        ),
        (CommandKind::Container, Argument::InspectContainer { name, options }) => Some(
            RuntimeCall::InspectContainer { name, options },
        ),
        (CommandKind::Stats, Argument::Stats { name, options }) => Some(
            RuntimeCall::Stats { name, options, snapshots: STATS_SNAPSHOTS },
        ),
        (CommandKind::Top, Argument::Top { name, options }) => Some(
            RuntimeCall::Top { name, options },
        ),
        (CommandKind::Log, Argument::Logs { name, options }) => Some(
            RuntimeCall::Logs { name, options },
        ),
        (CommandKind::Stop, Argument::Stop { name, options }) => Some(
            RuntimeCall::Stop { name, options },
        ),
        (CommandKind::Start, Argument::Start { name, options }) => Some(
            RuntimeCall::Start { name, options },
        ),
        (CommandKind::Kill, Argument::Kill { name, options }) => Some(
            RuntimeCall::Kill { name, options },
        ),
        (CommandKind::Restart, Argument::Restart { name, options }) => Some(
            RuntimeCall::Restart { name, options },
        ),
        (CommandKind::Prune, Argument::Prune { options }) => Some(RuntimeCall::Prune { options }),
        (CommandKind::Remove, Argument::Remove { name, options }) => Some(
            RuntimeCall::Remove { name, options },
        ),
        (CommandKind::Update, Argument::Update { name, options }) => Some(
            RuntimeCall::Update { name, options },
        ),
        (CommandKind::Create, Argument::Create { config, options }) => Some(
            RuntimeCall::Create { config, options },
        ),
        _ => None,
    }
}

/// What a command leads to: the runtime call to make, or the message of the
/// error envelope to answer with.
pub open spec fn plan_command<S>(command: Command<S>) -> Result<RuntimeCall<S>, Seq<char>> {
    if command.kind is List {
        Ok(RuntimeCall::ListContainers { all: true })
    } else if !is_served(command.kind) {
        Err(command_not_implemented())
    } else {
        match command.argument {
            None => Err(no_parameter()),
            Some(argument) => match call_for(command.kind, argument) {
                Some(call) => Ok(call),
                None => Err(invalid_argument()),
            },
        }
    }
}

/// What a decoded request leads to.
pub open spec fn plan_request<S>(request: Request<S>) -> Result<RuntimeCall<S>, Seq<char>> {
    match request {
        Request::Transfer => Err(tag_not_implemented()),
        Request::Response => Err(response_not_accepted()),
        Request::Command(command) => plan_command(command),
        Request::Other => Err(tag_not_implemented()),
    }
}

/// What one exchange leads to, given whether a runtime handle could be had and
/// what the request bytes decoded to (`None` where they did not decode).
///
/// The runtime is consulted first, the bytes second, the request's tag third.
pub open spec fn plan<S>(runtime_available: bool, decoded: Option<Request<S>>) -> Result<
    RuntimeCall<S>,
    Seq<char>,
> {
    if !runtime_available {
        Err(runtime_unavailable())
    } else {
        match decoded {
            None => Err(invalid_request()),
            Some(request) => plan_request(request),
        }
    }
}

/// Whether `outcome` is the outcome that `planned` prescribes: the same call, or
/// an error envelope with the same message.
pub open spec fn follows<S>(
    outcome: Result<RuntimeCall<S>, Response>,
    planned: Result<RuntimeCall<S>, Seq<char>>,
) -> bool {
    match outcome {
        Ok(call) => planned == Ok::<RuntimeCall<S>, Seq<char>>(call),
        Err(response) => planned is Err && response@ == ResponseView::Error(planned->Err_0),
    }
}

/// Decides what a command leads to: the runtime call it asks for, or the error
/// envelope that answers it.
///
/// `List` takes no argument and always lists all containers. Every other served
/// kind needs an argument of its own shape: without one the answer is "No
/// parameter received.", with one of another shape "Invalid argument.". A kind
/// that is not served is answered with "Not implemented".
pub fn route_command<S>(command: Command<S>) -> (outcome: Result<RuntimeCall<S>, Response>)
    ensures
        follows(outcome, plan_command(command)),
{
    let Command { kind, argument } = command;
    match kind {
        CommandKind::List => Ok(RuntimeCall::ListContainers { all: true }),
        CommandKind::Rename | CommandKind::Pause | CommandKind::Unpause => Err(
            Response::error("Not implemented"),
        ),
        _ => match argument {
            None => Err(Response::error("No parameter received.")),
            Some(argument) => match (kind, argument) {
                (CommandKind::Change, Argument::ContainerChanges { name }) => Ok(
                    RuntimeCall::ContainerChanges { name },
                ),
                (CommandKind::Container, Argument::InspectContainer { name, options }) => Ok(
                    RuntimeCall::InspectContainer { name, options },
                ),
                (CommandKind::Stats, Argument::Stats { name, options }) => Ok(
                    RuntimeCall::Stats { name, options, snapshots: STATS_SNAPSHOTS },
                ),
                (CommandKind::Top, Argument::Top { name, options }) => Ok(
                    RuntimeCall::Top { name, options },
                ),
                (CommandKind::Log, Argument::Logs { name, options }) => Ok(
                    RuntimeCall::Logs { name, options },
                ),
                (CommandKind::Stop, Argument::Stop { name, options }) => Ok(
                    RuntimeCall::Stop { name, options },
                ),
                (CommandKind::Start, Argument::Start { name, options }) => Ok(
                    RuntimeCall::Start { name, options },
                ),
                (CommandKind::Kill, Argument::Kill { name, options }) => Ok(
                    RuntimeCall::Kill { name, options },
                ),
                (CommandKind::Restart, Argument::Restart { name, options }) => Ok(
                    RuntimeCall::Restart { name, options },
                ),
                (CommandKind::Prune, Argument::Prune { options }) => Ok(
                    RuntimeCall::Prune { options },
                ),
                (CommandKind::Remove, Argument::Remove { name, options }) => Ok(
                    RuntimeCall::Remove { name, options },
                ),
                (CommandKind::Update, Argument::Update { name, options }) => Ok(
                    RuntimeCall::Update { name, options },
                ),
                (CommandKind::Create, Argument::Create { config, options }) => Ok(
                    RuntimeCall::Create { config, options },
                ),
                _ => Err(Response::error("Invalid argument.")),
            },
        },
    }
}

/// Decides what a decoded request leads to.
///
/// Only commands reach the runtime. A `Response` envelope is answered with
/// "Server cannot receive Response.", `Transfer` and `Other` with "Not
/// implemented.".
pub fn route<S>(request: Request<S>) -> (outcome: Result<RuntimeCall<S>, Response>)
    ensures
        follows(outcome, plan_request(request)),
{
    match request {
        Request::Transfer => Err(Response::error("Not implemented.")),
        Request::Response => Err(Response::error("Server cannot receive Response.")),
        Request::Command(command) => route_command(command),
        Request::Other => Err(Response::error("Not implemented.")),
    }
}

/// What the dispatcher decided for one exchange.
pub enum Dispatch<S> {
    /// Make this call on this runtime, then answer with its result.
    Invoke { runtime: bollard::Docker, call: RuntimeCall<S> },
    /// Answer with this envelope; the runtime is not to be touched.
    Reply(Response),
}

impl<S> Dispatch<S> {
    /// This decision without the runtime handle: the call, or the envelope.
    pub open spec fn outcome(self) -> Result<RuntimeCall<S>, Response> {
        match self {
            Dispatch::Invoke { runtime, call } => Ok(call),
            Dispatch::Reply(response) => Err(response),
        }
    }
}

/// Decides one exchange from the runtime handle, if one could be had, and the
/// decoded request, if the bytes decoded.
///
/// Without a handle the answer is "Docker not running.", whatever the request.
/// With a handle and undecodable bytes it is "Invalid request format.".
/// Otherwise the request decides, as `route` says, and a call comes with the
/// handle to make it on.
pub fn dispatch<S>(runtime: Option<bollard::Docker>, decoded: Option<Request<S>>) -> (decision:
    Dispatch<S>)
    ensures
        follows(decision.outcome(), plan(runtime is Some, decoded)),
        decision matches Dispatch::Invoke { runtime: handle, .. } ==> runtime == Some(handle),
{
    match runtime {
        None => Dispatch::Reply(Response::error("Docker not running.")),
        Some(handle) => match decoded {
            None => Dispatch::Reply(Response::error("Invalid request format.")),
            Some(request) => match route(request) {
                Ok(call) => Dispatch::Invoke { runtime: handle, call },
                Err(response) => Dispatch::Reply(response),
            },
        },
    }
}

/// Handles one request: takes a handle on the local container runtime and
/// decides what the request leads to.
///
/// `decoded` is what the request bytes decoded to, `None` where they did not
/// decode. Taking the handle does not fail, so the decision is the one that
/// `plan` makes with a runtime at hand: undecodable bytes are answered with
/// "Invalid request format.", and a decoded request decides as `route` says.
pub fn handle_request<S>(decoded: Option<Request<S>>) -> (decision: Dispatch<S>)
    ensures
        follows(decision.outcome(), plan(true, decoded)),
{
    match bollard::Docker::connect_with_local_defaults() {
        Ok(runtime) => dispatch(Some(runtime), decoded),
        Err(_) => dispatch(None, decoded),
    }
}

/// The response to a container listing: the list, or the runtime's failure.
pub fn containers_listed(
    outcome: Result<Vec<bollard::container::APIContainers>, String>,
) -> (response: Response)
    ensures
        response == match outcome {
            Ok(list) => Response::Success(Body::ContainerList(list)),
            Err(message) => Response::Error(message),
        },
{
    match outcome {
        Ok(list) => Response::Success(Body::ContainerList(list)),
        Err(message) => Response::Error(message),
    }
}

/// The response to a request for a container's filesystem changes.
pub fn changes_fetched(
    outcome: Result<Option<Vec<bollard::container::Change>>, String>,
) -> (response: Response)
    ensures
        response == match outcome {
            Ok(changes) => Response::Success(Body::Change(changes)),
            Err(message) => Response::Error(message),
        },
{
    match outcome {
        Ok(changes) => Response::Success(Body::Change(changes)),
        Err(message) => Response::Error(message),
    }
}

/// The response to an inspection of a container.
pub fn container_inspected(outcome: Result<bollard::container::Container, String>) -> (response:
    Response)
    ensures
        response == match outcome {
            Ok(container) => Response::Success(Body::Container(container)),
            Err(message) => Response::Error(message),
        },
{
    match outcome {
        Ok(container) => Response::Success(Body::Container(container)),
        Err(message) => Response::Error(message),
    }
}

/// The snapshots that a statistics response keeps of those the runtime gave:
/// the first `STATS_SNAPSHOTS` of them, in order.
pub open spec fn kept_snapshots(
    snapshots: Seq<bollard::container::Stats>,
) -> Seq<bollard::container::Stats> {
    if snapshots.len() <= STATS_SNAPSHOTS {
        snapshots
    } else {
        snapshots.subrange(0, STATS_SNAPSHOTS as int)
    }
}

/// The response to a request for a container's resource usage. It never holds
/// more than `STATS_SNAPSHOTS` snapshots.
pub fn stats_sampled(outcome: Result<Vec<bollard::container::Stats>, String>) -> (response:
    Response)
    ensures
        match outcome {
            Ok(snapshots) => response matches Response::Success(Body::Stats(kept)) && kept@
                == kept_snapshots(snapshots@),
            Err(message) => response == Response::Error(message),
        },
{
    match outcome {
        Ok(snapshots) => {
            let mut kept = snapshots;
            kept.truncate(STATS_SNAPSHOTS);
            Response::Success(Body::Stats(kept))
        },
        Err(message) => Response::Error(message),
    }
}

/// The response to a request for a container's process table.
pub fn processes_listed(outcome: Result<bollard::container::TopResult, String>) -> (response:
    Response)
    ensures
        response == match outcome {
            Ok(table) => Response::Success(Body::TopResult(table)),
            Err(message) => Response::Error(message),
        },
{
    match outcome {
        Ok(table) => Response::Success(Body::TopResult(table)),
        Err(message) => Response::Error(message),
    }
}

/// The response to a request for a container's logs: every line, in order.
pub fn logs_collected(outcome: Result<Vec<bollard::container::LogOutput>, String>) -> (response:
    Response)
    ensures
        response == match outcome {
            Ok(lines) => Response::Success(Body::LogOutput(lines)),
            Err(message) => Response::Error(message),
        },
{
    match outcome {
        Ok(lines) => Response::Success(Body::LogOutput(lines)),
        Err(message) => Response::Error(message),
    }
}

/// The response to an operation that reports nothing but its success: stop,
/// start, kill, restart, remove and update.
pub fn acknowledged(outcome: Result<(), String>) -> (response: Response)
    ensures
        response == match outcome {
            Ok(_) => Response::Success(Body::Empty),
            Err(message) => Response::Error(message),
        },
{
    match outcome {
        Ok(_) => Response::Success(Body::Empty),
        Err(message) => Response::Error(message),
    }
}

/// The response to a pruning of stopped containers.
pub fn containers_pruned(
    outcome: Result<bollard::container::PruneContainersResults, String>,
) -> (response: Response)
    ensures
        response == match outcome {
            Ok(pruned) => Response::Success(Body::PrunedContainers(pruned)),
            Err(message) => Response::Error(message),
        },
{
    match outcome {
        Ok(pruned) => Response::Success(Body::PrunedContainers(pruned)),
        Err(message) => Response::Error(message),
    }
}

/// The response to the creation of a container.
pub fn container_created(
    outcome: Result<bollard::container::CreateContainerResults, String>,
) -> (response: Response)
    ensures
        response == match outcome {
            Ok(created) => Response::Success(Body::CreateContainerResults(created)),
            Err(message) => Response::Error(message),
        },
{
    match outcome {
        Ok(created) => Response::Success(Body::CreateContainerResults(created)),
        Err(message) => Response::Error(message),
    }
}

/// Undecodable bytes are always answered with an error envelope, and never
/// lead to a runtime call: with a runtime at hand the message is "Invalid
/// request format.", without one "Docker not running.".
pub proof fn lemma_malformed_request_is_refused<S>(runtime_available: bool)
    ensures
        plan::<S>(runtime_available, None) is Err,
        plan::<S>(true, None) == Err::<RuntimeCall<S>, Seq<char>>(invalid_request()),
        plan::<S>(false, None) == Err::<RuntimeCall<S>, Seq<char>>(runtime_unavailable()),
{
}

/// A command of a kind that needs an argument, sent without one, is answered
/// with "No parameter received." and leads to no runtime call.
pub proof fn lemma_missing_argument_is_refused<S>(command: Command<S>)
    requires
        needs_argument(command.kind),
        command.argument is None,
    ensures
        plan_command(command) == Err::<RuntimeCall<S>, Seq<char>>(no_parameter()),
        plan_request(Request::Command(command)) == Err::<RuntimeCall<S>, Seq<char>>(
            no_parameter(),
        ),
        plan(true, Some(Request::Command(command))) == Err::<RuntimeCall<S>, Seq<char>>(
            no_parameter(),
        ),
{
}

/// A response envelope sent by a client is answered with "Server cannot
/// receive Response." and with nothing else, whenever a runtime is at hand.
pub proof fn lemma_response_tag_is_refused<S>()
    ensures
        plan_request::<S>(Request::Response) == Err::<RuntimeCall<S>, Seq<char>>(
            response_not_accepted(),
        ),
        plan::<S>(true, Some(Request::Response)) == Err::<RuntimeCall<S>, Seq<char>>(
            response_not_accepted(),
        ),
{
}

/// A `List` command is valid as it is: with a runtime at hand it always leads
/// to a listing of all containers, whatever argument came with it.
pub proof fn lemma_list_is_always_served<S>(argument: Option<Argument<S>>)
    ensures
        plan(true, Some(Request::Command(Command { kind: CommandKind::List, argument })))
            == Ok::<RuntimeCall<S>, Seq<char>>(RuntimeCall::ListContainers { all: true }),
{
}

/// Without a runtime every exchange is answered with "Docker not running.",
/// whatever the request.
pub proof fn lemma_unavailable_runtime_decides<S>(decoded: Option<Request<S>>)
    ensures
        plan(false, decoded) == Err::<RuntimeCall<S>, Seq<char>>(runtime_unavailable()),
{
}

/// A runtime call is planned only for a served command that carries an
/// argument of its own shape, or for `List`.
pub proof fn lemma_calls_come_from_commands<S>(
    runtime_available: bool,
    decoded: Option<Request<S>>,
)
    requires
        plan(runtime_available, decoded) is Ok,
    ensures
        runtime_available,
        decoded matches Some(Request::Command(command)) && is_served(command.kind) && (
        command.kind is List || (command.argument matches Some(argument) && call_for(
            command.kind,
            argument,
        ) == Some(plan(runtime_available, decoded)->Ok_0))),
{
}

} // verus!
