//! The envelopes exchanged over a stream: what a client may ask, and what the
//! broker answers.

use vstd::prelude::*;
use crate::runtime::{CreateOptions, KillOptions, PruneOptions, StartOptions, TopOptions};

verus! {

/// The kind of a command.
#[derive(Clone, Copy, Debug, PartialEq, Eq, Structural)]
pub enum CommandKind {
    List,
    Change,
    Container,
    Stats,
    Top,
    Log,
    Stop,
    Start,
    Kill,
    Restart,
    Prune,
    Remove,
    Update,
    Create,
    Rename,
    Pause,
    Unpause,
}

/// The argument of a command. Each shape belongs to one command kind.
///
/// `S` is the runtime's creation spec, carried through untouched.
#[allow(inconsistent_fields)]
#[derive(Debug)]
pub enum Argument<S> {
    ContainerChanges { name: String },
    InspectContainer { name: String, options: Option<bollard::container::InspectContainerOptions> },
    Stats { name: String, options: Option<bollard::container::StatsOptions> },
    Top { name: String, options: Option<TopOptions> },
    Logs { name: String, options: Option<bollard::container::LogsOptions> },
    Stop { name: String, options: Option<bollard::container::StopContainerOptions> },
    Start { name: String, options: Option<StartOptions> },
    Kill { name: String, options: Option<KillOptions> },
    Restart { name: String, options: Option<bollard::container::RestartContainerOptions> },
    Prune { options: Option<PruneOptions> },
    Remove { name: String, options: Option<bollard::container::RemoveContainerOptions> },
    Update { name: String, options: bollard::container::UpdateContainerOptions },
    Create { config: S, options: Option<CreateOptions> },
}

/// A command: its kind, and the argument the client sent with it, if any.
///
/// A command may decode with no argument, or with one of the wrong shape for its
/// kind. The dispatcher answers such a command with an error.
#[derive(Debug)]
pub struct Command<S> {
    pub kind: CommandKind,
    pub argument: Option<Argument<S>>,
}

/// A decoded request envelope.
#[derive(Debug)]
pub enum Request<S> {
    /// Reserved.
    Transfer,
    /// A response envelope. Only the broker sends these.
    Response,
    /// A command for the container runtime.
    Command(Command<S>),
    /// Anything else.
    Other,
}

/// The body of a successful response.
#[derive(Debug)]
pub enum Body {
    /// The containers known to the runtime.
    ContainerList(Vec<bollard::container::APIContainers>),
    /// The filesystem changes of a container, where the runtime reports any.
    Change(Option<Vec<bollard::container::Change>>),
    /// The details of one container.
    Container(bollard::container::Container),
    /// Resource usage snapshots of a container.
    Stats(Vec<bollard::container::Stats>),
    /// The process table of a container.
    TopResult(bollard::container::TopResult),
    /// The log lines of a container.
    LogOutput(Vec<bollard::container::LogOutput>),
    /// What pruning deleted.
    PrunedContainers(bollard::container::PruneContainersResults),
    /// The container that was created.
    CreateContainerResults(bollard::container::CreateContainerResults),
    /// The operation succeeded and has nothing to report.
    Empty,
}

/// A response envelope: a success body or an error message, never both.
#[derive(Debug)]
pub enum Response {
    Success(Body),
    Error(String),
}

/// A response envelope as contracts speak of it: the error message by its characters.
pub enum ResponseView {
    Success(Body),
    Error(Seq<char>),
}

impl View for Response {
    type V = ResponseView;

    open spec fn view(&self) -> ResponseView {
        match *self {
            Response::Success(body) => ResponseView::Success(body),
            Response::Error(message) => ResponseView::Error(message@),
        }
    }
}

impl Response {
    /// An error envelope that carries `message`.
    pub fn error(message: &str) -> (response: Response)
        ensures
            response@ == ResponseView::Error(message@),
    {
        Response::Error(message.to_owned())
    }

    /// Whether this envelope carries an error.
    pub fn is_error(&self) -> (b: bool)
        ensures
            b == (self@ is Error),
    {
        match self {
            Response::Error(_) => true,
            Response::Success(_) => false,
        }
    }

    /// The error message, if this envelope carries one.
    pub fn error_message(&self) -> (message: Option<&String>)
        ensures
            match message {
                Some(m) => self@ == ResponseView::Error(m@),
                None => self@ is Success,
            },
    {
        match self {
            Response::Error(m) => Some(m),
            Response::Success(_) => None,
        }
    }
}

} // verus!
