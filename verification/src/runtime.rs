//! The container runtime as the dispatcher sees it: the handle, the option and
//! result types that travel through a request untouched, and the operations the
//! dispatcher can ask for.
//!
//! Values of the runtime's own types are opaque here. The broker never looks
//! inside them; it only moves them from a request to a runtime call and from a
//! runtime result to a response.
//!
//! Those of bollard's option types that are generic over their strings cannot
//! be named in verified code. The broker has plain types of its own in their
//! place (`TopOptions`, `StartOptions`, `KillOptions`, `PruneOptions`,
//! `CreateOptions`) and takes the creation spec as a type parameter.

use std::collections::HashMap;
use vstd::prelude::*;

verus! {

/// `bollard::Docker`, the handle on the container runtime. Opaque.
#[verifier::external_type_specification]
#[verifier::external_body]
pub struct ExDocker(bollard::Docker);

/// `bollard::errors::Error`, why the runtime could not be reached. Opaque.
#[verifier::external_type_specification]
#[verifier::external_body]
pub struct ExError(bollard::errors::Error);

/// `bollard::container::InspectContainerOptions`. Opaque.
#[verifier::external_type_specification]
#[verifier::external_body]
pub struct ExInspectContainerOptions(bollard::container::InspectContainerOptions);

/// `bollard::container::StatsOptions`. Opaque.
#[verifier::external_type_specification]
#[verifier::external_body]
pub struct ExStatsOptions(bollard::container::StatsOptions);

/// `bollard::container::LogsOptions`. Opaque.
#[verifier::external_type_specification]
#[verifier::external_body]
pub struct ExLogsOptions(bollard::container::LogsOptions);

/// `bollard::container::StopContainerOptions`. Opaque.
#[verifier::external_type_specification]
#[verifier::external_body]
pub struct ExStopContainerOptions(bollard::container::StopContainerOptions);

/// `bollard::container::RestartContainerOptions`. Opaque.
#[verifier::external_type_specification]
#[verifier::external_body]
pub struct ExRestartContainerOptions(bollard::container::RestartContainerOptions);

/// `bollard::container::RemoveContainerOptions`. Opaque.
#[verifier::external_type_specification]
#[verifier::external_body]
pub struct ExRemoveContainerOptions(bollard::container::RemoveContainerOptions);

/// `bollard::container::UpdateContainerOptions`. Opaque.
#[verifier::external_type_specification]
#[verifier::external_body]
pub struct ExUpdateContainerOptions(bollard::container::UpdateContainerOptions);

/// `bollard::container::APIContainers`, one entry of a container listing. Opaque.
#[verifier::external_type_specification]
#[verifier::external_body]
pub struct ExAPIContainers(bollard::container::APIContainers);

/// `bollard::container::Container`, the result of inspecting a container. Opaque.
#[verifier::external_type_specification]
#[verifier::external_body]
pub struct ExContainer(bollard::container::Container);

/// `bollard::container::Change`, one filesystem change of a container. Opaque.
#[verifier::external_type_specification]
#[verifier::external_body]
pub struct ExChange(bollard::container::Change);

/// `bollard::container::Stats`, one resource usage snapshot. Opaque.
#[verifier::external_type_specification]
#[verifier::external_body]
pub struct ExStats(bollard::container::Stats);

/// `bollard::container::TopResult`, the process table of a container. Opaque.
#[verifier::external_type_specification]
#[verifier::external_body]
pub struct ExTopResult(bollard::container::TopResult);

/// `bollard::container::LogOutput`, one log line. Opaque.
#[verifier::external_type_specification]
#[verifier::external_body]
pub struct ExLogOutput(bollard::container::LogOutput);

/// `bollard::container::PruneContainersResults`. Opaque.
#[verifier::external_type_specification]
#[verifier::external_body]
pub struct ExPruneContainersResults(bollard::container::PruneContainersResults);

/// `bollard::container::CreateContainerResults`. Opaque.
#[verifier::external_type_specification]
#[verifier::external_body]
pub struct ExCreateContainerResults(bollard::container::CreateContainerResults);

/// Options for listing the processes of a container.
#[derive(Clone, Debug)]
pub struct TopOptions {
    /// Arguments handed to `ps` inside the container.
    pub ps_args: String,
}

/// Options for starting a container.
#[derive(Clone, Debug)]
pub struct StartOptions {
    /// Key sequence that detaches from the container.
    pub detach_keys: String,
}

/// Options for killing a container.
#[derive(Clone, Debug)]
pub struct KillOptions {
    /// Signal to send, by name or number.
    pub signal: String,
}

/// Options for pruning stopped containers.
#[derive(Debug)]
pub struct PruneOptions {
    /// Filters: each key with the values it accepts. A key occurs once.
    pub filters: HashMap<String, Vec<String>>,
}

/// Options for creating a container.
#[derive(Clone, Debug)]
pub struct CreateOptions {
    /// Name to give the new container.
    pub name: String,
}

/// How many snapshots a statistics request takes from the runtime's stream.
pub const STATS_SNAPSHOTS: usize = 1;

/// One operation of the container runtime, with everything needed to invoke it.
///
/// `S` is the runtime's creation spec, carried through untouched.
#[allow(inconsistent_fields)]
#[derive(Debug)]
pub enum RuntimeCall<S> {
    /// List containers; `all` includes those that are not running.
    ListContainers { all: bool },
    /// Fetch the filesystem changes of a container.
    ContainerChanges { name: String },
    /// Inspect a container.
    InspectContainer { name: String, options: Option<bollard::container::InspectContainerOptions> },
    /// Take `snapshots` resource usage snapshots of a container.
    Stats { name: String, options: Option<bollard::container::StatsOptions>, snapshots: usize },
    /// List the processes running in a container.
    Top { name: String, options: Option<TopOptions> },
    /// Collect the logs of a container.
    Logs { name: String, options: Option<bollard::container::LogsOptions> },
    /// Stop a container.
    Stop { name: String, options: Option<bollard::container::StopContainerOptions> },
    /// Start a container.
    Start { name: String, options: Option<StartOptions> },
    /// Kill a container.
    Kill { name: String, options: Option<KillOptions> },
    /// Restart a container.
    Restart { name: String, options: Option<bollard::container::RestartContainerOptions> },
    /// Delete stopped containers.
    Prune { options: Option<PruneOptions> },
    /// Remove a container.
    Remove { name: String, options: Option<bollard::container::RemoveContainerOptions> },
    /// Change the resource limits of a container.
    Update { name: String, options: bollard::container::UpdateContainerOptions },
    /// Create a container from a spec.
    Create { config: S, options: Option<CreateOptions> },
}

/// `bollard::Docker::connect_with_local_defaults` builds a handle on the local
/// container runtime and always succeeds: it sets the handle up for the
/// runtime's default socket and does not talk to the runtime yet. Whether the
/// runtime answers shows only when a call is made on the handle.
pub assume_specification[ bollard::Docker::connect_with_local_defaults ]() -> (runtime: Result<
    bollard::Docker,
    bollard::errors::Error,
>)
    ensures
        runtime is Ok,
;

} // verus!
