//! The ways an orchestration call can fail, one kind for each stage of the
//! pipeline. Each carries what the engine said, or what was looked for.
use vstd::prelude::*;

verus! {

#[derive(Debug)]
pub enum OrchestratorError {
    /// The engine could not be reached; nothing can be orchestrated.
    EngineConnectionFailure(String),
    /// No template has the id that was asked for.
    TemplateNotFound(String),
    /// The image build failed; the log lines gathered before the failure
    /// are kept.
    BuildFailure { message: String, logs: Vec<String> },
    ContainerCreateFailure(String),
    ContainerStartFailure(String),
    ContainerInspectFailure(String),
    /// A stop or remove named a container that the engine does not know.
    ContainerNotFound(String),
    ContainerStopFailure(String),
    ContainerRemoveFailure(String),
    ContainerListFailure(String),
}

} // verus!
