//! The decisions around the engine's stop, remove and list calls.
use vstd::prelude::*;

use crate::error::OrchestratorError;
use crate::inspect::{container_info_from_summary, summary_info, ContainerSummaryReply};
use crate::model::ContainerInfo;
use crate::registry::DeploymentRegistry;

verus! {

/// Seconds the engine waits for a container to stop before killing it.
pub const STOP_GRACE_SECONDS: i64 = 10;

/// How the engine answered a call on one container.
pub enum EngineReply {
    Done,
    /// The engine knows no container of that name.
    NotFound,
    Failed(String),
}

/// What the engine's remove call is given: the container, whether a running
/// one is removed too, and that its volumes go with it.
pub struct RemoveRequest {
    pub name: String,
    pub force: bool,
    pub remove_volumes: bool,
}

/// The remove call for container `name`.
pub fn remove_request(name: &str, force: bool) -> (r: RemoveRequest)
    ensures
        r.name@ == name@,
        r.force == force,
        r.remove_volumes,
{
    RemoveRequest { name: String::from_str(name), force, remove_volumes: true }
}

/// The outcome of stopping container `name`: done, or the container is
/// unknown, or the engine failed.
pub fn stop_outcome(name: &str, reply: EngineReply) -> (r: Result<(), OrchestratorError>)
    ensures
        match reply {
            EngineReply::Done => r is Ok,
            EngineReply::NotFound => r matches Err(OrchestratorError::ContainerNotFound(n)) && n@
                == name@,
            EngineReply::Failed(m) => r matches Err(OrchestratorError::ContainerStopFailure(e))
                && e@ == m@,
        },
{
    match reply {
        EngineReply::Done => Ok(()),
        EngineReply::NotFound => Err(OrchestratorError::ContainerNotFound(String::from_str(name))),
        EngineReply::Failed(m) => Err(OrchestratorError::ContainerStopFailure(m)),
    }
}

impl DeploymentRegistry {
    /// Takes the engine's answer to removing container `name`. Once the
    /// container is gone, whether it was just removed or was never there,
    /// the removal succeeds and the registry forgets `name`; a failure of the
    /// engine leaves the registry as it was.
    pub fn finish_remove(&mut self, name: &str, reply: EngineReply) -> (r: Result<(), OrchestratorError>)
        requires
            old(self).wf(),
        ensures
            final(self).wf(),
            match reply {
                EngineReply::Done | EngineReply::NotFound => r is Ok && final(self)@ == old(
                    self,
                )@.remove(name@),
                EngineReply::Failed(m) => final(self)@ == old(self)@ && (r matches Err(
                    OrchestratorError::ContainerRemoveFailure(e),
                ) && e@ == m@),
            },
    {
        match reply {
            EngineReply::Failed(m) => Err(OrchestratorError::ContainerRemoveFailure(m)),
            _ => {
                self.remove(name);
                Ok(())
            },
        }
    }
}

/// The containers of a listing, one for each summary and in its order; a
/// failed listing is reported as such.
pub fn containers_from_listing(reply: Result<Vec<ContainerSummaryReply>, String>) -> (r: Result<
    Vec<ContainerInfo>,
    OrchestratorError,
>)
    ensures
        match reply {
            Ok(summaries) => r matches Ok(infos) && infos@.len() == summaries@.len() && forall|
                i: int,
            |
                0 <= i < summaries@.len() ==> (#[trigger] infos@[i])@ == summary_info(
                    summaries@[i],
                ),
            Err(m) => r matches Err(OrchestratorError::ContainerListFailure(e)) && e@ == m@,
        },
{
    match reply {
        Ok(summaries) => {
            let mut infos: Vec<ContainerInfo> = Vec::new();
            let mut i: usize = 0;
            while i < summaries.len()
                invariant
                    i <= summaries@.len(),
                    infos@.len() == i,
                    forall|j: int|
                        0 <= j < i ==> (#[trigger] infos@[j])@ == summary_info(summaries@[j]),
                decreases summaries@.len() - i,
            {
                infos.push(container_info_from_summary(&summaries[i]));
                i = i + 1;
            }
            Ok(infos)
        },
        Err(m) => Err(OrchestratorError::ContainerListFailure(m)),
    }
}

} // verus!
