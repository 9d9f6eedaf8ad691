//! Error taxonomy of the orchestration pipeline.

use vstd::prelude::*;

verus! {

/// Every way one request's pipeline can fail.
#[derive(Clone, Copy, Debug, PartialEq, Eq, Structural)]
pub enum OrchestratorError {
    /// The worker process could not be started, or the launch command
    /// reported no worker handle.
    WorkerLaunch,
    /// A network call to the worker failed outright during a step where
    /// that is fatal (initialize, commit, download).
    WorkerUnreachable,
    /// A response body lacked an expected field (for example the token
    /// field of the initialize response).
    UnexpectedResponseShape,
    /// Polling observed a status code outside the recognized set; the
    /// task is terminal but its outcome is ambiguous.
    UnrecognizedTaskState,
    /// The result archive could not be persisted locally.
    ArtifactWrite,
}

impl OrchestratorError {
    /// A short human-readable description, for the unverified shell to
    /// put in its failure response.
    pub fn describe(&self) -> (r: &'static str)
        ensures
            r@.len() > 0,
    {
        let r = match self {
            OrchestratorError::WorkerLaunch => "failed to start the worker",
            OrchestratorError::WorkerUnreachable => "the worker could not be reached",
            OrchestratorError::UnexpectedResponseShape => "a worker response lacked an expected field",
            OrchestratorError::UnrecognizedTaskState => "the task ended in an unrecognized state",
            OrchestratorError::ArtifactWrite => "the result archive could not be written",
        };
        proof {
            reveal_strlit("failed to start the worker");
            reveal_strlit("the worker could not be reached");
            reveal_strlit("a worker response lacked an expected field");
            reveal_strlit("the task ended in an unrecognized state");
            reveal_strlit("the result archive could not be written");
        }
        r
    }
}

/// The final outcome of one request's pipeline.
#[derive(Clone, Copy, Debug, PartialEq, Eq, Structural)]
pub enum Outcome {
    Success,
    Failure(OrchestratorError),
}

} // verus!
