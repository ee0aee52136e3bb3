//! The per-request state machine: a request moves through the pipeline
//! stages in order, and any stage failure moves it to a terminal failed
//! state carrying the failure kind.

use vstd::prelude::*;
use crate::errors::ProcessingError;

verus! {

/// Where a request stands in the pipeline.
#[derive(Clone, Copy, Debug, PartialEq, Eq, Structural)]
pub enum RequestStage {
    Received,
    Decoded,
    Aggregated,
    Synthesized,
    Persisted,
    Published,
    Acknowledged,
    Failed(ProcessingError),
}

/// The stage a successful step leads to, in pipeline order.
pub open spec fn spec_next_stage(stage: RequestStage) -> RequestStage {
    match stage {
        RequestStage::Received => RequestStage::Decoded,
        RequestStage::Decoded => RequestStage::Aggregated,
        RequestStage::Aggregated => RequestStage::Synthesized,
        RequestStage::Synthesized => RequestStage::Persisted,
        RequestStage::Persisted => RequestStage::Published,
        RequestStage::Published => RequestStage::Acknowledged,
        RequestStage::Acknowledged => RequestStage::Acknowledged,
        RequestStage::Failed(e) => RequestStage::Failed(e),
    }
}

/// A stage the request never leaves: acknowledged, or failed.
pub open spec fn spec_terminal(stage: RequestStage) -> bool {
    stage == RequestStage::Acknowledged || stage matches RequestStage::Failed(_)
}

impl RequestStage {
    /// Advances the request: a successful step moves to the next stage in
    /// pipeline order; a failing step moves to the terminal failed state
    /// with its kind. A terminal stage never changes on success.
    pub fn advance(self, outcome: Result<(), ProcessingError>) -> (r: RequestStage)
        ensures
            match outcome {
                Ok(()) => r == spec_next_stage(self),
                Err(e) => r == (if spec_terminal(self) {
                    spec_next_stage(self)
                } else {
                    RequestStage::Failed(e)
                }),
            },
    {
        match outcome {
            Ok(()) => self.step(),
            Err(e) => match self {
                RequestStage::Acknowledged => RequestStage::Acknowledged,
                RequestStage::Failed(k) => RequestStage::Failed(k),
                _ => RequestStage::Failed(e),
            },
        }
    }

    /// The next stage in pipeline order.
    fn step(self) -> (r: RequestStage)
        ensures
            r == spec_next_stage(self),
    {
        match self {
            RequestStage::Received => RequestStage::Decoded,
            RequestStage::Decoded => RequestStage::Aggregated,
            RequestStage::Aggregated => RequestStage::Synthesized,
            RequestStage::Synthesized => RequestStage::Persisted,
            RequestStage::Persisted => RequestStage::Published,
            RequestStage::Published => RequestStage::Acknowledged,
            RequestStage::Acknowledged => RequestStage::Acknowledged,
            RequestStage::Failed(e) => RequestStage::Failed(e),
        }
    }

    /// Law: a failed request is terminal and stays failed with its original
    /// kind, whatever later steps report.
    pub proof fn lemma_failure_is_terminal(e: ProcessingError)
        ensures
            spec_terminal(RequestStage::Failed(e)),
            spec_next_stage(RequestStage::Failed(e)) == RequestStage::Failed(e),
    {
    }
}

} // verus!
