//! The request that the service answers, and how it answers it.

use vstd::prelude::*;
use crate::backend::CompletionBackend;
use crate::errors::{outcome_view, succeeded, AgentError};
use crate::pipeline::{run_allows, stages_of, Pipeline};

verus! {

/// What a client sends: the text to start from.
#[derive(Debug, Clone, PartialEq, Eq)]
pub struct Prompt {
    pub q: String,
}

/// Answers a request: runs the pipeline on the request's text and returns
/// what the run ends with.
pub fn prompt<C: CompletionBackend, P: Pipeline<C>>(pipeline: &P, request: &Prompt) -> (answer:
    Result<String, AgentError>)
    ensures
        run_allows(stages_of(pipeline.spec_agents()), request.q@, outcome_view(answer)),
        pipeline.spec_agents().len() == 0 ==> outcome_view(answer) == succeeded(request.q@),
{
    pipeline.run_pipeline(request.q.as_str())
}

} // verus!
