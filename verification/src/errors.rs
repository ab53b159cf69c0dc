//! The failures that an agent or a pipeline can report.

use vstd::prelude::*;

verus! {

/// Why an agent could not produce its text.
#[derive(Debug, Clone, PartialEq, Eq)]
pub enum AgentError {
    /// A backend call failed; the text is the backend's own account of it.
    BackendError(String),
    /// The completion backend answered, but with no text.
    EmptyCompletion,
    /// A document could not be decoded, or not encoded again.
    SerializationError,
}

/// The mathematical value of an [`AgentError`].
pub enum AgentErrorView {
    BackendError(Seq<char>),
    EmptyCompletion,
    SerializationError,
}

impl View for AgentError {
    type V = AgentErrorView;

    open spec fn view(&self) -> AgentErrorView {
        match self {
            AgentError::BackendError(message) => AgentErrorView::BackendError(message@),
            AgentError::EmptyCompletion => AgentErrorView::EmptyCompletion,
            AgentError::SerializationError => AgentErrorView::SerializationError,
        }
    }
}

/// What a stage or a whole run ends with: its text, or the failure.
pub type Outcome = Result<Seq<char>, AgentErrorView>;

/// The outcome that is the text `text`.
pub open spec fn succeeded(text: Seq<char>) -> Outcome {
    Ok(text)
}

/// The outcome that is the failure `error`.
pub open spec fn failed(error: AgentErrorView) -> Outcome {
    Err(error)
}

/// The mathematical value of a result as the library's functions return it.
pub open spec fn outcome_view(result: Result<String, AgentError>) -> Outcome {
    match result {
        Ok(text) => Ok(text@),
        Err(error) => Err(error@),
    }
}

/// The sentence that [`AgentError::message`] gives for a failure.
pub open spec fn message_text(error: AgentErrorView) -> Seq<char> {
    match error {
        AgentErrorView::BackendError(message) => message,
        AgentErrorView::EmptyCompletion => "the completion backend returned no text"@,
        AgentErrorView::SerializationError => "a document could not be encoded or decoded"@,
    }
}

impl AgentError {
    /// A sentence for logs and error bodies.
    pub fn message(&self) -> (text: String)
        ensures
            text@ == message_text(self@),
    {
        match self {
            AgentError::BackendError(message) => message.clone(),
            AgentError::EmptyCompletion => "the completion backend returned no text".to_string(),
            AgentError::SerializationError => {
                "a document could not be encoded or decoded".to_string()
            },
        }
    }
}

} // verus!
