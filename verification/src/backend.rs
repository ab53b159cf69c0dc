//! The two outside services, as the agents see them.
//!
//! A backend is anything that answers a request. The library asks nothing of
//! the answer: what it does with each possible answer is stated where the
//! answer is used.

use vstd::prelude::*;

verus! {

/// One exchange for the completion backend: which model, and the two messages.
#[derive(Debug, Clone, PartialEq, Eq)]
pub struct CompletionRequest {
    /// The model that is asked.
    pub model: String,
    /// The system message: the agent's persona and rules.
    pub system: String,
    /// The user message: the instruction and its context.
    pub user: String,
}

/// The mathematical value of a [`CompletionRequest`].
pub struct CompletionRequestView {
    pub model: Seq<char>,
    pub system: Seq<char>,
    pub user: Seq<char>,
}

impl View for CompletionRequest {
    type V = CompletionRequestView;

    open spec fn view(&self) -> CompletionRequestView {
        CompletionRequestView { model: self.model@, system: self.system@, user: self.user@ }
    }
}

/// What the completion backend answered.
#[derive(Debug, Clone, PartialEq, Eq)]
pub enum CompletionReply {
    /// The candidate completions in the order received; a candidate may
    /// carry no text.
    Choices(Vec<Option<String>>),
    /// The call failed, or the request could not be built or sent.
    Failed(String),
}

/// The mathematical value of a [`CompletionReply`].
pub enum CompletionReplyView {
    Choices(Seq<Option<Seq<char>>>),
    Failed(Seq<char>),
}

/// The text of a candidate, if it has one.
pub open spec fn candidate_text(candidate: Option<String>) -> Option<Seq<char>> {
    match candidate {
        Some(text) => Some(text@),
        None => None,
    }
}

impl View for CompletionReply {
    type V = CompletionReplyView;

    open spec fn view(&self) -> CompletionReplyView {
        match self {
            CompletionReply::Choices(choices) => CompletionReplyView::Choices(
                choices@.map_values(|candidate: Option<String>| candidate_text(candidate)),
            ),
            CompletionReply::Failed(message) => CompletionReplyView::Failed(message@),
        }
    }
}

/// A service that completes a chat exchange.
pub trait CompletionBackend {
    /// Sends the exchange and reports what came back.
    fn complete(&self, request: &CompletionRequest) -> CompletionReply;
}

/// What the search backend answered.
#[derive(Debug, Clone, PartialEq, Eq)]
pub enum SearchReply {
    /// A response arrived, with this HTTP status and this body.
    Response { status: u16, body: String },
    /// No response arrived.
    Failed(String),
}

/// The mathematical value of a [`SearchReply`].
pub enum SearchReplyView {
    Response { status: u16, body: Seq<char> },
    Failed(Seq<char>),
}

impl View for SearchReply {
    type V = SearchReplyView;

    open spec fn view(&self) -> SearchReplyView {
        match self {
            SearchReply::Response { status, body } => SearchReplyView::Response {
                status: *status,
                body: body@,
            },
            SearchReply::Failed(message) => SearchReplyView::Failed(message@),
        }
    }
}

/// A service that answers a free-text query with a JSON document.
pub trait SearchBackend {
    /// Sends the query and reports what came back.
    fn search(&self, query: &str) -> SearchReply;
}

} // verus!
