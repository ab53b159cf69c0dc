//! The researcher: an agent that can fetch search results for itself.
//!
//! [`Researcher::prepare_data`] asks the search backend and returns the
//! document that came back, pretty-printed. The caller hands that text to
//! the researcher's own [`Agent::prompt`] as context; no other agent gets it.

use vstd::prelude::*;
use crate::agent::{prompt_in_force, prompt_or_default, Agent};
use crate::backend::{CompletionBackend, SearchBackend, SearchReply, SearchReplyView};
use crate::errors::{outcome_view, AgentError, AgentErrorView, Outcome};
use crate::json::{json_result, parse_document, pretty_text, render_document};

verus! {

/// What [`Researcher::prepare_data`] reports when the search backend answers
/// with a status outside the 2xx range.
pub const SEARCH_REFUSED: &'static str = "the search backend answered with a non-success status";

/// Whether an HTTP status says that the request succeeded.
pub open spec fn is_success(status: u16) -> bool {
    200 <= status && status < 300
}

/// The body of a search response, or why there is none to read: a failure
/// to get a response as it is, and a fixed message for a status outside
/// the 2xx range.
pub open spec fn body_outcome(reply: SearchReplyView) -> Outcome {
    match reply {
        SearchReplyView::Failed(message) => Err(AgentErrorView::BackendError(message)),
        SearchReplyView::Response { status, body } => if is_success(status) {
            Ok(body)
        } else {
            Err(AgentErrorView::BackendError(SEARCH_REFUSED@))
        },
    }
}

/// A body as context: the pretty-printed form of the JSON document that it
/// holds, or `SerializationError` where it has none.
pub open spec fn document_outcome(body: Seq<char>) -> Outcome {
    match pretty_text(body) {
        Some(text) => Ok(text),
        None => Err(AgentErrorView::SerializationError),
    }
}

/// What the researcher makes of a reply of the search backend: the failure
/// that [`body_outcome`] names, else the body as context.
pub open spec fn context_outcome(reply: SearchReplyView) -> Outcome {
    match body_outcome(reply) {
        Err(error) => Err(error),
        Ok(body) => document_outcome(body),
    }
}

/// What [`Researcher::prepare_data`] may end with: the search backend was
/// handed exactly `query`, and the outcome is what [`context_outcome`] makes
/// of a reply that the backend may give to it.
pub open spec fn gather_allows<S: SearchBackend>(search: S, query: &str, outcome: Outcome) -> bool {
    exists|reply: SearchReply|
        #![trigger call_ensures(S::search, (&search, query), reply)]
        call_ensures(S::search, (&search, query), reply) && outcome == context_outcome(reply@)
}

/// Reads a search reply as far as the transport goes: the body of a
/// response with a success status, else a `BackendError`.
pub fn response_body(reply: SearchReply) -> (body: Result<String, AgentError>)
    ensures
        outcome_view(body) == body_outcome(reply@),
{
    match reply {
        SearchReply::Failed(message) => Err(AgentError::BackendError(message)),
        SearchReply::Response { status, body } => {
            if 200 <= status && status < 300 {
                Ok(body)
            } else {
                Err(AgentError::BackendError(SEARCH_REFUSED.to_string()))
            }
        },
    }
}

/// Reads `body` as a JSON document and writes it out again, pretty-printed.
/// Fails with `SerializationError` exactly where the body holds no document.
pub fn reformat_document(body: &str) -> (context: Result<String, AgentError>)
    ensures
        outcome_view(context) == document_outcome(body@),
{
    match parse_document(body) {
        Ok(document) => json_result(render_document(&document)),
        Err(_) => Err(AgentError::SerializationError),
    }
}

/// The persona that a researcher has unless it is given another.
pub const RESEARCHER_PROMPT: &'static str = "You are an agent.

        You will receive a question that may be quite short or does not have much context.
        Your job is to research the Internet and to return with a high-quality summary to the user, assisted by the provided context.
        The provided context will be in JSON format and contains data about the initial Google results for the website or query.

        Be concise.

        Question:
        ";

/// The default persona is not empty. Verus learns what a literal holds only
/// from the literal itself, so the text stands here a second time.
proof fn lemma_researcher_prompt_is_not_empty()
    ensures
        RESEARCHER_PROMPT@.len() > 0,
{
    reveal_strlit("You are an agent.

        You will receive a question that may be quite short or does not have much context.
        Your job is to research the Internet and to return with a high-quality summary to the user, assisted by the provided context.
        The provided context will be in JSON format and contains data about the initial Google results for the website or query.

        Be concise.

        Question:
        ");
}

/// Answers a short question with a summary, helped by search results that
/// it can fetch for itself.
///
/// `S` is the search backend that it asks.
pub struct Researcher<C: CompletionBackend, S: SearchBackend> {
    search: S,
    system: Option<String>,
    client: C,
}

impl<C: CompletionBackend, S: SearchBackend> Researcher<C, S> {
    #[verifier::type_invariant]
    spec fn well_formed(&self) -> bool {
        self.system matches Some(text) ==> text@.len() > 0
    }

    /// The search backend that the agent asks.
    pub closed spec fn spec_search(&self) -> S {
        self.search
    }

    /// The agent with its default persona.
    pub fn new(client: C, search: S) -> (agent: Self)
        ensures
            agent.spec_client() == client,
            agent.spec_search() == search,
            agent.spec_system_prompt() == RESEARCHER_PROMPT@,
    {
        Researcher { search, system: None, client }
    }

    /// The agent with `system` as its persona, for good; `None` where
    /// `system` is empty.
    pub fn with_system_prompt(client: C, search: S, system: String) -> (agent: Option<Self>)
        ensures
            match agent {
                Some(made) => system@.len() > 0 && made.spec_client() == client
                    && made.spec_search() == search && made.spec_system_prompt() == system@,
                None => system@.len() == 0,
            },
    {
        if system.as_str().is_empty() {
            None
        } else {
            Some(Researcher { search, system: Some(system), client })
        }
    }

    /// Gathers context for a question: hands the raw question to the search
    /// backend and returns the document that came back, pretty-printed.
    ///
    /// The result is meant for this agent's own [`Agent::prompt`], as its
    /// `data`. A failure to get a response, or a status outside the 2xx
    /// range, is a `BackendError`; a body that is no JSON document is a
    /// `SerializationError`.
    pub fn prepare_data(&self, prompt: &str) -> (context: Result<String, AgentError>)
        ensures
            gather_allows(self.spec_search(), prompt, outcome_view(context)),
    {
        let reply = self.search.search(prompt);
        assert(call_ensures(S::search, (&self.spec_search(), prompt), reply));
        match response_body(reply) {
            Ok(body) => reformat_document(body.as_str()),
            Err(error) => Err(error),
        }
    }
}

impl<C: CompletionBackend + Clone, S: SearchBackend + Clone> Clone for Researcher<C, S> {
    /// An independent handle on the same persona, with a clone of each
    /// backend handle.
    fn clone(&self) -> (copy: Self)
        ensures
            copy.spec_system_prompt() == self.spec_system_prompt(),
            cloned(self.spec_client(), copy.spec_client()),
            cloned(self.spec_search(), copy.spec_search()),
    {
        proof {
            use_type_invariant(self);
        }
        let system = match &self.system {
            Some(text) => Some(text.clone()),
            None => None,
        };
        Researcher { search: self.search.clone(), system, client: self.client.clone() }
    }
}

impl<C: CompletionBackend, S: SearchBackend> Agent<C> for Researcher<C, S> {
    open spec fn spec_name(&self) -> Seq<char> {
        "Researcher"@
    }

    closed spec fn spec_system_prompt(&self) -> Seq<char> {
        prompt_in_force(self.system, RESEARCHER_PROMPT@)
    }

    closed spec fn spec_client(&self) -> C {
        self.client
    }

    fn name(&self) -> (name: String) {
        proof {
            reveal_strlit("Researcher");
        }
        "Researcher".to_string()
    }

    fn client(&self) -> (client: &C) {
        &self.client
    }

    fn system_prompt(&self) -> (prompt: String) {
        proof {
            use_type_invariant(self);
            lemma_researcher_prompt_is_not_empty();
        }
        prompt_or_default(&self.system, RESEARCHER_PROMPT)
    }
}

} // verus!
