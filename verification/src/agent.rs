//! The agent capability.
//!
//! An agent has a name, a system prompt that fixes its persona, and one
//! operation, [`Agent::prompt`]: it sends the system prompt and the
//! instruction to its completion backend and returns the first reply.
//!
//! The context of a call is a text and goes into the user message as it
//! came. Structured data is handed over as its JSON text, which is what
//! [`crate::researcher::Researcher::prepare_data`] returns.

use vstd::prelude::*;
use crate::backend::{
    CompletionBackend, CompletionReply, CompletionReplyView, CompletionRequest,
    CompletionRequestView,
};
use crate::errors::{failed, outcome_view, AgentError, AgentErrorView, Outcome};

verus! {

/// The model that every agent asks.
pub const MODEL: &'static str = "gpt-4o-mini";

/// What stands between the instruction and the context in a user message.
pub const CONTEXT_HEADING: &'static str = "\n            Provided context:\n            ";

/// What closes a user message.
pub const CONTEXT_CLOSING: &'static str = "\n            ";

/// The user message for an instruction and a context: the instruction, then
/// the context under its heading, as it came.
pub open spec fn user_message(instruction: Seq<char>, context: Seq<char>) -> Seq<char> {
    instruction + CONTEXT_HEADING@ + context + CONTEXT_CLOSING@
}

/// The exchange that an agent with this system prompt sends for an
/// instruction and a context.
pub open spec fn chat_request(
    system: Seq<char>,
    instruction: Seq<char>,
    context: Seq<char>,
) -> CompletionRequestView {
    CompletionRequestView { model: MODEL@, system, user: user_message(instruction, context) }
}

/// What an agent makes of a reply: the text of the first candidate; a failure
/// of the backend as it is; and `EmptyCompletion` where there is no candidate
/// or the first one has no text.
pub open spec fn completion_outcome(reply: CompletionReplyView) -> Outcome {
    match reply {
        CompletionReplyView::Failed(message) => Err(AgentErrorView::BackendError(message)),
        CompletionReplyView::Choices(choices) => if choices.len() > 0 && choices[0] is Some {
            Ok(choices[0]->Some_0)
        } else {
            Err(AgentErrorView::EmptyCompletion)
        },
    }
}

/// What [`Agent::prompt`] may end with.
///
/// The backend `client` was handed exactly
/// `chat_request(system, instruction, context)`, and the outcome is what
/// [`completion_outcome`] makes of a reply that the backend may give to it.
/// How often the backend was asked is beyond what a contract can say.
pub open spec fn prompt_allows<C: CompletionBackend>(
    client: C,
    system: Seq<char>,
    instruction: Seq<char>,
    context: Seq<char>,
    outcome: Outcome,
) -> bool {
    exists|request: CompletionRequest, reply: CompletionReply|
        #![trigger call_ensures(C::complete, (&client, &request), reply)]
        request@ == chat_request(system, instruction, context) && call_ensures(
            C::complete,
            (&client, &request),
            reply,
        ) && outcome == completion_outcome(reply@)
}

/// Builds the user message from an instruction and a context.
pub fn compose_user_message(instruction: &str, context: &str) -> (message: String)
    ensures
        message@ == user_message(instruction@, context@),
{
    let mut message = instruction.to_string();
    message.append(CONTEXT_HEADING);
    message.append(context);
    message.append(CONTEXT_CLOSING);
    message
}

/// Builds the exchange for one call: the model, the system prompt, and the
/// context under the instruction as it came.
pub fn build_request(system: String, instruction: &str, context: &str) -> (request:
    CompletionRequest)
    ensures
        request@ == chat_request(system@, instruction@, context@),
{
    CompletionRequest {
        model: MODEL.to_string(),
        system,
        user: compose_user_message(instruction, context),
    }
}

/// Reads a reply: the text of its first candidate, or why there is none.
pub fn completion_text(reply: CompletionReply) -> (text: Result<String, AgentError>)
    ensures
        outcome_view(text) == completion_outcome(reply@),
{
    match reply {
        CompletionReply::Failed(message) => Err(AgentError::BackendError(message)),
        CompletionReply::Choices(choices) => {
            if choices.len() == 0 {
                Err(AgentError::EmptyCompletion)
            } else {
                match &choices[0] {
                    Some(text) => Ok(text.clone()),
                    None => Err(AgentError::EmptyCompletion),
                }
            }
        },
    }
}

/// What a call hands to the backend, written out: the model, the system
/// prompt as it is, and as user message the instruction, the heading, the
/// context that this call was given, as it came, and the closing. What the
/// call ends with is read from the backend's reply, and from nothing else.
pub proof fn law_request_of_a_call<C: CompletionBackend>(
    client: C,
    system: Seq<char>,
    instruction: Seq<char>,
    context: Seq<char>,
    outcome: Outcome,
)
    requires
        prompt_allows(client, system, instruction, context, outcome),
    ensures
        exists|request: CompletionRequest, reply: CompletionReply|
            #![trigger call_ensures(C::complete, (&client, &request), reply)]
            request.model@ == MODEL@ && request.system@ == system && request.user@ == instruction
                + CONTEXT_HEADING@ + context + CONTEXT_CLOSING@ && call_ensures(
                C::complete,
                (&client, &request),
                reply,
            ) && outcome == completion_outcome(reply@),
{
    let (request, reply) = choose|request: CompletionRequest, reply: CompletionReply|
        #![trigger call_ensures(C::complete, (&client, &request), reply)]
        request@ == chat_request(system, instruction, context) && call_ensures(
            C::complete,
            (&client, &request),
            reply,
        ) && outcome == completion_outcome(reply@);
    assert(call_ensures(C::complete, (&client, &request), reply));
}

/// A backend that never gives text makes every call fail with
/// `EmptyCompletion`: where each reply that the backend may give has no
/// candidate, or a first candidate without text, a call ends with that
/// failure, whatever it was given.
pub proof fn law_no_text_is_empty_completion<C: CompletionBackend>(
    client: C,
    system: Seq<char>,
    instruction: Seq<char>,
    context: Seq<char>,
    outcome: Outcome,
)
    requires
        prompt_allows(client, system, instruction, context, outcome),
        forall|request: CompletionRequest, reply: CompletionReply| #[trigger]
            call_ensures(C::complete, (&client, &request), reply) ==> (reply@ matches CompletionReplyView::Choices(
                choices,
            ) && (choices.len() == 0 || choices[0] is None)),
    ensures
        outcome == failed(AgentErrorView::EmptyCompletion),
{
}

/// What every agent can do.
///
/// `C` is the completion backend that the agent asks.
pub trait Agent<C: CompletionBackend> {
    /// The agent's name.
    spec fn spec_name(&self) -> Seq<char>;

    /// The agent's system prompt: the override it was made with, or its
    /// default.
    spec fn spec_system_prompt(&self) -> Seq<char>;

    /// The backend that the agent asks.
    spec fn spec_client(&self) -> C;

    /// A stable identifier, never empty.
    fn name(&self) -> (name: String)
        ensures
            name@ == self.spec_name(),
            name@.len() > 0,
    ;

    /// The backend that the agent asks.
    fn client(&self) -> (client: &C)
        ensures
            *client == self.spec_client(),
    ;

    /// The instruction text that fixes the agent's persona, never empty.
    fn system_prompt(&self) -> (prompt: String)
        ensures
            prompt@ == self.spec_system_prompt(),
            prompt@.len() > 0,
    ;

    /// Acts on `input`, with `data` as context: hands the system prompt and
    /// the user message to the backend and returns the text of the first
    /// candidate of its reply, or why there is none.
    fn prompt(&self, input: &str, data: String) -> (output: Result<String, AgentError>)
        ensures
            prompt_allows(
                self.spec_client(),
                self.spec_system_prompt(),
                input@,
                data@,
                outcome_view(output),
            ),
    {
        let request = build_request(self.system_prompt(), input, data.as_str());
        let reply = self.client().complete(&request);
        assert(call_ensures(C::complete, (&self.spec_client(), &request), reply));
        completion_text(reply)
    }
}

/// The system prompt in force: the override where there is one, else the
/// default.
pub open spec fn prompt_in_force(system: Option<String>, default_prompt: Seq<char>) -> Seq<char> {
    match system {
        Some(text) => text@,
        None => default_prompt,
    }
}

/// The system prompt in force, as a text of its own.
pub(crate) fn prompt_or_default(system: &Option<String>, default_prompt: &str) -> (prompt: String)
    ensures
        prompt@ == prompt_in_force(*system, default_prompt@),
{
    match system {
        Some(text) => text.clone(),
        None => default_prompt.to_string(),
    }
}

} // verus!
