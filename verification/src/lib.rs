//! Role-specialised language-model agents and the pipeline that chains them.
//!
//! An [`Agent`] turns an instruction into text by sending one system message
//! and one user message to a completion backend. A [`Pipeline`] runs an
//! ordered list of agents, handing each agent the text that the one before it
//! produced, and stops at the first failure.
//!
//! The backends are injected: the library never talks to the network itself,
//! and what it does is verified for whatever the backends answer. The one
//! thing taken on trust is the JSON reader and writer, in [`json`].

pub mod errors;
pub mod json;
pub mod backend;
pub mod agent;
pub mod researcher;
pub mod writer;
pub mod twitter;
pub mod linkedin;
pub mod pipeline;
pub mod service;

pub use crate::agent::Agent;
pub use crate::backend::{
    CompletionBackend, CompletionReply, CompletionRequest, SearchBackend, SearchReply,
};
pub use crate::errors::AgentError;
pub use crate::linkedin::LinkedInAgent;
pub use crate::pipeline::{ContentPipeline, Pipeline};
pub use crate::researcher::Researcher;
pub use crate::service::Prompt;
pub use crate::twitter::TwitterAgent;
pub use crate::writer::Writer;
