//! The JSON reader and writer, as far as the researcher needs them.
//!
//! The work is done by `serde_json`. Of the two calls into it nothing is
//! proved: each states what is taken on trust from that crate.

use vstd::prelude::*;
use crate::errors::{AgentError, AgentErrorView};

verus! {

/// `serde_json::Error`, carried through and never looked into.
#[verifier::external_type_specification]
#[verifier::external_body]
pub struct ExJsonError(serde_json::Error);

/// `serde_json::Value`, a parsed document, carried through and never looked into.
#[verifier::external_type_specification]
#[verifier::external_body]
pub struct ExJsonValue(serde_json::Value);

/// What a parsed document holds, written out: the text that
/// `serde_json::to_string_pretty` gives for it.
pub uninterp spec fn document_text(document: serde_json::Value) -> Seq<char>;

/// The pretty-printed form of the JSON document that a text holds: what
/// `serde_json::from_str` reads from the text, as [`document_text`] writes it
/// out again. `None` where the text holds no document.
pub uninterp spec fn pretty_text(body: Seq<char>) -> Option<Seq<char>>;

/// Calls `serde_json::from_str` to read a whole document.
///
/// Taken on trust: the call is a function of the text alone, so that the
/// document it reads is written out as `pretty_text` of the text says, and a
/// refusal means that `pretty_text` has nothing for the text.
#[verifier::external_body]
pub(crate) fn parse_document(body: &str) -> (document: Result<serde_json::Value, serde_json::Error>)
    ensures
        match document {
            Ok(read) => pretty_text(body@) == Some(document_text(read)),
            Err(_) => pretty_text(body@) is None,
        },
{
    serde_json::from_str::<serde_json::Value>(body)
}

/// Calls `serde_json::to_string_pretty` on a parsed document.
///
/// Taken on trust: the call is a function of the document alone and gives
/// `document_text` of it, and it does not refuse. A document has texts for
/// keys, and the writer fills a buffer in memory, so that none of the
/// writer's ways to fail is open.
#[verifier::external_body]
pub(crate) fn render_document(document: &serde_json::Value) -> (rendered: Result<
    String,
    serde_json::Error,
>)
    ensures
        match rendered {
            Ok(text) => text@ == document_text(*document),
            Err(_) => false,
        },
{
    serde_json::to_string_pretty(document)
}

/// Puts a verdict of the reader or the writer in the library's terms: a text
/// stays as it is, and every refusal becomes `SerializationError`.
pub fn json_result(verdict: Result<String, serde_json::Error>) -> (result: Result<
    String,
    AgentError,
>)
    ensures
        match verdict {
            Ok(text) => result matches Ok(same) && same@ == text@,
            Err(_) => result matches Err(error) && error@ == AgentErrorView::SerializationError,
        },
{
    match verdict {
        Ok(text) => Ok(text),
        Err(_) => Err(AgentError::SerializationError),
    }
}

} // verus!
