//! The writer: an agent that turns findings into an article.

use vstd::prelude::*;
use crate::agent::{prompt_in_force, prompt_or_default, Agent};
use crate::backend::CompletionBackend;

verus! {

/// The persona that a writer has unless it is given another.
pub const WRITER_PROMPT: &'static str = "You are an agent.

        You will receive some context from another agent about some Google results that a user has searched.
        Your job is to research the Internet and to write a high-quality article that a user has written. The article must not appear to be AI written. The article should be SEO optimised without overly compromising the
        quality of the article.

        You are free to be as creative as you wish. However, each paragraph must have the following:
        - The point you are trying to make
        - If there is a follow up action point
        - Why the follow up action point exists (or why the user needs to carry it out)

        Search query:
";

/// The default persona is not empty. Verus learns what a literal holds only
/// from the literal itself, so the text stands here a second time.
proof fn lemma_writer_prompt_is_not_empty()
    ensures
        WRITER_PROMPT@.len() > 0,
{
    reveal_strlit("You are an agent.

        You will receive some context from another agent about some Google results that a user has searched.
        Your job is to research the Internet and to write a high-quality article that a user has written. The article must not appear to be AI written. The article should be SEO optimised without overly compromising the
        quality of the article.

        You are free to be as creative as you wish. However, each paragraph must have the following:
        - The point you are trying to make
        - If there is a follow up action point
        - Why the follow up action point exists (or why the user needs to carry it out)

        Search query:
");
}

/// Writes an article from what a researcher found.
pub struct Writer<C: CompletionBackend> {
    system: Option<String>,
    client: C,
}

impl<C: CompletionBackend> Writer<C> {
    #[verifier::type_invariant]
    spec fn well_formed(&self) -> bool {
        self.system matches Some(text) ==> text@.len() > 0
    }

    /// The agent with its default persona.
    pub fn new(client: C) -> (agent: Self)
        ensures
            agent.spec_client() == client,
            agent.spec_system_prompt() == WRITER_PROMPT@,
    {
        Writer { system: None, client }
    }

    /// The agent with `system` as its persona, for good; `None` where
    /// `system` is empty.
    pub fn with_system_prompt(client: C, system: String) -> (agent: Option<Self>)
        ensures
            match agent {
                Some(made) => system@.len() > 0 && made.spec_client() == client
                    && made.spec_system_prompt() == system@,
                None => system@.len() == 0,
            },
    {
        if system.as_str().is_empty() {
            None
        } else {
            Some(Writer { system: Some(system), client })
        }
    }
}

impl<C: CompletionBackend + Clone> Clone for Writer<C> {
    /// An independent handle on the same persona, with a clone of each
    /// backend handle.
    fn clone(&self) -> (copy: Self)
        ensures
            copy.spec_system_prompt() == self.spec_system_prompt(),
            cloned(self.spec_client(), copy.spec_client()),
    {
        proof {
            use_type_invariant(self);
        }
        let system = match &self.system {
            Some(text) => Some(text.clone()),
            None => None,
        };
        Writer { system, client: self.client.clone() }
    }
}

impl<C: CompletionBackend> Agent<C> for Writer<C> {
    open spec fn spec_name(&self) -> Seq<char> {
        "Writer"@
    }

    closed spec fn spec_system_prompt(&self) -> Seq<char> {
        prompt_in_force(self.system, WRITER_PROMPT@)
    }

    closed spec fn spec_client(&self) -> C {
        self.client
    }

    fn name(&self) -> (name: String) {
        proof {
            reveal_strlit("Writer");
        }
        "Writer".to_string()
    }

    fn client(&self) -> (client: &C) {
        &self.client
    }

    fn system_prompt(&self) -> (prompt: String) {
        proof {
            use_type_invariant(self);
            lemma_writer_prompt_is_not_empty();
        }
        prompt_or_default(&self.system, WRITER_PROMPT)
    }
}

} // verus!
