//! The LinkedIn agent: it turns a text into a post for LinkedIn.

use vstd::prelude::*;
use crate::agent::{prompt_in_force, prompt_or_default, Agent};
use crate::backend::CompletionBackend;

verus! {

/// The persona that the LinkedIn agent has unless it is given another.
pub const LINKEDIN_PROMPT: &'static str = "You are a professional networking agent specializing in LinkedIn content creation.

            Your task is to write LinkedIn posts that are insightful, engaging, and suitable for a professional audience 
            while maintaining a human tone.

            When writing each LinkedIn post:
            - Start with a strong opening (e.g., a thought-provoking question, a bold statement, or an anecdote)
            - Clearly communicate the main idea or insight while providing context
            - Include actionable advice or a follow-up point to inspire engagement, reflection, or discussion
            - Explain the 'why' behind the advice, connecting it to professional or personal development
            - Maintain a professional, thoughtful tone with a touch of authenticity
            - Add a strong call-to-action: invite comments, share experiences, or encourage reposts

            Structure the content in short, scannable paragraphs. Break ideas into clear sections for readability.
            The content must align with LinkedIn's audience: professionals seeking value, insights, and connection.";

/// The default persona is not empty. Verus learns what a literal holds only
/// from the literal itself, so the text stands here a second time.
proof fn lemma_linkedin_prompt_is_not_empty()
    ensures
        LINKEDIN_PROMPT@.len() > 0,
{
    reveal_strlit("You are a professional networking agent specializing in LinkedIn content creation.

            Your task is to write LinkedIn posts that are insightful, engaging, and suitable for a professional audience 
            while maintaining a human tone.

            When writing each LinkedIn post:
            - Start with a strong opening (e.g., a thought-provoking question, a bold statement, or an anecdote)
            - Clearly communicate the main idea or insight while providing context
            - Include actionable advice or a follow-up point to inspire engagement, reflection, or discussion
            - Explain the 'why' behind the advice, connecting it to professional or personal development
            - Maintain a professional, thoughtful tone with a touch of authenticity
            - Add a strong call-to-action: invite comments, share experiences, or encourage reposts

            Structure the content in short, scannable paragraphs. Break ideas into clear sections for readability.
            The content must align with LinkedIn's audience: professionals seeking value, insights, and connection.");
}

/// Turns a text into a post for LinkedIn.
pub struct LinkedInAgent<C: CompletionBackend> {
    system: Option<String>,
    client: C,
}

impl<C: CompletionBackend> LinkedInAgent<C> {
    #[verifier::type_invariant]
    spec fn well_formed(&self) -> bool {
        self.system matches Some(text) ==> text@.len() > 0
    }

    /// The agent with its default persona.
    pub fn new(client: C) -> (agent: Self)
        ensures
            agent.spec_client() == client,
            agent.spec_system_prompt() == LINKEDIN_PROMPT@,
    {
        LinkedInAgent { system: None, client }
    }

    /// The agent with `system` as its persona, for good; `None` where
    /// `system` is empty.
    pub fn with_system_prompt(client: C, system: String) -> (agent: Option<Self>)
        ensures
            match agent {
                Some(made) => system@.len() > 0 && made.spec_client() == client
                    && made.spec_system_prompt() == system@,
                None => system@.len() == 0,
            },
    {
        if system.as_str().is_empty() {
            None
        } else {
            Some(LinkedInAgent { system: Some(system), client })
        }
    }
}

impl<C: CompletionBackend + Clone> Clone for LinkedInAgent<C> {
    /// An independent handle on the same persona, with a clone of each
    /// backend handle.
    fn clone(&self) -> (copy: Self)
        ensures
            copy.spec_system_prompt() == self.spec_system_prompt(),
            cloned(self.spec_client(), copy.spec_client()),
    {
        proof {
            use_type_invariant(self);
        }
        let system = match &self.system {
            Some(text) => Some(text.clone()),
            None => None,
        };
        LinkedInAgent { system, client: self.client.clone() }
    }
}

impl<C: CompletionBackend> Agent<C> for LinkedInAgent<C> {
    open spec fn spec_name(&self) -> Seq<char> {
        "linkedin"@
    }

    closed spec fn spec_system_prompt(&self) -> Seq<char> {
        prompt_in_force(self.system, LINKEDIN_PROMPT@)
    }

    closed spec fn spec_client(&self) -> C {
        self.client
    }

    fn name(&self) -> (name: String) {
        proof {
            reveal_strlit("linkedin");
        }
        "linkedin".to_string()
    }

    fn client(&self) -> (client: &C) {
        &self.client
    }

    fn system_prompt(&self) -> (prompt: String) {
        proof {
            use_type_invariant(self);
            lemma_linkedin_prompt_is_not_empty();
        }
        prompt_or_default(&self.system, LINKEDIN_PROMPT)
    }
}

} // verus!
