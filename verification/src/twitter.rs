//! The Twitter agent: it turns a text into a post for Twitter.

use vstd::prelude::*;
use crate::agent::{prompt_in_force, prompt_or_default, Agent};
use crate::backend::CompletionBackend;

verus! {

/// The persona that the Twitter agent has unless it is given another.
pub const TWITTER_PROMPT: &'static str = "You are a social media agent specializing in Twitter content creation.

            Your job is to craft high-quality Twitter posts that are engaging, concise, and tailored for virality. 
            The content should reflect a personal tone, avoid AI-written patterns, and adhere to Twitter's character limit.

            When crafting each post:
            - Hook the reader in the first sentence (e.g., surprising fact, bold statement, or question)
            - Deliver the main point or insight concisely
            - Include a follow-up action, like engagement prompts (e.g., 'Share your thoughts,' 'RT if you agree')
            - Make use of hashtags, emojis, or a storytelling structure to boost engagement when appropriate
            - Ensure the tone is conversational, witty, or thought-provoking, depending on the context

            The content must be SEO-aware without appearing overly optimized. Avoid stuffing keywords unnaturally.";

/// The default persona is not empty. Verus learns what a literal holds only
/// from the literal itself, so the text stands here a second time.
proof fn lemma_twitter_prompt_is_not_empty()
    ensures
        TWITTER_PROMPT@.len() > 0,
{
    reveal_strlit("You are a social media agent specializing in Twitter content creation.

            Your job is to craft high-quality Twitter posts that are engaging, concise, and tailored for virality. 
            The content should reflect a personal tone, avoid AI-written patterns, and adhere to Twitter's character limit.

            When crafting each post:
            - Hook the reader in the first sentence (e.g., surprising fact, bold statement, or question)
            - Deliver the main point or insight concisely
            - Include a follow-up action, like engagement prompts (e.g., 'Share your thoughts,' 'RT if you agree')
            - Make use of hashtags, emojis, or a storytelling structure to boost engagement when appropriate
            - Ensure the tone is conversational, witty, or thought-provoking, depending on the context

            The content must be SEO-aware without appearing overly optimized. Avoid stuffing keywords unnaturally.");
}

/// Turns a text into a post for Twitter.
pub struct TwitterAgent<C: CompletionBackend> {
    system: Option<String>,
    client: C,
}

impl<C: CompletionBackend> TwitterAgent<C> {
    #[verifier::type_invariant]
    spec fn well_formed(&self) -> bool {
        self.system matches Some(text) ==> text@.len() > 0
    }

    /// The agent with its default persona.
    pub fn new(client: C) -> (agent: Self)
        ensures
            agent.spec_client() == client,
            agent.spec_system_prompt() == TWITTER_PROMPT@,
    {
        TwitterAgent { system: None, client }
    }

    /// The agent with `system` as its persona, for good; `None` where
    /// `system` is empty.
    pub fn with_system_prompt(client: C, system: String) -> (agent: Option<Self>)
        ensures
            match agent {
                Some(made) => system@.len() > 0 && made.spec_client() == client
                    && made.spec_system_prompt() == system@,
                None => system@.len() == 0,
            },
    {
        if system.as_str().is_empty() {
            None
        } else {
            Some(TwitterAgent { system: Some(system), client })
        }
    }
}

impl<C: CompletionBackend + Clone> Clone for TwitterAgent<C> {
    /// An independent handle on the same persona, with a clone of each
    /// backend handle.
    fn clone(&self) -> (copy: Self)
        ensures
            copy.spec_system_prompt() == self.spec_system_prompt(),
            cloned(self.spec_client(), copy.spec_client()),
    {
        proof {
            use_type_invariant(self);
        }
        let system = match &self.system {
            Some(text) => Some(text.clone()),
            None => None,
        };
        TwitterAgent { system, client: self.client.clone() }
    }
}

impl<C: CompletionBackend> Agent<C> for TwitterAgent<C> {
    open spec fn spec_name(&self) -> Seq<char> {
        "twitter"@
    }

    closed spec fn spec_system_prompt(&self) -> Seq<char> {
        prompt_in_force(self.system, TWITTER_PROMPT@)
    }

    closed spec fn spec_client(&self) -> C {
        self.client
    }

    fn name(&self) -> (name: String) {
        proof {
            reveal_strlit("twitter");
        }
        "twitter".to_string()
    }

    fn client(&self) -> (client: &C) {
        &self.client
    }

    fn system_prompt(&self) -> (prompt: String) {
        proof {
            use_type_invariant(self);
            lemma_twitter_prompt_is_not_empty();
        }
        prompt_or_default(&self.system, TWITTER_PROMPT)
    }
}

} // verus!
