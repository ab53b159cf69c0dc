use std::cell::RefCell;
use std::rc::Rc;

use agent_pipeline::agent::{
    build_request, completion_text, compose_user_message, CONTEXT_CLOSING, CONTEXT_HEADING, MODEL,
};
use agent_pipeline::json::json_result;
use agent_pipeline::linkedin::LINKEDIN_PROMPT;
use agent_pipeline::researcher::RESEARCHER_PROMPT;
use agent_pipeline::twitter::TWITTER_PROMPT;
use agent_pipeline::writer::WRITER_PROMPT;
use agent_pipeline::{
    Agent, AgentError, CompletionBackend, CompletionReply, CompletionRequest, LinkedInAgent,
    Researcher, SearchBackend, SearchReply, TwitterAgent, Writer,
};

/// Answers every exchange with one fixed reply, and keeps what it was sent.
#[derive(Clone)]
struct Canned {
    reply: CompletionReply,
    seen: Rc<RefCell<Vec<CompletionRequest>>>,
}

impl Canned {
    fn new(reply: CompletionReply) -> Self {
        Canned { reply, seen: Rc::new(RefCell::new(Vec::new())) }
    }

    fn text(text: &str) -> Self {
        Canned::new(CompletionReply::Choices(vec![Some(text.to_string())]))
    }
}

impl CompletionBackend for Canned {
    fn complete(&self, request: &CompletionRequest) -> CompletionReply {
        self.seen.borrow_mut().push(request.clone());
        self.reply.clone()
    }
}

#[derive(Clone)]
struct NoSearch;

impl SearchBackend for NoSearch {
    fn search(&self, _query: &str) -> SearchReply {
        SearchReply::Failed("unused".to_string())
    }
}

fn joined(lines: &[&str]) -> String {
    lines.concat()
}

#[test]
fn names_are_stable_and_not_empty() {
    assert_eq!(Researcher::new(Canned::text("x"), NoSearch).name(), "Researcher");
    assert_eq!(Writer::new(Canned::text("x")).name(), "Writer");
    assert_eq!(TwitterAgent::new(Canned::text("x")).name(), "twitter");
    assert_eq!(LinkedInAgent::new(Canned::text("x")).name(), "linkedin");
}

#[test]
fn researcher_default_prompt_is_exact() {
    let expected = joined(&[
        "You are an agent.\n",
        "\n",
        "        You will receive a question that may be quite short or does not have much context.\n",
        "        Your job is to research the Internet and to return with a high-quality summary to the user, assisted by the provided context.\n",
        "        The provided context will be in JSON format and contains data about the initial Google results for the website or query.\n",
        "\n",
        "        Be concise.\n",
        "\n",
        "        Question:\n",
        "        ",
    ]);
    assert_eq!(Researcher::new(Canned::text("x"), NoSearch).system_prompt(), expected);
    assert_eq!(RESEARCHER_PROMPT, expected);
}

#[test]
fn writer_default_prompt_is_exact() {
    let expected = joined(&[
        "You are an agent.\n",
        "\n",
        "        You will receive some context from another agent about some Google results that a user has searched.\n",
        "        Your job is to research the Internet and to write a high-quality article that a user has written. The article must not appear to be AI written. The article should be SEO optimised without overly compromising the\n",
        "        quality of the article.\n",
        "\n",
        "        You are free to be as creative as you wish. However, each paragraph must have the following:\n",
        "        - The point you are trying to make\n",
        "        - If there is a follow up action point\n",
        "        - Why the follow up action point exists (or why the user needs to carry it out)\n",
        "\n",
        "        Search query:\n",
    ]);
    assert_eq!(Writer::new(Canned::text("x")).system_prompt(), expected);
    assert_eq!(WRITER_PROMPT, expected);
}

#[test]
fn twitter_default_prompt_is_exact() {
    let expected = joined(&[
        "You are a social media agent specializing in Twitter content creation.\n",
        "\n",
        "            Your job is to craft high-quality Twitter posts that are engaging, concise, and tailored for virality. \n",
        "            The content should reflect a personal tone, avoid AI-written patterns, and adhere to Twitter's character limit.\n",
        "\n",
        "            When crafting each post:\n",
        "            - Hook the reader in the first sentence (e.g., surprising fact, bold statement, or question)\n",
        "            - Deliver the main point or insight concisely\n",
        "            - Include a follow-up action, like engagement prompts (e.g., 'Share your thoughts,' 'RT if you agree')\n",
        "            - Make use of hashtags, emojis, or a storytelling structure to boost engagement when appropriate\n",
        "            - Ensure the tone is conversational, witty, or thought-provoking, depending on the context\n",
        "\n",
        "            The content must be SEO-aware without appearing overly optimized. Avoid stuffing keywords unnaturally.",
    ]);
    assert_eq!(TwitterAgent::new(Canned::text("x")).system_prompt(), expected);
    assert_eq!(TWITTER_PROMPT, expected);
}

#[test]
fn linkedin_default_prompt_is_exact() {
    let expected = joined(&[
        "You are a professional networking agent specializing in LinkedIn content creation.\n",
        "\n",
        "            Your task is to write LinkedIn posts that are insightful, engaging, and suitable for a professional audience \n",
        "            while maintaining a human tone.\n",
        "\n",
        "            When writing each LinkedIn post:\n",
        "            - Start with a strong opening (e.g., a thought-provoking question, a bold statement, or an anecdote)\n",
        "            - Clearly communicate the main idea or insight while providing context\n",
        "            - Include actionable advice or a follow-up point to inspire engagement, reflection, or discussion\n",
        "            - Explain the 'why' behind the advice, connecting it to professional or personal development\n",
        "            - Maintain a professional, thoughtful tone with a touch of authenticity\n",
        "            - Add a strong call-to-action: invite comments, share experiences, or encourage reposts\n",
        "\n",
        "            Structure the content in short, scannable paragraphs. Break ideas into clear sections for readability.\n",
        "            The content must align with LinkedIn's audience: professionals seeking value, insights, and connection.",
    ]);
    assert_eq!(LinkedInAgent::new(Canned::text("x")).system_prompt(), expected);
    assert_eq!(LINKEDIN_PROMPT, expected);
}

#[test]
fn override_replaces_the_default_prompt() {
    let writer = Writer::with_system_prompt(Canned::text("x"), "Be brief.".to_string()).unwrap();
    assert_eq!(writer.system_prompt(), "Be brief.");
    let twitter = TwitterAgent::with_system_prompt(Canned::text("x"), "Tweet.".to_string()).unwrap();
    assert_eq!(twitter.system_prompt(), "Tweet.");
    let linkedin =
        LinkedInAgent::with_system_prompt(Canned::text("x"), "Post.".to_string()).unwrap();
    assert_eq!(linkedin.system_prompt(), "Post.");
    let researcher =
        Researcher::with_system_prompt(Canned::text("x"), NoSearch, "Dig.".to_string()).unwrap();
    assert_eq!(researcher.system_prompt(), "Dig.");
}

#[test]
fn empty_override_is_refused() {
    assert!(Writer::with_system_prompt(Canned::text("x"), String::new()).is_none());
    assert!(TwitterAgent::with_system_prompt(Canned::text("x"), String::new()).is_none());
    assert!(LinkedInAgent::with_system_prompt(Canned::text("x"), String::new()).is_none());
    assert!(Researcher::with_system_prompt(Canned::text("x"), NoSearch, String::new()).is_none());
}

#[test]
fn override_is_sent_as_system_message() {
    let backend = Canned::text("ok");
    let writer = Writer::with_system_prompt(backend.clone(), "Be brief.".to_string()).unwrap();
    assert_eq!(writer.prompt("topic", String::new()), Ok("ok".to_string()));
    assert_eq!(backend.seen.borrow()[0].system, "Be brief.");
}

#[test]
fn user_message_is_instruction_then_context() {
    assert_eq!(
        compose_user_message("hi", "{}"),
        "hi\n            Provided context:\n            {}\n            "
    );
    assert_eq!(CONTEXT_HEADING, "\n            Provided context:\n            ");
    assert_eq!(CONTEXT_CLOSING, "\n            ");
    assert_eq!(compose_user_message("", ""), format!("{}{}", CONTEXT_HEADING, CONTEXT_CLOSING));
}

#[test]
fn request_carries_model_system_and_user_message() {
    let request = build_request("persona".to_string(), "question", "");
    assert_eq!(request.model, "gpt-4o-mini");
    assert_eq!(MODEL, "gpt-4o-mini");
    assert_eq!(request.system, "persona");
    assert_eq!(request.user, "question\n            Provided context:\n            \n            ");
}

#[test]
fn context_is_passed_through_as_it_came() {
    let request = build_request("p".to_string(), "q", "say \"hi\"\n\\ done");
    assert_eq!(
        request.user,
        "q\n            Provided context:\n            say \"hi\"\n\\ done\n            "
    );
    assert_eq!(request.user, compose_user_message("q", "say \"hi\"\n\\ done"));
    assert!(request.user.starts_with("q"));
    let label = request.user.find("Provided context:").unwrap();
    let context = request.user.find("say \"hi\"").unwrap();
    assert!(label < context);
}

#[test]
fn json_text_as_context_stands_as_it_is() {
    let document = "{\n  \"hits\": 3\n}";
    let request = build_request("p".to_string(), "q", document);
    assert_eq!(
        request.user,
        "q\n            Provided context:\n            {\n  \"hits\": 3\n}\n            "
    );
}

#[test]
fn prompt_hands_over_one_exchange_and_returns_first_text() {
    let backend = Canned::new(CompletionReply::Choices(vec![
        Some("first".to_string()),
        Some("second".to_string()),
    ]));
    let agent = TwitterAgent::new(backend.clone());
    let output = agent.prompt("write this", "facts".to_string());
    assert_eq!(output, Ok("first".to_string()));
    let seen = backend.seen.borrow();
    assert_eq!(seen.len(), 1);
    assert_eq!(seen[0].model, "gpt-4o-mini");
    assert_eq!(seen[0].system, TWITTER_PROMPT);
    assert_eq!(
        seen[0].user,
        "write this\n            Provided context:\n            facts\n            "
    );
}

#[test]
fn prompt_asks_once_whatever_comes_back() {
    let failing = Canned::new(CompletionReply::Failed("down".to_string()));
    let agent = Writer::new(failing.clone());
    assert_eq!(
        agent.prompt("x", String::new()),
        Err(AgentError::BackendError("down".to_string()))
    );
    assert_eq!(failing.seen.borrow().len(), 1);
    let silent = Canned::new(CompletionReply::Choices(vec![None]));
    let agent = Writer::new(silent.clone());
    assert_eq!(agent.prompt("x", String::new()), Err(AgentError::EmptyCompletion));
    assert_eq!(silent.seen.borrow().len(), 1);
}

#[test]
fn first_candidate_decides() {
    assert_eq!(
        completion_text(CompletionReply::Choices(vec![Some("a".to_string()), None])),
        Ok("a".to_string())
    );
    assert_eq!(
        completion_text(CompletionReply::Choices(vec![None, Some("b".to_string())])),
        Err(AgentError::EmptyCompletion)
    );
    assert_eq!(
        completion_text(CompletionReply::Choices(vec![Some(String::new())])),
        Ok(String::new())
    );
}

#[test]
fn no_candidates_is_empty_completion() {
    assert_eq!(completion_text(CompletionReply::Choices(vec![])), Err(AgentError::EmptyCompletion));
}

#[test]
fn backend_failure_is_backend_error() {
    assert_eq!(
        completion_text(CompletionReply::Failed("quota exceeded".to_string())),
        Err(AgentError::BackendError("quota exceeded".to_string()))
    );
}

#[test]
fn stub_without_text_fails_prompt_with_empty_completion() {
    let silent = Writer::new(Canned::new(CompletionReply::Choices(vec![])));
    assert_eq!(silent.prompt("anything", String::new()), Err(AgentError::EmptyCompletion));
    let blank = Writer::new(Canned::new(CompletionReply::Choices(vec![None])));
    assert_eq!(blank.prompt("anything", String::new()), Err(AgentError::EmptyCompletion));
}

#[test]
fn failed_backend_fails_prompt_with_its_message() {
    let agent = LinkedInAgent::new(Canned::new(CompletionReply::Failed("no route".to_string())));
    assert_eq!(
        agent.prompt("anything", String::new()),
        Err(AgentError::BackendError("no route".to_string()))
    );
}

#[test]
fn json_verdicts_become_library_results() {
    assert_eq!(json_result(Ok("{}".to_string())), Ok("{}".to_string()));
    let refusal = serde_json::from_str::<serde_json::Value>("not json").unwrap_err();
    assert_eq!(json_result(Err(refusal)), Err(AgentError::SerializationError));
}

#[test]
fn messages_name_the_failure() {
    assert_eq!(AgentError::BackendError("timed out".to_string()).message(), "timed out");
    assert_eq!(AgentError::EmptyCompletion.message(), "the completion backend returned no text");
    assert_eq!(
        AgentError::SerializationError.message(),
        "a document could not be encoded or decoded"
    );
}

#[test]
fn clone_keeps_persona_and_backend() {
    let backend = Canned::text("same");
    let first = Writer::with_system_prompt(backend.clone(), "Persona.".to_string()).unwrap();
    let copy = first.clone();
    assert_eq!(copy.system_prompt(), "Persona.");
    assert_eq!(copy.name(), first.name());
    assert_eq!(copy.prompt("x", String::new()), Ok("same".to_string()));
    assert_eq!(first.prompt("y", String::new()), Ok("same".to_string()));
    assert_eq!(backend.seen.borrow().len(), 2);
    let default_copy = TwitterAgent::new(backend.clone()).clone();
    assert_eq!(default_copy.system_prompt(), TWITTER_PROMPT);
    assert_eq!(default_copy.client().seen.borrow().len(), 2);
}
