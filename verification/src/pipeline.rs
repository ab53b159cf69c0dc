//! The pipeline: an ordered list of agents, run as one chain.
//!
//! A run starts with the caller's input. Each agent in turn is prompted with
//! the text that the agent before it returned, and with no context. The run
//! ends with the last agent's text, or with the first failure.
//!
//! The contracts speak of a run through its record: what each stage was
//! handed and what it ended with. A contract cannot count the calls that a
//! backend received, so that a stage is asked one time, and none after a
//! failure, is what the code does and the tests count, not what is proved.

use vstd::prelude::*;
use crate::agent::{
    completion_outcome, law_request_of_a_call, prompt_allows, Agent, CONTEXT_CLOSING,
    CONTEXT_HEADING, MODEL,
};
use crate::backend::{CompletionBackend, CompletionReply, CompletionRequest};
use crate::errors::{outcome_view, succeeded, AgentError, Outcome};

verus! {

/// One stage of a pipeline: the name of the agent that stands there, the
/// backend that it asks, and the system prompt that it asks with.
pub struct Stage<C> {
    pub name: Seq<char>,
    pub client: C,
    pub system_prompt: Seq<char>,
}

/// The stage that the agent at place `k` of a list makes.
pub open spec fn stage_at<C: CompletionBackend>(agents: Seq<Box<dyn Agent<C>>>, k: int) -> Stage<C> {
    Stage {
        name: agents[k].spec_name(),
        client: agents[k].spec_client(),
        system_prompt: agents[k].spec_system_prompt(),
    }
}

/// The stages that a list of agents makes, in the list's order.
pub open spec fn stages_of<C: CompletionBackend>(agents: Seq<Box<dyn Agent<C>>>) -> Seq<Stage<C>> {
    Seq::new(agents.len(), |k: int| stage_at(agents, k))
}

/// The instruction of stage `k` in a run: the input for the first stage,
/// and for every other the text that the stage before it returned.
pub open spec fn instruction_at(input: Seq<char>, outputs: Seq<Outcome>, k: int) -> Seq<char> {
    if k == 0 {
        input
    } else {
        outputs[k - 1]->Ok_0
    }
}

/// Whether `outputs` records a run of `stages` on `input`: what each stage
/// that was run ended with, in order.
///
/// Each entry is an outcome that a prompt of its stage may end with, on the
/// stage's instruction and the empty context; only the last entry can be a
/// failure; and the record is shorter than the pipeline only where it ends
/// with a failure.
pub open spec fn is_run<C: CompletionBackend>(
    stages: Seq<Stage<C>>,
    input: Seq<char>,
    outputs: Seq<Outcome>,
) -> bool {
    &&& outputs.len() <= stages.len()
    &&& forall|k: int|
        0 <= k < outputs.len() ==> prompt_allows(
            stages[k].client,
            stages[k].system_prompt,
            instruction_at(input, outputs, k),
            Seq::<char>::empty(),
            #[trigger] outputs[k],
        )
    &&& forall|k: int| 0 <= k < outputs.len() - 1 ==> (#[trigger] outputs[k]) is Ok
    &&& outputs.len() < stages.len() ==> outputs.len() > 0 && outputs.last() is Err
}

/// What a run ends with: the input where no stage was run, else what the
/// last stage that was run ended with.
pub open spec fn run_outcome(input: Seq<char>, outputs: Seq<Outcome>) -> Outcome {
    if outputs.len() == 0 {
        Ok(input)
    } else {
        outputs.last()
    }
}

/// What [`Pipeline::run_pipeline`] may end with: the outcome of some run of
/// the stages on the input.
pub open spec fn run_allows<C: CompletionBackend>(
    stages: Seq<Stage<C>>,
    input: Seq<char>,
    outcome: Outcome,
) -> bool {
    exists|outputs: Seq<Outcome>| #[trigger]
        is_run(stages, input, outputs) && outcome == run_outcome(input, outputs)
}

/// Something that holds an ordered list of agents and can run it.
pub trait Pipeline<C: CompletionBackend> {
    /// The agents that the pipeline holds, in the order in which they run.
    spec fn spec_agents(&self) -> Seq<Box<dyn Agent<C>>>;

    /// The agents that the pipeline holds, in the order in which they run:
    /// the same list at every call.
    fn init_agents(&self) -> (agents: &Vec<Box<dyn Agent<C>>>)
        ensures
            agents@ == self.spec_agents(),
    ;

    /// Runs the agents on `initial_input`, each on what the one before it
    /// returned, and returns the last one's text. The first failure ends
    /// the run and is returned as it is. Without agents the input comes back.
    fn run_pipeline(&self, initial_input: &str) -> (output: Result<String, AgentError>)
        ensures
            run_allows(stages_of(self.spec_agents()), initial_input@, outcome_view(output)),
            self.spec_agents().len() == 0 ==> outcome_view(output) == succeeded(initial_input@),
    {
        let agents = self.init_agents();
        let ghost stages = stages_of(agents@);
        let mut current_output = initial_input.to_string();
        let ghost mut outputs: Seq<Outcome> = Seq::empty();
        let mut done: usize = 0;
        while done < agents.len()
            invariant
                done <= agents.len(),
                agents@ == self.spec_agents(),
                stages == stages_of(agents@),
                outputs.len() == done,
                current_output@ == instruction_at(initial_input@, outputs, done as int),
                is_run_so_far(stages, initial_input@, outputs),
            decreases agents.len() - done,
        {
            let step = agents[done].prompt(current_output.as_str(), String::new());
            proof {
                lemma_stage_of_agent(agents@, done as int);
                lemma_run_grows(stages, initial_input@, outputs, outcome_view(step));
                outputs = outputs.push(outcome_view(step));
            }
            match step {
                Ok(text) => {
                    current_output = text;
                },
                Err(error) => {
                    return Err(error);
                },
            }
            done = done + 1;
        }
        proof {
            lemma_stages_of_len(agents@);
            lemma_unfailed_run_is_whole(stages, initial_input@, outputs);
        }
        Ok(current_output)
    }
}

/// Whether `outputs` records the start of a run in which no stage has failed
/// yet.
pub open spec fn is_run_so_far<C: CompletionBackend>(
    stages: Seq<Stage<C>>,
    input: Seq<char>,
    outputs: Seq<Outcome>,
) -> bool {
    &&& outputs.len() <= stages.len()
    &&& forall|k: int|
        0 <= k < outputs.len() ==> prompt_allows(
            stages[k].client,
            stages[k].system_prompt,
            instruction_at(input, outputs, k),
            Seq::<char>::empty(),
            #[trigger] outputs[k],
        )
    &&& forall|k: int| 0 <= k < outputs.len() ==> (#[trigger] outputs[k]) is Ok
}

proof fn lemma_stage_of_agent<C: CompletionBackend>(agents: Seq<Box<dyn Agent<C>>>, k: int)
    requires
        0 <= k < agents.len(),
    ensures
        stages_of(agents)[k].name == agents[k].spec_name(),
        stages_of(agents)[k].client == agents[k].spec_client(),
        stages_of(agents)[k].system_prompt == agents[k].spec_system_prompt(),
{
}

proof fn lemma_stages_of_len<C: CompletionBackend>(agents: Seq<Box<dyn Agent<C>>>)
    ensures
        stages_of(agents).len() == agents.len(),
{
}

/// A start without failure that covers every stage is a run, and it ends
/// with the instruction that a further stage would have got.
proof fn lemma_unfailed_run_is_whole<C: CompletionBackend>(
    stages: Seq<Stage<C>>,
    input: Seq<char>,
    outputs: Seq<Outcome>,
)
    requires
        is_run_so_far(stages, input, outputs),
        outputs.len() == stages.len(),
    ensures
        is_run(stages, input, outputs),
        run_outcome(input, outputs) == succeeded(
            instruction_at(input, outputs, outputs.len() as int),
        ),
{
    if outputs.len() > 0 {
        assert(outputs[outputs.len() - 1] is Ok);
    }
}

/// One more stage was run after a start without failure: the record with
/// its outcome added is a start without failure where the stage gave a
/// text, and a whole run where it failed or was the last stage.
proof fn lemma_run_grows<C: CompletionBackend>(
    stages: Seq<Stage<C>>,
    input: Seq<char>,
    outputs: Seq<Outcome>,
    next: Outcome,
)
    requires
        is_run_so_far(stages, input, outputs),
        outputs.len() < stages.len(),
        prompt_allows(
            stages[outputs.len() as int].client,
            stages[outputs.len() as int].system_prompt,
            instruction_at(input, outputs, outputs.len() as int),
            Seq::<char>::empty(),
            next,
        ),
    ensures
        next is Ok ==> is_run_so_far(stages, input, outputs.push(next)),
        next is Err || outputs.len() + 1 == stages.len() ==> is_run(
            stages,
            input,
            outputs.push(next),
        ),
{
    let longer = outputs.push(next);
    assert forall|k: int| 0 <= k < longer.len() implies prompt_allows(
        stages[k].client,
        stages[k].system_prompt,
        instruction_at(input, longer, k),
        Seq::<char>::empty(),
        #[trigger] longer[k],
    ) by {
        if k < outputs.len() {
            assert(longer[k] == outputs[k]);
        }
        if 0 < k {
            assert(longer[k - 1] == outputs[k - 1]);
        }
    }
    assert forall|k: int| 0 <= k < longer.len() - 1 implies (#[trigger] longer[k]) is Ok by {
        assert(longer[k] == outputs[k]);
    }
}

/// A pipeline without agents is the identity: on every input it ends with
/// that input, unchanged.
pub proof fn law_empty_pipeline_is_identity<C: CompletionBackend>(
    stages: Seq<Stage<C>>,
    input: Seq<char>,
    outcome: Outcome,
)
    requires
        stages.len() == 0,
        run_allows(stages, input, outcome),
    ensures
        outcome == succeeded(input),
{
}

/// Stages run strictly in order, each on what the one before it returned:
/// in every run, a stage that is followed by another gave a text, and what
/// the stage after it ended with is an outcome of a prompt with exactly that
/// text as its instruction, and with the empty context.
pub proof fn law_strict_ordering<C: CompletionBackend>(
    stages: Seq<Stage<C>>,
    input: Seq<char>,
    outputs: Seq<Outcome>,
    k: int,
)
    requires
        is_run(stages, input, outputs),
        0 <= k,
        k + 1 < outputs.len(),
    ensures
        outputs[k] is Ok,
        instruction_at(input, outputs, k + 1) == outputs[k]->Ok_0,
        prompt_allows(
            stages[k + 1].client,
            stages[k + 1].system_prompt,
            outputs[k]->Ok_0,
            Seq::<char>::empty(),
            outputs[k + 1],
        ),
{
}

/// A failure ends the run at once: in every run, a stage that failed is the
/// last entry of the record, so that the record holds no outcome of a later
/// stage, and the run ends with that stage's failure as it is.
pub proof fn law_fail_fast<C: CompletionBackend>(
    stages: Seq<Stage<C>>,
    input: Seq<char>,
    outputs: Seq<Outcome>,
    k: int,
)
    requires
        is_run(stages, input, outputs),
        0 <= k < outputs.len(),
        outputs[k] is Err,
    ensures
        outputs.len() == k + 1,
        run_outcome(input, outputs) == outputs[k],
{
}

/// No context travels down a pipeline: in every run, what a stage hands to
/// its backend is made of its own system prompt and its instruction, with
/// nothing under the context heading. A context that an agent was given
/// elsewhere reaches no stage; a stage sees of the one before it the text
/// that it returned.
pub proof fn law_context_is_not_forwarded<C: CompletionBackend>(
    stages: Seq<Stage<C>>,
    input: Seq<char>,
    outputs: Seq<Outcome>,
    k: int,
)
    requires
        is_run(stages, input, outputs),
        0 <= k < outputs.len(),
    ensures
        exists|request: CompletionRequest, reply: CompletionReply|
            #![trigger call_ensures(C::complete, (&stages[k].client, &request), reply)]
            request.model@ == MODEL@ && request.system@ == stages[k].system_prompt
                && request.user@ == instruction_at(input, outputs, k) + CONTEXT_HEADING@
                + CONTEXT_CLOSING@ && call_ensures(
                C::complete,
                (&stages[k].client, &request),
                reply,
            ) && outputs[k] == completion_outcome(reply@),
{
    let instruction = instruction_at(input, outputs, k);
    law_request_of_a_call(
        stages[k].client,
        stages[k].system_prompt,
        instruction,
        Seq::<char>::empty(),
        outputs[k],
    );
    assert(instruction + CONTEXT_HEADING@ + Seq::<char>::empty() + CONTEXT_CLOSING@
        == instruction + CONTEXT_HEADING@ + CONTEXT_CLOSING@);
}

/// A pipeline holds the agents that it was made of: as many, the same ones,
/// in the same order, so that each place keeps its agent's name, backend and
/// system prompt. Nothing is reordered, dropped, added or merged, and an
/// agent that stands in the list twice stands in the pipeline twice.
pub proof fn law_pipeline_keeps_its_agents<C: CompletionBackend>(
    agents: Seq<Box<dyn Agent<C>>>,
    k: int,
)
    requires
        0 <= k < agents.len(),
    ensures
        stages_of(agents).len() == agents.len(),
        stages_of(agents)[k].name == agents[k].spec_name(),
        stages_of(agents)[k].client == agents[k].spec_client(),
        stages_of(agents)[k].system_prompt == agents[k].spec_system_prompt(),
{
}

/// A pipeline that holds its agents in a list.
#[verifier::reject_recursive_types(C)]
pub struct ContentPipeline<C: CompletionBackend> {
    agents: Vec<Box<dyn Agent<C>>>,
}

impl<C: CompletionBackend> ContentPipeline<C> {
    /// The pipeline of `agents`, in that order. The list is taken as it is:
    /// nothing is reordered, dropped or checked.
    pub fn new(agents: Vec<Box<dyn Agent<C>>>) -> (pipeline: Self)
        ensures
            pipeline.spec_agents() == agents@,
    {
        Self { agents }
    }
}

impl<C: CompletionBackend> Pipeline<C> for ContentPipeline<C> {
    closed spec fn spec_agents(&self) -> Seq<Box<dyn Agent<C>>> {
        self.agents@
    }

    fn init_agents(&self) -> (agents: &Vec<Box<dyn Agent<C>>>) {
        &self.agents
    }
}

} // verus!
