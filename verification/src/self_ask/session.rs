//! The session of a run and its moves, in executable form.

use crate::capability::{
    clone_texts, outcome_view, ActionReply, CapabilityCall, GenerationRequest, ToolRequest,
};
use crate::config::{required, AGENT_NAME_KEY, LLM_NAME_KEY};
use crate::error::{text_result_view, AgentError, AgentErrorView, CapabilityFailure};
use crate::self_ask::model::{
    check_final, configured, finalize, first_step, generation_call, need_tool, next_step,
    reasoning, tool_answered, tool_failed, Awaiting, SelfAskConfigView, SessionView, StepView,
    INTERMEDIATE_ANSWER_MARKER, SEARCH_TOOL, STOP_AT_LINE_END, STOP_BEFORE_FOLLOW_UP,
    STOP_BEFORE_INTERMEDIATE_ANSWER,
};
use crate::template::FEW_SHOT_TEMPLATE;
use crate::text::{
    extract_final_answer, extract_follow_up_question, has_final_answer, has_follow_up,
    optional_text, FINAL_ANSWER_MARKER,
};
use vstd::prelude::*;

verus! {

/// What a self-ask agent is configured with.
#[derive(Debug, PartialEq, Eq)]
pub struct SelfAskConfig {
    /// The name of the generation capability.
    pub llm_name: String,
    /// The agent's own identity, which its requests carry.
    pub agent_name: String,
    /// The number of follow-up rounds after which the reasoning is given up.
    pub max_iterations: usize,
}

impl View for SelfAskConfig {
    type V = SelfAskConfigView;

    open spec fn view(&self) -> SelfAskConfigView {
        SelfAskConfigView {
            llm_name: self.llm_name@,
            agent_name: self.agent_name@,
            max_iterations: self.max_iterations as nat,
        }
    }
}

impl Clone for SelfAskConfig {
    fn clone(&self) -> (copy: Self)
        ensures
            copy@ == self@,
    {
        SelfAskConfig {
            llm_name: self.llm_name.clone(),
            agent_name: self.agent_name.clone(),
            max_iterations: self.max_iterations,
        }
    }
}

/// The model of a configuration that may be missing a value.
pub open spec fn config_result_view(result: Result<SelfAskConfig, AgentError>) -> Result<
    SelfAskConfigView,
    AgentErrorView,
> {
    match result {
        Ok(config) => Ok(config@),
        Err(error) => Err(error@),
    }
}

impl SelfAskConfig {
    /// Builds the configuration from the stored values, or reports the first
    /// required one that is absent.
    pub fn from_values(
        llm_name: Option<String>,
        agent_name: Option<String>,
        max_iterations: usize,
    ) -> (result: Result<SelfAskConfig, AgentError>)
        ensures
            config_result_view(result) == configured(
                optional_text(llm_name),
                optional_text(agent_name),
                max_iterations as nat,
            ),
    {
        let llm_name = match required(LLM_NAME_KEY, llm_name) {
            Ok(name) => name,
            Err(missing) => {
                return Err(missing);
            },
        };
        let agent_name = match required(AGENT_NAME_KEY, agent_name) {
            Ok(name) => name,
            Err(missing) => {
                return Err(missing);
            },
        };
        Ok(SelfAskConfig { llm_name, agent_name, max_iterations })
    }
}

/// The state of one reasoning run. It lives for one call of the agent.
#[derive(Debug, PartialEq, Eq)]
pub struct ReasoningSession {
    config: SelfAskConfig,
    original_question: String,
    accumulated_system_prompt: String,
    current_stop_sequences: Vec<String>,
    last_generated_text: String,
    iteration_count: usize,
    user_prompt: String,
    awaiting: Awaiting,
}

impl View for ReasoningSession {
    type V = SessionView;

    closed spec fn view(&self) -> SessionView {
        SessionView {
            config: self.config@,
            original_question: self.original_question@,
            accumulated_system_prompt: self.accumulated_system_prompt@,
            current_stop_sequences: self.current_stop_sequences.deep_view(),
            last_generated_text: self.last_generated_text@,
            iteration_count: self.iteration_count as nat,
            user_prompt: self.user_prompt@,
            awaiting: self.awaiting,
        }
    }
}

/// Where a run stands after a move of the controller.
#[derive(Debug, PartialEq, Eq)]
pub enum Step {
    /// The reasoning goes on: the call is to be made and its outcome handed
    /// to the session.
    Invoke(ReasoningSession, CapabilityCall),
    /// The run has ended, in the cleaned final answer or in a failure.
    Finished(Result<String, AgentError>),
}

impl View for Step {
    type V = StepView;

    open spec fn view(&self) -> StepView {
        match self {
            Step::Invoke(session, call) => StepView::Invoke(session@, call@),
            Step::Finished(answer) => StepView::Finished(text_result_view(*answer)),
        }
    }
}

/// A fresh list with the one stop sequence `stop`.
fn one_stop(stop: &str) -> (stops: Vec<String>)
    ensures
        stops.deep_view() == seq![stop@],
{
    let mut stops: Vec<String> = Vec::new();
    stops.push(stop.to_owned());
    stops
}

/// A fresh list with the stop sequences `first` and `second`.
fn two_stops(first: &str, second: &str) -> (stops: Vec<String>)
    ensures
        stops.deep_view() == seq![first@, second@],
{
    let mut stops: Vec<String> = Vec::new();
    stops.push(first.to_owned());
    stops.push(second.to_owned());
    stops
}

impl ReasoningSession {
    /// The question that the run is to answer.
    pub fn original_question(&self) -> (question: &str)
        ensures
            question@ == self@.original_question,
    {
        self.original_question.as_str()
    }

    /// The transcript so far.
    pub fn accumulated_system_prompt(&self) -> (prompt: &str)
        ensures
            prompt@ == self@.accumulated_system_prompt,
    {
        self.accumulated_system_prompt.as_str()
    }

    /// The stop sequences of the latest generation request.
    pub fn current_stop_sequences(&self) -> (stops: &Vec<String>)
        ensures
            stops.deep_view() == self@.current_stop_sequences,
    {
        &self.current_stop_sequences
    }

    /// The text that the reasoning reads.
    pub fn last_generated_text(&self) -> (text: &str)
        ensures
            text@ == self@.last_generated_text,
    {
        self.last_generated_text.as_str()
    }

    /// The number of follow-up rounds begun.
    pub fn iteration_count(&self) -> (count: usize)
        ensures
            count == self@.iteration_count,
    {
        self.iteration_count
    }

    /// The call whose outcome the session waits for.
    pub fn awaiting(&self) -> (awaiting: Awaiting)
        ensures
            awaiting == self@.awaiting,
    {
        self.awaiting
    }

    /// The configuration of the run.
    pub fn config(&self) -> (config: &SelfAskConfig)
        ensures
            config@ == self@.config,
    {
        &self.config
    }

    fn generation_call(&self) -> (call: CapabilityCall)
        ensures
            call@ == generation_call(self@),
    {
        CapabilityCall::Generate {
            name: self.config.llm_name.clone(),
            request: GenerationRequest {
                caller_name: self.config.agent_name.clone(),
                system_prompt: self.accumulated_system_prompt.clone(),
                user_prompt: self.user_prompt.clone(),
                stop_sequences: clone_texts(&self.current_stop_sequences),
            },
        }
    }

    /// Starts a run on `question`: the session, and the generation call that
    /// it waits for.
    pub fn begin(config: SelfAskConfig, question: &str) -> (start: (ReasoningSession, CapabilityCall))
        ensures
            StepView::Invoke(start.0@, start.1@) == first_step(config@, question@),
    {
        let mut user_prompt = "Question: ".to_owned();
        user_prompt.append(question);
        user_prompt.append("\nAre follow up questions needed here:");
        let session = ReasoningSession {
            config,
            original_question: question.to_owned(),
            accumulated_system_prompt: FEW_SHOT_TEMPLATE.to_owned(),
            current_stop_sequences: one_stop(STOP_BEFORE_INTERMEDIATE_ANSWER),
            last_generated_text: String::new(),
            iteration_count: 0,
            user_prompt,
            awaiting: Awaiting::Reasoning,
        };
        let call = session.generation_call();
        (session, call)
    }

    fn finalize(self) -> (step: Step)
        ensures
            step@ == finalize(self@),
    {
        Step::Finished(Ok(extract_final_answer(self.last_generated_text.as_str())))
    }

    fn check_final(self) -> (step: Step)
        ensures
            step@ == check_final(self@),
    {
        if has_final_answer(self.last_generated_text.as_str()) {
            self.finalize()
        } else {
            let mut next = self;
            next.accumulated_system_prompt.append(FINAL_ANSWER_MARKER);
            next.current_stop_sequences = one_stop(STOP_AT_LINE_END);
            next.awaiting = Awaiting::Conclusion;
            let call = next.generation_call();
            Step::Invoke(next, call)
        }
    }

    fn need_tool(self) -> (step: Step)
        ensures
            step@ == need_tool(self@),
    {
        if self.iteration_count >= self.config.max_iterations {
            return Step::Finished(Err(AgentError::ReasoningDidNotConverge));
        }
        match extract_follow_up_question(self.last_generated_text.as_str()) {
            Err(malformed) => Step::Finished(Err(malformed)),
            Ok(question) => {
                let mut next = self;
                next.accumulated_system_prompt.append(next.last_generated_text.as_str());
                next.iteration_count = next.iteration_count + 1;
                next.awaiting = Awaiting::ToolAnswer;
                let call = CapabilityCall::Execute {
                    name: SEARCH_TOOL.to_owned(),
                    request: ToolRequest {
                        caller_name: next.config.agent_name.clone(),
                        input: question,
                    },
                };
                Step::Invoke(next, call)
            },
        }
    }

    fn reasoning(self) -> (step: Step)
        ensures
            step@ == reasoning(self@),
    {
        let mut next = self;
        next.accumulated_system_prompt.append(next.user_prompt.as_str());
        if has_follow_up(next.last_generated_text.as_str()) {
            next.need_tool()
        } else {
            next.check_final()
        }
    }

    fn tool_answered(self, answer: &str) -> (step: Step)
        ensures
            step@ == tool_answered(self@, answer@),
    {
        let mut user_prompt = INTERMEDIATE_ANSWER_MARKER.to_owned();
        user_prompt.append(" ");
        user_prompt.append(answer);
        user_prompt.append(".");
        let mut next = self;
        next.user_prompt = user_prompt;
        next.current_stop_sequences = one_stop(STOP_BEFORE_INTERMEDIATE_ANSWER);
        next.awaiting = Awaiting::Reasoning;
        let call = next.generation_call();
        Step::Invoke(next, call)
    }

    fn tool_failed(self) -> (step: Step)
        ensures
            step@ == tool_failed(self@),
    {
        let mut next = self;
        next.accumulated_system_prompt.append(INTERMEDIATE_ANSWER_MARKER);
        next.current_stop_sequences = two_stops(STOP_BEFORE_FOLLOW_UP, FINAL_ANSWER_MARKER);
        next.awaiting = Awaiting::SelfAnswer;
        let call = next.generation_call();
        Step::Invoke(next, call)
    }

    /// Makes the session's move on the outcome of the call it waited for:
    /// the next call to make, or the end of the run.
    pub fn advance(self, outcome: Result<ActionReply, CapabilityFailure>) -> (step: Step)
        ensures
            step@ == next_step(self@, outcome_view(outcome)),
    {
        let mut session = self;
        match session.awaiting {
            Awaiting::ToolAnswer => match outcome {
                Ok(reply) => session.tool_answered(reply.output.as_str()),
                Err(_) => session.tool_failed(),
            },
            Awaiting::Reasoning => match outcome {
                Ok(reply) => {
                    session.last_generated_text = reply.output;
                    session.reasoning()
                },
                Err(failure) => Step::Finished(Err(AgentError::from_failure(failure))),
            },
            Awaiting::SelfAnswer => match outcome {
                Ok(reply) => {
                    session.accumulated_system_prompt.append(reply.output.as_str());
                    session.reasoning()
                },
                Err(failure) => Step::Finished(Err(AgentError::from_failure(failure))),
            },
            Awaiting::Conclusion => match outcome {
                Ok(reply) => {
                    session.last_generated_text = reply.output;
                    session.finalize()
                },
                Err(failure) => Step::Finished(Err(AgentError::from_failure(failure))),
            },
        }
    }
}

} // verus!
