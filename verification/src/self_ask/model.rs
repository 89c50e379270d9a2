//! The model of the controller: what a session holds, and the move that it
//! makes on each outcome.

use crate::capability::{CapabilityCallView, GenerationRequestView, ToolRequestView};
use crate::config::{required_value, AGENT_NAME_KEY, LLM_NAME_KEY};
use crate::error::{surfaced, AgentErrorView, CapabilityFailureView};
use crate::template::FEW_SHOT_TEMPLATE;
use crate::text::{
    asks_follow_up, final_answer_of, follow_up_question_of, occurs_in, FINAL_ANSWER_MARKER,
};
use vstd::prelude::*;

verus! {

/// The name of the tool that answers follow-up questions.
pub const SEARCH_TOOL: &'static str = "google_search";

/// Opens the line that holds the answer to a follow-up question.
pub const INTERMEDIATE_ANSWER_MARKER: &'static str = "Intermediate answer:";

/// The stop sequence of a reasoning turn: the generator asks, the tool answers.
pub const STOP_BEFORE_INTERMEDIATE_ANSWER: &'static str = "\nIntermediate answer:";

/// The first stop sequence of a self-answered turn.
pub const STOP_BEFORE_FOLLOW_UP: &'static str = "\nFollow up:";

/// The stop sequence of the concluding turn.
pub const STOP_AT_LINE_END: &'static str = "\n";

/// The cap on follow-up rounds for callers that configure none.
pub const DEFAULT_MAX_ITERATIONS: usize = 10;

/// The model of a self-ask configuration.
pub struct SelfAskConfigView {
    pub llm_name: Seq<char>,
    pub agent_name: Seq<char>,
    pub max_iterations: nat,
}

/// The configuration that the stored values give: both names are required,
/// and the generator's name is looked at first.
pub open spec fn configured(
    llm_name: Option<Seq<char>>,
    agent_name: Option<Seq<char>>,
    max_iterations: nat,
) -> Result<SelfAskConfigView, AgentErrorView> {
    match required_value(LLM_NAME_KEY@, llm_name) {
        Err(missing) => Err(missing),
        Ok(llm) => match required_value(AGENT_NAME_KEY@, agent_name) {
            Err(missing) => Err(missing),
            Ok(agent) => Ok(
                SelfAskConfigView { llm_name: llm, agent_name: agent, max_iterations },
            ),
        },
    }
}

/// The call whose outcome a session waits for.
#[derive(Clone, Copy, Debug, PartialEq, Eq, Structural)]
pub enum Awaiting {
    /// A generation that the next reasoning step reads.
    Reasoning,
    /// The tool's answer to a follow-up question.
    ToolAnswer,
    /// A generation that answers a follow-up question in the tool's place.
    SelfAnswer,
    /// The generation that is to state the final answer.
    Conclusion,
}

/// The model of a session: all that the next move depends on.
pub struct SessionView {
    pub config: SelfAskConfigView,
    /// The question that the run is to answer.
    pub original_question: Seq<char>,
    /// The transcript so far; every generation request carries it.
    pub accumulated_system_prompt: Seq<char>,
    /// The stop sequences of the latest generation request.
    pub current_stop_sequences: Seq<Seq<char>>,
    /// The text that the reasoning reads.
    pub last_generated_text: Seq<char>,
    /// The number of follow-up rounds begun.
    pub iteration_count: nat,
    /// The user prompt of the latest generation request.
    pub user_prompt: Seq<char>,
    pub awaiting: Awaiting,
}

/// The model of where a run stands.
pub enum StepView {
    Invoke(SessionView, CapabilityCallView),
    Finished(Result<Seq<char>, AgentErrorView>),
}

/// The user prompt that opens a run.
pub open spec fn opening_prompt(question: Seq<char>) -> Seq<char> {
    "Question: "@ + question + "\nAre follow up questions needed here:"@
}

/// The user prompt that hands the tool's answer to the generator.
pub open spec fn intermediate_answer_prompt(answer: Seq<char>) -> Seq<char> {
    INTERMEDIATE_ANSWER_MARKER@ + " "@ + answer + "."@
}

/// The generation call that a session makes: addressed to the configured
/// generator, with the transcript as system prompt.
pub open spec fn generation_call(s: SessionView) -> CapabilityCallView {
    CapabilityCallView::Generate {
        name: s.config.llm_name,
        request: GenerationRequestView {
            caller_name: s.config.agent_name,
            system_prompt: s.accumulated_system_prompt,
            user_prompt: s.user_prompt,
            stop_sequences: s.current_stop_sequences,
        },
    }
}

/// The tool call that asks `question` of the search tool.
pub open spec fn search_call(s: SessionView, question: Seq<char>) -> CapabilityCallView {
    CapabilityCallView::Execute {
        name: SEARCH_TOOL@,
        request: ToolRequestView { caller_name: s.config.agent_name, input: question },
    }
}

/// The session that a run starts in: the transcript is the few-shot template,
/// and the first generation is stopped before an intermediate answer.
pub open spec fn opened(config: SelfAskConfigView, question: Seq<char>) -> SessionView {
    SessionView {
        config,
        original_question: question,
        accumulated_system_prompt: FEW_SHOT_TEMPLATE@,
        current_stop_sequences: seq![STOP_BEFORE_INTERMEDIATE_ANSWER@],
        last_generated_text: Seq::empty(),
        iteration_count: 0,
        user_prompt: opening_prompt(question),
        awaiting: Awaiting::Reasoning,
    }
}

/// The first move of a run.
pub open spec fn first_step(config: SelfAskConfigView, question: Seq<char>) -> StepView {
    StepView::Invoke(opened(config, question), generation_call(opened(config, question)))
}

/// The run ends in the answer that the latest generated text holds.
pub open spec fn finalize(s: SessionView) -> StepView {
    StepView::Finished(Ok(final_answer_of(s.last_generated_text)))
}

/// No follow-up is asked. Text that holds the final-answer marker is final;
/// otherwise the marker is put at the end of the transcript and one more
/// generation, stopped at the end of its line, has to state the conclusion.
pub open spec fn check_final(s: SessionView) -> StepView {
    if occurs_in(s.last_generated_text, FINAL_ANSWER_MARKER@) {
        finalize(s)
    } else {
        let next = SessionView {
            accumulated_system_prompt: s.accumulated_system_prompt + FINAL_ANSWER_MARKER@,
            current_stop_sequences: seq![STOP_AT_LINE_END@],
            awaiting: Awaiting::Conclusion,
            ..s
        };
        StepView::Invoke(next, generation_call(next))
    }
}

/// A follow-up is asked. Beyond the cap the run is given up. Within it the
/// generated text joins the transcript and its question goes to the search
/// tool; text without a proper question is malformed.
pub open spec fn need_tool(s: SessionView) -> StepView {
    if s.iteration_count >= s.config.max_iterations {
        StepView::Finished(Err(AgentErrorView::ReasoningDidNotConverge))
    } else {
        match follow_up_question_of(s.last_generated_text) {
            Err(malformation) => StepView::Finished(
                Err(AgentErrorView::MalformedReasoning(malformation)),
            ),
            Ok(question) => {
                let next = SessionView {
                    accumulated_system_prompt: s.accumulated_system_prompt
                        + s.last_generated_text,
                    iteration_count: s.iteration_count + 1,
                    awaiting: Awaiting::ToolAnswer,
                    ..s
                };
                StepView::Invoke(next, search_call(next, question))
            },
        }
    }
}

/// A generation has been answered. The user prompt that was just sent joins
/// the transcript, and the last line of the latest generated text decides
/// between the tool and the end.
pub open spec fn reasoning(s: SessionView) -> StepView {
    let next = SessionView {
        accumulated_system_prompt: s.accumulated_system_prompt + s.user_prompt,
        ..s
    };
    if asks_follow_up(next.last_generated_text) {
        need_tool(next)
    } else {
        check_final(next)
    }
}

/// The tool has answered: its answer is the next user prompt, and the
/// generator reasons on, stopped before an intermediate answer.
pub open spec fn tool_answered(s: SessionView, answer: Seq<char>) -> StepView {
    let next = SessionView {
        user_prompt: intermediate_answer_prompt(answer),
        current_stop_sequences: seq![STOP_BEFORE_INTERMEDIATE_ANSWER@],
        awaiting: Awaiting::Reasoning,
        ..s
    };
    StepView::Invoke(next, generation_call(next))
}

/// The tool has no answer. That ends nothing: the bare marker of an
/// intermediate answer joins the transcript and the generator is asked to
/// answer the question itself, stopped before a follow-up or a final answer.
pub open spec fn tool_failed(s: SessionView) -> StepView {
    let next = SessionView {
        accumulated_system_prompt: s.accumulated_system_prompt + INTERMEDIATE_ANSWER_MARKER@,
        current_stop_sequences: seq![STOP_BEFORE_FOLLOW_UP@, FINAL_ANSWER_MARKER@],
        awaiting: Awaiting::SelfAnswer,
        ..s
    };
    StepView::Invoke(next, generation_call(next))
}

/// The move that a session makes on the outcome of the call it waited for.
/// A failed generation ends the run; a failed tool call does not.
pub open spec fn next_step(
    s: SessionView,
    outcome: Result<Seq<char>, CapabilityFailureView>,
) -> StepView {
    match s.awaiting {
        Awaiting::ToolAnswer => match outcome {
            Ok(answer) => tool_answered(s, answer),
            Err(_) => tool_failed(s),
        },
        Awaiting::Reasoning => match outcome {
            Ok(text) => reasoning(SessionView { last_generated_text: text, ..s }),
            Err(failure) => StepView::Finished(Err(surfaced(failure))),
        },
        Awaiting::SelfAnswer => match outcome {
            Ok(text) => reasoning(
                SessionView {
                    accumulated_system_prompt: s.accumulated_system_prompt + text,
                    ..s
                },
            ),
            Err(failure) => StepView::Finished(Err(surfaced(failure))),
        },
        Awaiting::Conclusion => match outcome {
            Ok(text) => finalize(SessionView { last_generated_text: text, ..s }),
            Err(failure) => StepView::Finished(Err(surfaced(failure))),
        },
    }
}

/// Where a run stands after the outcomes of its calls, first to last. A run
/// that has ended stays where it ended.
pub open spec fn run(
    start: StepView,
    outcomes: Seq<Result<Seq<char>, CapabilityFailureView>>,
) -> StepView
    decreases outcomes.len(),
{
    if outcomes.len() == 0 {
        start
    } else {
        match run(start, outcomes.drop_last()) {
            StepView::Invoke(s, _) => next_step(s, outcomes.last()),
            StepView::Finished(answer) => StepView::Finished(answer),
        }
    }
}

/// The follow-up rounds that the cap still allows.
pub open spec fn rounds_left(s: SessionView) -> nat {
    if s.config.max_iterations > s.iteration_count {
        (s.config.max_iterations - s.iteration_count) as nat
    } else {
        0
    }
}

/// The most calls that a session can still ask for, the pending one included.
pub open spec fn calls_left(s: SessionView) -> nat {
    match s.awaiting {
        Awaiting::Conclusion => 1,
        Awaiting::ToolAnswer => 2 * rounds_left(s) + 3,
        Awaiting::Reasoning => 2 * rounds_left(s) + 2,
        Awaiting::SelfAnswer => 2 * rounds_left(s) + 2,
    }
}

/// The most calls that a run can still ask for.
pub open spec fn calls_ahead(step: StepView) -> nat {
    match step {
        StepView::Invoke(s, _) => calls_left(s),
        StepView::Finished(_) => 0,
    }
}

} // verus!
