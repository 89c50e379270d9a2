//! What holds of every run: it is bounded, a failed tool call does not end
//! it, and its transcript only grows.

use crate::error::{AgentErrorView, CapabilityFailureView};
use crate::self_ask::model::{
    calls_ahead, calls_left, first_step, generation_call, next_step, opened, opening_prompt, run,
    Awaiting, SelfAskConfigView, SessionView, StepView, INTERMEDIATE_ANSWER_MARKER,
    STOP_BEFORE_FOLLOW_UP,
};
use crate::template::FEW_SHOT_TEMPLATE;
use crate::text::{follow_up_question_of, FINAL_ANSWER_MARKER};
use vstd::prelude::*;

verus! {

/// Every move spends a call: whatever the outcome, the session that follows
/// can ask for strictly fewer calls than the one before.
pub proof fn lemma_move_spends_a_call(
    s: SessionView,
    outcome: Result<Seq<char>, CapabilityFailureView>,
)
    ensures
        calls_ahead(next_step(s, outcome)) < calls_left(s),
{
}

/// A run never overdraws its calls: while it goes on, the outcomes taken in
/// and the calls still ahead stay within what the start allowed.
pub proof fn lemma_run_stays_within_calls(
    start: StepView,
    outcomes: Seq<Result<Seq<char>, CapabilityFailureView>>,
)
    ensures
        run(start, outcomes) is Invoke ==> outcomes.len() + calls_ahead(run(start, outcomes))
            <= calls_ahead(start),
    decreases outcomes.len(),
{
    if outcomes.len() > 0 {
        lemma_run_stays_within_calls(start, outcomes.drop_last());
        if let StepView::Invoke(s, _) = run(start, outcomes.drop_last()) {
            lemma_move_spends_a_call(s, outcomes.last());
        }
    }
}

/// Bounded termination: whatever the generator and the tool reply, a run has
/// ended once it has taken in two outcomes for each allowed follow-up round
/// and two more.
pub proof fn lemma_run_ends_within_cap(
    config: SelfAskConfigView,
    question: Seq<char>,
    outcomes: Seq<Result<Seq<char>, CapabilityFailureView>>,
)
    requires
        outcomes.len() >= 2 * config.max_iterations + 2,
    ensures
        run(first_step(config, question), outcomes) is Finished,
{
    lemma_run_stays_within_calls(first_step(config, question), outcomes);
}

/// Where `step` waits for a generation, `outcome` is a text whose last line
/// asks a proper follow-up question.
pub open spec fn asks_again(
    step: StepView,
    outcome: Result<Seq<char>, CapabilityFailureView>,
) -> bool {
    match step {
        StepView::Invoke(s, _) => s.awaiting != Awaiting::ToolAnswer ==> match outcome {
            Ok(text) => follow_up_question_of(text) is Ok,
            Err(_) => false,
        },
        StepView::Finished(_) => true,
    }
}

/// Every generation of the run is answered, and with text whose last line
/// asks a proper follow-up question.
pub open spec fn keeps_asking(
    start: StepView,
    outcomes: Seq<Result<Seq<char>, CapabilityFailureView>>,
) -> bool {
    forall|i: int|
        #![trigger outcomes[i]]
        0 <= i < outcomes.len() ==> asks_again(run(start, outcomes.take(i)), outcomes[i])
}

/// The run has not concluded: it waits for a call with a follow-up question
/// in hand, or it was given up at the cap.
pub open spec fn still_asking(step: StepView) -> bool {
    match step {
        StepView::Finished(answer) => answer == Err::<Seq<char>, AgentErrorView>(
            AgentErrorView::ReasoningDidNotConverge,
        ),
        StepView::Invoke(s, _) => match s.awaiting {
            Awaiting::Reasoning => true,
            Awaiting::ToolAnswer => follow_up_question_of(s.last_generated_text) is Ok,
            Awaiting::SelfAnswer => follow_up_question_of(s.last_generated_text) is Ok,
            Awaiting::Conclusion => false,
        },
    }
}

proof fn lemma_asking_goes_on(
    start: StepView,
    outcomes: Seq<Result<Seq<char>, CapabilityFailureView>>,
)
    requires
        still_asking(start),
        keeps_asking(start, outcomes),
    ensures
        still_asking(run(start, outcomes)),
    decreases outcomes.len(),
{
    if outcomes.len() > 0 {
        let before = outcomes.drop_last();
        assert forall|i: int| 0 <= i < before.len() implies asks_again(
            run(start, before.take(i)),
            #[trigger] before[i],
        ) by {
            assert(before.take(i) =~= outcomes.take(i));
        }
        lemma_asking_goes_on(start, before);
    }
}

/// A generator that asks a follow-up question in every reply cannot keep a
/// run going: the run never ends in an answer, and after two outcomes for
/// each allowed follow-up round and two more it has been given up as not
/// converging. The tool may answer or fail as it likes.
pub proof fn lemma_endless_follow_ups_hit_the_cap(
    config: SelfAskConfigView,
    question: Seq<char>,
    outcomes: Seq<Result<Seq<char>, CapabilityFailureView>>,
)
    requires
        keeps_asking(first_step(config, question), outcomes),
    ensures
        match run(first_step(config, question), outcomes) {
            StepView::Invoke(_, _) => outcomes.len() < 2 * config.max_iterations + 2,
            StepView::Finished(answer) => answer == Err::<Seq<char>, AgentErrorView>(
                AgentErrorView::ReasoningDidNotConverge,
            ),
        },
{
    lemma_asking_goes_on(first_step(config, question), outcomes);
    lemma_run_stays_within_calls(first_step(config, question), outcomes);
}

/// A failed tool call does not end the run: the session asks the generator
/// to answer the question itself, stopped before a follow-up or a final
/// answer, and keeps the text that asked.
pub proof fn lemma_tool_failure_goes_on(s: SessionView, failure: CapabilityFailureView)
    requires
        s.awaiting == Awaiting::ToolAnswer,
    ensures
        next_step(s, Err(failure)) matches StepView::Invoke(next, call) && {
            &&& call == generation_call(next)
            &&& next.awaiting == Awaiting::SelfAnswer
            &&& next.current_stop_sequences == seq![STOP_BEFORE_FOLLOW_UP@, FINAL_ANSWER_MARKER@]
            &&& next.accumulated_system_prompt == s.accumulated_system_prompt
                + INTERMEDIATE_ANSWER_MARKER@
            &&& next.last_generated_text == s.last_generated_text
            &&& next.iteration_count == s.iteration_count
        },
{
}

/// The transcript grows and never shrinks: a move leaves the question and
/// the configuration alone, keeps the count of rounds or raises it by one,
/// and only ever adds to the end of the system prompt.
pub proof fn lemma_transcript_only_grows(
    s: SessionView,
    outcome: Result<Seq<char>, CapabilityFailureView>,
)
    ensures
        next_step(s, outcome) matches StepView::Invoke(next, _) ==> {
            &&& next.config == s.config
            &&& next.original_question == s.original_question
            &&& s.iteration_count <= next.iteration_count <= s.iteration_count + 1
            &&& s.accumulated_system_prompt.is_prefix_of(next.accumulated_system_prompt)
        },
{
}

/// Through a whole run the configuration and the question stay as they
/// were, the count of rounds stays within the cap, and the transcript opens
/// with the few-shot template, followed from the first reply on by the
/// framed question.
pub proof fn lemma_run_keeps_its_frame(
    config: SelfAskConfigView,
    question: Seq<char>,
    outcomes: Seq<Result<Seq<char>, CapabilityFailureView>>,
)
    ensures
        run(first_step(config, question), outcomes) matches StepView::Invoke(s, _) ==> {
            &&& s.config == config
            &&& s.original_question == question
            &&& s.iteration_count <= config.max_iterations
            &&& FEW_SHOT_TEMPLATE@.is_prefix_of(s.accumulated_system_prompt)
            &&& outcomes.len() > 0 ==> (FEW_SHOT_TEMPLATE@ + opening_prompt(question)).is_prefix_of(
                s.accumulated_system_prompt,
            )
        },
    decreases outcomes.len(),
{
    if outcomes.len() > 0 {
        lemma_run_keeps_its_frame(config, question, outcomes.drop_last());
        if let StepView::Invoke(before, _) = run(first_step(config, question), outcomes.drop_last()) {
            lemma_transcript_only_grows(before, outcomes.last());
        }
    }
}

} // verus!
