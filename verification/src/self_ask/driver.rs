//! Whole runs: driven through a capability client, or replayed from the
//! recorded outcomes of the calls.

use crate::capability::{invoke, outcome_view, ActionReply, AgentRequest, CapabilityClient};
use crate::error::{text_result_view, AgentError, CapabilityFailure, CapabilityFailureView};
use crate::self_ask::laws::lemma_move_spends_a_call;
use crate::self_ask::model::{calls_ahead, first_step, run, StepView};
use crate::self_ask::session::{ReasoningSession, SelfAskConfig, Step};
use vstd::prelude::*;

verus! {

/// The model of the outcomes of a run's calls.
pub open spec fn outcomes_view(outcomes: Seq<Result<ActionReply, CapabilityFailure>>) -> Seq<
    Result<Seq<char>, CapabilityFailureView>,
> {
    outcomes.map_values(|outcome: Result<ActionReply, CapabilityFailure>| outcome_view(outcome))
}

fn clone_outcome(outcome: &Result<ActionReply, CapabilityFailure>) -> (copy: Result<
    ActionReply,
    CapabilityFailure,
>)
    ensures
        outcome_view(copy) == outcome_view(*outcome),
{
    match outcome {
        Ok(reply) => Ok(reply.clone()),
        Err(failure) => Err(failure.clone()),
    }
}

/// Replays a run on `question` from the recorded outcomes of its calls, first
/// to last: where the run stands after them. Outcomes behind the end of the
/// run are not read.
pub fn replay(
    config: &SelfAskConfig,
    question: &str,
    outcomes: &Vec<Result<ActionReply, CapabilityFailure>>,
) -> (step: Step)
    ensures
        step@ == run(first_step(config@, question@), outcomes_view(outcomes@)),
{
    let ghost start = first_step(config@, question@);
    let ghost recorded = outcomes_view(outcomes@);
    let (session, first) = ReasoningSession::begin(config.clone(), question);
    let mut step = Step::Invoke(session, first);
    let mut taken: usize = 0;
    while taken < outcomes.len()
        invariant
            taken <= outcomes.len(),
            recorded == outcomes_view(outcomes@),
            step@ == run(start, recorded.take(taken as int)),
        decreases outcomes.len() - taken,
    {
        step = match step {
            Step::Invoke(session, _) => session.advance(clone_outcome(&outcomes[taken])),
            Step::Finished(answer) => Step::Finished(answer),
        };
        taken += 1;
        proof {
            assert(recorded.take(taken as int).drop_last() =~= recorded.take(taken - 1));
        }
    }
    assert(recorded.take(taken as int) =~= recorded);
    step
}

/// Runs the self-ask reasoning on the question of `request`, making every
/// call through `client`: the cleaned final answer, or the failure that
/// ended the run. The result is the one that the state machine reaches on
/// the outcomes that the client gave, and the run makes at most two calls
/// for each allowed follow-up round and two more.
pub fn call<C: CapabilityClient>(
    client: &mut C,
    config: &SelfAskConfig,
    request: &AgentRequest,
) -> (answer: Result<String, AgentError>)
    ensures
        exists|outcomes: Seq<Result<Seq<char>, CapabilityFailureView>>|
            #![trigger run(first_step(config@, request@.input), outcomes)]
            {
                &&& 0 < outcomes.len() <= 2 * config@.max_iterations + 2
                &&& run(first_step(config@, request@.input), outcomes.drop_last()) is Invoke
                &&& run(first_step(config@, request@.input), outcomes) == StepView::Finished(
                    text_result_view(answer),
                )
            },
{
    let ghost start = first_step(config@, request@.input);
    let ghost mut outcomes: Seq<Result<Seq<char>, CapabilityFailureView>> = Seq::empty();
    let (session, first) = ReasoningSession::begin(config.clone(), request.input.as_str());
    let mut step = Step::Invoke(session, first);
    loop
        invariant
            start == first_step(config@, request@.input),
            run(start, outcomes) == step@,
            outcomes.len() + calls_ahead(step@) <= 2 * config@.max_iterations + 2,
            step@ is Finished ==> outcomes.len() > 0 && run(start, outcomes.drop_last()) is Invoke,
        decreases calls_ahead(step@),
    {
        match step {
            Step::Finished(answer) => {
                return answer;
            },
            Step::Invoke(session, pending) => {
                let outcome = invoke(client, &pending);
                proof {
                    lemma_move_spends_a_call(session@, outcome_view(outcome));
                    assert(outcomes.push(outcome_view(outcome)).drop_last() =~= outcomes);
                    outcomes = outcomes.push(outcome_view(outcome));
                }
                step = session.advance(outcome);
            },
        }
    }
}

} // verus!
