//! The conversation agent: one generation per turn over a transcript that is
//! kept between calls. The transcript is read when a turn starts, grows by
//! the turn, and is written back before the turn's reply is returned.

use crate::capability::{
    outcome_view, ActionReply, AgentRequest, CapabilityClient, GenerationRequest,
    GenerationRequestView,
};
use crate::config::{
    required, required_value, AGENT_NAME_KEY, LLM_NAME_KEY, PERSONA_PROMPT_KEY,
};
use crate::error::{
    surfaced, text_result_view, AgentError, AgentErrorView, CapabilityFailure,
    CapabilityFailureView,
};
use crate::text::optional_text;
use vstd::prelude::*;

verus! {

/// What the transcript is before the first turn.
pub const MEMORY_PREAMBLE: &'static str =
    "\nHere is the history of the chat with the human you are assisting\n";

/// The key of the transcript for callers that hold a single conversation.
pub const DEFAULT_MEMORY_KEY: &'static str = "memory";

/// Opens the line of a turn that holds the caller's input.
pub const HUMAN_PREFIX: &'static str = "Human: ";

/// Opens the line of a turn that holds the generator's reply.
pub const ASSISTANT_PREFIX: &'static str = "Assistant: ";

/// What a conversation agent is configured with.
#[derive(Debug, PartialEq, Eq)]
pub struct ConversationConfig {
    /// The persona text that opens every system prompt.
    pub persona_prompt: String,
    /// The name of the generation capability.
    pub llm_name: String,
    /// The agent's own identity, which its requests carry.
    pub agent_name: String,
}

/// The model of a conversation configuration.
pub struct ConversationConfigView {
    pub persona_prompt: Seq<char>,
    pub llm_name: Seq<char>,
    pub agent_name: Seq<char>,
}

impl View for ConversationConfig {
    type V = ConversationConfigView;

    open spec fn view(&self) -> ConversationConfigView {
        ConversationConfigView {
            persona_prompt: self.persona_prompt@,
            llm_name: self.llm_name@,
            agent_name: self.agent_name@,
        }
    }
}

impl Clone for ConversationConfig {
    fn clone(&self) -> (copy: Self)
        ensures
            copy@ == self@,
    {
        ConversationConfig {
            persona_prompt: self.persona_prompt.clone(),
            llm_name: self.llm_name.clone(),
            agent_name: self.agent_name.clone(),
        }
    }
}

/// The configuration that the stored values give: all three are required,
/// and they are looked at in the order persona, generator, identity.
pub open spec fn configured(
    persona_prompt: Option<Seq<char>>,
    llm_name: Option<Seq<char>>,
    agent_name: Option<Seq<char>>,
) -> Result<ConversationConfigView, AgentErrorView> {
    match required_value(PERSONA_PROMPT_KEY@, persona_prompt) {
        Err(missing) => Err(missing),
        Ok(persona) => match required_value(LLM_NAME_KEY@, llm_name) {
            Err(missing) => Err(missing),
            Ok(llm) => match required_value(AGENT_NAME_KEY@, agent_name) {
                Err(missing) => Err(missing),
                Ok(agent) => Ok(
                    ConversationConfigView {
                        persona_prompt: persona,
                        llm_name: llm,
                        agent_name: agent,
                    },
                ),
            },
        },
    }
}

/// The model of a configuration that may be missing a value.
pub open spec fn config_result_view(result: Result<ConversationConfig, AgentError>) -> Result<
    ConversationConfigView,
    AgentErrorView,
> {
    match result {
        Ok(config) => Ok(config@),
        Err(error) => Err(error@),
    }
}

impl ConversationConfig {
    /// Builds the configuration from the stored values, or reports the first
    /// required one that is absent.
    pub fn from_values(
        persona_prompt: Option<String>,
        llm_name: Option<String>,
        agent_name: Option<String>,
    ) -> (result: Result<ConversationConfig, AgentError>)
        ensures
            config_result_view(result) == configured(
                optional_text(persona_prompt),
                optional_text(llm_name),
                optional_text(agent_name),
            ),
    {
        let persona_prompt = match required(PERSONA_PROMPT_KEY, persona_prompt) {
            Ok(text) => text,
            Err(missing) => {
                return Err(missing);
            },
        };
        let llm_name = match required(LLM_NAME_KEY, llm_name) {
            Ok(name) => name,
            Err(missing) => {
                return Err(missing);
            },
        };
        let agent_name = match required(AGENT_NAME_KEY, agent_name) {
            Ok(name) => name,
            Err(missing) => {
                return Err(missing);
            },
        };
        Ok(ConversationConfig { persona_prompt, llm_name, agent_name })
    }
}

/// The transcript that a turn starts from: the stored one, or the preamble
/// where nothing is stored yet.
pub open spec fn remembered(stored: Option<Seq<char>>) -> Seq<char> {
    match stored {
        Some(transcript) => transcript,
        None => MEMORY_PREAMBLE@,
    }
}

/// The system prompt of a turn: the persona, a space, the transcript and a
/// full stop.
pub open spec fn turn_system_prompt(persona_prompt: Seq<char>, memory: Seq<char>) -> Seq<char> {
    persona_prompt + " "@ + memory + "."@
}

/// The one generation request of a turn: it carries the caller's input as
/// user prompt and no stop sequence.
pub open spec fn turn_request_of(
    config: ConversationConfigView,
    memory: Seq<char>,
    input: Seq<char>,
) -> GenerationRequestView {
    GenerationRequestView {
        caller_name: config.agent_name,
        system_prompt: turn_system_prompt(config.persona_prompt, memory),
        user_prompt: input,
        stop_sequences: Seq::empty(),
    }
}

/// The transcript with one more turn at its end: the line of the human and
/// the line of the assistant.
pub open spec fn with_turn(memory: Seq<char>, input: Seq<char>, output: Seq<char>) -> Seq<char> {
    memory + HUMAN_PREFIX@ + input + "\n"@ + ASSISTANT_PREFIX@ + output + "\n"@
}

/// The transcript that a turn starts from.
pub fn remember(stored: Option<String>) -> (memory: String)
    ensures
        memory@ == remembered(optional_text(stored)),
{
    match stored {
        Some(transcript) => transcript,
        None => MEMORY_PREAMBLE.to_owned(),
    }
}

/// The generation request of the turn that answers `input` over `memory`.
pub fn turn_request(config: &ConversationConfig, memory: &str, input: &str) -> (request:
    GenerationRequest)
    ensures
        request@ == turn_request_of(config@, memory@, input@),
{
    let mut system_prompt = config.persona_prompt.clone();
    system_prompt.append(" ");
    system_prompt.append(memory);
    system_prompt.append(".");
    let stop_sequences: Vec<String> = Vec::new();
    assert(stop_sequences.deep_view() =~= Seq::<Seq<char>>::empty());
    GenerationRequest {
        caller_name: config.agent_name.clone(),
        system_prompt,
        user_prompt: input.to_owned(),
        stop_sequences,
    }
}

/// Adds the turn of `input` and `output` to the end of `memory`.
pub fn record_turn(memory: String, input: &str, output: &str) -> (transcript: String)
    ensures
        transcript@ == with_turn(memory@, input@, output@),
{
    let mut transcript = memory;
    transcript.append(HUMAN_PREFIX);
    transcript.append(input);
    transcript.append("\n");
    transcript.append(ASSISTANT_PREFIX);
    transcript.append(output);
    transcript.append("\n");
    transcript
}

/// A transcript is never cut short: the one after a turn starts with the one
/// before it, and the line of the human and the line of the assistant follow
/// in that order.
pub proof fn lemma_turn_is_appended(memory: Seq<char>, input: Seq<char>, output: Seq<char>)
    ensures
        memory.is_prefix_of(with_turn(memory, input, output)),
        with_turn(memory, input, output) == memory + ((HUMAN_PREFIX@ + input + "\n"@) + (
        ASSISTANT_PREFIX@ + output + "\n"@)),
{
}

/// What a turn has to show once the generator has replied: the reply, and
/// the transcript that is to be stored.
#[derive(Debug, PartialEq, Eq)]
pub struct TurnEnd {
    /// The generator's reply, which the turn returns.
    pub output: String,
    /// The transcript with the turn at its end.
    pub transcript: String,
}

/// The model of what a turn has to show.
pub struct TurnEndView {
    pub output: Seq<char>,
    pub transcript: Seq<char>,
}

impl View for TurnEnd {
    type V = TurnEndView;

    open spec fn view(&self) -> TurnEndView {
        TurnEndView { output: self.output@, transcript: self.transcript@ }
    }
}

/// The model of what the store came back with on a read.
pub open spec fn loaded_view(loaded: Result<Option<String>, CapabilityFailure>) -> Result<
    Option<Seq<char>>,
    CapabilityFailureView,
> {
    match loaded {
        Ok(stored) => Ok(optional_text(stored)),
        Err(failure) => Err(failure@),
    }
}

/// The model of what the store came back with on a write.
pub open spec fn saved_view(saved: Result<(), CapabilityFailure>) -> Result<
    (),
    CapabilityFailureView,
> {
    match saved {
        Ok(_) => Ok(()),
        Err(failure) => Err(failure@),
    }
}

/// The model of the end of a turn that may have failed.
pub open spec fn turn_end_view(end: Result<TurnEnd, AgentError>) -> Result<
    TurnEndView,
    AgentErrorView,
> {
    match end {
        Ok(end) => Ok(end@),
        Err(error) => Err(error@),
    }
}

/// The transcript that a turn starts from, given what the store came back
/// with: a failed read fails the turn.
pub open spec fn recalled(loaded: Result<Option<Seq<char>>, CapabilityFailureView>) -> Result<
    Seq<char>,
    AgentErrorView,
> {
    match loaded {
        Ok(stored) => Ok(remembered(stored)),
        Err(failure) => Err(surfaced(failure)),
    }
}

/// The end of a turn, given what the generator came back with: its reply and
/// the transcript with the turn, or the failure of the generation.
pub open spec fn turn_end_of(
    memory: Seq<char>,
    input: Seq<char>,
    generated: Result<Seq<char>, CapabilityFailureView>,
) -> Result<TurnEndView, AgentErrorView> {
    match generated {
        Ok(output) => Ok(TurnEndView { output, transcript: with_turn(memory, input, output) }),
        Err(failure) => Err(surfaced(failure)),
    }
}

/// What a turn returns, given what the store came back with on the write:
/// the generator's reply where the transcript was stored, and the failure of
/// the store where it was not.
pub open spec fn settled(output: Seq<char>, saved: Result<(), CapabilityFailureView>) -> Result<
    Seq<char>,
    AgentErrorView,
> {
    match saved {
        Ok(_) => Ok(output),
        Err(failure) => Err(surfaced(failure)),
    }
}

/// What a whole turn returns, given what the store and the generator came
/// back with. The first failure ends the turn: after a failed read nothing
/// is generated, and after a failed generation nothing is stored.
pub open spec fn turn_answer(
    input: Seq<char>,
    loaded: Result<Option<Seq<char>>, CapabilityFailureView>,
    generated: Result<Seq<char>, CapabilityFailureView>,
    saved: Result<(), CapabilityFailureView>,
) -> Result<Seq<char>, AgentErrorView> {
    match recalled(loaded) {
        Err(error) => Err(error),
        Ok(memory) => match turn_end_of(memory, input, generated) {
            Err(error) => Err(error),
            Ok(end) => settled(end.output, saved),
        },
    }
}

/// Takes in what the store came back with on the read of a turn.
pub fn recall(loaded: Result<Option<String>, CapabilityFailure>) -> (memory: Result<
    String,
    AgentError,
>)
    ensures
        text_result_view(memory) == recalled(loaded_view(loaded)),
{
    match loaded {
        Ok(stored) => Ok(remember(stored)),
        Err(failure) => Err(AgentError::from_failure(failure)),
    }
}

/// Takes in what the generator came back with on the turn that answers
/// `input` over `memory`.
pub fn finish_turn(
    memory: String,
    input: &str,
    generated: Result<ActionReply, CapabilityFailure>,
) -> (end: Result<TurnEnd, AgentError>)
    ensures
        turn_end_view(end) == turn_end_of(memory@, input@, outcome_view(generated)),
{
    match generated {
        Ok(reply) => {
            let transcript = record_turn(memory, input, reply.output.as_str());
            Ok(TurnEnd { output: reply.output, transcript })
        },
        Err(failure) => Err(AgentError::from_failure(failure)),
    }
}

/// Takes in what the store came back with on the write of a turn whose
/// generator replied `output`.
pub fn settle_turn(output: String, saved: Result<(), CapabilityFailure>) -> (answer: Result<
    String,
    AgentError,
>)
    ensures
        text_result_view(answer) == settled(output@, saved_view(saved)),
{
    match saved {
        Ok(_) => Ok(output),
        Err(failure) => Err(AgentError::from_failure(failure)),
    }
}

/// Whatever the store and the generator come back with, a turn ends in a
/// reply or in the failure of one of them, never in another failure.
pub proof fn lemma_turn_fails_only_with_a_capability(
    input: Seq<char>,
    loaded: Result<Option<Seq<char>>, CapabilityFailureView>,
    generated: Result<Seq<char>, CapabilityFailureView>,
    saved: Result<(), CapabilityFailureView>,
)
    ensures
        match turn_answer(input, loaded, generated, saved) {
            Ok(output) => generated == Ok::<Seq<char>, CapabilityFailureView>(output),
            Err(error) => error is CapabilityUnavailable || error is CapabilityError,
        },
{
}

/// The store that keeps transcripts between calls, one under each key.
/// Nothing is promised of what it returns.
pub trait MemoryStore {
    /// The transcript stored under `key`, if there is one.
    fn load(&mut self, key: &str) -> Result<Option<String>, CapabilityFailure>;

    /// Stores `transcript` under `key`.
    fn save(&mut self, key: &str, transcript: &str) -> Result<(), CapabilityFailure>;
}

/// Answers the input of `request` in the conversation kept under
/// `memory_key`: reads the transcript, asks the generator once, stores the
/// transcript with the new turn, and returns the generator's reply. The
/// store and the generator decide what comes of a turn; what is asked of
/// them is fixed by `turn_request` and `finish_turn`, and what the turn makes
/// of their outcomes by `recall`, `finish_turn` and `settle_turn`. Whatever
/// they come back with, a turn can only fail where one of them fails, and
/// then nothing is returned but that failure.
pub fn call<C: CapabilityClient, M: MemoryStore>(
    client: &mut C,
    store: &mut M,
    config: &ConversationConfig,
    memory_key: &str,
    request: &AgentRequest,
) -> (answer: Result<String, AgentError>)
    ensures
        answer matches Err(error) ==> error is CapabilityUnavailable || error is CapabilityError,
{
    let memory = match recall(store.load(memory_key)) {
        Err(failure) => {
            return Err(failure);
        },
        Ok(memory) => memory,
    };
    let generation = turn_request(config, memory.as_str(), request.input.as_str());
    let generated = client.generate(config.llm_name.as_str(), &generation);
    let end = match finish_turn(memory, request.input.as_str(), generated) {
        Err(failure) => {
            return Err(failure);
        },
        Ok(end) => end,
    };
    let saved = store.save(memory_key, end.transcript.as_str());
    settle_turn(end.output, saved)
}

} // verus!
