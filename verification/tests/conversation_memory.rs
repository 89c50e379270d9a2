use agent_core::capability::{
    ActionReply, AgentRequest, CapabilityClient, DelegateRequest, GenerationRequest, ToolRequest,
};
use agent_core::conversation::{
    call, finish_turn, recall, record_turn, remember, settle_turn, turn_request,
    ConversationConfig, MemoryStore, TurnEnd, DEFAULT_MEMORY_KEY, MEMORY_PREAMBLE,
};
use agent_core::error::{AgentError, CapabilityFailure};
use std::collections::HashMap;

struct OneReply {
    reply: Result<ActionReply, CapabilityFailure>,
    seen: Vec<(String, GenerationRequest)>,
}

impl CapabilityClient for OneReply {
    fn generate(
        &mut self,
        name: &str,
        request: &GenerationRequest,
    ) -> Result<ActionReply, CapabilityFailure> {
        self.seen.push((name.to_string(), request.clone()));
        self.reply.clone()
    }

    fn execute(
        &mut self,
        _name: &str,
        _request: &ToolRequest,
    ) -> Result<ActionReply, CapabilityFailure> {
        panic!("the conversation agent uses no tool");
    }

    fn delegate(
        &mut self,
        _name: &str,
        _request: &DelegateRequest,
    ) -> Result<ActionReply, CapabilityFailure> {
        panic!("the conversation agent asks no other agent");
    }
}

struct MapStore {
    kept: HashMap<String, String>,
    fails: bool,
    unreadable: bool,
}

impl MemoryStore for MapStore {
    fn load(&mut self, key: &str) -> Result<Option<String>, CapabilityFailure> {
        if self.unreadable {
            return Err(CapabilityFailure::Failed("transcript is not text".to_string()));
        }
        Ok(self.kept.get(key).cloned())
    }

    fn save(&mut self, key: &str, transcript: &str) -> Result<(), CapabilityFailure> {
        if self.fails {
            return Err(CapabilityFailure::Failed("store is read-only".to_string()));
        }
        self.kept.insert(key.to_string(), transcript.to_string());
        Ok(())
    }
}

fn config() -> ConversationConfig {
    ConversationConfig {
        persona_prompt: "You are a helpful assistant.".to_string(),
        llm_name: "openai".to_string(),
        agent_name: "conversation".to_string(),
    }
}

fn said(input: &str) -> AgentRequest {
    AgentRequest { name: "conversation".to_string(), input: input.to_string() }
}

fn answering(text: &str) -> OneReply {
    OneReply { reply: Ok(ActionReply { output: text.to_string() }), seen: Vec::new() }
}

#[test]
fn one_turn_from_empty_memory() {
    let mut client = answering("hi there");
    let mut store = MapStore { kept: HashMap::new(), fails: false, unreadable: false };
    let answer = call(&mut client, &mut store, &config(), DEFAULT_MEMORY_KEY, &said("hello"));
    assert_eq!(answer, Ok("hi there".to_string()));
    let transcript = store.kept.get("memory").expect("the transcript was stored");
    let human = transcript.find("Human: hello").expect("the human's line is there");
    let assistant = transcript.find("Assistant: hi there").expect("the assistant's line is there");
    assert!(human < assistant);
    assert_eq!(
        transcript,
        "\nHere is the history of the chat with the human you are assisting\nHuman: hello\nAssistant: hi there\n"
    );
}

#[test]
fn the_request_carries_persona_and_memory() {
    let mut client = answering("hi there");
    let mut store = MapStore { kept: HashMap::new(), fails: false, unreadable: false };
    let _ = call(&mut client, &mut store, &config(), "memory", &said("hello"));
    assert_eq!(client.seen.len(), 1);
    assert_eq!(client.seen[0].0, "openai");
    assert_eq!(
        client.seen[0].1,
        GenerationRequest {
            caller_name: "conversation".to_string(),
            system_prompt: "You are a helpful assistant. \nHere is the history of the chat with the human you are assisting\n.".to_string(),
            user_prompt: "hello".to_string(),
            stop_sequences: vec![],
        }
    );
}

#[test]
fn a_second_turn_sees_the_first() {
    let mut store = MapStore { kept: HashMap::new(), fails: false, unreadable: false };
    let mut client = answering("hi there");
    let _ = call(&mut client, &mut store, &config(), "memory", &said("hello"));
    let mut client = answering("I am fine");
    let answer = call(&mut client, &mut store, &config(), "memory", &said("how are you?"));
    assert_eq!(answer, Ok("I am fine".to_string()));
    let first = format!("{}Human: hello\nAssistant: hi there\n", MEMORY_PREAMBLE);
    assert_eq!(
        client.seen[0].1.system_prompt,
        format!("You are a helpful assistant. {}.", first)
    );
    assert_eq!(
        store.kept.get("memory").unwrap(),
        &format!("{}Human: how are you?\nAssistant: I am fine\n", first)
    );
}

#[test]
fn conversations_under_different_keys_do_not_mix() {
    let mut store = MapStore { kept: HashMap::new(), fails: false, unreadable: false };
    let mut client = answering("one");
    let _ = call(&mut client, &mut store, &config(), "first", &said("a"));
    let mut client = answering("two");
    let _ = call(&mut client, &mut store, &config(), "second", &said("b"));
    assert_eq!(
        store.kept.get("first").unwrap(),
        &format!("{}Human: a\nAssistant: one\n", MEMORY_PREAMBLE)
    );
    assert_eq!(
        store.kept.get("second").unwrap(),
        &format!("{}Human: b\nAssistant: two\n", MEMORY_PREAMBLE)
    );
}

#[test]
fn a_failed_generation_leaves_the_memory_alone() {
    let mut client = OneReply {
        reply: Err(CapabilityFailure::Unavailable("no route".to_string())),
        seen: Vec::new(),
    };
    let mut store = MapStore { kept: HashMap::new(), fails: false, unreadable: false };
    let answer = call(&mut client, &mut store, &config(), "memory", &said("hello"));
    assert_eq!(answer, Err(AgentError::CapabilityUnavailable("no route".to_string())));
    assert!(store.kept.is_empty());
}

#[test]
fn a_failed_store_fails_the_turn() {
    let mut client = answering("hi there");
    let mut store = MapStore { kept: HashMap::new(), fails: true, unreadable: false };
    let answer = call(&mut client, &mut store, &config(), "memory", &said("hello"));
    assert_eq!(answer, Err(AgentError::CapabilityError("store is read-only".to_string())));
}

#[test]
fn an_unreadable_store_fails_the_turn_before_any_generation() {
    let mut client = answering("hi there");
    let mut store = MapStore { kept: HashMap::new(), fails: false, unreadable: true };
    let answer = call(&mut client, &mut store, &config(), "memory", &said("hello"));
    assert_eq!(answer, Err(AgentError::CapabilityError("transcript is not text".to_string())));
    assert!(client.seen.is_empty());
}

#[test]
fn remember_defaults_to_the_preamble() {
    assert_eq!(remember(None), MEMORY_PREAMBLE);
    assert_eq!(remember(Some("kept".to_string())), "kept");
    assert_eq!(remember(Some(String::new())), "");
}

#[test]
fn record_turn_appends_two_lines() {
    assert_eq!(
        record_turn("before\n".to_string(), "hello", "hi there"),
        "before\nHuman: hello\nAssistant: hi there\n"
    );
    assert_eq!(record_turn(String::new(), "", ""), "Human: \nAssistant: \n");
}

#[test]
fn turn_request_frames_the_memory() {
    let request = turn_request(&config(), "MEMORY", "what now?");
    assert_eq!(request.system_prompt, "You are a helpful assistant. MEMORY.");
    assert_eq!(request.user_prompt, "what now?");
    assert_eq!(request.caller_name, "conversation");
    assert!(request.stop_sequences.is_empty());
}

#[test]
fn recall_takes_the_stored_transcript_or_the_preamble() {
    assert_eq!(recall(Ok(Some("kept".to_string()))), Ok("kept".to_string()));
    assert_eq!(recall(Ok(None)), Ok(MEMORY_PREAMBLE.to_string()));
}

#[test]
fn recall_surfaces_a_failed_read() {
    assert_eq!(
        recall(Err(CapabilityFailure::Failed("not text".to_string()))),
        Err(AgentError::CapabilityError("not text".to_string()))
    );
    assert_eq!(
        recall(Err(CapabilityFailure::Unavailable("no store".to_string()))),
        Err(AgentError::CapabilityUnavailable("no store".to_string()))
    );
}

#[test]
fn finish_turn_keeps_the_reply_and_grows_the_transcript() {
    let generated = Ok(ActionReply { output: "hi there".to_string() });
    assert_eq!(
        finish_turn("before\n".to_string(), "hello", generated),
        Ok(TurnEnd {
            output: "hi there".to_string(),
            transcript: "before\nHuman: hello\nAssistant: hi there\n".to_string(),
        })
    );
}

#[test]
fn finish_turn_surfaces_a_failed_generation() {
    assert_eq!(
        finish_turn(
            "before\n".to_string(),
            "hello",
            Err(CapabilityFailure::Unavailable("no route".to_string()))
        ),
        Err(AgentError::CapabilityUnavailable("no route".to_string()))
    );
    assert_eq!(
        finish_turn(String::new(), "", Err(CapabilityFailure::Failed("rate limit".to_string()))),
        Err(AgentError::CapabilityError("rate limit".to_string()))
    );
}

#[test]
fn settle_turn_returns_the_reply_once_the_transcript_is_stored() {
    assert_eq!(settle_turn("hi there".to_string(), Ok(())), Ok("hi there".to_string()));
    assert_eq!(
        settle_turn(
            "hi there".to_string(),
            Err(CapabilityFailure::Failed("store is read-only".to_string()))
        ),
        Err(AgentError::CapabilityError("store is read-only".to_string()))
    );
}
