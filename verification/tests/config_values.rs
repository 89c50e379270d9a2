use agent_core::config::{required, AGENT_NAME_KEY, LLM_NAME_KEY, PERSONA_PROMPT_KEY};
use agent_core::conversation::ConversationConfig;
use agent_core::error::{AgentError, CapabilityFailure, Malformation};
use agent_core::self_ask::SelfAskConfig;

fn some(text: &str) -> Option<String> {
    Some(text.to_string())
}

#[test]
fn a_required_value_is_returned_or_its_key_reported() {
    assert_eq!(required("llm_name", some("openai")), Ok("openai".to_string()));
    assert_eq!(required("llm_name", some("")), Ok(String::new()));
    assert_eq!(
        required("llm_name", None),
        Err(AgentError::ConfigurationMissing("llm_name".to_string()))
    );
}

#[test]
fn the_keys_are_the_stored_names() {
    assert_eq!(LLM_NAME_KEY, "llm_name");
    assert_eq!(AGENT_NAME_KEY, "name");
    assert_eq!(PERSONA_PROMPT_KEY, "prompt");
}

#[test]
fn self_ask_needs_both_names() {
    assert_eq!(
        SelfAskConfig::from_values(some("openai"), some("agent"), 7),
        Ok(SelfAskConfig {
            llm_name: "openai".to_string(),
            agent_name: "agent".to_string(),
            max_iterations: 7,
        })
    );
    assert_eq!(
        SelfAskConfig::from_values(None, some("agent"), 7),
        Err(AgentError::ConfigurationMissing("llm_name".to_string()))
    );
    assert_eq!(
        SelfAskConfig::from_values(some("openai"), None, 7),
        Err(AgentError::ConfigurationMissing("name".to_string()))
    );
    assert_eq!(
        SelfAskConfig::from_values(None, None, 7),
        Err(AgentError::ConfigurationMissing("llm_name".to_string()))
    );
}

#[test]
fn conversation_needs_persona_and_both_names() {
    assert_eq!(
        ConversationConfig::from_values(some("Be kind."), some("openai"), some("agent")),
        Ok(ConversationConfig {
            persona_prompt: "Be kind.".to_string(),
            llm_name: "openai".to_string(),
            agent_name: "agent".to_string(),
        })
    );
    assert_eq!(
        ConversationConfig::from_values(None, None, None),
        Err(AgentError::ConfigurationMissing("prompt".to_string()))
    );
    assert_eq!(
        ConversationConfig::from_values(some("Be kind."), None, None),
        Err(AgentError::ConfigurationMissing("llm_name".to_string()))
    );
    assert_eq!(
        ConversationConfig::from_values(some("Be kind."), some("openai"), None),
        Err(AgentError::ConfigurationMissing("name".to_string()))
    );
}

#[test]
fn a_capability_failure_keeps_its_message() {
    assert_eq!(
        AgentError::from_failure(CapabilityFailure::Unavailable("timeout".to_string())),
        AgentError::CapabilityUnavailable("timeout".to_string())
    );
    assert_eq!(
        AgentError::from_failure(CapabilityFailure::Failed("bad request".to_string())),
        AgentError::CapabilityError("bad request".to_string())
    );
}

#[test]
fn every_failure_has_its_message() {
    assert_eq!(
        AgentError::ConfigurationMissing("llm_name".to_string()).message(),
        "Could not find config key 'llm_name'"
    );
    assert_eq!(
        AgentError::CapabilityUnavailable("timeout".to_string()).message(),
        "capability unavailable: timeout"
    );
    assert_eq!(
        AgentError::CapabilityError("bad request".to_string()).message(),
        "capability error: bad request"
    );
    assert_eq!(
        AgentError::MalformedReasoning(Malformation::MissingFollowUpMarker).message(),
        "malformed reasoning: the last line holds no follow-up marker"
    );
    assert_eq!(
        AgentError::MalformedReasoning(Malformation::MissingQuestionMark).message(),
        "malformed reasoning: the follow-up question does not end in a question mark"
    );
    assert_eq!(
        AgentError::ReasoningDidNotConverge.message(),
        "reasoning did not converge within the allowed follow-up rounds"
    );
}

#[test]
fn clones_are_equal_to_what_they_copy() {
    let failure = CapabilityFailure::Failed("bad request".to_string());
    assert_eq!(failure.clone(), failure);
    let error = AgentError::ConfigurationMissing("name".to_string());
    assert_eq!(error.clone(), error);
    let error = AgentError::MalformedReasoning(Malformation::MissingQuestionMark);
    assert_eq!(error.clone(), error);
}
