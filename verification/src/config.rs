//! Named configuration values: which of them an agent needs, and what their
//! absence means.

use crate::error::{text_result_view, AgentError, AgentErrorView};
use crate::text::optional_text;
use vstd::prelude::*;

verus! {

/// The key of the name of the generation capability that an agent calls.
pub const LLM_NAME_KEY: &'static str = "llm_name";

/// The key of the agent's own identity.
pub const AGENT_NAME_KEY: &'static str = "name";

/// The key of the persona text that opens the conversation agent's system prompt.
pub const PERSONA_PROMPT_KEY: &'static str = "prompt";

/// A required value is the value where it is there, and the report of its key
/// where it is not.
pub open spec fn required_value(key: Seq<char>, value: Option<Seq<char>>) -> Result<
    Seq<char>,
    AgentErrorView,
> {
    match value {
        Some(text) => Ok(text),
        None => Err(AgentErrorView::ConfigurationMissing(key)),
    }
}

/// Insists on the configuration value stored under `key`.
pub fn required(key: &str, value: Option<String>) -> (result: Result<String, AgentError>)
    ensures
        text_result_view(result) == required_value(key@, optional_text(value)),
{
    match value {
        Some(text) => Ok(text),
        None => Err(AgentError::ConfigurationMissing(key.to_owned())),
    }
}

} // verus!
