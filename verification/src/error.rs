//! The failures that the agents report.

use vstd::prelude::*;

verus! {

/// The way in which generated text departs from the pattern that was required of it.
#[derive(Clone, Copy, Debug, PartialEq, Eq, Structural)]
pub enum Malformation {
    /// The last line does not hold the follow-up marker.
    MissingFollowUpMarker,
    /// What stands behind the last colon of the last line does not end in a question mark.
    MissingQuestionMark,
}

/// A failed call of a capability, with the transport's message.
#[derive(Debug, PartialEq, Eq)]
pub enum CapabilityFailure {
    /// The capability could not be reached.
    Unavailable(String),
    /// The capability was reached and reported a failure.
    Failed(String),
}

/// The model of a failed capability call.
pub enum CapabilityFailureView {
    Unavailable(Seq<char>),
    Failed(Seq<char>),
}

impl View for CapabilityFailure {
    type V = CapabilityFailureView;

    open spec fn view(&self) -> CapabilityFailureView {
        match self {
            CapabilityFailure::Unavailable(message) => CapabilityFailureView::Unavailable(message@),
            CapabilityFailure::Failed(message) => CapabilityFailureView::Failed(message@),
        }
    }
}

/// Every failure that a call of an agent can end in.
#[derive(Debug, PartialEq, Eq)]
pub enum AgentError {
    /// A required configuration value is absent; the payload is its key.
    ConfigurationMissing(String),
    /// A capability could not be reached; the payload is the transport's message.
    CapabilityUnavailable(String),
    /// A capability reported a failure; the payload is the transport's message.
    CapabilityError(String),
    /// Generated text did not match a pattern that was required of it.
    MalformedReasoning(Malformation),
    /// The reasoning asked for more follow-up rounds than the configured cap allows.
    ReasoningDidNotConverge,
}

/// The model of a failure of an agent.
pub enum AgentErrorView {
    ConfigurationMissing(Seq<char>),
    CapabilityUnavailable(Seq<char>),
    CapabilityError(Seq<char>),
    MalformedReasoning(Malformation),
    ReasoningDidNotConverge,
}

impl View for AgentError {
    type V = AgentErrorView;

    open spec fn view(&self) -> AgentErrorView {
        match self {
            AgentError::ConfigurationMissing(key) => AgentErrorView::ConfigurationMissing(key@),
            AgentError::CapabilityUnavailable(message) => AgentErrorView::CapabilityUnavailable(
                message@,
            ),
            AgentError::CapabilityError(message) => AgentErrorView::CapabilityError(message@),
            AgentError::MalformedReasoning(malformation) => AgentErrorView::MalformedReasoning(
                *malformation,
            ),
            AgentError::ReasoningDidNotConverge => AgentErrorView::ReasoningDidNotConverge,
        }
    }
}

impl Clone for CapabilityFailure {
    fn clone(&self) -> (copy: Self)
        ensures
            copy@ == self@,
    {
        match self {
            CapabilityFailure::Unavailable(message) => CapabilityFailure::Unavailable(
                message.clone(),
            ),
            CapabilityFailure::Failed(message) => CapabilityFailure::Failed(message.clone()),
        }
    }
}

impl Clone for AgentError {
    fn clone(&self) -> (copy: Self)
        ensures
            copy@ == self@,
    {
        match self {
            AgentError::ConfigurationMissing(key) => AgentError::ConfigurationMissing(key.clone()),
            AgentError::CapabilityUnavailable(message) => AgentError::CapabilityUnavailable(
                message.clone(),
            ),
            AgentError::CapabilityError(message) => AgentError::CapabilityError(message.clone()),
            AgentError::MalformedReasoning(malformation) => AgentError::MalformedReasoning(
                *malformation,
            ),
            AgentError::ReasoningDidNotConverge => AgentError::ReasoningDidNotConverge,
        }
    }
}

/// The agent-level failure that a failed capability call surfaces as.
pub open spec fn surfaced(failure: CapabilityFailureView) -> AgentErrorView {
    match failure {
        CapabilityFailureView::Unavailable(message) => AgentErrorView::CapabilityUnavailable(
            message,
        ),
        CapabilityFailureView::Failed(message) => AgentErrorView::CapabilityError(message),
    }
}

/// What a failure reads as.
pub open spec fn message_of(error: AgentErrorView) -> Seq<char> {
    match error {
        AgentErrorView::ConfigurationMissing(key) => "Could not find config key '"@ + key + "'"@,
        AgentErrorView::CapabilityUnavailable(message) => "capability unavailable: "@ + message,
        AgentErrorView::CapabilityError(message) => "capability error: "@ + message,
        AgentErrorView::MalformedReasoning(Malformation::MissingFollowUpMarker) =>
            "malformed reasoning: the last line holds no follow-up marker"@,
        AgentErrorView::MalformedReasoning(Malformation::MissingQuestionMark) =>
            "malformed reasoning: the follow-up question does not end in a question mark"@,
        AgentErrorView::ReasoningDidNotConverge =>
            "reasoning did not converge within the allowed follow-up rounds"@,
    }
}

impl AgentError {
    /// The failure in words, for the caller's log or reply.
    pub fn message(&self) -> (text: String)
        ensures
            text@ == message_of(self@),
    {
        match self {
            AgentError::ConfigurationMissing(key) => {
                let mut text = "Could not find config key '".to_owned();
                text.append(key.as_str());
                text.append("'");
                text
            },
            AgentError::CapabilityUnavailable(message) => {
                let mut text = "capability unavailable: ".to_owned();
                text.append(message.as_str());
                text
            },
            AgentError::CapabilityError(message) => {
                let mut text = "capability error: ".to_owned();
                text.append(message.as_str());
                text
            },
            AgentError::MalformedReasoning(Malformation::MissingFollowUpMarker) => {
                "malformed reasoning: the last line holds no follow-up marker".to_owned()
            },
            AgentError::MalformedReasoning(Malformation::MissingQuestionMark) => {
                "malformed reasoning: the follow-up question does not end in a question mark".to_owned()
            },
            AgentError::ReasoningDidNotConverge => {
                "reasoning did not converge within the allowed follow-up rounds".to_owned()
            },
        }
    }

    /// Surfaces a failed capability call, keeping the transport's message.
    pub fn from_failure(failure: CapabilityFailure) -> (error: AgentError)
        ensures
            error@ == surfaced(failure@),
    {
        match failure {
            CapabilityFailure::Unavailable(message) => AgentError::CapabilityUnavailable(message),
            CapabilityFailure::Failed(message) => AgentError::CapabilityError(message),
        }
    }
}

/// The model of a text result that may fail.
pub open spec fn text_result_view(result: Result<String, AgentError>) -> Result<
    Seq<char>,
    AgentErrorView,
> {
    match result {
        Ok(text) => Ok(text@),
        Err(error) => Err(error@),
    }
}

} // verus!
