//! The capability boundary: typed requests, the uniform reply, and the client
//! through which an agent invokes a generator, a tool or another agent by name.

use crate::error::{CapabilityFailure, CapabilityFailureView};
use vstd::prelude::*;

verus! {

/// A copy of `texts`, text by text.
pub fn clone_texts(texts: &Vec<String>) -> (copy: Vec<String>)
    ensures
        copy.deep_view() == texts.deep_view(),
{
    let mut copy: Vec<String> = Vec::new();
    let mut i: usize = 0;
    while i < texts.len()
        invariant
            i <= texts.len(),
            copy.len() == i,
            forall|k: int| 0 <= k < i ==> copy@[k]@ == texts@[k]@,
        decreases texts.len() - i,
    {
        copy.push(texts[i].clone());
        i += 1;
    }
    copy
}

/// One invocation of a language model.
#[derive(Debug, PartialEq, Eq)]
pub struct GenerationRequest {
    /// The identity of the agent that asks.
    pub caller_name: String,
    /// The context that the generator continues from.
    pub system_prompt: String,
    /// The prompt of this turn.
    pub user_prompt: String,
    /// The generator halts before it would emit any of these.
    pub stop_sequences: Vec<String>,
}

/// The model of a generation request: its texts as sequences of characters.
pub struct GenerationRequestView {
    pub caller_name: Seq<char>,
    pub system_prompt: Seq<char>,
    pub user_prompt: Seq<char>,
    pub stop_sequences: Seq<Seq<char>>,
}

impl View for GenerationRequest {
    type V = GenerationRequestView;

    open spec fn view(&self) -> GenerationRequestView {
        GenerationRequestView {
            caller_name: self.caller_name@,
            system_prompt: self.system_prompt@,
            user_prompt: self.user_prompt@,
            stop_sequences: self.stop_sequences.deep_view(),
        }
    }
}

impl Clone for GenerationRequest {
    fn clone(&self) -> (copy: Self)
        ensures
            copy@ == self@,
    {
        GenerationRequest {
            caller_name: self.caller_name.clone(),
            system_prompt: self.system_prompt.clone(),
            user_prompt: self.user_prompt.clone(),
            stop_sequences: clone_texts(&self.stop_sequences),
        }
    }
}

/// One invocation of an external tool.
#[derive(Debug, PartialEq, Eq)]
pub struct ToolRequest {
    /// The identity of the agent that asks.
    pub caller_name: String,
    /// What the tool is asked.
    pub input: String,
}

/// The model of a tool request.
pub struct ToolRequestView {
    pub caller_name: Seq<char>,
    pub input: Seq<char>,
}

impl View for ToolRequest {
    type V = ToolRequestView;

    open spec fn view(&self) -> ToolRequestView {
        ToolRequestView { caller_name: self.caller_name@, input: self.input@ }
    }
}

impl Clone for ToolRequest {
    fn clone(&self) -> (copy: Self)
        ensures
            copy@ == self@,
    {
        ToolRequest { caller_name: self.caller_name.clone(), input: self.input.clone() }
    }
}

/// One invocation of another agent.
#[derive(Debug, PartialEq, Eq)]
pub struct DelegateRequest {
    /// The identity of the agent that asks.
    pub caller_name: String,
    /// What the other agent is asked.
    pub input: String,
}

/// The model of a request to another agent.
pub struct DelegateRequestView {
    pub caller_name: Seq<char>,
    pub input: Seq<char>,
}

impl View for DelegateRequest {
    type V = DelegateRequestView;

    open spec fn view(&self) -> DelegateRequestView {
        DelegateRequestView { caller_name: self.caller_name@, input: self.input@ }
    }
}

impl Clone for DelegateRequest {
    fn clone(&self) -> (copy: Self)
        ensures
            copy@ == self@,
    {
        DelegateRequest { caller_name: self.caller_name.clone(), input: self.input.clone() }
    }
}

/// The reply of every capability.
#[derive(Debug, PartialEq, Eq)]
pub struct ActionReply {
    /// The generated text, the tool's answer or the other agent's answer.
    pub output: String,
}

impl View for ActionReply {
    type V = Seq<char>;

    open spec fn view(&self) -> Seq<char> {
        self.output@
    }
}

impl Clone for ActionReply {
    fn clone(&self) -> (copy: Self)
        ensures
            copy@ == self@,
    {
        ActionReply { output: self.output.clone() }
    }
}

/// The question that an agent is called with.
#[derive(Debug, PartialEq, Eq)]
pub struct AgentRequest {
    /// The name that the agent is addressed by.
    pub name: String,
    /// The caller's input.
    pub input: String,
}

/// The model of the question that an agent is called with.
pub struct AgentRequestView {
    pub name: Seq<char>,
    pub input: Seq<char>,
}

impl View for AgentRequest {
    type V = AgentRequestView;

    open spec fn view(&self) -> AgentRequestView {
        AgentRequestView { name: self.name@, input: self.input@ }
    }
}

impl Clone for AgentRequest {
    fn clone(&self) -> (copy: Self)
        ensures
            copy@ == self@,
    {
        AgentRequest { name: self.name.clone(), input: self.input.clone() }
    }
}

/// What a capability call ended in: the reply's output, or the failure.
pub open spec fn outcome_view(outcome: Result<ActionReply, CapabilityFailure>) -> Result<
    Seq<char>,
    CapabilityFailureView,
> {
    match outcome {
        Ok(reply) => Ok(reply@),
        Err(failure) => Err(failure@),
    }
}

/// A call that an agent wants made: the kind of capability, the name of the
/// target and the typed request.
#[derive(Debug, PartialEq, Eq)]
#[allow(inconsistent_fields)]
pub enum CapabilityCall {
    Generate { name: String, request: GenerationRequest },
    Execute { name: String, request: ToolRequest },
    Delegate { name: String, request: DelegateRequest },
}

/// The model of a call that an agent wants made.
#[allow(inconsistent_fields)]
pub enum CapabilityCallView {
    Generate { name: Seq<char>, request: GenerationRequestView },
    Execute { name: Seq<char>, request: ToolRequestView },
    Delegate { name: Seq<char>, request: DelegateRequestView },
}

impl View for CapabilityCall {
    type V = CapabilityCallView;

    open spec fn view(&self) -> CapabilityCallView {
        match self {
            CapabilityCall::Generate { name, request } => CapabilityCallView::Generate {
                name: name@,
                request: request@,
            },
            CapabilityCall::Execute { name, request } => CapabilityCallView::Execute {
                name: name@,
                request: request@,
            },
            CapabilityCall::Delegate { name, request } => CapabilityCallView::Delegate {
                name: name@,
                request: request@,
            },
        }
    }
}

/// The synchronous client of the three kinds of capability. A call suspends
/// the caller until the reply or the failure is there; retries and timeouts
/// belong to the transport beneath. Nothing is promised of a reply: the
/// controllers are verified for whatever comes back.
pub trait CapabilityClient {
    /// Asks the generator called `name` to continue the prompts of `request`.
    fn generate(&mut self, name: &str, request: &GenerationRequest) -> Result<
        ActionReply,
        CapabilityFailure,
    >;

    /// Asks the tool called `name` for its answer to `request`.
    fn execute(&mut self, name: &str, request: &ToolRequest) -> Result<
        ActionReply,
        CapabilityFailure,
    >;

    /// Asks the agent called `name` for its answer to `request`.
    fn delegate(&mut self, name: &str, request: &DelegateRequest) -> Result<
        ActionReply,
        CapabilityFailure,
    >;
}

/// Makes `call` through `client`: the one operation of its kind, once, with
/// the name and the request of the call, and hands back what the client came
/// back with. The client decides the outcome, so nothing is promised of it.
pub fn invoke<C: CapabilityClient>(client: &mut C, call: &CapabilityCall) -> (outcome: Result<
    ActionReply,
    CapabilityFailure,
>) {
    match call {
        CapabilityCall::Generate { name, request } => client.generate(name.as_str(), request),
        CapabilityCall::Execute { name, request } => client.execute(name.as_str(), request),
        CapabilityCall::Delegate { name, request } => client.delegate(name.as_str(), request),
    }
}

} // verus!
