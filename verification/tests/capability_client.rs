use agent_core::capability::{
    clone_texts, invoke, ActionReply, AgentRequest, CapabilityCall, CapabilityClient,
    DelegateRequest, GenerationRequest, ToolRequest,
};
use agent_core::error::CapabilityFailure;

/// A client that tells in its reply which operation was asked for, and of whom.
struct Echo {
    calls: usize,
}

impl CapabilityClient for Echo {
    fn generate(
        &mut self,
        name: &str,
        request: &GenerationRequest,
    ) -> Result<ActionReply, CapabilityFailure> {
        self.calls += 1;
        Ok(ActionReply { output: format!("generate {} {}", name, request.user_prompt) })
    }

    fn execute(
        &mut self,
        name: &str,
        request: &ToolRequest,
    ) -> Result<ActionReply, CapabilityFailure> {
        self.calls += 1;
        Ok(ActionReply { output: format!("execute {} {}", name, request.input) })
    }

    fn delegate(
        &mut self,
        name: &str,
        request: &DelegateRequest,
    ) -> Result<ActionReply, CapabilityFailure> {
        self.calls += 1;
        Err(CapabilityFailure::Unavailable(format!("delegate {} {}", name, request.input)))
    }
}

fn generation() -> GenerationRequest {
    GenerationRequest {
        caller_name: "agent".to_string(),
        system_prompt: "system".to_string(),
        user_prompt: "user".to_string(),
        stop_sequences: vec!["\n".to_string(), "stop".to_string()],
    }
}

#[test]
fn invoke_makes_the_operation_of_the_call() {
    let mut client = Echo { calls: 0 };
    let call = CapabilityCall::Generate { name: "openai".to_string(), request: generation() };
    assert_eq!(
        invoke(&mut client, &call),
        Ok(ActionReply { output: "generate openai user".to_string() })
    );
    let call = CapabilityCall::Execute {
        name: "google_search".to_string(),
        request: ToolRequest { caller_name: "agent".to_string(), input: "who?".to_string() },
    };
    assert_eq!(
        invoke(&mut client, &call),
        Ok(ActionReply { output: "execute google_search who?".to_string() })
    );
    let call = CapabilityCall::Delegate {
        name: "helper".to_string(),
        request: DelegateRequest { caller_name: "agent".to_string(), input: "do".to_string() },
    };
    assert_eq!(
        invoke(&mut client, &call),
        Err(CapabilityFailure::Unavailable("delegate helper do".to_string()))
    );
    assert_eq!(client.calls, 3);
}

#[test]
fn requests_and_replies_clone_field_by_field() {
    let request = generation();
    assert_eq!(request.clone(), request);
    let request = ToolRequest { caller_name: "agent".to_string(), input: "who?".to_string() };
    assert_eq!(request.clone(), request);
    let request = DelegateRequest { caller_name: "agent".to_string(), input: "do".to_string() };
    assert_eq!(request.clone(), request);
    let request = AgentRequest { name: "agent".to_string(), input: "hello".to_string() };
    assert_eq!(request.clone(), request);
    let reply = ActionReply { output: "hi".to_string() };
    assert_eq!(reply.clone(), reply);
}

#[test]
fn clone_texts_keeps_order_and_content() {
    let texts = vec!["b".to_string(), "".to_string(), "a".to_string()];
    assert_eq!(clone_texts(&texts), texts);
    assert_eq!(clone_texts(&Vec::new()), Vec::<String>::new());
}
