use agent_core::completion::{
    authorization, chat_completion, first_choice, ChatCompletion, ChatMessage,
    COMPLETION_ENDPOINT, COMPLETION_MODEL, COMPLETION_TEMPERATURE,
};

#[test]
fn a_completion_carries_both_prompts_and_the_stops() {
    let stops = vec!["\nIntermediate answer:".to_string()];
    assert_eq!(
        chat_completion("the context", "the question", &stops),
        ChatCompletion {
            model: "gpt-3.5-turbo".to_string(),
            temperature: 0,
            stop: stops.clone(),
            messages: vec![
                ChatMessage { role: "system".to_string(), content: "the context".to_string() },
                ChatMessage { role: "user".to_string(), content: "the question".to_string() },
            ],
        }
    );
}

#[test]
fn a_completion_without_stops_has_an_empty_list() {
    let completion = chat_completion("", "", &Vec::new());
    assert!(completion.stop.is_empty());
    assert_eq!(completion.messages.len(), 2);
    assert_eq!(completion.model, COMPLETION_MODEL);
    assert_eq!(completion.temperature, COMPLETION_TEMPERATURE);
}

#[test]
fn the_service_is_addressed_with_a_bearer_key() {
    assert_eq!(COMPLETION_ENDPOINT, "https://api.openai.com/v1/chat/completions");
    assert_eq!(authorization("SECRET"), "Bearer SECRET");
    assert_eq!(authorization(""), "Bearer ");
}

#[test]
fn the_first_choice_is_the_generated_text() {
    let contents = vec!["first".to_string(), "second".to_string()];
    assert_eq!(first_choice(&contents), Some("first".to_string()));
    assert_eq!(first_choice(&vec![String::new()]), Some(String::new()));
    assert_eq!(first_choice(&Vec::new()), None);
}
