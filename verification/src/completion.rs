//! The request that the language-model plug-in sends to the chat-completion
//! service, and the part of the service's reply that it hands back.

use crate::capability::clone_texts;
use crate::text::optional_text;
use vstd::prelude::*;

verus! {

/// Where the chat-completion service is reached.
pub const COMPLETION_ENDPOINT: &'static str = "https://api.openai.com/v1/chat/completions";

/// The model that completes the chat.
pub const COMPLETION_MODEL: &'static str = "gpt-3.5-turbo";

/// The sampling temperature: the service is asked for its most likely text.
pub const COMPLETION_TEMPERATURE: u32 = 0;

/// The role of the message that holds the system prompt.
pub const SYSTEM_ROLE: &'static str = "system";

/// The role of the message that holds the user prompt.
pub const USER_ROLE: &'static str = "user";

/// Opens the authorization header in front of the key.
pub const BEARER_PREFIX: &'static str = "Bearer ";

/// One message of a chat.
#[derive(Debug, PartialEq, Eq)]
pub struct ChatMessage {
    pub role: String,
    pub content: String,
}

/// The model of a message of a chat.
pub struct ChatMessageView {
    pub role: Seq<char>,
    pub content: Seq<char>,
}

impl View for ChatMessage {
    type V = ChatMessageView;

    open spec fn view(&self) -> ChatMessageView {
        ChatMessageView { role: self.role@, content: self.content@ }
    }
}

/// What the chat-completion service is asked.
#[derive(Debug, PartialEq, Eq)]
pub struct ChatCompletion {
    pub model: String,
    pub temperature: u32,
    pub stop: Vec<String>,
    pub messages: Vec<ChatMessage>,
}

/// The model of what the chat-completion service is asked.
pub struct ChatCompletionView {
    pub model: Seq<char>,
    pub temperature: nat,
    pub stop: Seq<Seq<char>>,
    pub messages: Seq<ChatMessageView>,
}

impl View for ChatCompletion {
    type V = ChatCompletionView;

    open spec fn view(&self) -> ChatCompletionView {
        ChatCompletionView {
            model: self.model@,
            temperature: self.temperature as nat,
            stop: self.stop.deep_view(),
            messages: Seq::new(self.messages@.len(), |i: int| self.messages@[i]@),
        }
    }
}

/// The completion that answers a generation: the fixed model at temperature
/// zero, the generation's stop sequences, and its two prompts as the system
/// message and the user message, in that order.
pub open spec fn completion_for(
    system_prompt: Seq<char>,
    user_prompt: Seq<char>,
    stop: Seq<Seq<char>>,
) -> ChatCompletionView {
    ChatCompletionView {
        model: COMPLETION_MODEL@,
        temperature: COMPLETION_TEMPERATURE as nat,
        stop,
        messages: seq![
            ChatMessageView { role: SYSTEM_ROLE@, content: system_prompt },
            ChatMessageView { role: USER_ROLE@, content: user_prompt },
        ],
    }
}

/// Builds the completion that answers the generation with these prompts and
/// stop sequences.
pub fn chat_completion(system_prompt: &str, user_prompt: &str, stop: &Vec<String>) -> (completion:
    ChatCompletion)
    ensures
        completion@ == completion_for(system_prompt@, user_prompt@, stop.deep_view()),
{
    let mut messages: Vec<ChatMessage> = Vec::new();
    messages.push(ChatMessage { role: SYSTEM_ROLE.to_owned(), content: system_prompt.to_owned() });
    messages.push(ChatMessage { role: USER_ROLE.to_owned(), content: user_prompt.to_owned() });
    let completion = ChatCompletion {
        model: COMPLETION_MODEL.to_owned(),
        temperature: COMPLETION_TEMPERATURE,
        stop: clone_texts(stop),
        messages,
    };
    assert(completion@.messages =~= completion_for(
        system_prompt@,
        user_prompt@,
        stop.deep_view(),
    ).messages);
    completion
}

/// The value of the authorization header for `api_key`.
pub fn authorization(api_key: &str) -> (header: String)
    ensures
        header@ == BEARER_PREFIX@ + api_key@,
{
    let mut header = BEARER_PREFIX.to_owned();
    header.append(api_key);
    header
}

/// The text that a completion hands back: the content of its first choice.
pub open spec fn first_choice_of(contents: Seq<Seq<char>>) -> Option<Seq<char>> {
    if contents.len() > 0 {
        Some(contents[0])
    } else {
        None
    }
}

/// Picks the generated text out of the contents of a completion's choices.
/// A completion without a choice has none.
pub fn first_choice(contents: &Vec<String>) -> (text: Option<String>)
    ensures
        optional_text(text) == first_choice_of(contents.deep_view()),
{
    if contents.len() > 0 {
        Some(contents[0].clone())
    } else {
        None
    }
}

} // verus!
