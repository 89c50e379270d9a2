//! Orchestration core for language-model agents. The self-ask agent reasons
//! by alternating between a generation capability and a search tool; the
//! conversation agent answers over a transcript that is kept between calls.
//! Both reach their capabilities through one client, and the decisions of
//! both are functions of the text that comes back.

pub mod capability;
pub mod completion;
pub mod config;
pub mod conversation;
pub mod error;
pub mod search;
pub mod self_ask;
pub mod template;
pub mod text;
