//! The self-ask controller: a reasoning state machine that alternates between
//! the generator and a search tool. The generator's text decides each move: a
//! last line with the follow-up marker asks for the tool, anything else ends
//! the reasoning. The session's system prompt carries the whole transcript
//! from one call to the next.

pub mod driver;
pub mod laws;
pub mod model;
pub mod session;

pub use driver::{call, replay};
pub use model::{
    Awaiting, SessionView, StepView, DEFAULT_MAX_ITERATIONS, INTERMEDIATE_ANSWER_MARKER,
    SEARCH_TOOL, STOP_AT_LINE_END, STOP_BEFORE_FOLLOW_UP, STOP_BEFORE_INTERMEDIATE_ANSWER,
};
pub use session::{ReasoningSession, SelfAskConfig, Step};
