//! The engine of an orchestrator that runs a coding agent on a repository,
//! story by story: what a line of the agent's output means, how its activity
//! adds up against the token budget, when the agent is stuck, and what the
//! loop that drives a session does next.
//!
//! The library decides and computes; it starts no process, touches no file
//! and waits for nothing. Whoever uses it does that work and hands the
//! library what came of it.

use vstd::prelude::*;

pub mod browse;
pub mod clock;
pub mod conversation;
pub mod cursor;
pub mod git;
pub mod guardrails;
pub mod ident;
pub mod iteration;
pub mod markdown;
pub mod parser;
pub mod run_loop;
pub mod runner;
pub mod session;
pub mod signals;
pub mod table;
pub mod text;
pub mod types;

pub use conversation::{
    ConversationMessage, MessageRole, PrdConversation, PrdConversationManager,
};
pub use cursor::CursorRunner;
pub use git::{Branch, GitOperations};
pub use guardrails::GuardrailManager;
pub use parser::StreamParser;
pub use run_loop::RunLoop;
pub use session::SessionManager;
pub use signals::SignalHandler;
pub use types::{
    ActivityEntry, ActivityKind, ContextHealth, Guardrail, IterationResult, Prd, RalphError,
    Session, SessionConfig, SessionStatus, Signal, Story, TokenUsage,
};

verus! {

} // verus!
