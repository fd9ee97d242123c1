//! A conversational tool-calling engine with a bounded session cache.
//!
//! The engine drives one conversation as a state machine: the caller hands it
//! the model's replies and the tools' outputs, and the engine decides what
//! happens next. Around it stand a tool registry, an in-memory conversation
//! store, a session cache with insertion-order eviction, and token utilities.

pub mod agent;
pub mod config;
pub mod error;
pub mod json;
pub mod keyed;
pub mod models;
pub mod persistence;
pub mod realtime;
pub mod server;
pub mod tools;
pub mod utils;

pub use agent::{Agent, AgentBuilder, AgentState, TurnStep};
pub use config::OpenAIConfig;
pub use error::OpenAIAgentError;
pub use models::{
    ChatChoice, ChatMessage, ChatRequest, ChatResponse, FunctionCall, Message, ToolCall,
    ToolDefinition, ToolSpec, Usage,
};
pub use persistence::{generate_id, ConversationMetadata, EntityId, MemoryStore};
pub use realtime::{RealtimeEvent, ServerEvent};
pub use server::{session_from_store, SessionCache};
pub use tools::ToolRegistry;
pub use utils::{count_tokens, truncate_text_to_tokens};
