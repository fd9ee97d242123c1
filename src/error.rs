//! The error type shared by every part of the library.

use vstd::prelude::*;
use vstd::string::StringExecFns;

verus! {

/// The categories of failure that the engine, the registry and the stores report.
#[derive(Debug)]
pub enum OpenAIAgentError {
    /// The model endpoint could not be reached or answered with a failure.
    Request(String),
    /// Missing credentials or malformed settings.
    Config(String),
    /// Persisted or wire data could not be encoded or decoded.
    Serialization(String),
    /// A tool was not found or failed while running.
    Tool(String),
    /// The model's output or a tool's arguments were malformed.
    Parse(String),
    /// A protocol, turn-limit or storage-coordination failure.
    Agent(String),
}

/// The human-readable prefix of each error category.
pub open spec fn category_label(e: OpenAIAgentError) -> Seq<char> {
    match e {
        OpenAIAgentError::Request(_) => "Request error: "@,
        OpenAIAgentError::Config(_) => "Configuration error: "@,
        OpenAIAgentError::Serialization(_) => "Serialization error: "@,
        OpenAIAgentError::Tool(_) => "Tool error: "@,
        OpenAIAgentError::Parse(_) => "Parse error: "@,
        OpenAIAgentError::Agent(_) => "Agent error: "@,
    }
}

impl OpenAIAgentError {
    /// The detail text carried by the error.
    pub open spec fn detail(&self) -> Seq<char> {
        match self {
            OpenAIAgentError::Request(s) => s@,
            OpenAIAgentError::Config(s) => s@,
            OpenAIAgentError::Serialization(s) => s@,
            OpenAIAgentError::Tool(s) => s@,
            OpenAIAgentError::Parse(s) => s@,
            OpenAIAgentError::Agent(s) => s@,
        }
    }

    /// Renders the error as its category label followed by its detail.
    pub fn to_message(&self) -> (r: String)
        ensures
            r@ == category_label(*self) + self.detail(),
    {
        let (label, detail) = match self {
            OpenAIAgentError::Request(s) => ("Request error: ", s),
            OpenAIAgentError::Config(s) => ("Configuration error: ", s),
            OpenAIAgentError::Serialization(s) => ("Serialization error: ", s),
            OpenAIAgentError::Tool(s) => ("Tool error: ", s),
            OpenAIAgentError::Parse(s) => ("Parse error: ", s),
            OpenAIAgentError::Agent(s) => ("Agent error: ", s),
        };
        let head = String::from_str(label);
        head.concat(detail.as_str())
    }
}

} // verus!
