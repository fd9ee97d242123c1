//! The conversation data model: messages, tool calls, requests and replies.

use vstd::prelude::*;
use vstd::string::StringExecFns;

verus! {

/// Copies an optional string; the copy equals its source.
pub fn copy_opt_string(s: &Option<String>) -> (r: Option<String>)
    ensures
        r == *s,
{
    match s {
        Some(v) => Some(v.clone()),
        None => None,
    }
}

/// Function data within a tool call: the function's name and its JSON arguments.
#[derive(Debug, Default)]
pub struct FunctionCall {
    /// Name of the function to call.
    pub name: String,
    /// Arguments for the function, as JSON text.
    pub arguments: String,
}

impl FunctionCall {
    /// A copy equal to `self`.
    pub fn duplicate(&self) -> (r: FunctionCall)
        ensures
            r == *self,
    {
        FunctionCall { name: self.name.clone(), arguments: self.arguments.clone() }
    }
}

/// A request from the model to call a tool.
#[derive(Debug)]
pub struct ToolCall {
    /// Identifier of this call, echoed by the tool's result message.
    pub id: String,
    /// Type of the call (always "function").
    pub call_type: String,
    /// The function to call, in the current wire format.
    pub function: FunctionCall,
    /// Name of the tool in the older wire format.
    pub name: Option<String>,
    /// Arguments in the older wire format.
    pub arguments: Option<String>,
}

impl ToolCall {
    /// The tool's name in whichever format the call carries it.
    pub open spec fn spec_name(&self) -> Seq<char> {
        match self.name {
            Some(n) => n@,
            None => self.function.name@,
        }
    }

    /// The arguments in whichever format the call carries them.
    pub open spec fn spec_arguments(&self) -> Seq<char> {
        match self.arguments {
            Some(a) => a@,
            None => self.function.arguments@,
        }
    }

    /// Returns the tool's name, preferring the older format's field when present.
    pub fn get_name(&self) -> (r: String)
        ensures
            r@ == self.spec_name(),
    {
        match &self.name {
            Some(n) => n.clone(),
            None => self.function.name.clone(),
        }
    }

    /// Returns the arguments, preferring the older format's field when present.
    pub fn get_arguments(&self) -> (r: String)
        ensures
            r@ == self.spec_arguments(),
    {
        match &self.arguments {
            Some(a) => a.clone(),
            None => self.function.arguments.clone(),
        }
    }

    /// A copy equal to `self`.
    pub fn duplicate(&self) -> (r: ToolCall)
        ensures
            r == *self,
    {
        ToolCall {
            id: self.id.clone(),
            call_type: self.call_type.clone(),
            function: self.function.duplicate(),
            name: copy_opt_string(&self.name),
            arguments: copy_opt_string(&self.arguments),
        }
    }
}

/// Copies a list of tool calls element by element.
pub fn copy_tool_calls(v: &Vec<ToolCall>) -> (r: Vec<ToolCall>)
    ensures
        r@ == v@,
{
    let mut r: Vec<ToolCall> = Vec::new();
    let mut i: usize = 0;
    while i < v.len()
        invariant
            i <= v@.len(),
            r@ == v@.subrange(0, i as int),
        decreases v@.len() - i,
    {
        r.push(v[i].duplicate());
        i = i + 1;
    }
    assert(v@.subrange(0, v@.len() as int) =~= v@);
    r
}

/// What a message is, independent of how its lists are stored.
pub struct MessageView {
    pub role: Seq<char>,
    pub content: Option<Seq<char>>,
    pub name: Option<Seq<char>>,
    pub tool_call_id: Option<Seq<char>>,
    pub tool_calls: Option<Seq<ToolCall>>,
}

/// The view of an optional string.
pub open spec fn opt_view(s: Option<String>) -> Option<Seq<char>> {
    match s {
        Some(v) => Some(v@),
        None => None,
    }
}

/// A message in a conversation: system, user, assistant or tool.
#[derive(Debug)]
pub struct ChatMessage {
    /// Role of the sender: "system", "user", "assistant" or "tool".
    pub role: String,
    /// Content of the message; absent when the message only calls tools.
    pub content: Option<String>,
    /// Name of the speaker, such as the tool that produced a result.
    pub name: Option<String>,
    /// For a tool result, the id of the call it answers.
    pub tool_call_id: Option<String>,
    /// The tools that an assistant message asks to run.
    pub tool_calls: Option<Vec<ToolCall>>,
}

impl View for ChatMessage {
    type V = MessageView;

    open spec fn view(&self) -> MessageView {
        MessageView {
            role: self.role@,
            content: opt_view(self.content),
            name: opt_view(self.name),
            tool_call_id: opt_view(self.tool_call_id),
            tool_calls: match self.tool_calls {
                Some(v) => Some(v@),
                None => None,
            },
        }
    }
}

/// The view of a message with the given role and content and nothing else.
pub open spec fn plain_message(role: Seq<char>, content: Seq<char>) -> MessageView {
    MessageView {
        role: role,
        content: Some(content),
        name: None,
        tool_call_id: None,
        tool_calls: None,
    }
}

/// The view of a tool's result message.
pub open spec fn tool_result_message(
    content: Seq<char>,
    tool_name: Seq<char>,
    tool_call_id: Seq<char>,
) -> MessageView {
    MessageView {
        role: "tool"@,
        content: Some(content),
        name: Some(tool_name),
        tool_call_id: Some(tool_call_id),
        tool_calls: None,
    }
}

impl ChatMessage {
    /// Creates a system message.
    pub fn system(content: String) -> (r: ChatMessage)
        ensures
            r@ == plain_message("system"@, content@),
    {
        ChatMessage {
            role: String::from_str("system"),
            content: Some(content),
            name: None,
            tool_call_id: None,
            tool_calls: None,
        }
    }

    /// Creates a user message.
    pub fn user(content: String) -> (r: ChatMessage)
        ensures
            r@ == plain_message("user"@, content@),
    {
        ChatMessage {
            role: String::from_str("user"),
            content: Some(content),
            name: None,
            tool_call_id: None,
            tool_calls: None,
        }
    }

    /// Creates an assistant message.
    pub fn assistant(content: String) -> (r: ChatMessage)
        ensures
            r@ == plain_message("assistant"@, content@),
    {
        ChatMessage {
            role: String::from_str("assistant"),
            content: Some(content),
            name: None,
            tool_call_id: None,
            tool_calls: None,
        }
    }

    /// Creates the message that records a tool's result for the call `tool_call_id`.
    pub fn tool_result(content: String, tool_name: String, tool_call_id: String) -> (r:
        ChatMessage)
        ensures
            r@ == tool_result_message(content@, tool_name@, tool_call_id@),
    {
        ChatMessage {
            role: String::from_str("tool"),
            content: Some(content),
            name: Some(tool_name),
            tool_call_id: Some(tool_call_id),
            tool_calls: None,
        }
    }

    /// A copy with the same view as `self`.
    pub fn duplicate(&self) -> (r: ChatMessage)
        ensures
            r@ == self@,
    {
        let tool_calls = match &self.tool_calls {
            Some(v) => Some(copy_tool_calls(v)),
            None => None,
        };
        ChatMessage {
            role: self.role.clone(),
            content: copy_opt_string(&self.content),
            name: copy_opt_string(&self.name),
            tool_call_id: copy_opt_string(&self.tool_call_id),
            tool_calls: tool_calls,
        }
    }
}

/// The views of a sequence of messages.
pub open spec fn message_views(s: Seq<ChatMessage>) -> Seq<MessageView> {
    s.map_values(|m: ChatMessage| m@)
}

/// Copies a list of messages, keeping each message's view.
pub fn copy_messages(v: &Vec<ChatMessage>) -> (r: Vec<ChatMessage>)
    ensures
        message_views(r@) == message_views(v@),
{
    let mut r: Vec<ChatMessage> = Vec::new();
    let mut i: usize = 0;
    while i < v.len()
        invariant
            i <= v@.len(),
            r@.len() == i,
            forall|j: int| 0 <= j < i ==> r@[j]@ == v@[j]@,
        decreases v@.len() - i,
    {
        r.push(v[i].duplicate());
        i = i + 1;
    }
    assert(message_views(r@) =~= message_views(v@));
    r
}

/// A message as exposed to users who only need its role and content.
#[derive(Debug)]
pub struct Message {
    inner: ChatMessage,
}

impl View for Message {
    type V = MessageView;

    closed spec fn view(&self) -> MessageView {
        self.inner@
    }
}

impl Message {
    /// Creates a system message.
    pub fn system(content: String) -> (r: Message)
        ensures
            r@ == plain_message("system"@, content@),
    {
        Message { inner: ChatMessage::system(content) }
    }

    /// Creates a user message.
    pub fn user(content: String) -> (r: Message)
        ensures
            r@ == plain_message("user"@, content@),
    {
        Message { inner: ChatMessage::user(content) }
    }

    /// Creates an assistant message.
    pub fn assistant(content: String) -> (r: Message)
        ensures
            r@ == plain_message("assistant"@, content@),
    {
        Message { inner: ChatMessage::assistant(content) }
    }

    /// The role of this message.
    pub fn role(&self) -> (r: &str)
        ensures
            r@ == self@.role,
    {
        self.inner.role.as_str()
    }

    /// The content of this message, if any.
    pub fn content(&self) -> (r: Option<&str>)
        ensures
            r matches Some(c) ==> self@.content == Some(c@),
            r is None ==> self@.content is None,
    {
        match &self.inner.content {
            Some(c) => Some(c.as_str()),
            None => None,
        }
    }

    /// The full message underneath.
    pub fn as_chat_message(&self) -> (r: &ChatMessage)
        ensures
            r@ == self@,
    {
        &self.inner
    }
}

/// Metadata for a tool that the model can call.
#[derive(Debug)]
pub struct ToolDefinition {
    /// Name of the tool, unique within a registry.
    pub name: String,
    /// What the tool does.
    pub description: String,
    /// The JSON Schema of the tool's parameters, as JSON text.
    pub parameters: String,
    /// Whether the schema is enforced strictly.
    pub strict: Option<bool>,
}

impl ToolDefinition {
    /// A copy equal to `self`.
    pub fn duplicate(&self) -> (r: ToolDefinition)
        ensures
            r == *self,
    {
        ToolDefinition {
            name: self.name.clone(),
            description: self.description.clone(),
            parameters: self.parameters.clone(),
            strict: self.strict,
        }
    }
}

/// A tool as the request lists it: a type tag around its definition.
#[derive(Debug)]
pub struct ToolSpec {
    /// Type of the tool (always "function").
    pub tool_type: String,
    /// The tool's definition.
    pub function: ToolDefinition,
}

/// A request to the chat completions endpoint.
#[derive(Debug)]
pub struct ChatRequest {
    /// Model identifier.
    pub model: String,
    /// The conversation so far.
    pub messages: Vec<ChatMessage>,
    /// The tools the model may call; absent when none are registered.
    pub tools: Option<Vec<ToolSpec>>,
    /// Maximum number of tokens to generate.
    pub max_tokens: Option<usize>,
    /// Sampling temperature, in thousandths.
    pub temperature_milli: Option<u32>,
    /// Whether to stream the response.
    pub stream: Option<bool>,
}

/// One completion choice in a reply.
#[derive(Debug)]
pub struct ChatChoice {
    /// Index of this choice.
    pub index: usize,
    /// The message the model produced.
    pub message: ChatMessage,
    /// Tool calls given at the choice level.
    pub tool_calls: Vec<ToolCall>,
    /// Why the model stopped generating.
    pub finish_reason: String,
}

/// Token usage reported for one request.
#[derive(Debug, Clone, Copy, PartialEq, Eq)]
pub struct Usage {
    /// Tokens in the prompt.
    pub prompt_tokens: usize,
    /// Tokens in the completion.
    pub completion_tokens: usize,
    /// Tokens in total.
    pub total_tokens: usize,
}

/// A reply from the chat completions endpoint.
#[derive(Debug)]
pub struct ChatResponse {
    /// Identifier of the completion.
    pub id: String,
    /// Object type.
    pub object: String,
    /// Creation time, in seconds since the epoch.
    pub created: u64,
    /// Model that produced the completion.
    pub model: String,
    /// The completion choices.
    pub choices: Vec<ChatChoice>,
    /// Token usage, if reported.
    pub usage: Option<Usage>,
}

} // verus!
