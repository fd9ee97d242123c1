//! The conversational engine: a turn-loop state machine over one conversation.
//!
//! The engine performs no I/O. A driver calls `begin_run` with the caller's
//! input, then repeatedly asks `next_request` for the request to send, hands
//! the model's reply to `handle_response`, and, when the reply asks for tools,
//! resolves each call with `prepare_tool_call`, runs the tool and hands its
//! output to `record_tool_result`.

use crate::config::OpenAIConfig;
use crate::error::OpenAIAgentError;
use crate::json::{is_json, parse_json};
use crate::models::{
    copy_messages, copy_tool_calls, message_views, plain_message, tool_result_message,
    ChatMessage, ChatRequest, ChatResponse, ToolCall,
};
use crate::persistence::generate_id;
use crate::tools::ToolRegistry;
use vstd::prelude::*;
use vstd::string::StringExecFns;

verus! {

/// Turns a run may take when no bound is configured.
pub const DEFAULT_MAX_TURNS: usize = 10;

/// The conversation transcript and the running token count.
#[derive(Debug)]
pub struct AgentState {
    /// The messages exchanged so far, oldest first.
    pub messages: Vec<ChatMessage>,
    /// Tokens used so far, as reported by the model endpoint.
    pub token_count: usize,
}

/// `later` continues `earlier`: the transcript only grew and the count only rose.
pub open spec fn extends(earlier: AgentState, later: AgentState) -> bool {
    &&& earlier.messages@.is_prefix_of(later.messages@)
    &&& earlier.token_count <= later.token_count
}

/// Two states hold the same messages and the same token count.
pub open spec fn same_state(a: AgentState, b: AgentState) -> bool {
    &&& message_views(a.messages@) == message_views(b.messages@)
    &&& a.token_count == b.token_count
}

impl AgentState {
    /// An empty conversation.
    pub fn new() -> (r: AgentState)
        ensures
            r.messages@.len() == 0,
            r.token_count == 0,
    {
        AgentState { messages: Vec::new(), token_count: 0 }
    }

    /// Tokens used so far.
    pub fn token_count(&self) -> (r: usize)
        ensures
            r == self.token_count,
    {
        self.token_count
    }

    /// Number of messages in the transcript.
    pub fn message_count(&self) -> (r: usize)
        ensures
            r == self.messages@.len(),
    {
        self.messages.len()
    }

    /// The messages of the transcript, oldest first.
    pub fn messages(&self) -> (r: &[ChatMessage])
        ensures
            r@ == self.messages@,
    {
        self.messages.as_slice()
    }

    /// A copy with the same messages and token count.
    pub fn duplicate(&self) -> (r: AgentState)
        ensures
            same_state(r, *self),
    {
        AgentState { messages: copy_messages(&self.messages), token_count: self.token_count }
    }
}

/// What the driver does after a reply has been handled.
#[derive(Debug)]
pub enum TurnStep {
    /// The run is over; this is the final answer.
    Done(String),
    /// Run these tool calls, record each result, then ask for the next request.
    CallTools(Vec<ToolCall>),
    /// Ask for the next request without running anything.
    Continue,
}

/// Whether `c` has the Unicode White_Space property, which is what
/// `char::is_whitespace` and `str::trim` go by.
pub open spec fn white_space(c: char) -> bool {
    ('\u{9}' <= c && c <= '\u{d}') || c == ' ' || c == '\u{85}' || c == '\u{a0}' || c
        == '\u{1680}' || ('\u{2000}' <= c && c <= '\u{200a}') || c == '\u{2028}' || c
        == '\u{2029}' || c == '\u{202f}' || c == '\u{205f}' || c == '\u{3000}'
}

/// Whether the text is empty once surrounding white space is trimmed.
pub open spec fn blank(s: Seq<char>) -> bool {
    forall|i: int| 0 <= i < s.len() ==> white_space(s[i])
}

/// Tests one character for the White_Space property.
pub fn is_white_space(c: char) -> (r: bool)
    ensures
        r == white_space(c),
{
    ('\u{9}' <= c && c <= '\u{d}') || c == ' ' || c == '\u{85}' || c == '\u{a0}' || c
        == '\u{1680}' || ('\u{2000}' <= c && c <= '\u{200a}') || c == '\u{2028}' || c
        == '\u{2029}' || c == '\u{202f}' || c == '\u{205f}' || c == '\u{3000}'
}

/// Whether the text is empty once surrounding white space is trimmed.
pub fn is_blank(s: &str) -> (r: bool)
    ensures
        r == blank(s@),
{
    let mut all: bool = true;
    for c in it: s.chars()
        invariant
            it.seq() == s@,
            all == (forall|j: int| 0 <= j < it.index() ==> white_space(it.seq()[j])),
    {
        if !is_white_space(c) {
            all = false;
        }
    }
    all
}

/// The step that a reply's chosen message calls for, given why the model stopped.
pub open spec fn reply_step_ok(message: ChatMessage, finish_reason: Seq<char>, r: Result<
    TurnStep,
    OpenAIAgentError,
>) -> bool {
    if message.tool_calls is Some && message.tool_calls->Some_0@.len() > 0 {
        r matches Ok(TurnStep::CallTools(v)) && v@ == message.tool_calls->Some_0@
    } else if message.content is Some && !blank(message.content->Some_0@) {
        r matches Ok(TurnStep::Done(d)) && d@ == message.content->Some_0@
    } else if finish_reason == "tool_calls"@ {
        r matches Ok(TurnStep::Continue)
    } else {
        r matches Err(OpenAIAgentError::Parse(m)) && m@
            == "Assistant returned empty message with finish_reason: "@ + finish_reason
    }
}

/// Decides what a reply's chosen message calls for: the tools it asks for, its
/// non-blank content as the final answer, another request when the model said
/// tool calls are coming, or else a `Parse` error.
pub fn classify_reply(message: &ChatMessage, finish_reason: &String) -> (r: Result<
    TurnStep,
    OpenAIAgentError,
>)
    ensures
        reply_step_ok(*message, finish_reason@, r),
{
    if let Some(calls) = &message.tool_calls {
        if calls.len() > 0 {
            return Ok(TurnStep::CallTools(copy_tool_calls(calls)));
        }
    }
    if let Some(c) = &message.content {
        if !is_blank(c.as_str()) {
            return Ok(TurnStep::Done(c.clone()));
        }
    }
    let tool_calls_reason = String::from_str("tool_calls");
    if *finish_reason == tool_calls_reason {
        return Ok(TurnStep::Continue);
    }
    let head = String::from_str("Assistant returned empty message with finish_reason: ");
    Err(OpenAIAgentError::Parse(head.concat(finish_reason.as_str())))
}

/// The token count after adding a reply's reported usage; it saturates at the
/// largest `usize` instead of wrapping.
pub open spec fn add_usage(count: usize, usage: Option<crate::models::Usage>) -> usize {
    match usage {
        Some(u) => if count + u.total_tokens <= usize::MAX {
            (count + u.total_tokens) as usize
        } else {
            usize::MAX
        },
        None => count,
    }
}

/// The decimal digit character for `d`, which is below ten.
pub open spec fn digit_char(d: nat) -> char {
    if d == 0 {
        '0'
    } else if d == 1 {
        '1'
    } else if d == 2 {
        '2'
    } else if d == 3 {
        '3'
    } else if d == 4 {
        '4'
    } else if d == 5 {
        '5'
    } else if d == 6 {
        '6'
    } else if d == 7 {
        '7'
    } else if d == 8 {
        '8'
    } else {
        '9'
    }
}

/// The decimal rendering of `n`, without leading zeros.
pub open spec fn decimal(n: nat) -> Seq<char>
    decreases n,
{
    if n < 10 {
        seq![digit_char(n)]
    } else {
        decimal(n / 10) + seq![digit_char(n % 10)]
    }
}

/// The one-character text of the digit `d`.
fn digit_text(d: usize) -> (r: &'static str)
    requires
        d < 10,
    ensures
        r@ == seq![digit_char(d as nat)],
{
    proof {
        reveal_strlit("0");
        reveal_strlit("1");
        reveal_strlit("2");
        reveal_strlit("3");
        reveal_strlit("4");
        reveal_strlit("5");
        reveal_strlit("6");
        reveal_strlit("7");
        reveal_strlit("8");
        reveal_strlit("9");
    }
    let r = if d == 0 {
        "0"
    } else if d == 1 {
        "1"
    } else if d == 2 {
        "2"
    } else if d == 3 {
        "3"
    } else if d == 4 {
        "4"
    } else if d == 5 {
        "5"
    } else if d == 6 {
        "6"
    } else if d == 7 {
        "7"
    } else if d == 8 {
        "8"
    } else {
        "9"
    };
    assert(r@ =~= seq![digit_char(d as nat)]);
    r
}

/// Appends the decimal rendering of `n` to `s`.
pub fn push_decimal(s: &mut String, n: usize)
    ensures
        final(s)@ == old(s)@ + decimal(n as nat),
    decreases n,
{
    if n >= 10 {
        push_decimal(s, n / 10);
    }
    s.append(digit_text(n % 10));
    proof {
        if n >= 10 {
            assert(final(s)@ =~= old(s)@ + decimal(n as nat));
        } else {
            assert(final(s)@ =~= old(s)@ + decimal(n as nat));
        }
    }
}

/// The error text for a run that used all `max_turns` turns.
pub open spec fn max_turns_message(max_turns: nat) -> Seq<char> {
    "Agent exceeded maximum turns ("@ + decimal(max_turns) + ")"@
}

/// A conversation engine with tools of type `T`.
pub struct Agent<T> {
    config: OpenAIConfig,
    tools: ToolRegistry<T>,
    state: AgentState,
    max_turns: usize,
    id: String,
    turns: usize,
    run_start: usize,
}

impl<T> Agent<T> {
    /// The engine's settings.
    pub closed spec fn spec_config(&self) -> OpenAIConfig {
        self.config
    }

    /// The engine's tools.
    pub closed spec fn spec_tools(&self) -> ToolRegistry<T> {
        self.tools
    }

    /// The transcript and token count.
    pub closed spec fn spec_state(&self) -> AgentState {
        self.state
    }

    /// The bound on requests per run.
    pub closed spec fn spec_max_turns(&self) -> nat {
        self.max_turns as nat
    }

    /// Requests sent in the current run.
    pub closed spec fn spec_turns(&self) -> nat {
        self.turns as nat
    }

    /// Number of messages the transcript held when the current run began.
    pub closed spec fn spec_run_start(&self) -> nat {
        self.run_start as nat
    }

    /// The session identifier.
    pub closed spec fn spec_id(&self) -> Seq<char> {
        self.id@
    }

    /// The engine is well formed: its registry has unique names and the current
    /// run began within the transcript.
    pub closed spec fn wf(&self) -> bool {
        &&& self.tools.wf()
        &&& self.run_start <= self.state.messages@.len()
    }

    /// Everything but the transcript, the token count and the turn counter is as before.
    pub open spec fn same_setup(&self, other: &Agent<T>) -> bool {
        &&& self.spec_config() == other.spec_config()
        &&& self.spec_tools() == other.spec_tools()
        &&& self.spec_max_turns() == other.spec_max_turns()
        &&& self.spec_id() == other.spec_id()
    }

    /// `req` is the snapshot of this engine that is sent to the model endpoint.
    pub open spec fn request_of(&self, req: ChatRequest) -> bool {
        &&& message_views(req.messages@) == message_views(self.spec_state().messages@)
        &&& req.model@ == self.spec_config().model@
        &&& req.max_tokens == Some(self.spec_config().max_tokens)
        &&& req.temperature_milli == Some(self.spec_config().temperature_milli)
        &&& req.stream == Some(self.spec_config().stream)
        &&& (req.tools is None <==> self.spec_tools().spec_len() == 0)
        &&& (req.tools matches Some(v) ==> {
            &&& v@.len() == self.spec_tools().spec_len()
            &&& forall|i: int|
                0 <= i < v@.len() ==> v@[i].tool_type@ == "function"@ && v@[i].function
                    == self.spec_tools().spec_definitions()[i]
        })
    }

    /// Builds an engine from its parts; the transcript starts as `messages`
    /// and the token count at zero.
    pub(crate) fn from_parts(
        config: OpenAIConfig,
        tools: ToolRegistry<T>,
        messages: Vec<ChatMessage>,
        max_turns: usize,
        id: String,
    ) -> (r: Agent<T>)
        requires
            tools.wf(),
        ensures
            r.wf(),
            r.spec_config() == config,
            r.spec_tools() == tools,
            r.spec_state().messages@ == messages@,
            r.spec_state().token_count == 0,
            r.spec_max_turns() == max_turns,
            r.spec_id() == id@,
            r.spec_turns() == 0,
    {
        Agent {
            config,
            tools,
            state: AgentState { messages, token_count: 0 },
            max_turns,
            id,
            turns: 0,
            run_start: 0,
        }
    }

    /// Starts a run: appends the caller's input as a user message and resets the
    /// turn counter.
    pub fn begin_run(&mut self, input: String)
        requires
            old(self).wf(),
        ensures
            extends(old(self).spec_state(), final(self).spec_state()),
            final(self).wf(),
            final(self).same_setup(old(self)),
            final(self).spec_state().messages@.drop_last() == old(self).spec_state().messages@,
            final(self).spec_state().messages@.len() == old(self).spec_state().messages@.len()
                + 1,
            final(self).spec_state().messages@.last()@ == plain_message("user"@, input@),
            final(self).spec_state().token_count == old(self).spec_state().token_count,
            final(self).spec_turns() == 0,
            final(self).spec_run_start() == old(self).spec_state().messages@.len(),
    {
        self.run_start = self.state.messages.len();
        self.state.messages.push(ChatMessage::user(input));
        self.turns = 0;
    }

    /// The request for the current transcript: every message, the tool
    /// definitions when any tool is registered, and the generation settings.
    pub fn prepare_request(&self) -> (r: ChatRequest)
        requires
            self.wf(),
        ensures
            self.request_of(r),
    {
        let tools = if self.tools.is_empty() {
            None
        } else {
            Some(self.tools.definitions())
        };
        ChatRequest {
            model: self.config.model.clone(),
            messages: copy_messages(&self.state.messages),
            tools,
            max_tokens: Some(self.config.max_tokens),
            temperature_milli: Some(self.config.temperature_milli),
            stream: Some(self.config.stream),
        }
    }

    /// Counts a turn and returns the request to send, or fails with an `Agent`
    /// error once the run has used all its turns.
    pub fn next_request(&mut self) -> (r: Result<ChatRequest, OpenAIAgentError>)
        requires
            old(self).wf(),
        ensures
            extends(old(self).spec_state(), final(self).spec_state()),
            final(self).wf(),
            final(self).same_setup(old(self)),
            final(self).spec_state() == old(self).spec_state(),
            final(self).spec_run_start() == old(self).spec_run_start(),
            old(self).spec_turns() >= old(self).spec_max_turns() <==> r is Err,
            r matches Err(e) ==> (e matches OpenAIAgentError::Agent(m) && m@ == max_turns_message(
                old(self).spec_max_turns(),
            )),
            r is Err ==> final(self).spec_turns() == old(self).spec_turns(),
            r matches Ok(req) ==> final(self).spec_turns() == old(self).spec_turns() + 1
                && final(self).request_of(req),
    {
        if self.turns >= self.max_turns {
            let mut msg = String::from_str("Agent exceeded maximum turns (");
            push_decimal(&mut msg, self.max_turns);
            msg.append(")");
            return Err(OpenAIAgentError::Agent(msg));
        }
        self.turns = self.turns + 1;
        Ok(self.prepare_request())
    }

    /// Takes in the model's reply: adds its reported usage to the token count,
    /// appends the first choice's message to the transcript and says what comes
    /// next. A reply without choices fails with a `Parse` error and leaves the
    /// transcript as it was.
    pub fn handle_response(&mut self, response: ChatResponse) -> (r: Result<
        TurnStep,
        OpenAIAgentError,
    >)
        requires
            old(self).wf(),
        ensures
            extends(old(self).spec_state(), final(self).spec_state()),
            final(self).wf(),
            final(self).same_setup(old(self)),
            final(self).spec_turns() == old(self).spec_turns(),
            final(self).spec_run_start() == old(self).spec_run_start(),
            final(self).spec_state().token_count == add_usage(
                old(self).spec_state().token_count,
                response.usage,
            ),
            response.choices@.len() == 0 ==> final(self).spec_state().messages@ == old(
                self,
            ).spec_state().messages@ && (r matches Err(OpenAIAgentError::Parse(m)) && m@
                == "No response choices received"@),
            response.choices@.len() > 0 ==> final(self).spec_state().messages@ == old(
                self,
            ).spec_state().messages@.push(response.choices@[0].message) && reply_step_ok(
                response.choices@[0].message,
                response.choices@[0].finish_reason@,
                r,
            ),
    {
        if let Some(usage) = response.usage {
            self.state.token_count = self.state.token_count.saturating_add(usage.total_tokens);
        }
        let mut choices = response.choices;
        if choices.len() == 0 {
            return Err(OpenAIAgentError::Parse(String::from_str("No response choices received")));
        }
        let choice = choices.remove(0);
        let step = classify_reply(&choice.message, &choice.finish_reason);
        self.state.messages.push(choice.message);
        step
    }

    /// Resolves a tool call before it runs: finds the tool named by the call and
    /// decodes its arguments. An unknown name fails with a `Tool` error and
    /// arguments that are not JSON with a `Parse` error; nothing is appended.
    pub fn prepare_tool_call(&self, call: &ToolCall) -> (r: Result<
        (&T, serde_json::Value),
        OpenAIAgentError,
    >)
        requires
            self.wf(),
        ensures
            self.spec_tools().spec_get(call.function.name@) is None ==> (r matches Err(
                OpenAIAgentError::Tool(m),
            ) && m@ == "Tool not found: "@ + call.function.name@),
            self.spec_tools().spec_get(call.function.name@) matches Some(t) ==> {
                &&& is_json(call.function.arguments@) ==> (r matches Ok((u, _)) && *u == t)
                &&& !is_json(call.function.arguments@) ==> r matches Err(
                    OpenAIAgentError::Parse(_),
                )
            },
    {
        let tool = match self.tools.get(call.function.name.as_str()) {
            Some(t) => t,
            None => {
                let head = String::from_str("Tool not found: ");
                return Err(OpenAIAgentError::Tool(head.concat(call.function.name.as_str())));
            },
        };
        match parse_json(call.function.arguments.as_str()) {
            Ok(args) => Ok((tool, args)),
            Err(e) => {
                let head = String::from_str("Failed to parse tool arguments: ");
                Err(OpenAIAgentError::Parse(head.concat(e.as_str())))
            },
        }
    }

    /// Appends the message that records `output` as the result of `call`.
    pub fn record_tool_result(&mut self, call: &ToolCall, output: String)
        requires
            old(self).wf(),
        ensures
            extends(old(self).spec_state(), final(self).spec_state()),
            final(self).wf(),
            final(self).same_setup(old(self)),
            final(self).spec_turns() == old(self).spec_turns(),
            final(self).spec_run_start() == old(self).spec_run_start(),
            final(self).spec_state().token_count == old(self).spec_state().token_count,
            final(self).spec_state().messages@.drop_last() == old(self).spec_state().messages@,
            final(self).spec_state().messages@.len() == old(self).spec_state().messages@.len()
                + 1,
            final(self).spec_state().messages@.last()@ == tool_result_message(
                output@,
                call.function.name@,
                call.id@,
            ),
    {
        let msg = ChatMessage::tool_result(output, call.function.name.clone(), call.id.clone());
        self.state.messages.push(msg);
    }

    /// The transcript and token count.
    pub fn state(&self) -> (r: &AgentState)
        ensures
            *r == self.spec_state(),
    {
        &self.state
    }

    /// Replaces the transcript and token count, as when loading a stored session.
    pub fn restore_state(&mut self, state: AgentState)
        requires
            old(self).wf(),
        ensures
            final(self).wf(),
            final(self).same_setup(old(self)),
            final(self).spec_state() == state,
    {
        self.state = state;
        self.run_start = 0;
    }

    /// Appends a user message to the transcript.
    pub fn push_user_message(&mut self, content: String)
        requires
            old(self).wf(),
        ensures
            extends(old(self).spec_state(), final(self).spec_state()),
            final(self).wf(),
            final(self).same_setup(old(self)),
            final(self).spec_state().token_count == old(self).spec_state().token_count,
            final(self).spec_state().messages@.drop_last() == old(self).spec_state().messages@,
            final(self).spec_state().messages@.len() == old(self).spec_state().messages@.len()
                + 1,
            final(self).spec_state().messages@.last()@ == plain_message("user"@, content@),
    {
        self.state.messages.push(ChatMessage::user(content));
    }

    /// Appends an assistant message to the transcript.
    pub fn push_assistant_message(&mut self, content: String)
        requires
            old(self).wf(),
        ensures
            extends(old(self).spec_state(), final(self).spec_state()),
            final(self).wf(),
            final(self).same_setup(old(self)),
            final(self).spec_state().token_count == old(self).spec_state().token_count,
            final(self).spec_state().messages@.drop_last() == old(self).spec_state().messages@,
            final(self).spec_state().messages@.len() == old(self).spec_state().messages@.len()
                + 1,
            final(self).spec_state().messages@.last()@ == plain_message("assistant"@, content@),
    {
        self.state.messages.push(ChatMessage::assistant(content));
    }

    /// The session identifier.
    pub fn id(&self) -> (r: &str)
        ensures
            r@ == self.spec_id(),
    {
        self.id.as_str()
    }

    /// The engine's settings.
    pub fn config(&self) -> (r: &OpenAIConfig)
        ensures
            *r == self.spec_config(),
    {
        &self.config
    }

    /// The engine's tools.
    pub fn tools(&self) -> (r: &ToolRegistry<T>)
        ensures
            *r == self.spec_tools(),
    {
        &self.tools
    }

    /// The bound on requests per run.
    pub fn max_turns(&self) -> (r: usize)
        ensures
            r == self.spec_max_turns(),
    {
        self.max_turns
    }
}

/// Continuation is transitive: across successive steps and runs of one
/// session, the transcript only grows and the token count never decreases.
pub proof fn lemma_extends_transitive(a: AgentState, b: AgentState, c: AgentState)
    requires
        extends(a, b),
        extends(b, c),
    ensures
        extends(a, c),
        a.token_count <= c.token_count,
        a.messages@.len() <= c.messages@.len(),
{
    assert(c.messages@.subrange(0, a.messages@.len() as int) =~= a.messages@) by {
        assert(b.messages@.subrange(0, a.messages@.len() as int) =~= a.messages@);
        assert forall|i: int| 0 <= i < a.messages@.len() implies c.messages@[i]
            == a.messages@[i] by {
            assert(c.messages@[i] == b.messages@[i]);
            assert(b.messages@[i] == a.messages@[i]);
        }
    }
}

/// Each state of `states` continues the one before it.
pub open spec fn chained(states: Seq<AgentState>) -> bool {
    forall|i: int| 0 <= i < states.len() - 1 ==> extends(#[trigger] states[i], states[i + 1])
}

/// Over any number of steps, each continuing the one before (as every step of
/// the engine ensures), the last state continues the first: the transcript of a
/// run, or of successive runs, only grows and its token count never falls.
pub proof fn lemma_chain_extends(states: Seq<AgentState>)
    requires
        states.len() >= 1,
        chained(states),
    ensures
        extends(states[0], states.last()),
        states[0].token_count <= states.last().token_count,
        states[0].messages@.len() <= states.last().messages@.len(),
    decreases states.len(),
{
    if states.len() == 1 {
        assert(states[0].messages@.subrange(0, states[0].messages@.len() as int)
            =~= states[0].messages@);
    } else {
        let front = states.drop_last();
        assert forall|i: int| 0 <= i < front.len() - 1 implies extends(
            #[trigger] front[i],
            front[i + 1],
        ) by {
            assert(front[i] == states[i] && front[i + 1] == states[i + 1]);
            assert(extends(states[i], states[i + 1]));
        }
        lemma_chain_extends(front);
        assert(extends(states[states.len() - 2], states.last()));
        lemma_extends_transitive(states[0], front.last(), states.last());
    }
}

/// A run of any length that ends with a final answer leaves at least two more
/// messages than it found: the caller's input, appended when the run begins,
/// sits where the transcript used to end, and the reply holding the answer is
/// last. `start` is the state before the run; `steps` are the states from the
/// one right after the input was appended to the one the answering reply
/// arrived at, each continuing the one before; `done` is the state after it.
pub proof fn lemma_completed_run_grows(
    start: AgentState,
    steps: Seq<AgentState>,
    answer: ChatMessage,
    done: AgentState,
)
    requires
        steps.len() >= 1,
        steps[0].messages@.drop_last() == start.messages@,
        steps[0].messages@.len() == start.messages@.len() + 1,
        steps[0].token_count == start.token_count,
        chained(steps),
        done.messages@ == steps.last().messages@.push(answer),
        steps.last().token_count <= done.token_count,
    ensures
        done.messages@.len() >= start.messages@.len() + 2,
        done.messages@.len() > start.messages@.len(),
        done.messages@[start.messages@.len() as int] == steps[0].messages@.last(),
        done.messages@.last() == answer,
        start.token_count <= done.token_count,
        extends(start, done),
{
    let begun = steps[0];
    let before_answer = steps.last();
    lemma_chain_extends(steps);
    assert(begun.messages@.subrange(0, start.messages@.len() as int) =~= start.messages@);
    assert(extends(start, begun));
    assert(done.messages@.subrange(0, before_answer.messages@.len() as int)
        =~= before_answer.messages@);
    assert(extends(before_answer, done));
    lemma_extends_transitive(begun, before_answer, done);
    lemma_extends_transitive(start, begun, done);
    let n = start.messages@.len() as int;
    assert(done.messages@.subrange(0, begun.messages@.len() as int) == begun.messages@);
    assert(done.messages@[n] == done.messages@.subrange(0, begun.messages@.len() as int)[n]);
}

/// Assembles an engine: settings, tools, seed messages, a turn bound and an id.
pub struct AgentBuilder<T> {
    config: Option<OpenAIConfig>,
    tools: ToolRegistry<T>,
    messages: Vec<ChatMessage>,
    max_turns: usize,
    id: String,
}

impl<T> AgentBuilder<T> {
    /// The settings given so far.
    pub closed spec fn spec_config(&self) -> Option<OpenAIConfig> {
        self.config
    }

    /// The tools given so far.
    pub closed spec fn spec_tools(&self) -> ToolRegistry<T> {
        self.tools
    }

    /// The seed messages given so far.
    pub closed spec fn spec_messages(&self) -> Seq<ChatMessage> {
        self.messages@
    }

    /// The turn bound.
    pub closed spec fn spec_max_turns(&self) -> nat {
        self.max_turns as nat
    }

    /// The session identifier.
    pub closed spec fn spec_id(&self) -> Seq<char> {
        self.id@
    }

    /// The builder's tools have unique names.
    pub closed spec fn wf(&self) -> bool {
        self.tools.wf()
    }

    /// A builder with no settings, no tools, no messages, a bound of ten turns
    /// and a fresh identifier.
    pub fn new() -> (r: AgentBuilder<T>)
        ensures
            r.wf(),
            r.spec_config() is None,
            r.spec_tools().spec_len() == 0,
            r.spec_messages().len() == 0,
            r.spec_max_turns() == DEFAULT_MAX_TURNS,
            r.spec_id().len() == 36,
    {
        AgentBuilder {
            config: None,
            tools: ToolRegistry::new(),
            messages: Vec::new(),
            max_turns: DEFAULT_MAX_TURNS,
            id: generate_id(),
        }
    }

    /// Sets the endpoint settings.
    pub fn with_config(self, config: OpenAIConfig) -> (r: AgentBuilder<T>)
        requires
            self.wf(),
        ensures
            r.wf(),
            r.spec_config() == Some(config),
            r.spec_tools() == self.spec_tools(),
            r.spec_messages() == self.spec_messages(),
            r.spec_max_turns() == self.spec_max_turns(),
            r.spec_id() == self.spec_id(),
    {
        AgentBuilder { config: Some(config), ..self }
    }

    /// Sets the tools.
    pub fn with_tools(self, tools: ToolRegistry<T>) -> (r: AgentBuilder<T>)
        requires
            tools.wf(),
        ensures
            r.wf(),
            r.spec_config() == self.spec_config(),
            r.spec_tools() == tools,
            r.spec_messages() == self.spec_messages(),
            r.spec_max_turns() == self.spec_max_turns(),
            r.spec_id() == self.spec_id(),
    {
        AgentBuilder { tools, ..self }
    }

    /// Appends a system prompt to the seed messages.
    pub fn with_system_prompt(self, prompt: String) -> (r: AgentBuilder<T>)
        requires
            self.wf(),
        ensures
            r.wf(),
            r.spec_config() == self.spec_config(),
            r.spec_tools() == self.spec_tools(),
            r.spec_messages().drop_last() == self.spec_messages(),
            r.spec_messages().len() == self.spec_messages().len() + 1,
            r.spec_messages().last()@ == plain_message("system"@, prompt@),
            r.spec_max_turns() == self.spec_max_turns(),
            r.spec_id() == self.spec_id(),
    {
        let mut b = self;
        b.messages.push(ChatMessage::system(prompt));
        b
    }

    /// Appends a message to the seed messages.
    pub fn with_message(self, message: ChatMessage) -> (r: AgentBuilder<T>)
        requires
            self.wf(),
        ensures
            r.wf(),
            r.spec_config() == self.spec_config(),
            r.spec_tools() == self.spec_tools(),
            r.spec_messages() == self.spec_messages().push(message),
            r.spec_max_turns() == self.spec_max_turns(),
            r.spec_id() == self.spec_id(),
    {
        let mut b = self;
        b.messages.push(message);
        b
    }

    /// Sets the bound on requests per run.
    pub fn with_max_turns(self, max_turns: usize) -> (r: AgentBuilder<T>)
        requires
            self.wf(),
        ensures
            r.wf(),
            r.spec_config() == self.spec_config(),
            r.spec_tools() == self.spec_tools(),
            r.spec_messages() == self.spec_messages(),
            r.spec_max_turns() == max_turns,
            r.spec_id() == self.spec_id(),
    {
        AgentBuilder { max_turns, ..self }
    }

    /// Sets the session identifier.
    pub fn with_id(self, id: String) -> (r: AgentBuilder<T>)
        requires
            self.wf(),
        ensures
            r.wf(),
            r.spec_config() == self.spec_config(),
            r.spec_tools() == self.spec_tools(),
            r.spec_messages() == self.spec_messages(),
            r.spec_max_turns() == self.spec_max_turns(),
            r.spec_id() == id@,
    {
        AgentBuilder { id, ..self }
    }

    /// Builds the engine. The settings default to `OpenAIConfig::new()`; settings
    /// without an API key are rejected with a `Config` error.
    pub fn build(self) -> (r: Result<Agent<T>, OpenAIAgentError>)
        requires
            self.wf(),
        ensures
            r is Err <==> match self.spec_config() {
                Some(c) => c.api_key@.len() == 0,
                None => true,
            },
            r matches Err(e) ==> e is Config,
            r matches Ok(a) ==> {
                &&& a.wf()
                &&& Some(a.spec_config()) == self.spec_config()
                &&& a.spec_tools() == self.spec_tools()
                &&& a.spec_state().messages@ == self.spec_messages()
                &&& a.spec_state().token_count == 0
                &&& a.spec_max_turns() == self.spec_max_turns()
                &&& a.spec_id() == self.spec_id()
            },
    {
        let config = match self.config {
            Some(c) => c,
            None => OpenAIConfig::new(),
        };
        match config.validate() {
            Ok(()) => Ok(Agent::from_parts(config, self.tools, self.messages, self.max_turns, self.id)),
            Err(e) => Err(e),
        }
    }
}

impl<T> Default for AgentBuilder<T> {
    fn default() -> (r: AgentBuilder<T>)
        ensures
            r.wf(),
            r.spec_config() is None,
            r.spec_messages().len() == 0,
            r.spec_max_turns() == DEFAULT_MAX_TURNS,
    {
        AgentBuilder::new()
    }
}

} // verus!
