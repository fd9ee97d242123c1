use agio::agent::{blank, is_blank, classify_reply};
use agio::{
    AgentBuilder, AgentState, ChatChoice, ChatMessage, ChatResponse, FunctionCall, Message,
    OpenAIAgentError, OpenAIConfig, ToolCall, ToolDefinition, ToolRegistry, TurnStep, Usage,
};

fn config() -> OpenAIConfig {
    OpenAIConfig::new().with_api_key("test-key".to_string())
}

fn definition(name: &str) -> ToolDefinition {
    ToolDefinition {
        name: name.to_string(),
        description: format!("the {} tool", name),
        parameters: "{\"type\":\"object\"}".to_string(),
        strict: Some(true),
    }
}

fn call(id: &str, name: &str, args: &str) -> ToolCall {
    ToolCall {
        id: id.to_string(),
        call_type: "function".to_string(),
        function: FunctionCall { name: name.to_string(), arguments: args.to_string() },
        name: None,
        arguments: None,
    }
}

fn reply(message: ChatMessage, finish_reason: &str, total_tokens: Option<usize>) -> ChatResponse {
    ChatResponse {
        id: "resp".to_string(),
        object: "chat.completion".to_string(),
        created: 0,
        model: "gpt-4".to_string(),
        choices: vec![ChatChoice {
            index: 0,
            message,
            tool_calls: vec![],
            finish_reason: finish_reason.to_string(),
        }],
        usage: total_tokens.map(|t| Usage { prompt_tokens: 0, completion_tokens: 0, total_tokens: t }),
    }
}

fn tool_reply(calls: Vec<ToolCall>) -> ChatResponse {
    let message = ChatMessage {
        role: "assistant".to_string(),
        content: None,
        name: None,
        tool_call_id: None,
        tool_calls: Some(calls),
    };
    reply(message, "tool_calls", Some(5))
}

#[test]
fn direct_answer_scenario() {
    let mut agent = AgentBuilder::<u32>::new().with_config(config()).build().unwrap();
    agent.begin_run("2+2?".to_string());
    let req = agent.next_request().unwrap();
    assert_eq!(req.messages.len(), 1);
    assert!(req.tools.is_none());
    let step = agent.handle_response(reply(ChatMessage::assistant("4".to_string()), "stop", Some(12))).unwrap();
    match step {
        TurnStep::Done(answer) => assert_eq!(answer, "4"),
        other => panic!("unexpected step: {:?}", other),
    }
    assert_eq!(agent.state().message_count(), 2);
    assert_eq!(agent.state().token_count(), 12);
}

#[test]
fn successful_runs_grow_transcript_and_tokens() {
    let mut agent = AgentBuilder::<u32>::new()
        .with_config(config())
        .with_system_prompt("be brief".to_string())
        .build()
        .unwrap();
    let mut last_count = agent.state().message_count();
    let mut last_tokens = agent.state().token_count();
    for (i, usage) in [Some(7), None, Some(3)].into_iter().enumerate() {
        agent.begin_run(format!("question {}", i));
        agent.next_request().unwrap();
        let step = agent.handle_response(reply(ChatMessage::assistant("answer".to_string()), "stop", usage)).unwrap();
        assert!(matches!(step, TurnStep::Done(_)));
        assert!(agent.state().message_count() >= last_count + 2);
        assert!(agent.state().token_count() >= last_tokens);
        last_count = agent.state().message_count();
        last_tokens = agent.state().token_count();
    }
    assert_eq!(last_tokens, 10);
    assert_eq!(last_count, 7);
}

#[test]
fn tool_round_trip_then_answer() {
    let mut tools = ToolRegistry::new();
    tools.register(definition("reverse"), 1u32);
    let mut agent = AgentBuilder::new().with_config(config()).with_tools(tools).build().unwrap();
    agent.begin_run("reverse abc".to_string());
    let req = agent.next_request().unwrap();
    let specs = req.tools.expect("tools are listed");
    assert_eq!(specs.len(), 1);
    assert_eq!(specs[0].tool_type, "function");
    assert_eq!(specs[0].function.name, "reverse");

    let step = agent.handle_response(tool_reply(vec![call("c1", "reverse", "{\"text\":\"abc\"}")])).unwrap();
    let calls = match step {
        TurnStep::CallTools(calls) => calls,
        other => panic!("unexpected step: {:?}", other),
    };
    assert_eq!(calls.len(), 1);
    let (tool, args) = agent.prepare_tool_call(&calls[0]).unwrap();
    assert_eq!(*tool, 1);
    assert_eq!(args["text"], "abc");
    agent.record_tool_result(&calls[0], "cba".to_string());
    let last = &agent.state().messages()[2];
    assert_eq!(last.role, "tool");
    assert_eq!(last.content.as_deref(), Some("cba"));
    assert_eq!(last.name.as_deref(), Some("reverse"));
    assert_eq!(last.tool_call_id.as_deref(), Some("c1"));

    let req = agent.next_request().unwrap();
    assert_eq!(req.messages.len(), 3);
    let step = agent.handle_response(reply(ChatMessage::assistant("cba".to_string()), "stop", Some(4))).unwrap();
    assert!(matches!(step, TurnStep::Done(ref s) if s == "cba"));
    assert_eq!(agent.state().message_count(), 4);
    assert_eq!(agent.state().token_count(), 9);
}

#[test]
fn turn_limit_stops_tool_ping_pong() {
    let mut tools = ToolRegistry::new();
    tools.register(definition("noop"), 0u32);
    let mut agent = AgentBuilder::new()
        .with_config(config())
        .with_tools(tools)
        .with_max_turns(1)
        .build()
        .unwrap();
    agent.begin_run("go".to_string());
    agent.next_request().unwrap();
    let step = agent.handle_response(tool_reply(vec![call("c1", "noop", "{}")])).unwrap();
    let calls = match step {
        TurnStep::CallTools(calls) => calls,
        other => panic!("unexpected step: {:?}", other),
    };
    agent.prepare_tool_call(&calls[0]).unwrap();
    agent.record_tool_result(&calls[0], "done".to_string());
    match agent.next_request() {
        Err(OpenAIAgentError::Agent(m)) => {
            assert_eq!(m, "Agent exceeded maximum turns (1)");
        }
        other => panic!("unexpected: {:?}", other.map(|_| ())),
    }
}

#[test]
fn zero_turns_fail_before_any_request() {
    let mut agent = AgentBuilder::<u32>::new().with_config(config()).with_max_turns(0).build().unwrap();
    agent.begin_run("hi".to_string());
    assert!(matches!(agent.next_request(), Err(OpenAIAgentError::Agent(_))));
}

#[test]
fn missing_tool_fails_without_result_message() {
    let mut agent = AgentBuilder::<u32>::new().with_config(config()).build().unwrap();
    agent.begin_run("use a tool".to_string());
    agent.next_request().unwrap();
    let step = agent.handle_response(tool_reply(vec![call("c9", "ghost", "{}")])).unwrap();
    let calls = match step {
        TurnStep::CallTools(calls) => calls,
        other => panic!("unexpected step: {:?}", other),
    };
    let before = agent.state().message_count();
    match agent.prepare_tool_call(&calls[0]) {
        Err(OpenAIAgentError::Tool(m)) => assert_eq!(m, "Tool not found: ghost"),
        other => panic!("unexpected: {:?}", other.map(|_| ())),
    }
    assert_eq!(agent.state().message_count(), before);
    assert!(agent.state().messages().iter().all(|m| m.role != "tool"));
}

#[test]
fn malformed_tool_arguments_are_parse_error() {
    let mut tools = ToolRegistry::new();
    tools.register(definition("echo"), 0u32);
    let agent = AgentBuilder::new().with_config(config()).with_tools(tools).build().unwrap();
    let bad = call("c1", "echo", "{not json");
    assert!(matches!(agent.prepare_tool_call(&bad), Err(OpenAIAgentError::Parse(_))));
}

#[test]
fn reply_without_choices_is_parse_error() {
    let mut agent = AgentBuilder::<u32>::new().with_config(config()).build().unwrap();
    agent.begin_run("hi".to_string());
    agent.next_request().unwrap();
    let mut r = reply(ChatMessage::assistant("x".to_string()), "stop", Some(2));
    r.choices.clear();
    match agent.handle_response(r) {
        Err(OpenAIAgentError::Parse(m)) => assert_eq!(m, "No response choices received"),
        other => panic!("unexpected: {:?}", other),
    }
    assert_eq!(agent.state().message_count(), 1);
    assert_eq!(agent.state().token_count(), 2);
}

#[test]
fn empty_reply_continues_only_when_tools_are_coming() {
    let empty = || ChatMessage {
        role: "assistant".to_string(),
        content: Some("  \n\t".to_string()),
        name: None,
        tool_call_id: None,
        tool_calls: Some(vec![]),
    };
    assert!(matches!(classify_reply(&empty(), &"tool_calls".to_string()), Ok(TurnStep::Continue)));
    match classify_reply(&empty(), &"stop".to_string()) {
        Err(OpenAIAgentError::Parse(m)) => {
            assert_eq!(m, "Assistant returned empty message with finish_reason: stop")
        }
        other => panic!("unexpected: {:?}", other),
    }
}

#[test]
fn usage_saturates_instead_of_wrapping() {
    let mut agent = AgentBuilder::<u32>::new().with_config(config()).build().unwrap();
    agent.begin_run("a".to_string());
    agent.next_request().unwrap();
    agent.handle_response(reply(ChatMessage::assistant("b".to_string()), "stop", Some(usize::MAX - 1))).unwrap();
    agent.begin_run("c".to_string());
    agent.next_request().unwrap();
    agent.handle_response(reply(ChatMessage::assistant("d".to_string()), "stop", Some(5))).unwrap();
    assert_eq!(agent.state().token_count(), usize::MAX);
}

#[test]
fn build_without_api_key_is_config_error() {
    match AgentBuilder::<u32>::new().build() {
        Err(OpenAIAgentError::Config(m)) => assert_eq!(m, "API key not provided"),
        _ => panic!("expected a configuration error"),
    }
    assert!(matches!(
        AgentBuilder::<u32>::new().with_config(OpenAIConfig::new()).build(),
        Err(OpenAIAgentError::Config(_))
    ));
}

#[test]
fn builder_seeds_messages_and_identity() {
    let b = AgentBuilder::<u32>::new();
    let agent = b
        .with_config(config())
        .with_id("fixed-id".to_string())
        .with_system_prompt("sys".to_string())
        .with_message(ChatMessage::user("hello".to_string()))
        .build()
        .unwrap();
    assert_eq!(agent.id(), "fixed-id");
    assert_eq!(agent.max_turns(), 10);
    let msgs = agent.state().messages();
    assert_eq!(msgs.len(), 2);
    assert_eq!(msgs[0].role, "system");
    assert_eq!(msgs[1].content.as_deref(), Some("hello"));
    assert_eq!(AgentBuilder::<u32>::new().build().is_err(), true);
    let fresh = AgentBuilder::<u32>::new().with_config(config()).build().unwrap();
    assert_eq!(fresh.id().len(), 36);
}

#[test]
fn push_messages_and_restore_state() {
    let mut agent = AgentBuilder::<u32>::new().with_config(config()).build().unwrap();
    agent.push_user_message("u".to_string());
    agent.push_assistant_message("a".to_string());
    assert_eq!(agent.state().message_count(), 2);
    assert_eq!(agent.state().messages()[1].role, "assistant");
    let mut saved = AgentState::new();
    saved.messages.push(ChatMessage::system("s".to_string()));
    saved.token_count = 42;
    agent.restore_state(saved);
    assert_eq!(agent.state().message_count(), 1);
    assert_eq!(agent.state().token_count(), 42);
}

#[test]
fn request_carries_configured_parameters() {
    let cfg = config()
        .with_model("gpt-4o".to_string())
        .with_max_tokens(256)
        .with_temperature_milli(200)
        .with_stream(true);
    let mut agent = AgentBuilder::<u32>::new().with_config(cfg).build().unwrap();
    agent.begin_run("hi".to_string());
    let req = agent.next_request().unwrap();
    assert_eq!(req.model, "gpt-4o");
    assert_eq!(req.max_tokens, Some(256));
    assert_eq!(req.temperature_milli, Some(200));
    assert_eq!(req.stream, Some(true));
}

#[test]
fn blank_means_only_white_space() {
    assert!(is_blank(""));
    assert!(is_blank(" \t\n\u{3000}\u{a0}"));
    assert!(!is_blank(" x "));
    let _ = blank;
}

#[test]
fn message_constructors() {
    let t = ChatMessage::tool_result("out".to_string(), "calc".to_string(), "id7".to_string());
    assert_eq!(t.role, "tool");
    assert_eq!(t.name.as_deref(), Some("calc"));
    assert_eq!(t.tool_call_id.as_deref(), Some("id7"));
    let m = Message::system("rules".to_string());
    assert_eq!(m.role(), "system");
    assert_eq!(m.content(), Some("rules"));
    assert_eq!(Message::user("u".to_string()).role(), "user");
    assert_eq!(Message::assistant("a".to_string()).role(), "assistant");
}

#[test]
fn tool_call_accessors_prefer_older_fields() {
    let mut c = call("1", "new_name", "{}");
    assert_eq!(c.get_name(), "new_name");
    assert_eq!(c.get_arguments(), "{}");
    c.name = Some("old_name".to_string());
    c.arguments = Some("[1]".to_string());
    assert_eq!(c.get_name(), "old_name");
    assert_eq!(c.get_arguments(), "[1]");
}

#[test]
fn error_messages_carry_category() {
    assert_eq!(OpenAIAgentError::Tool("x".to_string()).to_message(), "Tool error: x");
    assert_eq!(OpenAIAgentError::Agent("y".to_string()).to_message(), "Agent error: y");
    assert_eq!(OpenAIAgentError::Config("z".to_string()).to_message(), "Configuration error: z");
    assert_eq!(OpenAIAgentError::Request("r".to_string()).to_message(), "Request error: r");
    assert_eq!(OpenAIAgentError::Parse("p".to_string()).to_message(), "Parse error: p");
    assert_eq!(
        OpenAIAgentError::Serialization("s".to_string()).to_message(),
        "Serialization error: s"
    );
}

#[test]
fn config_defaults_and_setters() {
    let c = OpenAIConfig::new();
    assert_eq!(c.model(), "gpt-4");
    assert_eq!(c.base_url(), "https://api.openai.com/v1");
    assert_eq!(c.timeout(), 30);
    assert_eq!(c.max_tokens(), 1024);
    assert_eq!(c.temperature_milli(), 700);
    assert!(!c.json_mode() && !c.stream());
    assert!(c.organization().is_none());
    assert!(c.validate().is_err());
    let c = c
        .with_api_key("k".to_string())
        .with_base_url("http://localhost".to_string())
        .with_organization("org".to_string())
        .with_timeout(5)
        .with_json_mode(true);
    assert_eq!(c.api_key(), "k");
    assert_eq!(c.base_url(), "http://localhost");
    assert_eq!(c.organization(), Some("org"));
    assert_eq!(c.timeout(), 5);
    assert!(c.json_mode());
    assert!(c.validate().is_ok());
}

#[test]
fn turn_limit_message_names_the_bound() {
    let mut agent = AgentBuilder::<u32>::new().with_config(config()).with_max_turns(12).build().unwrap();
    agent.begin_run("loop".to_string());
    for _ in 0..12 {
        agent.next_request().unwrap();
        agent.handle_response(reply(ChatMessage::assistant(" ".to_string()), "tool_calls", None)).unwrap();
    }
    match agent.next_request() {
        Err(OpenAIAgentError::Agent(m)) => assert_eq!(m, "Agent exceeded maximum turns (12)"),
        other => panic!("unexpected: {:?}", other.map(|_| ())),
    }
    let mut s = String::from("n=");
    agio::agent::push_decimal(&mut s, 1907);
    assert_eq!(s, "n=1907");
}

#[test]
fn registry_lists_each_tool_once() {
    let mut reg = ToolRegistry::new();
    reg.register(definition("a"), 1u8);
    assert!(!reg.is_empty());
    reg.register(definition("b"), 2u8);
    reg.register(definition("a"), 3u8);
    let mut names: Vec<String> = reg.definitions().into_iter().map(|d| d.function.name).collect();
    names.sort();
    assert_eq!(names, vec!["a".to_string(), "b".to_string()]);
}
