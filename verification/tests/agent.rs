use ava::agent::{
    apply_decision, blocked_result, denied_result, format_known_facts, gate, gate_command,
    system_prompt,
    tool_use_content, truncate_chars, Clearance, Conversation, Gate, Turn, MAX_FACT_VALUE_CHARS,
};
use ava::dispatch::{plan_tool_call, ToolAction, ToolInput};
use ava::error::Error;
use ava::message::{ChannelKind, InboundMessage, Message, MessageContent, Role};
use ava::provider::{
    assemble_response, ContentBlock, ProviderResponse, StopReason, DEFAULT_SYSTEM_PROMPT,
};
use ava::rules::{ApprovalRule, Fact};
use ava::tool::{ApprovalDecision, ToolCall};

fn fact(category: &str, key: &str, value: &str) -> Fact {
    Fact { category: category.into(), key: key.into(), value: value.into() }
}

fn exec_call(id: &str, command: &str) -> ToolCall {
    let mut map = serde_json::Map::new();
    map.insert("command".to_string(), serde_json::Value::String(command.to_string()));
    ToolCall { id: id.into(), name: "exec".into(), input: serde_json::Value::Object(map) }
}

fn asking(content: &str, calls: Vec<ToolCall>) -> ProviderResponse {
    ProviderResponse { content: content.into(), stop_reason: StopReason::ToolUse, tool_calls: calls }
}

#[test]
fn test_format_known_facts_groups_by_category() {
    let facts = vec![
        fact("user", "name", "alex"),
        fact("preferences", "response_style", "concise"),
        fact("user", "timezone", "Europe/Amsterdam"),
    ];

    let formatted = format_known_facts(&facts);

    assert_eq!(
        formatted,
        "## known facts\n\n### user\n- name: alex\n- timezone: Europe/Amsterdam\n\n### preferences\n- response_style: concise"
    );
}

#[test]
fn test_format_known_facts_truncates_values() {
    let facts = vec![fact("user", "bio", &"x".repeat(MAX_FACT_VALUE_CHARS + 10))];

    let formatted = format_known_facts(&facts);
    let expected = format!("- bio: {}", "x".repeat(MAX_FACT_VALUE_CHARS));

    assert!(formatted.contains(&expected));
    assert!(!formatted.contains(&"x".repeat(MAX_FACT_VALUE_CHARS + 1)));
}

#[test]
fn system_prompt_with_and_without_facts() {
    assert_eq!(system_prompt(&Vec::new()), DEFAULT_SYSTEM_PROMPT);
    assert_eq!(
        system_prompt(&vec![fact("user", "name", "alex")]),
        format!("{}\n\n## known facts\n\n### user\n- name: alex", DEFAULT_SYSTEM_PROMPT)
    );
    assert_eq!(format_known_facts(&Vec::new()), "## known facts");
    assert_eq!(truncate_chars("h\u{e9}llo", 2), "h\u{e9}");
    assert_eq!(truncate_chars("hello", 5), "hello");
    assert_eq!(truncate_chars("hello", 9), "hello");
}

#[test]
fn test_parse_text_response() {
    let response = assemble_response(
        vec![ContentBlock::Text { text: "hello".into() }],
        StopReason::EndTurn,
    );
    assert_eq!(response.content, "hello");
    assert!(response.tool_calls.is_empty());
    assert_eq!(response.stop_reason, StopReason::EndTurn);
}

#[test]
fn test_parse_multiple_text_blocks() {
    let response = assemble_response(
        vec![
            ContentBlock::Text { text: "hello".into() },
            ContentBlock::Text { text: "world".into() },
        ],
        StopReason::EndTurn,
    );
    assert_eq!(response.content, "hello\nworld");
}

#[test]
fn test_parse_tool_use_response() {
    let mut map = serde_json::Map::new();
    map.insert("location".to_string(), serde_json::Value::String("sf".to_string()));
    let response = assemble_response(
        vec![ContentBlock::ToolUse {
            id: "toolu_123".into(),
            name: "get_weather".into(),
            input: serde_json::Value::Object(map),
        }],
        StopReason::ToolUse,
    );
    assert_eq!(response.tool_calls.len(), 1);
    assert_eq!(response.tool_calls[0].id, "toolu_123");
    assert_eq!(response.tool_calls[0].name, "get_weather");
    assert_eq!(response.tool_calls[0].input["location"], "sf");
    assert_eq!(response.content, "");
    assert_eq!(response.stop_reason, StopReason::ToolUse);
}

#[test]
fn answer_keeps_the_order_of_its_blocks() {
    let response = assemble_response(
        vec![
            ContentBlock::Text { text: "".into() },
            ContentBlock::ToolUse { id: "a".into(), name: "exec".into(), input: serde_json::Value::Null },
            ContentBlock::Text { text: "one".into() },
            ContentBlock::ToolUse { id: "b".into(), name: "exec".into(), input: serde_json::Value::Null },
            ContentBlock::Text { text: "two".into() },
        ],
        StopReason::ToolUse,
    );
    assert_eq!(response.content, "one\ntwo");
    let ids: Vec<&str> = response.tool_calls.iter().map(|c| c.id.as_str()).collect();
    assert_eq!(ids, vec!["a", "b"]);
}

#[test]
fn root_deletion_is_blocked_before_any_approval() {
    let call = exec_call("t1", "rm -rf /");
    assert_eq!(gate(&call, &Vec::new()), Gate::Blocked);
    let rules = vec![ApprovalRule { id: 1, pattern: "rm *".into() }];
    assert_eq!(gate(&call, &rules), Gate::Blocked);
    match blocked_result(&call) {
        MessageContent::ToolResult { tool_use_id, content } => {
            assert_eq!(tool_use_id, "t1");
            assert_eq!(content, "command blocked: matches safety filter");
        }
        other => panic!("{:?}", other),
    }
    assert_eq!(
        plan_tool_call("exec", Ok(ToolInput::Exec { command: "rm -rf /".into(), timeout_secs: None })),
        ToolAction::Reply { content: "command blocked: matches safety filter".into() }
    );
}

#[test]
fn stored_rule_runs_without_the_approver() {
    let rules = vec![ApprovalRule { id: 4, pattern: "cargo *".into() }];
    let call = exec_call("t1", "cargo test -- --nocapture");
    assert_eq!(gate(&call, &rules), Gate::PreApproved { rule_id: 4 });
    assert_eq!(gate(&exec_call("t2", "ls"), &rules), Gate::AskApprover);
    assert_eq!(gate(&call, &Vec::new()), Gate::AskApprover);
    let other = ToolCall { id: "t3".into(), name: "web_search".into(), input: serde_json::Value::Null };
    assert_eq!(gate(&other, &rules), Gate::Open);
    let unknown = ToolCall { id: "t4".into(), name: "exec".into(), input: serde_json::Value::Null };
    assert_eq!(gate(&unknown, &rules), Gate::AskApprover);
    assert_eq!(gate_command("exec", "cargo fmt && cargo test", &rules), Gate::PreApproved { rule_id: 4 });
    assert_eq!(gate_command("exec", "cargo fmt && rm x", &rules), Gate::AskApprover);
    assert_eq!(gate_command("exec", "cargo run; mkfs /dev/sda", &rules), Gate::Blocked);
    assert_eq!(gate_command("remember_fact", "rm -rf /", &rules), Gate::Open);
}

#[test]
fn decisions_and_what_follows() {
    assert_eq!(apply_decision(&ApprovalDecision::AllowOnce), Clearance::Execute);
    assert_eq!(apply_decision(&ApprovalDecision::AutoApproved), Clearance::Execute);
    assert_eq!(apply_decision(&ApprovalDecision::Deny), Clearance::Denied);
    assert_eq!(
        apply_decision(&ApprovalDecision::AllowAlways { pattern: "ls *".into() }),
        Clearance::SaveRuleThenExecute { pattern: "ls *".into() }
    );
    match denied_result(&exec_call("t9", "ls")) {
        MessageContent::ToolResult { tool_use_id, content } => {
            assert_eq!(tool_use_id, "t9");
            assert_eq!(content, "command denied by user");
        }
        other => panic!("{:?}", other),
    }
}

#[test]
fn tool_calls_are_planned() {
    assert_eq!(
        plan_tool_call("fly", Err("whatever".into())),
        ToolAction::Reply { content: "unknown tool: fly".into() }
    );
    assert_eq!(
        plan_tool_call("exec", Err("missing field `command`".into())),
        ToolAction::Reply { content: "invalid input: missing field `command`".into() }
    );
    assert_eq!(
        plan_tool_call("exec", Ok(ToolInput::WebFetch { url: "https://example.com".into(), max_chars: None })),
        ToolAction::Reply { content: "invalid input: the input is that of another tool".into() }
    );
    assert_eq!(
        plan_tool_call("web_search", Ok(ToolInput::Exec { command: "ls".into(), timeout_secs: None })),
        ToolAction::Reply { content: "invalid input: the input is that of another tool".into() }
    );
    assert_eq!(
        plan_tool_call("fly", Ok(ToolInput::Exec { command: "ls".into(), timeout_secs: None })),
        ToolAction::Reply { content: "unknown tool: fly".into() }
    );
    assert_eq!(
        plan_tool_call("exec", Ok(ToolInput::Exec { command: "ls".into(), timeout_secs: Some(900) })),
        ToolAction::RunCommand { command: "ls".into(), timeout_secs: 300 }
    );
    assert_eq!(
        plan_tool_call(
            "remember_fact",
            Ok(ToolInput::RememberFact { category: "user".into(), key: "name".into(), value: "alex".into() })
        ),
        ToolAction::RememberFact { category: "user".into(), key: "name".into(), value: "alex".into() }
    );
    assert_eq!(
        plan_tool_call("web_search", Ok(ToolInput::WebSearch { query: "rust".into(), max_results: Some(50) })),
        ToolAction::Search { query: "rust".into(), count: 20 }
    );
    assert_eq!(
        plan_tool_call("web_fetch", Ok(ToolInput::WebFetch { url: "http://localhost".into(), max_chars: None })),
        ToolAction::Reply { content: "invalid URL: fetching local/internal URLs is not allowed".into() }
    );
    assert_eq!(
        plan_tool_call("web_fetch", Ok(ToolInput::WebFetch { url: "https://example.com".into(), max_chars: Some(9) })),
        ToolAction::Fetch { reader_url: "https://r.jina.ai/https://example.com".into(), max_chars: 9 }
    );
}

#[test]
fn answer_without_tools_ends_the_turn() {
    let inbound = InboundMessage { channel: ChannelKind::Cli, content: "hello".into() };
    let mut conversation = Conversation::start(&inbound);
    assert_eq!(conversation.messages.len(), 1);
    assert_eq!(conversation.messages[0].role, Role::User);
    let response = ProviderResponse {
        content: "hi".into(),
        stop_reason: StopReason::EndTurn,
        tool_calls: vec![],
    };
    match conversation.on_response(&response) {
        Turn::Reply(out) => assert_eq!(out.content, "hi"),
        other => panic!("{:?}", other),
    }
    assert_eq!(conversation.messages.len(), 1);
    assert_eq!(conversation.tool_rounds, 0);
}

#[test]
fn sixth_round_of_tools_is_refused() {
    let inbound = InboundMessage { channel: ChannelKind::Telegram, content: "go".into() };
    let mut conversation = Conversation::start(&inbound);
    for round in 1..=5u32 {
        let response = asking("", vec![exec_call("t", "ls")]);
        assert!(matches!(conversation.on_response(&response), Turn::RunTools));
        assert_eq!(conversation.tool_rounds, round);
        conversation.on_tool_results(vec![MessageContent::tool_result("t", "exit code: 0")]);
    }
    assert_eq!(conversation.messages.len(), 11);
    let response = asking("", vec![exec_call("t", "ls")]);
    match conversation.on_response(&response) {
        Turn::Abort(Error::Provider(message)) => assert_eq!(message, "tool loop exceeded"),
        other => panic!("{:?}", other),
    }
    assert_eq!(conversation.messages.len(), 11);
    assert_eq!(conversation.tool_rounds, 5);
}

#[test]
fn round_is_recorded_in_the_order_of_the_calls() {
    let inbound = InboundMessage { channel: ChannelKind::Cli, content: "go".into() };
    let mut conversation = Conversation::start(&inbound);
    let response = asking("let me look", vec![exec_call("a", "ls"), exec_call("b", "pwd")]);
    assert!(matches!(conversation.on_response(&response), Turn::RunTools));
    let recorded: &Message = &conversation.messages[1];
    assert_eq!(recorded.role, Role::Assistant);
    assert_eq!(recorded.content.len(), 3);
    assert!(matches!(&recorded.content[0], MessageContent::Text { text } if text == "let me look"));
    assert!(matches!(&recorded.content[1], MessageContent::ToolUse { id, .. } if id == "a"));
    match &recorded.content[2] {
        MessageContent::ToolUse { id, name, input } => {
            assert_eq!(id, "b");
            assert_eq!(name, "exec");
            assert_eq!(input["command"], "pwd");
        }
        other => panic!("{:?}", other),
    }
    conversation.on_tool_results(vec![
        MessageContent::tool_result("a", "one"),
        MessageContent::tool_result("b", "two"),
    ]);
    let results = &conversation.messages[2];
    assert_eq!(results.role, Role::User);
    assert!(matches!(&results.content[1], MessageContent::ToolResult { tool_use_id, content }
        if tool_use_id == "b" && content == "two"));
    let silent = asking("", vec![exec_call("c", "ls")]);
    assert!(matches!(conversation.on_response(&silent), Turn::RunTools));
    assert_eq!(conversation.messages[3].content.len(), 1);
    match tool_use_content(&exec_call("z", "id")) {
        MessageContent::ToolUse { input, .. } => assert_eq!(input["command"], "id"),
        other => panic!("{:?}", other),
    }
}

#[test]
fn messages_are_built_from_their_parts() {
    let user = Message::user("hello");
    assert_eq!(user.role, Role::User);
    assert!(matches!(&user.content[0], MessageContent::Text { text } if text == "hello"));
    let assistant = Message::assistant("hi");
    assert_eq!(assistant.role, Role::Assistant);
    assert!(matches!(&assistant.content[0], MessageContent::Text { text } if text == "hi"));
    assert_eq!(Message::user_with_content(vec![]).role, Role::User);
    assert_eq!(Message::assistant_with_content(vec![MessageContent::text("x")]).content.len(), 1);
}
