use rob::agent::{
    approval_answer_accepts, failed_outcome, invalid_tool_call_outcome, invalid_tool_example,
    repl_command, tool_choice_for_round, validate_tool_arguments, AgentSession, CallDecision,
    InvalidCallCounts, ReplCommand, SessionError, ToolOutcome, TurnAction, TurnEvent,
};
use rob::agents::resolve_agent;
use rob::config::{ApprovalPolicy, ConfigError, ProviderProfile, RobConfig};
use rob::json::JsonValue;
use rob::llm::{
    assistant_text_message, system_text_message, tool_message, user_message, ChatMessage,
    ToolCall, ToolCallFunction,
};
use rob::state::SessionRecord;

fn object(entries: Vec<(&str, JsonValue)>) -> JsonValue {
    JsonValue::Object(entries.into_iter().map(|(k, v)| (k.to_string(), v)).collect())
}

fn text(s: &str) -> JsonValue {
    JsonValue::String(s.to_string())
}

fn sample_config() -> RobConfig {
    let mut config = RobConfig::default();
    config
        .add_active_profile(ProviderProfile::new(
            "primary".to_string(),
            "https://example.com/v1".to_string(),
            "model-a".to_string(),
            None,
            Some("key".to_string()),
            "openai-compatible".to_string(),
        ))
        .unwrap();
    config
}

fn call(id: &str, name: &str, arguments: &str) -> ToolCall {
    ToolCall {
        id: id.to_string(),
        call_type: "function".to_string(),
        function: ToolCallFunction {
            name: name.to_string(),
            arguments: arguments.to_string(),
        },
    }
}

#[test]
fn validates_empty_shell_exec_arguments_before_running_tool() {
    let error = validate_tool_arguments("shell_exec", &object(vec![])).unwrap();

    assert!(error.contains("command"));
}

#[test]
fn accepts_valid_shell_exec_arguments() {
    let error = validate_tool_arguments(
        "shell_exec",
        &object(vec![
            ("tool_title", text("检查内核版本")),
            ("command", text("uname")),
            ("args", JsonValue::Array(vec![text("-a")])),
        ]),
    );

    assert!(error.is_none());
}

#[test]
fn repeated_unavailable_tool_call_stops_loop() {
    let mut counts = InvalidCallCounts::new();
    let error = "tool `shell_exec` is not available to agent `reader`";
    let first = invalid_tool_call_outcome(
        "shell_exec",
        error,
        "use only these tools: pwd, read_file",
        &mut counts,
    );
    let second = invalid_tool_call_outcome(
        "shell_exec",
        error,
        "use only these tools: pwd, read_file",
        &mut counts,
    );

    assert!(matches!(first, ToolOutcome::Failed(_)));
    assert!(matches!(second, ToolOutcome::InvalidRepeated(_)));
}

#[test]
fn omits_tool_choice_after_tool_result() {
    let messages = vec![
        system_text_message(resolve_agent(Some("main")).unwrap().system_prompt),
        user_message("cwd"),
        tool_message("call_1".to_string(), "pwd".to_string(), "/tmp".to_string()),
    ];

    assert_eq!(tool_choice_for_round(&messages), None);
}

#[test]
fn tool_choice_is_auto_before_any_tool_result() {
    let messages = vec![user_message("cwd")];
    assert_eq!(tool_choice_for_round(&messages), Some("auto"));
    assert_eq!(tool_choice_for_round(&[]), Some("auto"));
}

#[test]
fn invalid_call_guidance_counts_attempts() {
    let mut counts = InvalidCallCounts::new();
    let first = invalid_tool_call_outcome("read_file", "bad", "hint", &mut counts);
    assert_eq!(
        first.output(),
        "tool argument error (1/2) for `read_file`: bad. Retry with a valid tool call; hint"
    );
    let other = invalid_tool_call_outcome("read_file", "worse", "hint", &mut counts);
    assert!(matches!(other, ToolOutcome::Failed(_)));
    let second = invalid_tool_call_outcome("read_file", "bad", "hint", &mut counts);
    assert_eq!(
        second.output(),
        "Stopped because the model repeatedly produced an invalid `read_file` tool call: bad."
    );
    counts.clear();
    let again = invalid_tool_call_outcome("read_file", "bad", "hint", &mut counts);
    assert!(matches!(again, ToolOutcome::Failed(_)));
}

#[test]
fn denied_outcome_uses_fixed_message() {
    assert_eq!(ToolOutcome::Denied.output(), "tool denied by approval policy");
    assert_eq!(failed_outcome("boom").output(), "tool error: boom");
}

#[test]
fn validation_of_read_file_and_search_text() {
    assert_eq!(
        validate_tool_arguments("read_file", &object(vec![("path", text("  "))])),
        Some("missing required string argument `path`".to_string())
    );
    assert_eq!(
        validate_tool_arguments("search_text", &object(vec![])),
        Some("missing required string argument `pattern`".to_string())
    );
    assert_eq!(
        validate_tool_arguments("shell_exec", &object(vec![("command", text("ls"))])),
        Some("missing required array argument `args`; use [] for no arguments".to_string())
    );
    assert_eq!(validate_tool_arguments("pwd", &object(vec![])), None);
}

#[test]
fn examples_for_invalid_calls() {
    assert_eq!(invalid_tool_example("read_file"), r#"example: {"path":"README.md"}"#);
    assert_eq!(
        invalid_tool_example("other"),
        "check the tool schema and provide all required arguments"
    );
}

#[test]
fn approval_answers() {
    assert!(approval_answer_accepts(" yes \n"));
    assert!(approval_answer_accepts("Y"));
    assert!(!approval_answer_accepts("no"));
    assert!(!approval_answer_accepts("Yes"));
}

#[test]
fn new_session_starts_with_agent_prompt() {
    let session = AgentSession::new(sample_config(), None, None, None, None).unwrap();
    assert_eq!(session.id().len(), 36);
    assert_eq!(session.transcript().len(), 1);
    assert_eq!(session.transcript()[0].role, "system");
    assert!(session.transcript()[0]
        .content
        .as_deref()
        .unwrap()
        .contains("You are ROB"));
    assert_eq!(
        session.config_summary().unwrap(),
        "agent=main | primary | https://example.com/v1 | model-a | openai-compatible | approval=auto | reasoning=auto | context=32000 tokens/12 msgs"
    );
}

#[test]
fn session_model_override_and_unknown_agent() {
    let session =
        AgentSession::new(sample_config(), Some("reader".to_string()), Some("model-b".to_string()), None, Some(ApprovalPolicy::OnRequest))
            .unwrap();
    assert!(session.config_summary().unwrap().contains("model-b"));
    assert!(session.config_summary().unwrap().contains("agent=reader"));
    assert!(session.config_summary().unwrap().contains("approval=on-request"));

    let missing = AgentSession::new(sample_config(), Some("nobody".to_string()), None, None, None);
    assert!(matches!(missing, Err(SessionError::Agent(_))));

    let no_provider = AgentSession::new(RobConfig::default(), None, Some("m".to_string()), None, None);
    assert!(matches!(no_provider, Err(SessionError::Config(ConfigError::NoProvider))));
}

#[test]
fn resumed_session_finds_agent_from_prompt() {
    let reader = resolve_agent(Some("reader")).unwrap();
    let record = SessionRecord::new(
        "saved".to_string(),
        vec![system_text_message(reader.system_prompt), user_message("hi")],
    );
    let session = AgentSession::new(sample_config(), None, None, Some(record), None).unwrap();
    assert_eq!(session.id(), "saved");
    assert_eq!(session.transcript().len(), 2);
    assert!(session.config_summary().unwrap().starts_with("agent=reader"));
}

#[test]
fn session_turn_round_trip() {
    let mut session = AgentSession::new(sample_config(), None, None, None, None).unwrap();
    session.push_user_message("where am I?");
    let request = session.prepare_request().unwrap();
    assert_eq!(request.tools.len(), 5);
    assert_eq!(request.tool_choice, Some("auto"));
    assert_eq!(request.messages[0].role, "system");
    assert_eq!(request.messages[1].role, "system");
    assert!(request.messages[1]
        .content
        .as_deref()
        .unwrap()
        .contains("Available tools:"));
    assert_eq!(request.messages[2].role, "user");
    assert!(!request.compacted);

    let reply = ChatMessage {
        role: "assistant".to_string(),
        content: None,
        reasoning_content: None,
        tool_calls: Some(vec![call("call_1", "pwd", "{}")]),
        tool_call_id: None,
        name: None,
    };
    let (answer, calls) = session.receive_reply(reply);
    assert_eq!(answer, "");
    assert_eq!(calls.len(), 1);

    let mut counts = InvalidCallCounts::new();
    let decision = session.check_tool_call(&calls[0], &object(vec![]), &mut counts);
    assert!(matches!(decision, CallDecision::Run));
    let output = session.record_tool_outcome(&calls[0], &ToolOutcome::Completed("/tmp".to_string()));
    assert_eq!(output, "/tmp");
    assert_eq!(session.transcript().last().unwrap().role, "tool");

    let next = session.prepare_request().unwrap();
    assert_eq!(next.tool_choice, None);

    session.record_stop("done");
    assert_eq!(session.transcript().last().unwrap().content.as_deref(), Some("done"));
    let _ = assistant_text_message("unused");
}

#[test]
fn unavailable_tool_is_refused_then_stops() {
    let session = AgentSession::new(sample_config(), Some("reader".to_string()), None, None, None).unwrap();
    let mut counts = InvalidCallCounts::new();
    let shell = call("c1", "shell_exec", "{}");
    let first = session.check_tool_call(&shell, &object(vec![]), &mut counts);
    match first {
        CallDecision::Invalid(ToolOutcome::Failed(text)) => {
            assert!(text.contains("tool `shell_exec` is not available to agent `reader`"));
            assert!(text.contains("use only these tools: pwd, list_dir, read_file, search_text"));
        }
        other => panic!("unexpected decision {other:?}"),
    }
    let second = session.check_tool_call(&shell, &object(vec![]), &mut counts);
    assert!(matches!(second, CallDecision::Invalid(ToolOutcome::InvalidRepeated(_))));
}

#[test]
fn approval_policy_decides_valid_calls() {
    let denied = AgentSession::new(sample_config(), None, None, None, Some(ApprovalPolicy::OnRequest)).unwrap();
    let asked = AgentSession::new_interactive(sample_config(), None, None, None, Some(ApprovalPolicy::OnRequest)).unwrap();
    let mut counts = InvalidCallCounts::new();
    let pwd = call("c1", "pwd", "{}");
    assert!(matches!(denied.check_tool_call(&pwd, &object(vec![]), &mut counts), CallDecision::Deny));
    assert!(matches!(asked.check_tool_call(&pwd, &object(vec![]), &mut counts), CallDecision::AskApproval));
}

fn reply(content: Option<&str>, calls: Option<Vec<ToolCall>>) -> ChatMessage {
    ChatMessage {
        role: "assistant".to_string(),
        content: content.map(|c| c.to_string()),
        reasoning_content: None,
        tool_calls: calls,
        tool_call_id: None,
        name: None,
    }
}

#[test]
fn turn_finishes_on_a_reply_without_tool_calls() {
    let mut session = AgentSession::new(sample_config(), None, None, None, None).unwrap();
    let mut counts = InvalidCallCounts::new();
    let action = session
        .advance(TurnEvent::UserInput("hello".to_string()), &mut counts)
        .unwrap();
    assert!(matches!(action, TurnAction::AskModel(_)));
    assert_eq!(session.transcript().len(), 2);
    let action = session
        .advance(TurnEvent::Reply(reply(Some("hi there"), None)), &mut counts)
        .unwrap();
    match action {
        TurnAction::Finish(answer) => assert_eq!(answer, "hi there"),
        other => panic!("unexpected {other:?}"),
    }
    assert_eq!(session.transcript().len(), 3);
}

#[test]
fn turn_runs_calls_then_asks_again() {
    let mut session = AgentSession::new(sample_config(), None, None, None, None).unwrap();
    let mut counts = InvalidCallCounts::new();
    session
        .advance(TurnEvent::UserInput("where am I?".to_string()), &mut counts)
        .unwrap();
    let action = session
        .advance(
            TurnEvent::Reply(reply(None, Some(vec![call("call_1", "pwd", "{}")]))),
            &mut counts,
        )
        .unwrap();
    let calls = match action {
        TurnAction::RunCalls(calls) => calls,
        other => panic!("unexpected {other:?}"),
    };
    assert_eq!(calls.len(), 1);
    let step = session
        .advance(
            TurnEvent::ToolDone(calls[0].clone(), ToolOutcome::Completed("/tmp".to_string())),
            &mut counts,
        )
        .unwrap();
    assert!(matches!(step, TurnAction::Continue));
    assert_eq!(session.transcript().last().unwrap().role, "tool");
    let next = session.advance(TurnEvent::RoundDone, &mut counts).unwrap();
    match next {
        TurnAction::AskModel(request) => assert_eq!(request.tool_choice, None),
        other => panic!("unexpected {other:?}"),
    }
}

#[test]
fn repeated_invalid_call_across_replies_stops_the_turn() {
    let mut session =
        AgentSession::new(sample_config(), Some("reader".to_string()), None, None, None).unwrap();
    let mut counts = InvalidCallCounts::new();
    session
        .advance(TurnEvent::UserInput("run uname".to_string()), &mut counts)
        .unwrap();
    for round in 0..2 {
        let id = format!("call_{round}");
        let action = session
            .advance(
                TurnEvent::Reply(reply(None, Some(vec![call(&id, "shell_exec", "{}")]))),
                &mut counts,
            )
            .unwrap();
        let calls = match action {
            TurnAction::RunCalls(calls) => calls,
            other => panic!("unexpected {other:?}"),
        };
        let decision = session.check_tool_call(&calls[0], &object(vec![]), &mut counts);
        let outcome = match decision {
            CallDecision::Invalid(outcome) => outcome,
            other => panic!("unexpected {other:?}"),
        };
        let step = session
            .advance(TurnEvent::ToolDone(calls[0].clone(), outcome), &mut counts)
            .unwrap();
        if round == 0 {
            assert!(matches!(step, TurnAction::Continue));
            let next = session.advance(TurnEvent::RoundDone, &mut counts).unwrap();
            assert!(matches!(next, TurnAction::AskModel(_)));
        } else {
            match step {
                TurnAction::Finish(message) => {
                    assert!(message.contains("shell_exec"));
                    assert_eq!(
                        session.transcript().last().unwrap().content.as_deref(),
                        Some(message.as_str())
                    );
                }
                other => panic!("unexpected {other:?}"),
            }
        }
    }
}

#[test]
fn chat_lines_are_read_as_commands() {
    assert!(matches!(repl_command("   "), ReplCommand::Skip));
    assert!(matches!(repl_command(" /exit "), ReplCommand::Exit));
    assert!(matches!(repl_command("/quit"), ReplCommand::Exit));
    assert!(matches!(repl_command("/help"), ReplCommand::Help));
    assert!(matches!(repl_command("/tools"), ReplCommand::Tools));
    assert!(matches!(repl_command("/config"), ReplCommand::Config));
    assert!(matches!(repl_command("/id"), ReplCommand::Id));
    match repl_command("  list files  ") {
        ReplCommand::Send(text) => assert_eq!(text, "list files"),
        other => panic!("unexpected {other:?}"),
    }
    assert!(matches!(repl_command("/exit now"), ReplCommand::Send(_)));
}
