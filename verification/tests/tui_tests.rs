use rob::tui::{classify_tool_output, summarize_tool_output, truncate_chars, ToolStatus};

#[test]
fn tool_outputs_are_classified() {
    assert_eq!(classify_tool_output("  tool denied by approval policy \n"), ToolStatus::Denied);
    assert_eq!(classify_tool_output("tool error: boom"), ToolStatus::Failed);
    assert_eq!(classify_tool_output("/tmp"), ToolStatus::Called);
    assert_eq!(ToolStatus::Failed.label(), "Failed");
}

#[test]
fn tool_outputs_are_summarised() {
    assert_eq!(summarize_tool_output(""), "(empty)");
    assert_eq!(summarize_tool_output("\n  \r\n"), "(empty)");
    assert_eq!(
        summarize_tool_output(" one \r\n\n two\nthree\nfour"),
        "one | two | three"
    );
    let long = "z".repeat(300);
    let summary = summarize_tool_output(&long);
    assert_eq!(summary.chars().count(), 243);
    assert!(summary.ends_with("..."));
}

#[test]
fn text_is_cut_by_characters() {
    assert_eq!(truncate_chars("héllo", 2), "hé...");
    assert_eq!(truncate_chars("hé", 2), "hé");
}

use rob::agent::{AgentEvent, AgentSession};
use rob::config::{ProviderProfile, RobConfig};
use rob::llm::{system_message, tool_message, user_message, ChatMessage, ToolCall, ToolCallFunction};
use rob::state::SessionRecord;
use rob::tui::{TuiAction, TuiKey, TuiLine, TuiState};

fn session_with(messages: Vec<ChatMessage>) -> AgentSession {
    let mut config = RobConfig::default();
    config
        .add_active_profile(ProviderProfile::new(
            "p".to_string(),
            "https://x.test".to_string(),
            "m".to_string(),
            None,
            Some("k".to_string()),
            "openai-compatible".to_string(),
        ))
        .unwrap();
    let record = SessionRecord::new("s1".to_string(), messages);
    AgentSession::new(config, None, None, Some(record), None).unwrap()
}

fn empty_state() -> TuiState {
    TuiState {
        input: String::new(),
        lines: Vec::new(),
        streaming_assistant: None,
        status: String::new(),
        scroll: 0,
    }
}

#[test]
fn interface_shows_saved_conversation() {
    let call = ToolCall {
        id: "c1".to_string(),
        call_type: "function".to_string(),
        function: ToolCallFunction { name: "pwd".to_string(), arguments: "{ }".to_string() },
    };
    let assistant = ChatMessage {
        role: "assistant".to_string(),
        content: Some("checking".to_string()),
        reasoning_content: None,
        tool_calls: Some(vec![call]),
        tool_call_id: None,
        name: None,
    };
    let session = session_with(vec![
        system_message(),
        user_message("where?"),
        assistant,
        tool_message("c1".to_string(), "pwd".to_string(), "tool error: nope".to_string()),
    ]);
    let state = TuiState::from_session(&session).unwrap();
    assert!(state.status.starts_with("Session s1 | agent=main | p | https://x.test | m"));
    assert!(matches!(&state.lines[0], TuiLine::Message(role, text) if role == "user" && text == "where?"));
    assert!(matches!(&state.lines[2], TuiLine::Message(role, _) if role == "assistant"));
    assert!(matches!(&state.lines[4], TuiLine::Tool(ToolStatus::Calling, id, _, Some(detail)) if id == "c1" && detail == "args {}"));
    assert!(matches!(&state.lines[6], TuiLine::Tool(ToolStatus::Failed, _, _, Some(detail)) if detail == "error tool error: nope"));
    assert_eq!(state.lines.len(), 8);
}

#[test]
fn empty_conversation_shows_ready_note() {
    let state = TuiState::from_session(&session_with(vec![system_message()])).unwrap();
    assert_eq!(state.lines.len(), 2);
    assert!(matches!(&state.lines[0], TuiLine::System(text) if text.starts_with("Ready.")));
}

#[test]
fn keys_edit_and_send() {
    let mut state = empty_state();
    assert!(matches!(state.handle_key(TuiKey::Char('h', false)), TuiAction::Continue));
    assert!(matches!(state.handle_key(TuiKey::Char('i', false)), TuiAction::Continue));
    assert!(matches!(state.handle_key(TuiKey::Char('x', false)), TuiAction::Continue));
    assert!(matches!(state.handle_key(TuiKey::Backspace), TuiAction::Continue));
    assert_eq!(state.input, "hi");
    match state.handle_key(TuiKey::Enter) {
        TuiAction::Send(text) => assert_eq!(text, "hi"),
        other => panic!("unexpected {other:?}"),
    }
    assert_eq!(state.input, "");
    assert_eq!(state.status, "Waiting for model response...");
    for ch in "/id".chars() {
        state.handle_key(TuiKey::Char(ch, false));
    }
    assert!(matches!(state.handle_key(TuiKey::Enter), TuiAction::ShowId));
    state.handle_key(TuiKey::Char('z', false));
    assert!(matches!(state.handle_key(TuiKey::Char('u', true)), TuiAction::Continue));
    assert_eq!(state.input, "");
    assert!(matches!(state.handle_key(TuiKey::Char('c', true)), TuiAction::Exit));
    assert!(matches!(state.handle_key(TuiKey::Up), TuiAction::Continue));
    assert_eq!(state.scroll, 0);
    state.handle_key(TuiKey::Down);
    assert_eq!(state.scroll, 1);
}

#[test]
fn streamed_reply_is_committed_before_tool_events() {
    let mut state = empty_state();
    state.push_agent_event(AgentEvent::AssistantDelta("let me ".to_string()));
    state.push_agent_event(AgentEvent::AssistantDelta("look".to_string()));
    assert_eq!(state.streaming_assistant.as_deref(), Some("let me look"));
    state.push_agent_event(AgentEvent::ToolCallStarted {
        id: "c".to_string(),
        name: "pwd".to_string(),
        arguments: "{}".to_string(),
    });
    assert_eq!(state.status, "Calling tool pwd...");
    assert!(state.streaming_assistant.is_none());
    assert!(matches!(&state.lines[0], TuiLine::Message(_, text) if text == "let me look"));
    state.push_agent_event(AgentEvent::ToolCallDenied { id: "c".to_string(), name: "pwd".to_string() });
    assert_eq!(state.status, "Tool pwd denied");
    state.finish_turn(Ok(String::new()), "s1");
    assert!(matches!(state.lines.iter().rev().nth(1), Some(TuiLine::System(text)) if text == "Model returned an empty response."));
    assert_eq!(state.status, "Session s1 saved");
    state.finish_turn(Err("boom".to_string()), "s1");
    assert_eq!(state.status, "Request failed");
}
