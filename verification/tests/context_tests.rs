use rob::context::{
    estimate_messages_tokens, inject_runtime_context, prepare_context, try_prepare_context,
    ContextWindowConfig,
};
use rob::llm::{
    assistant_text_message, system_message, tool_message, user_message, ChatMessage, ToolCall,
    ToolCallFunction,
};

#[test]
fn prepare_context_compacts_old_messages() {
    let mut messages = vec![system_message()];
    for index in 0..20 {
        messages.push(user_message(&format!("message {index} {}", "x".repeat(80))));
        messages.push(assistant_text_message(&format!("answer {index}")));
    }

    let prepared = prepare_context(
        &messages,
        &ContextWindowConfig {
            token_threshold: 20,
            recent_messages: 4,
        },
    );

    assert!(prepared.compacted);
    assert_eq!(prepared.messages.first().unwrap().role, "system");
    assert!(prepared.messages[1]
        .content
        .as_deref()
        .unwrap()
        .contains("Context summary"));
    assert_eq!(prepared.messages.len(), 6);
}

#[test]
fn prepare_context_keeps_tool_call_pair_together() {
    let messages = vec![
        system_message(),
        user_message("old"),
        assistant_text_message("old answer"),
        user_message("inspect cwd"),
        ChatMessage {
            role: "assistant".to_string(),
            content: None,
            reasoning_content: None,
            tool_calls: Some(vec![ToolCall {
                id: "call_1".to_string(),
                call_type: "function".to_string(),
                function: ToolCallFunction {
                    name: "pwd".to_string(),
                    arguments: "{}".to_string(),
                },
            }]),
            tool_call_id: None,
            name: None,
        },
        tool_message(
            "call_1".to_string(),
            "pwd".to_string(),
            "/mnt/emmc/lxm/ROB".to_string(),
        ),
    ];

    let prepared = prepare_context(
        &messages,
        &ContextWindowConfig {
            token_threshold: 1,
            recent_messages: 1,
        },
    );

    assert_eq!(prepared.messages[2].role, "assistant");
    assert!(prepared.messages[2].tool_calls.is_some());
    assert_eq!(prepared.messages[3].role, "tool");
}

#[test]
fn inject_runtime_context_keeps_primary_system_first() {
    let messages = vec![system_message(), user_message("hello")];

    let prepared = inject_runtime_context(&messages, "runtime tools");

    assert_eq!(prepared[0].role, "system");
    assert!(prepared[0]
        .content
        .as_deref()
        .unwrap()
        .contains("You are ROB"));
    assert_eq!(prepared[1].role, "system");
    assert_eq!(prepared[1].content.as_deref(), Some("runtime tools"));
    assert_eq!(prepared[2].role, "user");
}

#[test]
fn inject_then_remove_gives_the_conversation_back() {
    let messages = vec![user_message("hello"), assistant_text_message("hi")];
    let mut injected = inject_runtime_context(&messages, "  ctx  ");
    assert_eq!(injected[0].content.as_deref(), Some("ctx"));
    injected.remove(0);
    assert_eq!(injected.len(), messages.len());
    assert_eq!(injected[0].content, messages[0].content);
    assert_eq!(injected[1].content, messages[1].content);
    let unchanged = inject_runtime_context(&messages, " \n ");
    assert_eq!(unchanged.len(), 2);
}

#[test]
fn token_estimate_rounds_bytes_up() {
    assert_eq!(estimate_messages_tokens(&[]), 1);
    // role "user" (4 bytes) + content "abcde" (5 bytes) = 9 bytes -> 3 tokens
    assert_eq!(estimate_messages_tokens(&[user_message("abcde")]), 3);
    // role "user" + "é" (2 bytes) = 6 bytes -> 2 tokens
    assert_eq!(estimate_messages_tokens(&[user_message("é")]), 2);
}

#[test]
fn small_conversations_are_sent_as_they_are() {
    let messages = vec![system_message(), user_message("hi")];
    let prepared = prepare_context(&messages, &ContextWindowConfig::default());
    assert!(!prepared.compacted);
    assert_eq!(prepared.messages.len(), 2);
    assert_eq!(prepared.estimated_tokens, estimate_messages_tokens(&messages));
}

#[test]
fn summary_lists_old_messages() {
    let messages = vec![
        system_message(),
        user_message("first   question\nwith  spaces"),
        assistant_text_message("first answer"),
        user_message("second"),
        assistant_text_message("second answer"),
    ];
    let prepared = prepare_context(
        &messages,
        &ContextWindowConfig { token_threshold: 1, recent_messages: 1 },
    );
    let summary = prepared.messages[1].content.as_deref().unwrap();
    assert!(summary.starts_with("Context summary replacing earlier conversation messages."));
    assert!(summary.contains("- user: first question with spaces\n"));
    assert!(summary.contains("- assistant said: first answer\n"));
    assert_eq!(prepared.messages.len(), 3);
}

#[test]
fn long_summaries_are_cut_at_the_limit() {
    let mut messages = vec![system_message()];
    for index in 0..40 {
        messages.push(user_message(&format!("{index} {}", "y".repeat(600))));
    }
    let prepared = prepare_context(
        &messages,
        &ContextWindowConfig { token_threshold: 1, recent_messages: 1 },
    );
    let summary = prepared.messages[1].content.as_deref().unwrap();
    assert!(summary.ends_with("\n[summary truncated]"));
    assert_eq!(summary.len(), 8000 + "\n[summary truncated]".len());
}

#[test]
fn summary_cut_inside_a_character_is_refused() {
    // Entries of "- user: a" followed by 700 three-byte characters: the
    // 8000-byte limit falls two bytes into a character.
    let mut messages = vec![system_message()];
    for _ in 0..10 {
        messages.push(user_message(&format!("a{}", "界".repeat(700))));
    }
    let config = ContextWindowConfig { token_threshold: 1, recent_messages: 1 };
    assert!(try_prepare_context(&messages, &config).is_none());

    // Without the leading `a` the limit falls between two characters.
    let mut fitting = vec![system_message()];
    for _ in 0..10 {
        fitting.push(user_message(&"界".repeat(700)));
    }
    let prepared = try_prepare_context(&fitting, &config).unwrap();
    let summary = prepared.messages[1].content.as_deref().unwrap();
    assert_eq!(summary.len(), 8000 + "\n[summary truncated]".len());
}
