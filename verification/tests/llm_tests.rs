use rob::llm::{
    chat_completions_endpoint, sse_payload, StreamChoice, StreamChunk, StreamState,
    ToolCallDelta,
};

fn chunk_from_json(payload: &str) -> StreamChunk {
    let value: serde_json::Value = serde_json::from_str(payload).unwrap();
    let mut choices = Vec::new();
    for choice in value["choices"].as_array().unwrap() {
        let delta = &choice["delta"];
        let content = delta["content"].as_str().map(str::to_string);
        let mut tool_calls = Vec::new();
        if let Some(calls) = delta["tool_calls"].as_array() {
            for call in calls {
                tool_calls.push(ToolCallDelta {
                    index: call["index"].as_u64().unwrap() as usize,
                    id: call["id"].as_str().map(str::to_string),
                    call_type: call["type"].as_str().map(str::to_string),
                    name: call["function"]["name"].as_str().map(str::to_string),
                    arguments: call["function"]["arguments"].as_str().map(str::to_string),
                });
            }
        }
        choices.push(StreamChoice { content, tool_calls });
    }
    StreamChunk { choices }
}

#[test]
fn chat_endpoint_appends_chat_completions() {
    assert_eq!(
        chat_completions_endpoint("https://api.example.com/v1"),
        "https://api.example.com/v1/chat/completions"
    );
}

#[test]
fn chat_endpoint_keeps_explicit_chat_completions() {
    assert_eq!(
        chat_completions_endpoint("https://api.example.com/v1/chat/completions"),
        "https://api.example.com/v1/chat/completions"
    );
}

#[test]
fn stream_parser_accumulates_content_and_tool_calls() {
    let mut state = StreamState::new();
    let mut deltas = Vec::new();

    let first = sse_payload(r#"data: {"choices":[{"delta":{"content":"hel"}}]}"#).unwrap();
    deltas.extend(state.apply_chunk(chunk_from_json(&first)));
    let second = sse_payload(
        r#"data: {"choices":[{"delta":{"tool_calls":[{"index":0,"id":"call_1","type":"function","function":{"name":"pwd","arguments":"{}"}}]}}]}"#,
    )
    .unwrap();
    let _ = state.apply_chunk(chunk_from_json(&second));

    let message = state.finish();
    let tool_calls = message.tool_calls.unwrap();
    assert_eq!(message.content.as_deref(), Some("hel"));
    assert_eq!(deltas, vec!["hel"]);
    assert_eq!(tool_calls[0].function.name, "pwd");
    assert_eq!(tool_calls[0].function.arguments, "{}");
}

#[test]
fn endpoint_is_idempotent() {
    let once = chat_completions_endpoint("https://h.test/v1/");
    assert_eq!(once, "https://h.test/v1/chat/completions");
    assert_eq!(chat_completions_endpoint(&once), once);
}

#[test]
fn sse_lines_that_carry_no_payload() {
    assert_eq!(sse_payload("   "), None);
    assert_eq!(sse_payload(": keep-alive"), None);
    assert_eq!(sse_payload("event: message"), None);
    assert_eq!(sse_payload("data: [DONE]"), None);
    assert_eq!(sse_payload("data:  {}  ").as_deref(), Some("{}"));
}

#[test]
fn stream_lines_are_split_across_chunks() {
    let mut state = StreamState::new();
    assert!(state.push_text("data: a").is_empty());
    let lines = state.push_text("bc\r\ndata: d\n");
    assert_eq!(lines, vec!["data: abc", "data: d"]);
    assert!(state.take_last_line().is_none());
}

#[test]
fn tool_call_arguments_are_merged_by_index() {
    let mut state = StreamState::new();
    let chunk = |index: usize, name: Option<&str>, args: &str| StreamChunk {
        choices: vec![StreamChoice {
            content: None,
            tool_calls: vec![ToolCallDelta {
                index,
                id: None,
                call_type: None,
                name: name.map(str::to_string),
                arguments: Some(args.to_string()),
            }],
        }],
    };
    let _ = state.apply_chunk(chunk(1, Some("b"), "{\"x\""));
    let _ = state.apply_chunk(chunk(0, Some("a"), "{}"));
    let _ = state.apply_chunk(chunk(1, None, ":1}"));
    let message = state.finish();
    let calls = message.tool_calls.unwrap();
    assert_eq!(calls.len(), 2);
    assert_eq!(calls[0].function.name, "a");
    assert_eq!(calls[0].id, "tool_call");
    assert_eq!(calls[0].call_type, "function");
    assert_eq!(calls[1].function.arguments, "{\"x\":1}");
    assert!(message.content.is_none());
}
