use shai_http::completion::{
    ChatCompletionFormatter, CompletionAccumulator, CompletionRequest,
};
use shai_http::error::ErrorResponse;
use shai_http::events::{AgentEvent, AgentStatus, BrainOutcome, ToolCallRecord, ToolOutcome};
use shai_http::http::ServerConfig;
use shai_http::ids::fresh_id;
use shai_http::json::json_object_of_pairs;
use shai_http::messages::{
    extract_user_inputs, flatten_content, ChatMessage, ContentPart, MessageContent,
};
use shai_http::response::resolve_response_routing;
use shai_http::simple::{
    build_message_trace, Message, MultiModalQuery, PreviousCall, ToolCall, ToolCallResult,
    UserMessage,
};
use shai_http::streaming::{FeedItem, SseAdapter};
use shai_http::strutil::{first_line, u64_to_dec};

fn call(name: &str) -> ToolCallRecord {
    ToolCallRecord {
        call_id: "c1".to_string(),
        tool_name: name.to_string(),
        arguments: "{}".to_string(),
    }
}

fn empty_result() -> ToolCallResult {
    ToolCallResult {
        text: None,
        text_stream: None,
        image: None,
        speech: None,
        other: None,
        error: None,
        extra: None,
    }
}

#[test]
fn multipart_user_content_flattens_to_newline_joined_text() {
    let content = MessageContent::Parts {
        parts: vec![
            ContentPart::Text { text: "first".to_string() },
            ContentPart::Other,
            ContentPart::Text { text: "second".to_string() },
        ],
    };
    assert_eq!(flatten_content(&content), "first\nsecond");
    assert_eq!(flatten_content(&MessageContent::Empty), "");
}

#[test]
fn user_inputs_keep_order_and_drop_empties() {
    let trace = vec![
        ChatMessage::User {
            content: MessageContent::Text { text: "one".to_string() },
            name: None,
        },
        ChatMessage::User { content: MessageContent::Empty, name: None },
        ChatMessage::User {
            content: MessageContent::Text { text: "two".to_string() },
            name: None,
        },
    ];
    assert_eq!(extract_user_inputs(&trace), vec!["one".to_string(), "two".to_string()]);
}

#[test]
fn simple_trace_maps_previous_calls_to_tool_call_pairs() {
    let query = MultiModalQuery {
        model: "m".to_string(),
        stream: true,
        messages: Some(vec![
            Message::User(UserMessage { message: "hi".to_string(), attached_files: None }),
            Message::PreviousCall(PreviousCall {
                call: ToolCall {
                    tool: "grep".to_string(),
                    args: vec![("pattern".to_string(), "x".to_string())],
                    output: None,
                },
                result: ToolCallResult { text: Some("found".to_string()), ..empty_result() },
            }),
        ]),
        tools: None,
    };
    let trace = build_message_trace(&query);
    assert_eq!(trace.len(), 3);
    match &trace[0] {
        ChatMessage::User { content: MessageContent::Text { text }, .. } => {
            assert_eq!(text, "hi")
        }
        _ => panic!("first message must be the user turn"),
    }
    let cid = match &trace[1] {
        ChatMessage::Assistant { content, tool_calls, .. } => {
            assert!(content.is_none());
            let calls = tool_calls.as_ref().unwrap();
            assert_eq!(calls.len(), 1);
            assert_eq!(calls[0].call_type, "function");
            assert_eq!(calls[0].function.name, "grep");
            assert_eq!(calls[0].function.arguments, "{\"pattern\":\"x\"}");
            assert!(calls[0].id.starts_with("call_"));
            assert_eq!(calls[0].id.len(), 41);
            calls[0].id.clone()
        }
        _ => panic!("second message must carry the tool call"),
    };
    match &trace[2] {
        ChatMessage::Tool { content, tool_call_id } => {
            assert_eq!(content, "found");
            assert_eq!(*tool_call_id, cid);
        }
        _ => panic!("third message must be the tool reply"),
    }
}

#[test]
fn simple_trace_falls_back_to_no_result_text() {
    let query = MultiModalQuery {
        model: "m".to_string(),
        stream: false,
        messages: Some(vec![Message::PreviousCall(PreviousCall {
            call: ToolCall { tool: "t".to_string(), args: vec![], output: None },
            result: empty_result(),
        })]),
        tools: None,
    };
    let trace = build_message_trace(&query);
    match &trace[1] {
        ChatMessage::Tool { content, .. } => assert_eq!(content, "No result"),
        _ => panic!("expected the tool reply"),
    }
}

#[test]
fn completion_trace_keeps_text_and_drops_the_rest() {
    let params = CompletionRequest {
        model: "m".to_string(),
        stream: Some(false),
        messages: vec![
            ChatMessage::System {
                content: MessageContent::Text { text: "be brief".to_string() },
                name: None,
            },
            ChatMessage::User {
                content: MessageContent::Parts {
                    parts: vec![
                        ContentPart::Text { text: "a".to_string() },
                        ContentPart::Text { text: "b".to_string() },
                    ],
                },
                name: None,
            },
            ChatMessage::User { content: MessageContent::Empty, name: None },
            ChatMessage::Assistant {
                content: None,
                tool_calls: None,
                name: None,
                reasoning_content: None,
            },
            ChatMessage::Tool { content: "x".to_string(), tool_call_id: "c".to_string() },
        ],
    };
    let trace = shai_http::completion::build_message_trace(&params);
    assert_eq!(trace.len(), 2);
    match &trace[0] {
        ChatMessage::System { content: MessageContent::Text { text }, .. } => {
            assert_eq!(text, "be brief")
        }
        _ => panic!("system text must be kept"),
    }
    match &trace[1] {
        ChatMessage::User { content: MessageContent::Text { text }, .. } => {
            assert_eq!(text, "a\nb")
        }
        _ => panic!("user text must be flattened"),
    }
}

#[test]
fn completion_accumulator_collects_message_and_reasoning() {
    let events = vec![
        AgentEvent::BrainResult { thought: BrainOutcome::Message { text: "draft".to_string() } },
        AgentEvent::ToolCallStarted { call: call("grep") },
        AgentEvent::ToolCallCompleted {
            call: call("grep"),
            result: ToolOutcome::Success { output: "ok".to_string() },
        },
        AgentEvent::ToolCallCompleted {
            call: call("rm"),
            result: ToolOutcome::Failure { error: "denied\nby policy".to_string() },
        },
        AgentEvent::Completed { message: "final".to_string(), success: true },
        AgentEvent::BrainResult { thought: BrainOutcome::Message { text: "late".to_string() } },
    ];
    let mut acc = CompletionAccumulator::new();
    acc.collect(&events);
    assert_eq!(acc.final_message, "final");
    assert_eq!(
        acc.reasoning_content().unwrap(),
        "[toolcall: grep]\n[tool succeeded: grep]\n[tool failed: rm - denied]"
    );
}

#[test]
fn accumulator_without_tool_events_has_no_reasoning() {
    let mut acc = CompletionAccumulator::new();
    acc.collect(&vec![AgentEvent::Completed { message: "m".to_string(), success: true }]);
    assert_eq!(acc.final_message, "m");
    assert!(acc.reasoning_content().is_none());
}

#[test]
fn accumulator_stops_at_a_pause() {
    let events = vec![
        AgentEvent::BrainResult { thought: BrainOutcome::Message { text: "a".to_string() } },
        AgentEvent::StatusChanged { new_status: AgentStatus::Paused },
        AgentEvent::BrainResult { thought: BrainOutcome::Message { text: "b".to_string() } },
    ];
    let mut acc = CompletionAccumulator::new();
    acc.collect(&events);
    assert_eq!(acc.final_message, "a");
}

#[test]
fn completion_chunks_carry_reasoning_lines_and_finish_reason() {
    let mut a = SseAdapter::new(
        ChatCompletionFormatter::new("m1".to_string()),
        "sid".to_string(),
        false,
    );
    let items = vec![
        FeedItem::Event {
            event: AgentEvent::BrainResult {
                thought: BrainOutcome::Message { text: "hello".to_string() },
            },
        },
        FeedItem::Event { event: AgentEvent::ToolCallStarted { call: call("grep") } },
        FeedItem::Event {
            event: AgentEvent::ToolCallCompleted {
                call: call("grep"),
                result: ToolOutcome::Denied,
            },
        },
        FeedItem::Event {
            event: AgentEvent::Completed { message: "bye".to_string(), success: true },
        },
    ];
    let frames = a.run_to_frames(&items);
    assert_eq!(frames.len(), 4);
    assert_eq!(frames[0].delta_content.as_deref(), Some("hello"));
    assert_eq!(frames[1].delta_reasoning.as_deref(), Some("[toolcall: grep]"));
    assert_eq!(frames[2].delta_reasoning.as_deref(), Some("[tool denied: grep]"));
    assert_eq!(frames[3].finish_reason.as_deref(), Some("stop"));
    assert_eq!(frames[3].delta_content.as_deref(), Some("bye"));
}

#[test]
fn first_line_stops_at_newline_and_strips_carriage_return() {
    assert_eq!(first_line(&"plain".to_string()), "plain");
    assert_eq!(first_line(&"one\ntwo".to_string()), "one");
    assert_eq!(first_line(&"one\r\ntwo".to_string()), "one");
    assert_eq!(first_line(&"".to_string()), "");
    assert_eq!(first_line(&"\nrest".to_string()), "");
}

#[test]
fn decimal_rendering_is_exact() {
    assert_eq!(u64_to_dec(0), "0");
    assert_eq!(u64_to_dec(7), "7");
    assert_eq!(u64_to_dec(1234567890), "1234567890");
    assert_eq!(u64_to_dec(u64::MAX), "18446744073709551615");
}

#[test]
fn json_objects_escape_keys_and_values() {
    assert_eq!(json_object_of_pairs(&vec![]), "{}");
    assert_eq!(
        json_object_of_pairs(&vec![("k".to_string(), "v".to_string())]),
        "{\"k\":\"v\"}"
    );
    assert_eq!(
        json_object_of_pairs(&vec![
            ("a\"b".to_string(), "c\\d".to_string()),
            ("nl".to_string(), "x\ny\tz".to_string()),
        ]),
        "{\"a\\\"b\":\"c\\\\d\",\"nl\":\"x\\ny\\tz\"}"
    );
    assert_eq!(
        json_object_of_pairs(&vec![("c".to_string(), "\u{1}".to_string())]),
        "{\"c\":\"\\u0001\"}"
    );
}

#[test]
fn fresh_ids_have_the_uuid_shape() {
    let a = fresh_id();
    let b = fresh_id();
    assert_eq!(a.len(), 36);
    assert_eq!(b.len(), 36);
}

#[test]
fn response_routing_follows_store_and_previous_id() {
    let fresh = resolve_response_routing(&None, None, None);
    assert!(!fresh.strict_lookup);
    assert!(!fresh.ephemeral);
    assert!(!fresh.streaming);
    assert!(fresh.session_id.starts_with("resp_"));
    assert_eq!(fresh.session_id.len(), 41);

    let stateless = resolve_response_routing(&None, Some(false), Some(true));
    assert!(stateless.ephemeral);
    assert!(stateless.streaming);

    let follow = resolve_response_routing(&Some("resp_abc".to_string()), Some(true), None);
    assert!(follow.strict_lookup);
    assert!(!follow.ephemeral);
    assert_eq!(follow.session_id, "resp_abc");
}

#[test]
fn error_envelopes_map_kinds_to_statuses() {
    let nf = ErrorResponse::not_found("missing".to_string());
    assert_eq!(nf.error.kind, "not_found");
    assert_eq!(nf.error.code.as_deref(), Some("model_not_found"));
    assert_eq!(nf.status_code(), 404);

    let bad = ErrorResponse::invalid_request("bad".to_string());
    assert_eq!(bad.status_code(), 400);
    assert!(bad.error.code.is_none());

    let ise = ErrorResponse::internal_error("boom".to_string());
    assert_eq!(ise.status_code(), 500);
    assert_eq!(ise.error.message, "boom");

    let custom = ErrorResponse::new("m".to_string(), "weird".to_string(), None);
    assert_eq!(custom.status_code(), 500);
}

#[test]
fn server_config_builders_set_their_fields() {
    let c = ServerConfig::new("127.0.0.1:8080".to_string())
        .with_ephemeral(true)
        .with_max_sessions(Some(3));
    assert_eq!(c.address, "127.0.0.1:8080");
    assert!(c.session_manager.ephemeral);
    assert_eq!(c.session_manager.max_sessions, Some(3));
    let unlimited = ServerConfig::new("h:1".to_string()).with_max_sessions(None);
    assert_eq!(unlimited.session_manager.max_sessions, None);
    assert!(!unlimited.session_manager.ephemeral);
}
