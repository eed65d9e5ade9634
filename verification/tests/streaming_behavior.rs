use shai_http::events::{AgentEvent, AgentStatus, BrainOutcome, ToolCallRecord, ToolOutcome};
use shai_http::response::ResponseFormatter;
use shai_http::streaming::EventFormatter;
use shai_http::simple::SimpleFormatter;
use shai_http::streaming::{is_terminal_event, FeedItem, SseAdapter, StepAction};

fn brain(text: &str) -> FeedItem {
    FeedItem::Event {
        event: AgentEvent::BrainResult {
            thought: BrainOutcome::Message { text: text.to_string() },
        },
    }
}

fn completed(message: &str) -> FeedItem {
    FeedItem::Event {
        event: AgentEvent::Completed { message: message.to_string(), success: true },
    }
}

fn paused() -> FeedItem {
    FeedItem::Event {
        event: AgentEvent::StatusChanged { new_status: AgentStatus::Paused },
    }
}

fn call(name: &str) -> ToolCallRecord {
    ToolCallRecord {
        call_id: "c1".to_string(),
        tool_name: name.to_string(),
        arguments: "{}".to_string(),
    }
}

fn started(name: &str) -> FeedItem {
    FeedItem::Event { event: AgentEvent::ToolCallStarted { call: call(name) } }
}

fn finished(name: &str) -> FeedItem {
    FeedItem::Event {
        event: AgentEvent::ToolCallCompleted {
            call: call(name),
            result: ToolOutcome::Success { output: "ok".to_string() },
        },
    }
}

fn adapter(follow_past_pause: bool) -> SseAdapter<SimpleFormatter> {
    SseAdapter::new(
        SimpleFormatter::new("m1".to_string()),
        "sid-1".to_string(),
        follow_past_pause,
    )
}

#[test]
fn completed_is_always_terminal() {
    let done = AgentEvent::Completed { message: "d".to_string(), success: true };
    assert!(is_terminal_event(&done, true));
    assert!(is_terminal_event(&done, false));
}

#[test]
fn paused_is_terminal_only_when_not_following() {
    let pause = AgentEvent::StatusChanged { new_status: AgentStatus::Paused };
    assert!(is_terminal_event(&pause, false));
    assert!(!is_terminal_event(&pause, true));
}

#[test]
fn no_frames_after_the_terminal_frame() {
    let mut a = adapter(false);
    let items = vec![
        brain("one"),
        completed("done"),
        brain("after"),
        started("late"),
    ];
    let frames = a.run_to_frames(&items);
    assert_eq!(frames.len(), 2);
    assert_eq!(frames[0].assistant.as_deref(), Some("one"));
    assert_eq!(frames[1].assistant.as_deref(), Some("done"));
    match a.step(&brain("more")) {
        StepAction::End => {}
        _ => panic!("stream must stay ended"),
    }
}

#[test]
fn lag_signal_ends_the_stream() {
    let mut a = adapter(false);
    let frames = a.run_to_frames(&vec![brain("one"), FeedItem::Lagged, brain("two")]);
    assert_eq!(frames.len(), 1);
    assert_eq!(frames[0].assistant.as_deref(), Some("one"));
}

#[test]
fn closed_feed_ends_the_stream() {
    let mut a = adapter(false);
    let frames = a.run_to_frames(&vec![FeedItem::Closed, brain("never")]);
    assert_eq!(frames.len(), 0);
}

#[test]
fn filtered_terminal_event_still_ends_the_stream() {
    let mut a = adapter(false);
    let frames = a.run_to_frames(&vec![paused(), brain("after pause")]);
    assert_eq!(frames.len(), 0);
}

#[test]
fn follower_keeps_streaming_past_pauses() {
    let mut a = adapter(true);
    let frames = a.run_to_frames(&vec![brain("one"), paused(), brain("two"), completed("end")]);
    assert_eq!(frames.len(), 3);
    assert_eq!(frames[0].assistant.as_deref(), Some("one"));
    assert_eq!(frames[1].assistant.as_deref(), Some("two"));
    assert_eq!(frames[2].assistant.as_deref(), Some("end"));
}

#[test]
fn tool_call_frames_keep_feed_order() {
    let mut a = adapter(false);
    let items = vec![
        started("grep"),
        finished("grep"),
        started("read"),
        finished("read"),
        completed("done"),
    ];
    let frames = a.run_to_frames(&items);
    assert_eq!(frames.len(), 5);
    assert_eq!(frames[0].call.as_ref().unwrap().tool, "grep");
    assert!(frames[0].result.is_none());
    assert_eq!(frames[1].call.as_ref().unwrap().tool, "grep");
    assert_eq!(frames[1].result.as_ref().unwrap().text.as_deref(), Some("ok"));
    assert_eq!(frames[2].call.as_ref().unwrap().tool, "read");
    assert_eq!(frames[3].call.as_ref().unwrap().tool, "read");
    assert_eq!(frames[4].assistant.as_deref(), Some("done"));
}

#[test]
fn simple_frames_echo_session_id_and_model() {
    let mut a = adapter(false);
    let frames = a.run_to_frames(&vec![brain("hello")]);
    assert_eq!(frames.len(), 1);
    assert_eq!(frames[0].id, "sid-1");
    assert_eq!(frames[0].model, "m1");
}

#[test]
fn denied_tool_call_reports_a_denial_error() {
    let mut a = adapter(false);
    let item = FeedItem::Event {
        event: AgentEvent::ToolCallCompleted { call: call("rm"), result: ToolOutcome::Denied },
    };
    let frames = a.run_to_frames(&vec![item]);
    assert_eq!(frames.len(), 1);
    assert_eq!(
        frames[0].result.as_ref().unwrap().error.as_deref(),
        Some("tool call denied")
    );
}

#[test]
fn response_formatter_numbers_frames_sequentially() {
    let mut f = ResponseFormatter::new("m1".to_string());
    let sid = "resp_x".to_string();
    let created = f.created_event(&sid);
    assert_eq!(created.event_type, "response.created");
    assert_eq!(created.sequence_number, 0);
    assert_eq!(created.response_id, "resp_x");

    let mut a = SseAdapter::new(f, sid, false);
    let items = vec![
        brain("part"),
        paused_like_running(),
        started("grep"),
        completed("done"),
    ];
    let frames = a.run_to_frames(&items);
    assert_eq!(frames.len(), 3);
    assert_eq!(frames[0].event_type, "response.output_text.delta");
    assert_eq!(frames[0].sequence_number, 1);
    assert_eq!(frames[0].text.as_deref(), Some("part"));
    assert_eq!(frames[1].event_type, "response.output_item.added");
    assert_eq!(frames[1].sequence_number, 2);
    assert_eq!(frames[1].text.as_deref(), Some("grep"));
    assert_eq!(frames[2].event_type, "response.completed");
    assert_eq!(frames[2].sequence_number, 3);
}

fn paused_like_running() -> FeedItem {
    FeedItem::Event {
        event: AgentEvent::StatusChanged { new_status: AgentStatus::Running },
    }
}

#[test]
fn event_names_label_the_sse_frames() {
    let mut simple = SimpleFormatter::new("m".to_string());
    let frame = simple
        .format_event(
            &AgentEvent::Completed { message: "d".to_string(), success: true },
            "sid",
        )
        .unwrap();
    assert_eq!(simple.event_name(&frame), "message");

    let mut resp = ResponseFormatter::new("m".to_string());
    let frame = resp
        .format_event(
            &AgentEvent::Completed { message: "d".to_string(), success: true },
            "sid",
        )
        .unwrap();
    assert_eq!(resp.event_name(&frame), "response.completed");
}

#[test]
fn status_changes_are_filtered_without_consuming_sequence_numbers() {
    let mut a = SseAdapter::new(
        ResponseFormatter::new("m1".to_string()),
        "resp_y".to_string(),
        false,
    );
    let frames = a.run_to_frames(&vec![paused_like_running(), brain("x")]);
    assert_eq!(frames.len(), 1);
    assert_eq!(frames[0].sequence_number, 0);
}
