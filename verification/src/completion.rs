//! OpenAI-compatible chat completions: the trace builder, the streamed
//! chunk formatter, and the accumulator behind the non-streaming reply.
use vstd::prelude::*;

use crate::events::{AgentEvent, BrainOutcome, ToolCallRecord, ToolOutcome};
use crate::messages::{
    flatten_content, spec_flatten_content, view_opt_str, ChatMessage, ChatMessageView,
    MessageContent, MessageContentView,
};
use crate::streaming::{is_terminal_event, spec_is_terminal, EventFormatter};
use crate::strutil::{first_line, spec_first_line};
use vstd::string::StringExecFns;

verus! {

/// A chat-completions request, projected to the fields the core consumes.
pub struct CompletionRequest {
    pub model: String,
    pub stream: Option<bool>,
    pub messages: Vec<ChatMessage>,
}

/// The trace one request message contributes: system messages with plain
/// text kept verbatim, user messages flattened to non-empty text,
/// assistant messages kept only for their text with tool calls stripped;
/// everything else is reference material and dropped.
pub open spec fn spec_completion_message_trace(m: ChatMessage) -> Seq<ChatMessageView> {
    match m {
        ChatMessage::System { content, name } => match content {
            MessageContent::Text { text } => seq![
                ChatMessageView::System {
                    content: MessageContentView::Text { text: text@ },
                    name: view_opt_str(name),
                },
            ],
            _ => Seq::empty(),
        },
        ChatMessage::User { content, name } => {
            let flat = spec_flatten_content(content);
            if flat.len() > 0 {
                seq![
                    ChatMessageView::User {
                        content: MessageContentView::Text { text: flat },
                        name: view_opt_str(name),
                    },
                ]
            } else {
                Seq::empty()
            }
        },
        ChatMessage::Assistant { content, tool_calls, name, reasoning_content } => match content {
            Some(MessageContent::Text { text }) => seq![
                ChatMessageView::Assistant {
                    content: Some(MessageContentView::Text { text: text@ }),
                    tool_calls: None,
                    name: view_opt_str(name),
                    reasoning_content: None,
                },
            ],
            _ => Seq::empty(),
        },
        ChatMessage::Tool { content, tool_call_id } => Seq::empty(),
    }
}

/// The whole trace a request's message list maps to.
pub open spec fn spec_completion_trace(msgs: Seq<ChatMessage>) -> Seq<ChatMessageView>
    decreases msgs.len(),
{
    if msgs.len() == 0 {
        Seq::empty()
    } else {
        spec_completion_message_trace(msgs[0]) + spec_completion_trace(msgs.drop_first())
    }
}

pub proof fn lemma_completion_trace_push(msgs: Seq<ChatMessage>, m: ChatMessage)
    ensures
        spec_completion_trace(msgs.push(m)) == spec_completion_trace(msgs)
            + spec_completion_message_trace(m),
    decreases msgs.len(),
{
    if msgs.len() == 0 {
        assert(msgs.push(m)[0] == m);
        assert(msgs.push(m).drop_first() =~= Seq::<ChatMessage>::empty());
        assert(spec_completion_trace(Seq::<ChatMessage>::empty()) == Seq::<ChatMessageView>::empty());
        assert(spec_completion_message_trace(m) + Seq::<ChatMessageView>::empty()
            =~= spec_completion_message_trace(m));
        assert(spec_completion_trace(msgs) + spec_completion_message_trace(m)
            =~= spec_completion_message_trace(m));
    } else {
        assert(msgs.push(m)[0] == msgs[0]);
        assert(msgs.push(m).drop_first() =~= msgs.drop_first().push(m));
        lemma_completion_trace_push(msgs.drop_first(), m);
        assert(spec_completion_message_trace(msgs[0]) + (spec_completion_trace(msgs.drop_first())
            + spec_completion_message_trace(m)) =~= (spec_completion_message_trace(msgs[0])
            + spec_completion_trace(msgs.drop_first())) + spec_completion_message_trace(m));
    }
}

/// Build the trace a chat-completions request replays into the agent.
pub fn build_message_trace(params: &CompletionRequest) -> (r: Vec<ChatMessage>)
    ensures
        r@.map_values(|m: ChatMessage| m@) == spec_completion_trace(params.messages@),
{
    let mut trace: Vec<ChatMessage> = Vec::new();
    let mut i: usize = 0;
    proof {
        assert(params.messages@.take(0) =~= Seq::<ChatMessage>::empty());
        assert(trace@.map_values(|m: ChatMessage| m@) =~= Seq::<ChatMessageView>::empty());
    }
    while i < params.messages.len()
        invariant
            0 <= i <= params.messages@.len(),
            trace@.map_values(|m: ChatMessage| m@) == spec_completion_trace(
                params.messages@.take(i as int),
            ),
        decreases params.messages@.len() - i,
    {
        let ghost pre = trace@;
        match &params.messages[i] {
            ChatMessage::System { content, name } => {
                match content {
                    MessageContent::Text { text } => {
                        trace.push(
                            ChatMessage::System {
                                content: MessageContent::Text { text: text.clone() },
                                name: clone_opt_string(name),
                            },
                        );
                    },
                    _ => {},
                }
            },
            ChatMessage::User { content, name } => {
                let flat = flatten_content(content);
                if !flat.as_str().is_empty() {
                    trace.push(
                        ChatMessage::User {
                            content: MessageContent::Text { text: flat },
                            name: clone_opt_string(name),
                        },
                    );
                }
            },
            ChatMessage::Assistant { content, tool_calls, name, reasoning_content } => {
                match content {
                    Some(MessageContent::Text { text }) => {
                        trace.push(
                            ChatMessage::Assistant {
                                content: Some(MessageContent::Text { text: text.clone() }),
                                tool_calls: None,
                                name: clone_opt_string(name),
                                reasoning_content: None,
                            },
                        );
                    },
                    _ => {},
                }
            },
            ChatMessage::Tool { content, tool_call_id } => {},
        }
        proof {
            assert(params.messages@.take(i as int + 1) =~= params.messages@.take(i as int).push(
                params.messages@[i as int],
            ));
            lemma_completion_trace_push(
                params.messages@.take(i as int),
                params.messages@[i as int],
            );
            let contributed = spec_completion_message_trace(params.messages@[i as int]);
            if contributed.len() > 0 {
                assert(trace@.map_values(|m: ChatMessage| m@) =~= pre.map_values(
                    |m: ChatMessage| m@,
                ) + contributed);
            } else {
                assert(spec_completion_trace(params.messages@.take(i as int)) + contributed
                    =~= spec_completion_trace(params.messages@.take(i as int)));
            }
        }
        i = i + 1;
    }
    proof {
        assert(params.messages@.take(params.messages@.len() as int) =~= params.messages@);
    }
    trace
}

/// Clone an optional string, preserving its model.
fn clone_opt_string(o: &Option<String>) -> (r: Option<String>)
    ensures
        view_opt_str(r) == view_opt_str(*o),
{
    match o {
        Some(s) => Some(s.clone()),
        None => None,
    }
}

/// The reasoning line recorded when a tool call starts.
pub open spec fn spec_started_step(call: ToolCallRecord) -> Seq<char> {
    "[toolcall: "@ + call.tool_name@ + "]"@
}

/// The reasoning line recorded when a tool call finishes: its outcome and,
/// for a failure, the first line of the error.
pub open spec fn spec_completed_step(call: ToolCallRecord, outcome: ToolOutcome) -> Seq<char> {
    match outcome {
        ToolOutcome::Success { output } => "[tool succeeded: "@ + call.tool_name@ + "]"@,
        ToolOutcome::Failure { error } => "[tool failed: "@ + call.tool_name@ + " - "@
            + spec_first_line(error@) + "]"@,
        ToolOutcome::Denied => "[tool denied: "@ + call.tool_name@ + "]"@,
    }
}

/// The reasoning line for a started tool call.
pub fn started_step(call: &ToolCallRecord) -> (r: String)
    ensures
        r@ == spec_started_step(*call),
{
    let mut s = "[toolcall: ".to_owned();
    s.append(call.tool_name.as_str());
    s.append("]");
    s
}

/// The reasoning line for a finished tool call.
pub fn completed_step(call: &ToolCallRecord, outcome: &ToolOutcome) -> (r: String)
    ensures
        r@ == spec_completed_step(*call, *outcome),
{
    match outcome {
        ToolOutcome::Success { output } => {
            let mut s = "[tool succeeded: ".to_owned();
            s.append(call.tool_name.as_str());
            s.append("]");
            s
        },
        ToolOutcome::Failure { error } => {
            let line = first_line(error);
            let mut s = "[tool failed: ".to_owned();
            s.append(call.tool_name.as_str());
            s.append(" - ");
            s.append(line.as_str());
            s.append("]");
            s
        },
        ToolOutcome::Denied => {
            let mut s = "[tool denied: ".to_owned();
            s.append(call.tool_name.as_str());
            s.append("]");
            s
        },
    }
}

/// One streamed chunk of the chat-completions API.
pub struct ChatCompletionChunk {
    /// The session id, echoed so the client can correlate.
    pub id: String,
    pub model: String,
    /// Assistant text produced by an LLM turn.
    pub delta_content: Option<String>,
    /// One reasoning line summarizing a tool event.
    pub delta_reasoning: Option<String>,
    /// `stop` on the terminal chunk.
    pub finish_reason: Option<String>,
}

/// Model of one streamed chunk.
pub ghost struct ChatCompletionChunkView {
    pub id: Seq<char>,
    pub model: Seq<char>,
    pub delta_content: Option<Seq<char>>,
    pub delta_reasoning: Option<Seq<char>>,
    pub finish_reason: Option<Seq<char>>,
}

impl View for ChatCompletionChunk {
    type V = ChatCompletionChunkView;

    open spec fn view(&self) -> ChatCompletionChunkView {
        ChatCompletionChunkView {
            id: self.id@,
            model: self.model@,
            delta_content: view_opt_str(self.delta_content),
            delta_reasoning: view_opt_str(self.delta_reasoning),
            finish_reason: view_opt_str(self.finish_reason),
        }
    }
}

/// Formatter of the streamed chat-completions API: assistant text as
/// content deltas, tool events as reasoning deltas, a closing chunk with a
/// finish reason; status changes, empty turns and non-terminal errors are
/// filtered.
pub struct ChatCompletionFormatter {
    pub model: String,
}

impl ChatCompletionFormatter {
    pub fn new(model: String) -> (r: Self)
        ensures
            r.model == model,
    {
        ChatCompletionFormatter { model }
    }
}

/// An empty chunk carrying only the ids.
pub open spec fn spec_chunk_base(sid: Seq<char>, model: Seq<char>) -> ChatCompletionChunkView {
    ChatCompletionChunkView {
        id: sid,
        model,
        delta_content: None,
        delta_reasoning: None,
        finish_reason: None,
    }
}

/// The chunk the formatter emits for one event.
pub open spec fn spec_chunk_output(f: ChatCompletionFormatter, e: AgentEvent, sid: Seq<char>) -> Option<
    ChatCompletionChunkView,
> {
    let base = spec_chunk_base(sid, f.model@);
    match e {
        AgentEvent::BrainResult { thought } => match thought {
            BrainOutcome::Message { text } => Some(
                ChatCompletionChunkView { delta_content: Some(text@), ..base },
            ),
            _ => None,
        },
        AgentEvent::ToolCallStarted { call } => Some(
            ChatCompletionChunkView { delta_reasoning: Some(spec_started_step(call)), ..base },
        ),
        AgentEvent::ToolCallCompleted { call, result } => Some(
            ChatCompletionChunkView {
                delta_reasoning: Some(spec_completed_step(call, result)),
                ..base
            },
        ),
        AgentEvent::StatusChanged { new_status } => None,
        AgentEvent::Completed { message, success } => Some(
            ChatCompletionChunkView {
                delta_content: Some(message@),
                finish_reason: Some("stop"@),
                ..base
            },
        ),
        AgentEvent::Error { error } => None,
    }
}

impl EventFormatter for ChatCompletionFormatter {
    type Output = ChatCompletionChunk;

    open spec fn spec_step(self, event: AgentEvent, session_id: Seq<char>) -> (
        Self,
        Option<ChatCompletionChunkView>,
    ) {
        (self, spec_chunk_output(self, event, session_id))
    }

    open spec fn spec_event_name(self, output: ChatCompletionChunkView) -> Seq<char> {
        "message"@
    }

    fn format_event(&mut self, event: &AgentEvent, session_id: &str) -> (r: Option<
        ChatCompletionChunk,
    >) {
        let base = ChatCompletionChunk {
            id: session_id.to_owned(),
            model: self.model.clone(),
            delta_content: None,
            delta_reasoning: None,
            finish_reason: None,
        };
        match event {
            AgentEvent::BrainResult { thought } => match thought {
                BrainOutcome::Message { text } => Some(
                    ChatCompletionChunk { delta_content: Some(text.clone()), ..base },
                ),
                _ => None,
            },
            AgentEvent::ToolCallStarted { call } => Some(
                ChatCompletionChunk { delta_reasoning: Some(started_step(call)), ..base },
            ),
            AgentEvent::ToolCallCompleted { call, result } => Some(
                ChatCompletionChunk {
                    delta_reasoning: Some(completed_step(call, result)),
                    ..base
                },
            ),
            AgentEvent::StatusChanged { new_status } => None,
            AgentEvent::Completed { message, success } => Some(
                ChatCompletionChunk {
                    delta_content: Some(message.clone()),
                    finish_reason: Some("stop".to_owned()),
                    ..base
                },
            ),
            AgentEvent::Error { error } => None,
        }
    }

    fn event_name(&self, output: &ChatCompletionChunk) -> (r: String) {
        "message".to_owned()
    }
}

/// The chat-completions formatter is state-free.
pub proof fn lemma_completion_formatter_stateless()
    ensures
        crate::streaming::spec_stateless::<ChatCompletionFormatter>(),
{
    assert forall|f: ChatCompletionFormatter, e: AgentEvent, sid: Seq<char>| (#[trigger] f.spec_step(
        e,
        sid,
    )).0 == f by {}
}

/// Accumulator behind the non-streaming chat completion: the last
/// assistant text and the reasoning lines of every tool event, collected
/// until the terminal event.
pub struct CompletionAccumulator {
    pub final_message: String,
    pub reasoning_steps: Vec<String>,
}

/// Model of the accumulator.
pub ghost struct CompletionAccumulatorView {
    pub final_message: Seq<char>,
    pub reasoning_steps: Seq<Seq<char>>,
}

impl View for CompletionAccumulator {
    type V = CompletionAccumulatorView;

    open spec fn view(&self) -> CompletionAccumulatorView {
        CompletionAccumulatorView {
            final_message: self.final_message@,
            reasoning_steps: self.reasoning_steps@.map_values(|s: String| s@),
        }
    }
}

/// What one event does to the accumulator: completion and assistant turns
/// set the final message, tool events append a reasoning line, everything
/// else changes nothing.
pub open spec fn spec_absorb(acc: CompletionAccumulatorView, e: AgentEvent) -> CompletionAccumulatorView {
    match e {
        AgentEvent::Completed { message, success } => CompletionAccumulatorView {
            final_message: message@,
            ..acc
        },
        AgentEvent::BrainResult { thought } => match thought {
            BrainOutcome::Message { text } => CompletionAccumulatorView {
                final_message: text@,
                ..acc
            },
            _ => acc,
        },
        AgentEvent::ToolCallStarted { call } => CompletionAccumulatorView {
            reasoning_steps: acc.reasoning_steps.push(spec_started_step(call)),
            ..acc
        },
        AgentEvent::ToolCallCompleted { call, result } => CompletionAccumulatorView {
            reasoning_steps: acc.reasoning_steps.push(spec_completed_step(call, result)),
            ..acc
        },
        _ => acc,
    }
}

/// The accumulator after a whole feed: events are absorbed in order up to
/// and including the first terminal one (a completion, or a pause, since
/// the collecting request does not follow past pauses).
pub open spec fn spec_collect(acc: CompletionAccumulatorView, events: Seq<AgentEvent>) -> CompletionAccumulatorView
    decreases events.len(),
{
    if events.len() == 0 {
        acc
    } else {
        let acc2 = spec_absorb(acc, events[0]);
        if spec_is_terminal(events[0], false) {
            acc2
        } else {
            spec_collect(acc2, events.drop_first())
        }
    }
}

impl CompletionAccumulator {
    /// An empty accumulation.
    pub fn new() -> (r: Self)
        ensures
            r@.final_message == Seq::<char>::empty(),
            r@.reasoning_steps == Seq::<Seq<char>>::empty(),
    {
        let r = CompletionAccumulator { final_message: String::new(), reasoning_steps: Vec::new() };
        proof {
            assert(r@.reasoning_steps =~= Seq::<Seq<char>>::empty());
        }
        r
    }

    /// Absorb one event; the result says whether it was terminal for the
    /// collection.
    pub fn absorb(&mut self, event: &AgentEvent) -> (r: bool)
        ensures
            final(self)@ == spec_absorb(old(self)@, *event),
            r == spec_is_terminal(*event, false),
    {
        let terminal = is_terminal_event(event, false);
        match event {
            AgentEvent::Completed { message, success } => {
                self.final_message = message.clone();
            },
            AgentEvent::BrainResult { thought } => {
                match thought {
                    BrainOutcome::Message { text } => {
                        self.final_message = text.clone();
                    },
                    _ => {},
                }
            },
            AgentEvent::ToolCallStarted { call } => {
                let ghost pre = self.reasoning_steps@;
                self.reasoning_steps.push(started_step(call));
                proof {
                    assert(self.reasoning_steps@.map_values(|s: String| s@) =~= pre.map_values(
                        |s: String| s@,
                    ).push(spec_started_step(event->ToolCallStarted_call)));
                }
            },
            AgentEvent::ToolCallCompleted { call, result } => {
                let ghost pre = self.reasoning_steps@;
                self.reasoning_steps.push(completed_step(call, result));
                proof {
                    assert(self.reasoning_steps@.map_values(|s: String| s@) =~= pre.map_values(
                        |s: String| s@,
                    ).push(
                        spec_completed_step(
                            event->ToolCallCompleted_call,
                            event->ToolCallCompleted_result,
                        ),
                    ));
                }
            },
            _ => {},
        }
        terminal
    }

    /// Absorb a whole feed, stopping after the first terminal event.
    pub fn collect(&mut self, events: &Vec<AgentEvent>)
        ensures
            final(self)@ == spec_collect(old(self)@, events@),
    {
        let ghost g_events = events@;
        let mut i: usize = 0;
        let mut done = false;
        proof {
            assert(g_events.skip(0) =~= g_events);
        }
        while i < events.len() && !done
            invariant
                0 <= i <= g_events.len(),
                g_events == events@,
                !done ==> spec_collect(self@, g_events.skip(i as int)) == spec_collect(
                    old(self)@,
                    g_events,
                ),
                done ==> self@ == spec_collect(old(self)@, g_events),
            decreases g_events.len() - i,
        {
            proof {
                assert(g_events.skip(i as int)[0] == g_events[i as int]);
                assert(g_events.skip(i as int).drop_first() =~= g_events.skip(i as int + 1));
            }
            let terminal = self.absorb(&events[i]);
            if terminal {
                done = true;
            }
            i = i + 1;
        }
        proof {
            if !done {
                assert(g_events.skip(i as int) =~= Seq::<AgentEvent>::empty());
            }
        }
    }

    /// The aggregated reasoning trace: the lines joined by newlines, or
    /// nothing when no tool event was seen.
    pub fn reasoning_content(&self) -> (r: Option<String>)
        ensures
            self@.reasoning_steps.len() == 0 ==> r is None,
            self@.reasoning_steps.len() > 0 ==> (r matches Some(s) && s@
                == crate::messages::spec_join_lines(self@.reasoning_steps)),
    {
        if self.reasoning_steps.len() == 0 {
            None
        } else {
            Some(crate::messages::join_lines(&self.reasoning_steps))
        }
    }
}

} // verus!
