//! Simple multimodal API: request and response shapes, the trace builder,
//! and the per-event formatter.
//!
//! String-keyed maps of the wire format (tool arguments, attachments) are
//! carried as key/value pair lists, in wire order.
use vstd::prelude::*;

use crate::events::{AgentEvent, BrainOutcome, ToolCallRecord, ToolOutcome};
use crate::ids::fresh_id;
use crate::json::{json_object_of_pairs, spec_json_object};
use crate::messages::{
    ChatMessage, ChatMessageView, FunctionCall, FunctionCallView, MessageContent,
    MessageContentView, ToolCallRequest, ToolCallRequestView,
};
use crate::streaming::EventFormatter;
use vstd::string::StringExecFns;

verus! {

/// A tool invocation of the simple wire format.
pub struct ToolCall {
    pub tool: String,
    /// Argument object as key/value pairs, in wire order.
    pub args: Vec<(String, String)>,
    pub output: Option<String>,
}

/// Result object of a tool invocation.
pub struct ToolCallResult {
    pub text: Option<String>,
    pub text_stream: Option<String>,
    pub image: Option<String>,
    pub speech: Option<String>,
    pub other: Option<String>,
    pub error: Option<String>,
    pub extra: Option<Vec<(String, String)>>,
}

/// A past tool invocation with its result, replayed by the client.
pub struct PreviousCall {
    pub call: ToolCall,
    pub result: ToolCallResult,
}

/// A user turn.
pub struct UserMessage {
    pub message: String,
    /// Attached files as name/content pairs.
    pub attached_files: Option<Vec<(String, String)>>,
}

/// An assistant turn.
pub struct AssistantMessage {
    pub assistant: String,
}

/// One message of a simple-API conversation.
pub enum Message {
    User(UserMessage),
    Assistant(AssistantMessage),
    PreviousCall(PreviousCall),
}

/// Agent capability configuration.
pub struct AgentCapability {
    pub tool_type: String,
    pub thinking: Option<bool>,
    pub internet: Option<bool>,
    pub image: Option<bool>,
    pub speech: Option<bool>,
}

/// OpenAI API tool configuration.
pub struct OpenAiApi {
    pub tool_type: String,
    pub url: String,
    pub description: String,
    pub model: String,
}

/// MCP tool configuration.
pub struct McpTool {
    pub tool_type: String,
    pub url: String,
}

/// Discriminated union of tool configurations.
pub enum AgentTool {
    Capability {
        thinking: Option<bool>,
        internet: Option<bool>,
        image: Option<bool>,
        speech: Option<bool>,
    },
    OpenAi { url: String, description: String, model: String },
    Mcp { url: String },
}

/// A simple-API request.
pub struct MultiModalQuery {
    pub model: String,
    pub stream: bool,
    pub messages: Option<Vec<Message>>,
    pub tools: Option<Vec<AgentTool>>,
}

/// One streamed frame of the simple API.
pub struct MultiModalStreamingResponse {
    pub id: String,
    pub model: String,
    pub assistant: Option<String>,
    pub call: Option<ToolCall>,
    pub result: Option<ToolCallResult>,
}

/// One element of a non-streamed result.
pub enum ResponseMessage {
    Assistant(AssistantMessage),
    PreviousCall(PreviousCall),
}

/// A non-streamed simple-API response.
pub struct MultiModalResponse {
    pub id: String,
    pub model: String,
    pub result: Vec<ResponseMessage>,
}

/// Model of a key/value pair list.
pub open spec fn view_pairs(v: Seq<(String, String)>) -> Seq<(Seq<char>, Seq<char>)> {
    v.map_values(|p: (String, String)| (p.0@, p.1@))
}

/// Model of a tool invocation.
pub ghost struct ToolCallView {
    pub tool: Seq<char>,
    pub args: Seq<(Seq<char>, Seq<char>)>,
    pub output: Option<Seq<char>>,
}

impl View for ToolCall {
    type V = ToolCallView;

    open spec fn view(&self) -> ToolCallView {
        ToolCallView {
            tool: self.tool@,
            args: view_pairs(self.args@),
            output: crate::messages::view_opt_str(self.output),
        }
    }
}

/// Model of a tool result object.
pub ghost struct ToolCallResultView {
    pub text: Option<Seq<char>>,
    pub text_stream: Option<Seq<char>>,
    pub image: Option<Seq<char>>,
    pub speech: Option<Seq<char>>,
    pub other: Option<Seq<char>>,
    pub error: Option<Seq<char>>,
    pub extra: Option<Seq<(Seq<char>, Seq<char>)>>,
}

impl View for ToolCallResult {
    type V = ToolCallResultView;

    open spec fn view(&self) -> ToolCallResultView {
        ToolCallResultView {
            text: crate::messages::view_opt_str(self.text),
            text_stream: crate::messages::view_opt_str(self.text_stream),
            image: crate::messages::view_opt_str(self.image),
            speech: crate::messages::view_opt_str(self.speech),
            other: crate::messages::view_opt_str(self.other),
            error: crate::messages::view_opt_str(self.error),
            extra: match self.extra {
                Some(v) => Some(view_pairs(v@)),
                None => None,
            },
        }
    }
}

/// Model of one streamed frame.
pub ghost struct MultiModalStreamingResponseView {
    pub id: Seq<char>,
    pub model: Seq<char>,
    pub assistant: Option<Seq<char>>,
    pub call: Option<ToolCallView>,
    pub result: Option<ToolCallResultView>,
}

impl View for MultiModalStreamingResponse {
    type V = MultiModalStreamingResponseView;

    open spec fn view(&self) -> MultiModalStreamingResponseView {
        MultiModalStreamingResponseView {
            id: self.id@,
            model: self.model@,
            assistant: crate::messages::view_opt_str(self.assistant),
            call: match &self.call {
                Some(c) => Some(c@),
                None => None,
            },
            result: match &self.result {
                Some(r) => Some(r@),
                None => None,
            },
        }
    }
}

/// A generated tool-call correlation id: the fixed prefix and a random
/// UUID.
pub open spec fn spec_is_call_id(s: Seq<char>) -> bool {
    s.len() == 41 && s.take(5) == "call_"@
}

/// A fresh tool-call correlation id.
pub fn fresh_call_id() -> (r: String)
    ensures
        spec_is_call_id(r@),
{
    let mut s = "call_".to_owned();
    let u = fresh_id();
    s.append(u.as_str());
    proof {
        reveal_strlit("call_");
        assert("call_"@.len() == 5);
        assert(("call_"@ + u@).take(5) =~= "call_"@);
    }
    s
}

/// The text a past tool result replays as: its text, else its error, else
/// a fixed placeholder.
pub open spec fn spec_tool_result_text(r: ToolCallResult) -> Seq<char> {
    match r.text {
        Some(t) => t@,
        None => match r.error {
            Some(e) => e@,
            None => "No result"@,
        },
    }
}

/// The trace messages one simple-API message maps to; a past call maps to
/// an assistant tool-call message and the tool's reply, correlated by the
/// generated id `cid`.
pub open spec fn spec_simple_message_trace(m: Message, cid: Seq<char>) -> Seq<ChatMessageView> {
    match m {
        Message::User(u) => seq![
            ChatMessageView::User {
                content: MessageContentView::Text { text: u.message@ },
                name: None,
            },
        ],
        Message::Assistant(a) => seq![
            ChatMessageView::Assistant {
                content: Some(MessageContentView::Text { text: a.assistant@ }),
                tool_calls: None,
                name: None,
                reasoning_content: None,
            },
        ],
        Message::PreviousCall(p) => seq![
            ChatMessageView::Assistant {
                content: None,
                tool_calls: Some(
                    seq![
                        ToolCallRequestView {
                            id: cid,
                            call_type: "function"@,
                            function: FunctionCallView {
                                name: p.call.tool@,
                                arguments: spec_json_object(view_pairs(p.call.args@)),
                            },
                        },
                    ],
                ),
                name: None,
                reasoning_content: None,
            },
            ChatMessageView::Tool { content: spec_tool_result_text(p.result), tool_call_id: cid },
        ],
    }
}

/// The whole trace a simple-API message list maps to, with the generated
/// correlation ids given alongside.
pub open spec fn spec_simple_trace(msgs: Seq<Message>, ids: Seq<Seq<char>>) -> Seq<ChatMessageView>
    decreases msgs.len(),
{
    if msgs.len() == 0 {
        Seq::empty()
    } else {
        spec_simple_message_trace(msgs[0], ids[0]) + spec_simple_trace(
            msgs.drop_first(),
            ids.drop_first(),
        )
    }
}

pub proof fn lemma_simple_trace_push(
    msgs: Seq<Message>,
    ids: Seq<Seq<char>>,
    m: Message,
    cid: Seq<char>,
)
    requires
        ids.len() == msgs.len(),
    ensures
        spec_simple_trace(msgs.push(m), ids.push(cid)) == spec_simple_trace(msgs, ids)
            + spec_simple_message_trace(m, cid),
    decreases msgs.len(),
{
    if msgs.len() == 0 {
        assert(msgs.push(m)[0] == m);
        assert(ids.push(cid)[0] == cid);
        assert(msgs.push(m).drop_first() =~= Seq::<Message>::empty());
        assert(spec_simple_trace(Seq::<Message>::empty(), ids.push(cid).drop_first())
            == Seq::<ChatMessageView>::empty());
        assert(spec_simple_message_trace(m, cid) + Seq::<ChatMessageView>::empty()
            =~= spec_simple_message_trace(m, cid));
        assert(spec_simple_trace(msgs, ids) + spec_simple_message_trace(m, cid)
            =~= spec_simple_message_trace(m, cid));
    } else {
        assert(msgs.push(m)[0] == msgs[0]);
        assert(ids.push(cid)[0] == ids[0]);
        assert(msgs.push(m).drop_first() =~= msgs.drop_first().push(m));
        assert(ids.push(cid).drop_first() =~= ids.drop_first().push(cid));
        lemma_simple_trace_push(msgs.drop_first(), ids.drop_first(), m, cid);
        assert(spec_simple_message_trace(msgs[0], ids[0]) + (spec_simple_trace(
            msgs.drop_first(),
            ids.drop_first(),
        ) + spec_simple_message_trace(m, cid)) =~= (spec_simple_message_trace(msgs[0], ids[0])
            + spec_simple_trace(msgs.drop_first(), ids.drop_first())) + spec_simple_message_trace(
            m,
            cid,
        ));
    }
}

/// Build the conversation trace a simple-API request replays into the
/// agent: user and assistant turns verbatim, each past tool call as an
/// assistant tool-call message and its tool reply under a fresh
/// correlation id.
pub fn build_message_trace(query: &MultiModalQuery) -> (r: Vec<ChatMessage>)
    ensures
        match query.messages {
            None => r@.len() == 0,
            Some(msgs) => exists|ids: Seq<Seq<char>>|
                #![auto]
                ids.len() == msgs@.len() && (forall|i: int|
                    0 <= i < ids.len() ==> spec_is_call_id(ids[i])) && r@.map_values(
                    |m: ChatMessage| m@,
                ) == spec_simple_trace(msgs@, ids),
        },
{
    let mut trace: Vec<ChatMessage> = Vec::new();
    match &query.messages {
        None => {},
        Some(msgs) => {
            let ghost mut g_ids: Seq<Seq<char>> = Seq::empty();
            let mut i: usize = 0;
            proof {
                assert(msgs@.take(0) =~= Seq::<Message>::empty());
                assert(trace@.map_values(|m: ChatMessage| m@) =~= Seq::<ChatMessageView>::empty());
            }
            while i < msgs.len()
                invariant
                    0 <= i <= msgs@.len(),
                    g_ids.len() == i,
                    forall|k: int| 0 <= k < g_ids.len() ==> spec_is_call_id(#[trigger] g_ids[k]),
                    trace@.map_values(|m: ChatMessage| m@) == spec_simple_trace(
                        msgs@.take(i as int),
                        g_ids,
                    ),
                decreases msgs@.len() - i,
            {
                let ghost pre = trace@;
                let ghost pre_ids = g_ids;
                // Only a past call consumes its correlation id; the other
                // messages record a well-shaped placeholder in the ghost
                // id list.
                let ghost mut g_cid: Seq<char> = "call_"@
                    + "000000000000000000000000000000000000"@;
                match &msgs[i] {
                    Message::User(u) => {
                        trace.push(
                            ChatMessage::User {
                                content: MessageContent::Text { text: u.message.clone() },
                                name: None,
                            },
                        );
                    },
                    Message::Assistant(a) => {
                        trace.push(
                            ChatMessage::Assistant {
                                content: Some(
                                    MessageContent::Text { text: a.assistant.clone() },
                                ),
                                tool_calls: None,
                                name: None,
                                reasoning_content: None,
                            },
                        );
                    },
                    Message::PreviousCall(p) => {
                        let cid = fresh_call_id();
                        proof {
                            g_cid = cid@;
                        }
                        let args_json = json_object_of_pairs(&p.call.args);
                        let request = ToolCallRequest {
                            id: cid.clone(),
                            call_type: "function".to_owned(),
                            function: FunctionCall {
                                name: p.call.tool.clone(),
                                arguments: args_json,
                            },
                        };
                        let ghost g_request = request@;
                        let mut calls: Vec<ToolCallRequest> = Vec::new();
                        calls.push(request);
                        proof {
                            assert(calls@.map_values(|t: ToolCallRequest| t@) =~= seq![g_request]);
                        }
                        trace.push(
                            ChatMessage::Assistant {
                                content: None,
                                tool_calls: Some(calls),
                                name: None,
                                reasoning_content: None,
                            },
                        );
                        let result_text = match &p.result.text {
                            Some(t) => t.clone(),
                            None => match &p.result.error {
                                Some(e) => e.clone(),
                                None => "No result".to_owned(),
                            },
                        };
                        trace.push(
                            ChatMessage::Tool { content: result_text, tool_call_id: cid },
                        );
                    },
                }
                proof {
                    reveal_strlit("call_");
                    reveal_strlit("000000000000000000000000000000000000");
                    assert("call_"@.len() == 5);
                    assert("000000000000000000000000000000000000"@.len() == 36);
                    assert(("call_"@ + "000000000000000000000000000000000000"@).take(5)
                        =~= "call_"@);
                    assert(spec_is_call_id(g_cid));
                    g_ids = pre_ids.push(g_cid);
                    assert(msgs@.take(i as int + 1) =~= msgs@.take(i as int).push(msgs@[i as int]));
                    lemma_simple_trace_push(msgs@.take(i as int), pre_ids, msgs@[i as int], g_cid);
                    assert(trace@.map_values(|m: ChatMessage| m@) =~= pre.map_values(
                        |m: ChatMessage| m@,
                    ) + spec_simple_message_trace(msgs@[i as int], g_cid));
                }
                i = i + 1;
            }
            proof {
                assert(msgs@.take(msgs@.len() as int) =~= msgs@);
            }
        },
    }
    trace
}

/// Formatter of the simple API: one frame per visible event, each carrying
/// the session id and the model name.
pub struct SimpleFormatter {
    pub model: String,
}

impl SimpleFormatter {
    pub fn new(model: String) -> (r: Self)
        ensures
            r.model == model,
    {
        SimpleFormatter { model }
    }
}

/// An empty frame carrying only the ids.
pub open spec fn spec_simple_base(sid: Seq<char>, model: Seq<char>) -> MultiModalStreamingResponseView {
    MultiModalStreamingResponseView {
        id: sid,
        model,
        assistant: None,
        call: None,
        result: None,
    }
}

/// Model of an empty tool result object.
pub open spec fn spec_empty_result() -> ToolCallResultView {
    ToolCallResultView {
        text: None,
        text_stream: None,
        image: None,
        speech: None,
        other: None,
        error: None,
        extra: None,
    }
}

/// The call object a frame reports for a tool event: the tool's name; the
/// argument object is not decoded at this layer.
pub open spec fn spec_simple_call(call: ToolCallRecord) -> ToolCallView {
    ToolCallView { tool: call.tool_name@, args: Seq::empty(), output: None }
}

/// The result object a frame reports for a finished tool call.
pub open spec fn spec_simple_outcome(outcome: ToolOutcome) -> ToolCallResultView {
    match outcome {
        ToolOutcome::Success { output } => ToolCallResultView {
            text: Some(output@),
            ..spec_empty_result()
        },
        ToolOutcome::Failure { error } => ToolCallResultView {
            error: Some(error@),
            ..spec_empty_result()
        },
        ToolOutcome::Denied => ToolCallResultView {
            error: Some("tool call denied"@),
            ..spec_empty_result()
        },
    }
}

/// The frame the simple formatter emits for one event: assistant text for
/// LLM turns and completion, call and result objects for tool events, an
/// error result for runtime errors; status changes and empty turns are
/// filtered.
pub open spec fn spec_simple_output(f: SimpleFormatter, e: AgentEvent, sid: Seq<char>) -> Option<
    MultiModalStreamingResponseView,
> {
    let base = spec_simple_base(sid, f.model@);
    match e {
        AgentEvent::BrainResult { thought } => match thought {
            BrainOutcome::Message { text } => Some(
                MultiModalStreamingResponseView { assistant: Some(text@), ..base },
            ),
            BrainOutcome::Empty => None,
            BrainOutcome::Failure { error } => Some(
                MultiModalStreamingResponseView {
                    result: Some(
                        ToolCallResultView { error: Some(error@), ..spec_empty_result() },
                    ),
                    ..base
                },
            ),
        },
        AgentEvent::ToolCallStarted { call } => Some(
            MultiModalStreamingResponseView { call: Some(spec_simple_call(call)), ..base },
        ),
        AgentEvent::ToolCallCompleted { call, result } => Some(
            MultiModalStreamingResponseView {
                call: Some(spec_simple_call(call)),
                result: Some(spec_simple_outcome(result)),
                ..base
            },
        ),
        AgentEvent::StatusChanged { new_status } => None,
        AgentEvent::Completed { message, success } => Some(
            MultiModalStreamingResponseView { assistant: Some(message@), ..base },
        ),
        AgentEvent::Error { error } => Some(
            MultiModalStreamingResponseView {
                result: Some(ToolCallResultView { error: Some(error@), ..spec_empty_result() }),
                ..base
            },
        ),
    }
}

impl EventFormatter for SimpleFormatter {
    type Output = MultiModalStreamingResponse;

    open spec fn spec_step(self, event: AgentEvent, session_id: Seq<char>) -> (
        Self,
        Option<MultiModalStreamingResponseView>,
    ) {
        (self, spec_simple_output(self, event, session_id))
    }

    open spec fn spec_event_name(self, output: MultiModalStreamingResponseView) -> Seq<char> {
        "message"@
    }

    fn format_event(&mut self, event: &AgentEvent, session_id: &str) -> (r: Option<
        MultiModalStreamingResponse,
    >) {
        let base = MultiModalStreamingResponse {
            id: session_id.to_owned(),
            model: self.model.clone(),
            assistant: None,
            call: None,
            result: None,
        };
        match event {
            AgentEvent::BrainResult { thought } => match thought {
                BrainOutcome::Message { text } => Some(
                    MultiModalStreamingResponse { assistant: Some(text.clone()), ..base },
                ),
                BrainOutcome::Empty => None,
                BrainOutcome::Failure { error } => Some(
                    MultiModalStreamingResponse {
                        result: Some(error_result(error.clone())),
                        ..base
                    },
                ),
            },
            AgentEvent::ToolCallStarted { call } => Some(
                MultiModalStreamingResponse { call: Some(simple_call(call)), ..base },
            ),
            AgentEvent::ToolCallCompleted { call, result } => Some(
                MultiModalStreamingResponse {
                    call: Some(simple_call(call)),
                    result: Some(simple_outcome(result)),
                    ..base
                },
            ),
            AgentEvent::StatusChanged { new_status } => None,
            AgentEvent::Completed { message, success } => Some(
                MultiModalStreamingResponse { assistant: Some(message.clone()), ..base },
            ),
            AgentEvent::Error { error } => Some(
                MultiModalStreamingResponse { result: Some(error_result(error.clone())), ..base },
            ),
        }
    }

    fn event_name(&self, output: &MultiModalStreamingResponse) -> (r: String) {
        "message".to_owned()
    }
}

/// An empty tool result object.
fn empty_result() -> (r: ToolCallResult)
    ensures
        r@ == spec_empty_result(),
{
    ToolCallResult {
        text: None,
        text_stream: None,
        image: None,
        speech: None,
        other: None,
        error: None,
        extra: None,
    }
}

/// A tool result object carrying only an error.
fn error_result(error: String) -> (r: ToolCallResult)
    ensures
        r@ == (ToolCallResultView { error: Some(error@), ..spec_empty_result() }),
{
    ToolCallResult { error: Some(error), ..empty_result() }
}

/// The call object reported for a tool event.
fn simple_call(call: &ToolCallRecord) -> (r: ToolCall)
    ensures
        r@ == spec_simple_call(*call),
{
    let r = ToolCall { tool: call.tool_name.clone(), args: Vec::new(), output: None };
    proof {
        assert(view_pairs(Seq::<(String, String)>::empty()) =~= Seq::<(Seq<char>, Seq<char>)>::empty());
    }
    r
}

/// The result object reported for a finished tool call.
fn simple_outcome(outcome: &ToolOutcome) -> (r: ToolCallResult)
    ensures
        r@ == spec_simple_outcome(*outcome),
{
    match outcome {
        ToolOutcome::Success { output } => ToolCallResult {
            text: Some(output.clone()),
            ..empty_result()
        },
        ToolOutcome::Failure { error } => error_result(error.clone()),
        ToolOutcome::Denied => error_result("tool call denied".to_owned()),
    }
}

/// The simple formatter is state-free: its frames over a feed are exactly
/// the per-event outputs of the feed's open prefix, in feed order.
pub proof fn lemma_simple_formatter_stateless()
    ensures
        crate::streaming::spec_stateless::<SimpleFormatter>(),
{
    assert forall|f: SimpleFormatter, e: AgentEvent, sid: Seq<char>| (#[trigger] f.spec_step(
        e,
        sid,
    )).0 == f by {}
}

/// Tool events are never filtered by the simple formatter: each start and
/// each completion yields its own frame carrying the tool's name, a
/// completion also its result — with the adapter's order preservation,
/// start/completion frames appear in exactly the order the agent emitted
/// the events.
pub proof fn lemma_simple_tool_events_not_filtered(
    f: SimpleFormatter,
    call: ToolCallRecord,
    outcome: ToolOutcome,
    sid: Seq<char>,
)
    ensures
        f.spec_step(AgentEvent::ToolCallStarted { call }, sid).1 matches Some(v) && v.call matches
            Some(cv) && cv.tool == call.tool_name@ && v.result is None,
        f.spec_step(AgentEvent::ToolCallCompleted { call, result: outcome }, sid).1 matches Some(
            v2,
        ) && v2.call matches Some(cv2) && cv2.tool == call.tool_name@ && v2.result is Some,
{
}

} // verus!
