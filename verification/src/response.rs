//! OpenAI-compatible Responses API: request routing and the sequenced
//! stream formatter.
use vstd::prelude::*;

use crate::events::{AgentEvent, BrainOutcome};
use crate::ids::fresh_id;
use crate::messages::{view_opt_str, ChatMessage};
use crate::streaming::EventFormatter;
use vstd::string::StringExecFns;

verus! {

/// A responses-API request, projected to the fields the core consumes.
pub struct ResponseRequest {
    pub model: String,
    pub stream: Option<bool>,
    pub store: Option<bool>,
    pub previous_response_id: Option<String>,
    pub messages: Vec<ChatMessage>,
}

/// A generated response id: the fixed prefix and a random UUID.
pub open spec fn spec_is_response_id(s: Seq<char>) -> bool {
    s.len() == 41 && s.take(5) == "resp_"@
}

/// A fresh response id.
pub fn fresh_response_id() -> (r: String)
    ensures
        spec_is_response_id(r@),
{
    let mut s = "resp_".to_owned();
    let u = fresh_id();
    s.append(u.as_str());
    proof {
        reveal_strlit("resp_");
        assert("resp_"@.len() == 5);
        assert(("resp_"@ + u@).take(5) =~= "resp_"@);
    }
    s
}

/// Routing decision of a responses-API request.
pub struct ResponseRouting {
    /// The session the request targets: the previous response id when
    /// given, else a freshly generated id.
    pub session_id: String,
    /// Sessions are kept unless the client opted out of storing.
    pub ephemeral: bool,
    /// A previous response id demands strict lookup: a missing session is
    /// an error, never an auto-create.
    pub strict_lookup: bool,
    /// Whether the reply is streamed.
    pub streaming: bool,
}

/// Decide how a responses-API request is routed: requests naming a
/// previous response target exactly that session and must find it;
/// requests without one create a session under a fresh id; the session is
/// ephemeral only when `store` is explicitly false; streaming defaults
/// off.
pub fn resolve_response_routing(
    previous_response_id: &Option<String>,
    store: Option<bool>,
    stream: Option<bool>,
) -> (r: ResponseRouting)
    ensures
        match previous_response_id {
            Some(p) => r.session_id@ == p@ && r.strict_lookup,
            None => spec_is_response_id(r.session_id@) && !r.strict_lookup,
        },
        r.ephemeral == !(match store {
            Some(b) => b,
            None => true,
        }),
        r.streaming == (match stream {
            Some(b) => b,
            None => false,
        }),
{
    let (session_id, strict_lookup) = match previous_response_id {
        Some(p) => (p.clone(), true),
        None => (fresh_response_id(), false),
    };
    let ephemeral = !(match store {
        Some(b) => b,
        None => true,
    });
    let streaming = match stream {
        Some(b) => b,
        None => false,
    };
    ResponseRouting { session_id, ephemeral, strict_lookup, streaming }
}

/// One frame of the responses-API stream, numbered by the formatter's
/// sequence counter.
pub struct ResponseStreamEvent {
    pub event_type: String,
    pub sequence_number: u64,
    pub response_id: String,
    pub model: String,
    pub text: Option<String>,
}

/// Model of one responses-API frame.
pub ghost struct ResponseStreamEventView {
    pub event_type: Seq<char>,
    pub sequence_number: u64,
    pub response_id: Seq<char>,
    pub model: Seq<char>,
    pub text: Option<Seq<char>>,
}

impl View for ResponseStreamEvent {
    type V = ResponseStreamEventView;

    open spec fn view(&self) -> ResponseStreamEventView {
        ResponseStreamEventView {
            event_type: self.event_type@,
            sequence_number: self.sequence_number,
            response_id: self.response_id@,
            model: self.model@,
            text: view_opt_str(self.text),
        }
    }
}

/// Formatter of the responses-API stream. Every emitted frame carries the
/// current sequence number and advances the counter; the counter saturates
/// at its maximum.
pub struct ResponseFormatter {
    pub model: String,
    pub sequence: u64,
}

impl ResponseFormatter {
    /// A fresh formatter, counting from zero.
    pub fn new(model: String) -> (r: Self)
        ensures
            r.model == model,
            r.sequence == 0,
    {
        ResponseFormatter { model, sequence: 0 }
    }

    /// The opening `response.created` frame, emitted by the handler before
    /// any agent event is streamed.
    pub fn created_event(&mut self, session_id: &String) -> (r: ResponseStreamEvent)
        ensures
            r@ == (ResponseStreamEventView {
                event_type: "response.created"@,
                sequence_number: old(self).sequence,
                response_id: old(self).session_id_echo(session_id@),
                model: old(self).model@,
                text: None,
            }),
            final(self).model == old(self).model,
            final(self).sequence == spec_next_sequence(old(self).sequence),
    {
        let r = ResponseStreamEvent {
            event_type: "response.created".to_owned(),
            sequence_number: self.sequence,
            response_id: session_id.clone(),
            model: self.model.clone(),
            text: None,
        };
        self.sequence = next_sequence(self.sequence);
        r
    }

    /// The id a frame echoes: the session's.
    pub open spec fn session_id_echo(self, sid: Seq<char>) -> Seq<char> {
        sid
    }
}

/// The successor of the sequence counter; it saturates at the maximum.
pub open spec fn spec_next_sequence(n: u64) -> u64 {
    if n < u64::MAX {
        (n + 1) as u64
    } else {
        n
    }
}

fn next_sequence(n: u64) -> (r: u64)
    ensures
        r == spec_next_sequence(n),
{
    if n < u64::MAX {
        n + 1
    } else {
        n
    }
}

/// The frame the responses formatter emits for one event, numbered `n`:
/// assistant text as an output-text delta, tool starts and completions as
/// output items, the terminal completion as `response.completed`; status
/// changes, empty turns and non-terminal errors are filtered.
pub open spec fn spec_response_output(
    f: ResponseFormatter,
    e: AgentEvent,
    sid: Seq<char>,
) -> Option<ResponseStreamEventView> {
    let base = ResponseStreamEventView {
        event_type: Seq::empty(),
        sequence_number: f.sequence,
        response_id: sid,
        model: f.model@,
        text: None,
    };
    match e {
        AgentEvent::BrainResult { thought } => match thought {
            BrainOutcome::Message { text } => Some(
                ResponseStreamEventView {
                    event_type: "response.output_text.delta"@,
                    text: Some(text@),
                    ..base
                },
            ),
            _ => None,
        },
        AgentEvent::ToolCallStarted { call } => Some(
            ResponseStreamEventView {
                event_type: "response.output_item.added"@,
                text: Some(call.tool_name@),
                ..base
            },
        ),
        AgentEvent::ToolCallCompleted { call, result } => Some(
            ResponseStreamEventView {
                event_type: "response.output_item.done"@,
                text: Some(call.tool_name@),
                ..base
            },
        ),
        AgentEvent::StatusChanged { new_status } => None,
        AgentEvent::Completed { message, success } => Some(
            ResponseStreamEventView {
                event_type: "response.completed"@,
                text: Some(message@),
                ..base
            },
        ),
        AgentEvent::Error { error } => None,
    }
}

impl EventFormatter for ResponseFormatter {
    type Output = ResponseStreamEvent;

    open spec fn spec_step(self, event: AgentEvent, session_id: Seq<char>) -> (
        Self,
        Option<ResponseStreamEventView>,
    ) {
        match spec_response_output(self, event, session_id) {
            Some(v) => (
                ResponseFormatter { sequence: spec_next_sequence(self.sequence), ..self },
                Some(v),
            ),
            None => (self, None),
        }
    }

    open spec fn spec_event_name(self, output: ResponseStreamEventView) -> Seq<char> {
        output.event_type
    }

    fn format_event(&mut self, event: &AgentEvent, session_id: &str) -> (r: Option<
        ResponseStreamEvent,
    >) {
        let base = ResponseStreamEvent {
            event_type: String::new(),
            sequence_number: self.sequence,
            response_id: session_id.to_owned(),
            model: self.model.clone(),
            text: None,
        };
        let out = match event {
            AgentEvent::BrainResult { thought } => match thought {
                BrainOutcome::Message { text } => Some(
                    ResponseStreamEvent {
                        event_type: "response.output_text.delta".to_owned(),
                        text: Some(text.clone()),
                        ..base
                    },
                ),
                _ => None,
            },
            AgentEvent::ToolCallStarted { call } => Some(
                ResponseStreamEvent {
                    event_type: "response.output_item.added".to_owned(),
                    text: Some(call.tool_name.clone()),
                    ..base
                },
            ),
            AgentEvent::ToolCallCompleted { call, result } => Some(
                ResponseStreamEvent {
                    event_type: "response.output_item.done".to_owned(),
                    text: Some(call.tool_name.clone()),
                    ..base
                },
            ),
            AgentEvent::StatusChanged { new_status } => None,
            AgentEvent::Completed { message, success } => Some(
                ResponseStreamEvent {
                    event_type: "response.completed".to_owned(),
                    text: Some(message.clone()),
                    ..base
                },
            ),
            AgentEvent::Error { error } => None,
        };
        match out {
            Some(frame) => {
                self.sequence = next_sequence(self.sequence);
                Some(frame)
            },
            None => None,
        }
    }

    fn event_name(&self, output: &ResponseStreamEvent) -> (r: String) {
        output.event_type.clone()
    }
}

/// Sequence numbers are monotone: every emitted frame carries the
/// formatter's current counter, and the counter never decreases.
pub proof fn lemma_sequence_monotone(f: ResponseFormatter, e: AgentEvent, sid: Seq<char>)
    ensures
        f.spec_step(e, sid).1 matches Some(v) ==> v.sequence_number == f.sequence,
        f.spec_step(e, sid).0.sequence >= f.sequence,
        (f.spec_step(e, sid).1 is Some && f.sequence < u64::MAX) ==> f.spec_step(e, sid).0.sequence
            > f.sequence,
{
}

/// Order preservation for the sequenced formatter: over a whole feed, the
/// frames it emits carry consecutive sequence numbers starting at the
/// formatter's counter — the k-th frame is numbered k steps after the
/// first. Frames therefore appear in exactly the order their events
/// arrived; in particular a tool completion's frame is numbered after its
/// start's.
pub proof fn lemma_response_frames_numbered(
    f: ResponseFormatter,
    items: Seq<crate::streaming::FeedItem>,
    sid: Seq<char>,
    follow_past_pause: bool,
)
    requires
        f.sequence + items.len() <= u64::MAX,
    ensures
        ({
            let frames = crate::streaming::spec_frames::<ResponseFormatter>(
                f,
                false,
                items,
                sid,
                follow_past_pause,
            );
            &&& frames.len() <= items.len()
            &&& forall|k: int|
                0 <= k < frames.len() ==> (#[trigger] frames[k]).sequence_number == f.sequence + k
        }),
    decreases items.len(),
{
    if items.len() > 0 {
        let frames = crate::streaming::spec_frames::<ResponseFormatter>(
            f,
            false,
            items,
            sid,
            follow_past_pause,
        );
        let rest_items = items.drop_first();
        match items[0] {
            crate::streaming::FeedItem::Event { event } => {
                match spec_response_output(f, event, sid) {
                    Some(v) => {
                        assert(v.sequence_number == f.sequence);
                        let f2 = ResponseFormatter {
                            sequence: spec_next_sequence(f.sequence),
                            ..f
                        };
                        assert(f.spec_step(event, sid) == (f2, Some(v)));
                        assert(f2.sequence == f.sequence + 1);
                        if crate::streaming::spec_is_terminal(event, follow_past_pause) {
                            crate::streaming::lemma_done_emits_nothing::<ResponseFormatter>(
                                f2,
                                rest_items,
                                sid,
                                follow_past_pause,
                            );
                            assert(frames =~= seq![v]);
                        } else {
                            lemma_response_frames_numbered(f2, rest_items, sid, follow_past_pause);
                            let rest = crate::streaming::spec_frames::<ResponseFormatter>(
                                f2,
                                false,
                                rest_items,
                                sid,
                                follow_past_pause,
                            );
                            assert(frames == seq![v] + rest);
                            assert forall|k: int| 0 <= k < frames.len() implies (#[trigger] frames[k]).sequence_number
                                == f.sequence + k by {
                                if k > 0 {
                                    assert(frames[k] == rest[k - 1]);
                                }
                            }
                        }
                    },
                    None => {
                        assert(f.spec_step(event, sid) == (f, Option::<ResponseStreamEventView>::None));
                        if crate::streaming::spec_is_terminal(event, follow_past_pause) {
                            crate::streaming::lemma_done_emits_nothing::<ResponseFormatter>(
                                f,
                                rest_items,
                                sid,
                                follow_past_pause,
                            );
                        } else {
                            lemma_response_frames_numbered(f, rest_items, sid, follow_past_pause);
                        }
                    },
                }
            },
            crate::streaming::FeedItem::Lagged => {
                crate::streaming::lemma_done_emits_nothing::<ResponseFormatter>(
                    f,
                    rest_items,
                    sid,
                    follow_past_pause,
                );
            },
            crate::streaming::FeedItem::Closed => {
                crate::streaming::lemma_done_emits_nothing::<ResponseFormatter>(
                    f,
                    rest_items,
                    sid,
                    follow_past_pause,
                );
            },
        }
    }
}

/// Tool events are never filtered by the responses formatter: each start
/// and each completion yields its own output-item frame carrying the
/// tool's name — with the numbering above, the frames mirror the agent's
/// emission order.
pub proof fn lemma_response_tool_events_not_filtered(
    f: ResponseFormatter,
    call: crate::events::ToolCallRecord,
    outcome: crate::events::ToolOutcome,
    sid: Seq<char>,
)
    ensures
        f.spec_step(AgentEvent::ToolCallStarted { call }, sid).1 matches Some(v) && v.event_type
            == "response.output_item.added"@ && v.text == Some(call.tool_name@),
        f.spec_step(AgentEvent::ToolCallCompleted { call, result: outcome }, sid).1 matches Some(
            v2,
        ) && v2.event_type == "response.output_item.done"@ && v2.text == Some(call.tool_name@),
{
}

} // verus!
