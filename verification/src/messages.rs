//! Conversation messages and the trace-replay rules.
//!
//! An incoming request carries a trace of chat messages; only the user
//! messages are replayed into the agent, flattened to plain text with
//! multi-part text joined by newlines and non-text parts dropped.
use vstd::prelude::*;

use vstd::string::StringExecFns;

verus! {

/// One part of a multi-part message content.
pub enum ContentPart {
    Text { text: String },
    /// An image, audio or other non-text part; dropped at this layer.
    Other,
}

/// Content of a chat message.
pub enum MessageContent {
    Text { text: String },
    Parts { parts: Vec<ContentPart> },
    Empty,
}

/// The function part of a recorded tool call.
pub struct FunctionCall {
    pub name: String,
    pub arguments: String,
}

/// A tool call recorded on an assistant message.
pub struct ToolCallRequest {
    pub id: String,
    pub call_type: String,
    pub function: FunctionCall,
}

/// One message of a conversation trace.
pub enum ChatMessage {
    System { content: MessageContent, name: Option<String> },
    User { content: MessageContent, name: Option<String> },
    Assistant {
        content: Option<MessageContent>,
        tool_calls: Option<Vec<ToolCallRequest>>,
        name: Option<String>,
        reasoning_content: Option<String>,
    },
    Tool { content: String, tool_call_id: String },
}

/// Model of one content part.
pub ghost enum ContentPartView {
    Text { text: Seq<char> },
    Other,
}

/// Model of a message content.
pub ghost enum MessageContentView {
    Text { text: Seq<char> },
    Parts { parts: Seq<ContentPartView> },
    Empty,
}

/// Model of the function part of a recorded tool call.
pub ghost struct FunctionCallView {
    pub name: Seq<char>,
    pub arguments: Seq<char>,
}

/// Model of a recorded tool call.
pub ghost struct ToolCallRequestView {
    pub id: Seq<char>,
    pub call_type: Seq<char>,
    pub function: FunctionCallView,
}

/// Model of one conversation message.
pub ghost enum ChatMessageView {
    System { content: MessageContentView, name: Option<Seq<char>> },
    User { content: MessageContentView, name: Option<Seq<char>> },
    Assistant {
        content: Option<MessageContentView>,
        tool_calls: Option<Seq<ToolCallRequestView>>,
        name: Option<Seq<char>>,
        reasoning_content: Option<Seq<char>>,
    },
    Tool { content: Seq<char>, tool_call_id: Seq<char> },
}

/// Model of an optional string.
pub open spec fn view_opt_str(o: Option<String>) -> Option<Seq<char>> {
    match o {
        Some(s) => Some(s@),
        None => None,
    }
}

impl View for ContentPart {
    type V = ContentPartView;

    open spec fn view(&self) -> ContentPartView {
        match self {
            ContentPart::Text { text } => ContentPartView::Text { text: text@ },
            ContentPart::Other => ContentPartView::Other,
        }
    }
}

impl View for MessageContent {
    type V = MessageContentView;

    open spec fn view(&self) -> MessageContentView {
        match self {
            MessageContent::Text { text } => MessageContentView::Text { text: text@ },
            MessageContent::Parts { parts } => MessageContentView::Parts {
                parts: parts@.map_values(|p: ContentPart| p@),
            },
            MessageContent::Empty => MessageContentView::Empty,
        }
    }
}

impl View for FunctionCall {
    type V = FunctionCallView;

    open spec fn view(&self) -> FunctionCallView {
        FunctionCallView { name: self.name@, arguments: self.arguments@ }
    }
}

impl View for ToolCallRequest {
    type V = ToolCallRequestView;

    open spec fn view(&self) -> ToolCallRequestView {
        ToolCallRequestView { id: self.id@, call_type: self.call_type@, function: self.function@ }
    }
}

impl View for ChatMessage {
    type V = ChatMessageView;

    open spec fn view(&self) -> ChatMessageView {
        match self {
            ChatMessage::System { content, name } => ChatMessageView::System {
                content: content@,
                name: view_opt_str(*name),
            },
            ChatMessage::User { content, name } => ChatMessageView::User {
                content: content@,
                name: view_opt_str(*name),
            },
            ChatMessage::Assistant { content, tool_calls, name, reasoning_content } => ChatMessageView::Assistant {
                content: match content {
                    Some(c) => Some(c@),
                    None => None,
                },
                tool_calls: match tool_calls {
                    Some(tc) => Some(tc@.map_values(|t: ToolCallRequest| t@)),
                    None => None,
                },
                name: view_opt_str(*name),
                reasoning_content: view_opt_str(*reasoning_content),
            },
            ChatMessage::Tool { content, tool_call_id } => ChatMessageView::Tool {
                content: content@,
                tool_call_id: tool_call_id@,
            },
        }
    }
}

/// Texts of the textual parts, in order; non-text parts contribute nothing.
pub open spec fn spec_part_texts(parts: Seq<ContentPart>) -> Seq<Seq<char>>
    decreases parts.len(),
{
    if parts.len() == 0 {
        Seq::empty()
    } else {
        let rest = spec_part_texts(parts.drop_first());
        match parts[0] {
            ContentPart::Text { text } => seq![text@] + rest,
            ContentPart::Other => rest,
        }
    }
}

/// Newline-joined concatenation of a sequence of lines.
pub open spec fn spec_join_lines(lines: Seq<Seq<char>>) -> Seq<char>
    decreases lines.len(),
{
    if lines.len() == 0 {
        Seq::empty()
    } else if lines.len() == 1 {
        lines[0]
    } else {
        lines[0] + seq!['\n'] + spec_join_lines(lines.drop_first())
    }
}

/// Plain text of a message content: text as is, parts flattened to their
/// newline-joined textual parts, empty content to the empty string.
pub open spec fn spec_flatten_content(c: MessageContent) -> Seq<char> {
    match c {
        MessageContent::Text { text } => text@,
        MessageContent::Parts { parts } => spec_join_lines(spec_part_texts(parts@)),
        MessageContent::Empty => Seq::empty(),
    }
}

/// What a trace replays into the agent: the flattened text of each user
/// message, in order, with empty texts dropped. Assistant, system and tool
/// messages are reference material only and are not re-injected.
pub open spec fn spec_user_inputs(trace: Seq<ChatMessage>) -> Seq<Seq<char>>
    decreases trace.len(),
{
    if trace.len() == 0 {
        Seq::empty()
    } else {
        let rest = spec_user_inputs(trace.drop_first());
        match trace[0] {
            ChatMessage::User { content, name } => {
                let flat = spec_flatten_content(content);
                if flat.len() > 0 {
                    seq![flat] + rest
                } else {
                    rest
                }
            },
            _ => rest,
        }
    }
}

pub proof fn lemma_part_texts_push(s: Seq<ContentPart>, x: ContentPart)
    ensures
        spec_part_texts(s.push(x)) == spec_part_texts(s) + (match x {
            ContentPart::Text { text } => seq![text@],
            ContentPart::Other => Seq::<Seq<char>>::empty(),
        }),
    decreases s.len(),
{
    let tail = match x {
        ContentPart::Text { text } => seq![text@],
        ContentPart::Other => Seq::<Seq<char>>::empty(),
    };
    if s.len() == 0 {
        assert(s.push(x).drop_first() =~= Seq::<ContentPart>::empty());
        assert(s.push(x)[0] == x);
        assert(spec_part_texts(Seq::<ContentPart>::empty()) == Seq::<Seq<char>>::empty());
        match x {
            ContentPart::Text { text } => {
                assert(spec_part_texts(s.push(x)) =~= seq![text@]);
                assert(spec_part_texts(s) + tail =~= seq![text@]);
            },
            ContentPart::Other => {
                assert(spec_part_texts(s.push(x)) =~= Seq::<Seq<char>>::empty());
                assert(spec_part_texts(s) + tail =~= Seq::<Seq<char>>::empty());
            },
        }
    } else {
        assert(s.push(x).drop_first() =~= s.drop_first().push(x));
        assert(s.push(x)[0] == s[0]);
        lemma_part_texts_push(s.drop_first(), x);
        match s[0] {
            ContentPart::Text { text } => {
                assert(seq![text@] + (spec_part_texts(s.drop_first()) + tail) =~= (seq![text@]
                    + spec_part_texts(s.drop_first())) + tail);
            },
            ContentPart::Other => {},
        }
    }
}

pub proof fn lemma_join_lines_push(s: Seq<Seq<char>>, x: Seq<char>)
    requires
        s.len() > 0,
    ensures
        spec_join_lines(s.push(x)) == spec_join_lines(s) + seq!['\n'] + x,
    decreases s.len(),
{
    assert(s.push(x)[0] == s[0]);
    if s.len() == 1 {
        assert(s.push(x).drop_first() =~= seq![x]);
        assert(spec_join_lines(seq![x]) == x);
    } else {
        assert(s.push(x).drop_first() =~= s.drop_first().push(x));
        lemma_join_lines_push(s.drop_first(), x);
        assert(s[0] + seq!['\n'] + (spec_join_lines(s.drop_first()) + seq!['\n'] + x) =~= (s[0]
            + seq!['\n'] + spec_join_lines(s.drop_first())) + seq!['\n'] + x);
    }
}

pub proof fn lemma_user_inputs_push(s: Seq<ChatMessage>, x: ChatMessage)
    ensures
        spec_user_inputs(s.push(x)) == spec_user_inputs(s) + (match x {
            ChatMessage::User { content, name } => {
                if spec_flatten_content(content).len() > 0 {
                    seq![spec_flatten_content(content)]
                } else {
                    Seq::<Seq<char>>::empty()
                }
            },
            _ => Seq::<Seq<char>>::empty(),
        }),
    decreases s.len(),
{
    let tail = match x {
        ChatMessage::User { content, name } => {
            if spec_flatten_content(content).len() > 0 {
                seq![spec_flatten_content(content)]
            } else {
                Seq::<Seq<char>>::empty()
            }
        },
        _ => Seq::<Seq<char>>::empty(),
    };
    if s.len() == 0 {
        assert(s.push(x).drop_first() =~= Seq::<ChatMessage>::empty());
        assert(s.push(x)[0] == x);
        assert(spec_user_inputs(Seq::<ChatMessage>::empty()) == Seq::<Seq<char>>::empty());
        assert(spec_user_inputs(s.push(x)) =~= Seq::<Seq<char>>::empty() + tail);
        assert(Seq::<Seq<char>>::empty() + tail =~= tail);
        assert(spec_user_inputs(s) + tail =~= tail);
    } else {
        assert(s.push(x).drop_first() =~= s.drop_first().push(x));
        assert(s.push(x)[0] == s[0]);
        lemma_user_inputs_push(s.drop_first(), x);
        match s[0] {
            ChatMessage::User { content, name } => {
                if spec_flatten_content(content).len() > 0 {
                    assert(seq![spec_flatten_content(content)] + (spec_user_inputs(s.drop_first())
                        + tail) =~= (seq![spec_flatten_content(content)] + spec_user_inputs(
                        s.drop_first(),
                    )) + tail);
                }
            },
            _ => {},
        }
    }
}

/// Collect the texts of the textual parts, in order.
pub fn part_texts(parts: &Vec<ContentPart>) -> (r: Vec<String>)
    ensures
        r@.map_values(|s: String| s@) == spec_part_texts(parts@),
{
    let mut r: Vec<String> = Vec::new();
    let mut i: usize = 0;
    proof {
        assert(parts@.take(0) =~= Seq::<ContentPart>::empty());
    }
    while i < parts.len()
        invariant
            0 <= i <= parts@.len(),
            r@.map_values(|s: String| s@) == spec_part_texts(parts@.take(i as int)),
        decreases parts@.len() - i,
    {
        let ghost pre = r@;
        match &parts[i] {
            ContentPart::Text { text } => {
                r.push(text.clone());
            },
            ContentPart::Other => {},
        }
        proof {
            assert(parts@.take(i as int + 1) =~= parts@.take(i as int).push(parts@[i as int]));
            lemma_part_texts_push(parts@.take(i as int), parts@[i as int]);
            match parts@[i as int] {
                ContentPart::Text { text } => {
                    assert(r@.map_values(|s: String| s@) =~= pre.map_values(|s: String| s@)
                        + seq![text@]);
                },
                ContentPart::Other => {
                    assert(spec_part_texts(parts@.take(i as int)) + Seq::<Seq<char>>::empty()
                        =~= spec_part_texts(parts@.take(i as int)));
                },
            }
        }
        i = i + 1;
    }
    proof {
        assert(parts@.take(parts@.len() as int) =~= parts@);
    }
    r
}

/// Join lines with a newline between each pair.
pub fn join_lines(lines: &Vec<String>) -> (r: String)
    ensures
        r@ == spec_join_lines(lines@.map_values(|s: String| s@)),
{
    let ghost model = lines@.map_values(|s: String| s@);
    if lines.len() == 0 {
        let r = String::new();
        proof {
            assert(model.len() == 0);
        }
        return r;
    }
    let mut r: String = lines[0].clone();
    let mut i: usize = 1;
    proof {
        assert(model.take(1) =~= seq![model[0]]);
        assert(spec_join_lines(seq![model[0]]) == model[0]);
    }
    while i < lines.len()
        invariant
            1 <= i <= lines@.len(),
            model == lines@.map_values(|s: String| s@),
            r@ == spec_join_lines(model.take(i as int)),
        decreases lines@.len() - i,
    {
        r.append("\n");
        r.append(lines[i].as_str());
        proof {
            reveal_strlit("\n");
            assert("\n"@ =~= seq!['\n']);
            assert(model.take(i as int + 1) =~= model.take(i as int).push(model[i as int]));
            lemma_join_lines_push(model.take(i as int), model[i as int]);
        }
        i = i + 1;
    }
    proof {
        assert(model.take(model.len() as int) =~= model);
    }
    r
}

/// Flatten a message content to plain text.
pub fn flatten_content(c: &MessageContent) -> (r: String)
    ensures
        r@ == spec_flatten_content(*c),
{
    match c {
        MessageContent::Text { text } => text.clone(),
        MessageContent::Parts { parts } => {
            let texts = part_texts(parts);
            join_lines(&texts)
        },
        MessageContent::Empty => String::new(),
    }
}

/// Extract the user inputs a trace replays into the agent: each user
/// message's flattened text, in order, empty texts dropped.
pub fn extract_user_inputs(trace: &Vec<ChatMessage>) -> (r: Vec<String>)
    ensures
        r@.map_values(|s: String| s@) == spec_user_inputs(trace@),
{
    let mut r: Vec<String> = Vec::new();
    let mut i: usize = 0;
    proof {
        assert(trace@.take(0) =~= Seq::<ChatMessage>::empty());
    }
    while i < trace.len()
        invariant
            0 <= i <= trace@.len(),
            r@.map_values(|s: String| s@) == spec_user_inputs(trace@.take(i as int)),
        decreases trace@.len() - i,
    {
        let ghost pre = r@;
        match &trace[i] {
            ChatMessage::User { content, name } => {
                let text = flatten_content(content);
                if !text.as_str().is_empty() {
                    r.push(text);
                }
            },
            _ => {},
        }
        proof {
            assert(trace@.take(i as int + 1) =~= trace@.take(i as int).push(trace@[i as int]));
            lemma_user_inputs_push(trace@.take(i as int), trace@[i as int]);
            let tail = match trace@[i as int] {
                ChatMessage::User { content, name } => {
                    if spec_flatten_content(content).len() > 0 {
                        seq![spec_flatten_content(content)]
                    } else {
                        Seq::<Seq<char>>::empty()
                    }
                },
                _ => Seq::<Seq<char>>::empty(),
            };
            if tail.len() > 0 {
                assert(r@.map_values(|s: String| s@) =~= pre.map_values(|s: String| s@) + tail);
            } else {
                assert(spec_user_inputs(trace@.take(i as int)) + tail =~= spec_user_inputs(
                    trace@.take(i as int),
                ));
            }
        }
        i = i + 1;
    }
    proof {
        assert(trace@.take(trace@.len() as int) =~= trace@);
    }
    r
}

} // verus!
