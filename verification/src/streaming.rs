//! Event-to-SSE streaming adapter.
//!
//! A live event feed is turned into a sequence of protocol frames through a
//! formatter. The adapter decides, per received item, whether a frame is
//! emitted and whether the stream ends; the asynchronous plumbing that polls
//! the feed and writes the frames lives outside the crate.
use vstd::prelude::*;

use crate::events::{AgentEvent, AgentStatus};

verus! {

/// One item read from a session's broadcast feed: an event, a lag signal
/// from a slow consumer, or the feed closing.
pub enum FeedItem {
    Event { event: AgentEvent },
    Lagged,
    Closed,
}

/// Is `event` terminal for a stream: `Completed` always; a status change to
/// `Paused` exactly when the stream does not follow past pauses.
pub open spec fn spec_is_terminal(event: AgentEvent, follow_past_pause: bool) -> bool {
    match event {
        AgentEvent::Completed { message, success } => true,
        AgentEvent::StatusChanged { new_status } => new_status == AgentStatus::Paused
            && !follow_past_pause,
        _ => false,
    }
}

/// Check whether an event ends the stream it is delivered to.
pub fn is_terminal_event(event: &AgentEvent, follow_past_pause: bool) -> (r: bool)
    ensures
        r == spec_is_terminal(*event, follow_past_pause),
{
    match event {
        AgentEvent::Completed { .. } => true,
        AgentEvent::StatusChanged { new_status } => *new_status == AgentStatus::Paused
            && !follow_past_pause,
        _ => false,
    }
}

/// Does this feed item close the stream, whatever the formatter does with
/// it: a terminal event, a lag signal, or the feed closing.
pub open spec fn spec_item_closes(item: FeedItem, follow_past_pause: bool) -> bool {
    match item {
        FeedItem::Event { event } => spec_is_terminal(event, follow_past_pause),
        FeedItem::Lagged => true,
        FeedItem::Closed => true,
    }
}

/// Protocol-specific strategy mapping agent events to output frames.
///
/// A formatter is stateful: it may coalesce events, keep counters, or drop
/// an event by returning no output, which still advances terminal
/// detection in the adapter.
pub trait EventFormatter: Sized {
    type Output: View;

    /// Pure model of one formatting step: the successor formatter state and
    /// the model of the optional output the event maps to.
    spec fn spec_step(self, event: AgentEvent, session_id: Seq<char>) -> (
        Self,
        Option<<Self::Output as View>::V>,
    );

    /// SSE event-type label of an output.
    spec fn spec_event_name(self, output: <Self::Output as View>::V) -> Seq<char>;

    /// Map one event to its output frame, if any.
    fn format_event(&mut self, event: &AgentEvent, session_id: &str) -> (r: Option<Self::Output>)
        ensures
            *final(self) == old(self).spec_step(*event, session_id@).0,
            match (r, old(self).spec_step(*event, session_id@).1) {
                (Some(o), Some(v)) => o@ == v,
                (None, None) => true,
                _ => false,
            },
    ;

    /// SSE event-type label for an output frame.
    fn event_name(&self, output: &Self::Output) -> (r: String)
        ensures
            r@ == self.spec_event_name(output@),
    ;
}

/// State of one client-facing stream: the formatter, the id echoed into the
/// frames, the pause policy, and whether the stream has already ended.
pub struct SseAdapter<F: EventFormatter> {
    pub formatter: F,
    pub session_id: String,
    pub follow_past_pause: bool,
    pub done: bool,
}

/// How the exec action relates to the modelled action: an emitted frame's
/// model is the modelled frame.
pub open spec fn spec_action_matches<F: EventFormatter>(
    r: StepAction<F::Output>,
    t: StepAction<<F::Output as View>::V>,
) -> bool {
    match (r, t) {
        (StepAction::Emit { output: o, last: l }, StepAction::Emit { output: v, last: lv }) => o@
            == v && l == lv,
        (StepAction::Skip, StepAction::Skip) => true,
        (StepAction::End, StepAction::End) => true,
        _ => false,
    }
}

/// What the adapter does with one received feed item.
pub enum StepAction<T> {
    /// Emit a frame; `last` says the stream ends right after it.
    Emit { output: T, last: bool },
    /// No frame; keep polling the feed.
    Skip,
    /// No frame; the stream is over.
    End,
}

/// One adapter transition: successor formatter state, successor done flag,
/// and the frame emitted, if any.
pub open spec fn spec_adapter_step<F: EventFormatter>(
    fmt: F,
    done: bool,
    item: FeedItem,
    session_id: Seq<char>,
    follow_past_pause: bool,
) -> (F, bool, Option<<F::Output as View>::V>) {
    if done {
        (fmt, true, None)
    } else {
        match item {
            FeedItem::Event { event } => {
                let step = fmt.spec_step(event, session_id);
                (step.0, spec_is_terminal(event, follow_past_pause), step.1)
            },
            FeedItem::Lagged => (fmt, true, None),
            FeedItem::Closed => (fmt, true, None),
        }
    }
}

/// The action the exec adapter reports for one item.
pub open spec fn spec_step_action<F: EventFormatter>(
    fmt: F,
    done: bool,
    item: FeedItem,
    session_id: Seq<char>,
    follow_past_pause: bool,
) -> StepAction<<F::Output as View>::V> {
    let step = spec_adapter_step(fmt, done, item, session_id, follow_past_pause);
    if done {
        StepAction::End
    } else if step.2 is Some {
        StepAction::Emit { output: step.2->Some_0, last: step.1 }
    } else if step.1 {
        StepAction::End
    } else {
        StepAction::Skip
    }
}

/// Every frame a stream emits over a whole feed, in order.
pub open spec fn spec_frames<F: EventFormatter>(
    fmt: F,
    done: bool,
    items: Seq<FeedItem>,
    session_id: Seq<char>,
    follow_past_pause: bool,
) -> Seq<<F::Output as View>::V>
    decreases items.len(),
{
    if items.len() == 0 {
        Seq::empty()
    } else {
        let step = spec_adapter_step(fmt, done, items[0], session_id, follow_past_pause);
        let rest = spec_frames(step.0, step.1, items.drop_first(), session_id, follow_past_pause);
        match step.2 {
            Some(o) => seq![o] + rest,
            None => rest,
        }
    }
}

impl<F: EventFormatter> SseAdapter<F> {
    /// A fresh stream over `formatter`, echoing `session_id` and applying
    /// the given pause policy.
    pub fn new(formatter: F, session_id: String, follow_past_pause: bool) -> (r: Self)
        ensures
            r.formatter == formatter,
            r.session_id == session_id,
            r.follow_past_pause == follow_past_pause,
            !r.done,
    {
        SseAdapter { formatter, session_id, follow_past_pause, done: false }
    }

    /// Process one received feed item: decide the frame and whether the
    /// stream ends, per the streaming algorithm.
    pub fn step(&mut self, item: &FeedItem) -> (r: StepAction<F::Output>)
        ensures
            final(self).session_id == old(self).session_id,
            final(self).follow_past_pause == old(self).follow_past_pause,
            final(self).formatter == spec_adapter_step(
                old(self).formatter,
                old(self).done,
                *item,
                old(self).session_id@,
                old(self).follow_past_pause,
            ).0,
            final(self).done == spec_adapter_step(
                old(self).formatter,
                old(self).done,
                *item,
                old(self).session_id@,
                old(self).follow_past_pause,
            ).1,
            spec_action_matches::<F>(
                r,
                spec_step_action(
                    old(self).formatter,
                    old(self).done,
                    *item,
                    old(self).session_id@,
                    old(self).follow_past_pause,
                ),
            ),
    {
        if self.done {
            return StepAction::End;
        }
        match item {
            FeedItem::Event { event } => {
                let terminal = is_terminal_event(event, self.follow_past_pause);
                let out = self.formatter.format_event(event, self.session_id.as_str());
                self.done = terminal;
                match out {
                    Some(o) => StepAction::Emit { output: o, last: terminal },
                    None => if terminal {
                        StepAction::End
                    } else {
                        StepAction::Skip
                    },
                }
            },
            FeedItem::Lagged => {
                self.done = true;
                StepAction::End
            },
            FeedItem::Closed => {
                self.done = true;
                StepAction::End
            },
        }
    }

    /// Run the stream over a batch of feed items and collect every frame it
    /// emits, in order.
    pub fn run_to_frames(&mut self, items: &Vec<FeedItem>) -> (frames: Vec<F::Output>)
        ensures
            frames@.map_values(|o: F::Output| o@) == spec_frames(
                old(self).formatter,
                old(self).done,
                items@,
                old(self).session_id@,
                old(self).follow_past_pause,
            ),
    {
        let ghost g_items = items@;
        let ghost g_sid = self.session_id@;
        let ghost g_fpp = self.follow_past_pause;
        let ghost g_total = spec_frames(self.formatter, self.done, g_items, g_sid, g_fpp);
        let mut frames: Vec<F::Output> = Vec::new();
        let mut i: usize = 0;
        proof {
            assert(g_items.skip(0) =~= g_items);
            assert(frames@.map_values(|o: F::Output| o@) =~= Seq::<<F::Output as View>::V>::empty());
            assert(frames@.map_values(|o: F::Output| o@) + g_total =~= g_total);
        }
        while i < items.len()
            invariant
                0 <= i <= items@.len(),
                items@ == g_items,
                self.session_id@ == g_sid,
                self.follow_past_pause == g_fpp,
                frames@.map_values(|o: F::Output| o@) + spec_frames(
                    self.formatter,
                    self.done,
                    g_items.skip(i as int),
                    g_sid,
                    g_fpp,
                ) == g_total,
            decreases items@.len() - i,
        {
            let ghost pre_fmt = self.formatter;
            let ghost pre_done = self.done;
            let ghost pre_frames = frames@;
            let action = self.step(&items[i]);
            match action {
                StepAction::Emit { output, last } => {
                    frames.push(output);
                },
                StepAction::Skip => {},
                StepAction::End => {},
            }
            proof {
                assert(g_items.skip(i as int)[0] == g_items[i as int]);
                assert(g_items.skip(i as int).drop_first() =~= g_items.skip(i as int + 1));
                let step = spec_adapter_step(pre_fmt, pre_done, g_items[i as int], g_sid, g_fpp);
                let rest = spec_frames(
                    self.formatter,
                    self.done,
                    g_items.skip(i as int + 1),
                    g_sid,
                    g_fpp,
                );
                match step.2 {
                    Some(o) => {
                        assert(frames@.map_values(|x: F::Output| x@) =~= pre_frames.map_values(
                            |x: F::Output| x@,
                        ) + seq![o]);
                        assert((pre_frames.map_values(|x: F::Output| x@) + seq![o]) + rest
                            =~= pre_frames.map_values(|x: F::Output| x@) + (seq![o] + rest));
                    },
                    None => {},
                }
            }
            i = i + 1;
        }
        proof {
            assert(g_items.skip(i as int) =~= Seq::<FeedItem>::empty());
            assert(frames@.map_values(|o: F::Output| o@) + Seq::<<F::Output as View>::V>::empty()
                =~= frames@.map_values(|o: F::Output| o@));
        }
        frames
    }
}

/// Once a stream has ended, it emits nothing more, whatever the feed still
/// carries.
pub proof fn lemma_done_emits_nothing<F: EventFormatter>(
    fmt: F,
    items: Seq<FeedItem>,
    session_id: Seq<char>,
    follow_past_pause: bool,
)
    ensures
        spec_frames(fmt, true, items, session_id, follow_past_pause) == Seq::<
            <F::Output as View>::V,
        >::empty(),
    decreases items.len(),
{
    if items.len() > 0 {
        lemma_done_emits_nothing(fmt, items.drop_first(), session_id, follow_past_pause);
    }
}

/// No frame follows a terminal item's own frame: the frames of the whole
/// feed are the frames of the prefix that ends at any closing item.
pub proof fn lemma_no_frames_after_terminal<F: EventFormatter>(
    fmt: F,
    done: bool,
    items: Seq<FeedItem>,
    i: int,
    session_id: Seq<char>,
    follow_past_pause: bool,
)
    requires
        0 <= i < items.len(),
        spec_item_closes(items[i], follow_past_pause),
    ensures
        spec_frames(fmt, done, items, session_id, follow_past_pause)
            == spec_frames(fmt, done, items.take(i + 1), session_id, follow_past_pause),
    decreases i,
{
    let pre = items.take(i + 1);
    assert(pre[0] == items[0]);
    let step = spec_adapter_step(fmt, done, items[0], session_id, follow_past_pause);
    let tail_full = spec_frames(step.0, step.1, items.drop_first(), session_id, follow_past_pause);
    let tail_pre = spec_frames(step.0, step.1, pre.drop_first(), session_id, follow_past_pause);
    if i == 0 {
        assert(step.1);
        lemma_done_emits_nothing::<F>(step.0, items.drop_first(), session_id, follow_past_pause);
        assert(pre.drop_first() =~= Seq::<FeedItem>::empty());
        assert(tail_full == Seq::<<F::Output as View>::V>::empty());
        assert(tail_pre == Seq::<<F::Output as View>::V>::empty());
    } else {
        assert(items.drop_first()[i - 1] == items[i]);
        lemma_no_frames_after_terminal(
            step.0,
            step.1,
            items.drop_first(),
            i - 1,
            session_id,
            follow_past_pause,
        );
        assert(pre.drop_first() =~= items.drop_first().take(i));
        assert(tail_full == tail_pre);
    }
    assert(spec_frames(fmt, done, items, session_id, follow_past_pause) == (match step.2 {
        Some(o) => seq![o] + tail_full,
        None => tail_full,
    }));
    assert(spec_frames(fmt, done, pre, session_id, follow_past_pause) == (match step.2 {
        Some(o) => seq![o] + tail_pre,
        None => tail_pre,
    }));
}

/// A terminal event the formatter filters out produces no frame, yet still
/// ends the stream: nothing at all is emitted from it on.
pub proof fn lemma_filtered_terminal_still_ends<F: EventFormatter>(
    fmt: F,
    event: AgentEvent,
    rest: Seq<FeedItem>,
    session_id: Seq<char>,
    follow_past_pause: bool,
)
    requires
        spec_is_terminal(event, follow_past_pause),
        fmt.spec_step(event, session_id).1 is None,
    ensures
        spec_frames(
            fmt,
            false,
            seq![FeedItem::Event { event }] + rest,
            session_id,
            follow_past_pause,
        ) == Seq::<<F::Output as View>::V>::empty(),
{
    let items = seq![FeedItem::Event { event }] + rest;
    assert(items[0] == FeedItem::Event { event });
    let step = spec_adapter_step(fmt, false, items[0], session_id, follow_past_pause);
    assert(items.drop_first() =~= rest);
    lemma_done_emits_nothing::<F>(step.0, rest, session_id, follow_past_pause);
}

/// A formatter whose step never changes its own state.
pub open spec fn spec_stateless<F: EventFormatter>() -> bool {
    forall|f: F, e: AgentEvent, sid: Seq<char>| (#[trigger] f.spec_step(e, sid)).0 == f
}

/// Per-event outputs of a feed under a formatter, in feed order; lag and
/// close markers contribute nothing.
pub open spec fn spec_filtered_outputs<F: EventFormatter>(
    fmt: F,
    items: Seq<FeedItem>,
    session_id: Seq<char>,
) -> Seq<<F::Output as View>::V>
    decreases items.len(),
{
    if items.len() == 0 {
        Seq::empty()
    } else {
        let rest = spec_filtered_outputs(fmt, items.drop_first(), session_id);
        match items[0] {
            FeedItem::Event { event } => match fmt.spec_step(event, session_id).1 {
                Some(o) => seq![o] + rest,
                None => rest,
            },
            FeedItem::Lagged => rest,
            FeedItem::Closed => rest,
        }
    }
}

/// Length of the open prefix of a feed: everything up to and including the
/// first item that closes the stream, or the whole feed if none does.
pub open spec fn spec_open_prefix_len(items: Seq<FeedItem>, follow_past_pause: bool) -> int
    decreases items.len(),
{
    if items.len() == 0 {
        0
    } else if spec_item_closes(items[0], follow_past_pause) {
        1
    } else {
        1 + spec_open_prefix_len(items.drop_first(), follow_past_pause)
    }
}

pub proof fn lemma_open_prefix_len_bounds(items: Seq<FeedItem>, follow_past_pause: bool)
    ensures
        0 <= spec_open_prefix_len(items, follow_past_pause) <= items.len(),
    decreases items.len(),
{
    if items.len() > 0 && !spec_item_closes(items[0], follow_past_pause) {
        lemma_open_prefix_len_bounds(items.drop_first(), follow_past_pause);
    }
}

/// Order preservation: with a state-free formatter, a stream's frames are
/// exactly the per-event outputs of the open prefix of its feed, in feed
/// order. In particular, tool-call start and completion frames appear in
/// the order the agent emitted the events, each completion after its start.
pub proof fn lemma_frames_are_ordered_outputs<F: EventFormatter>(
    fmt: F,
    items: Seq<FeedItem>,
    session_id: Seq<char>,
    follow_past_pause: bool,
)
    requires
        spec_stateless::<F>(),
    ensures
        spec_frames(fmt, false, items, session_id, follow_past_pause) == spec_filtered_outputs(
            fmt,
            items.take(spec_open_prefix_len(items, follow_past_pause)),
            session_id,
        ),
    decreases items.len(),
{
    lemma_open_prefix_len_bounds(items, follow_past_pause);
    if items.len() == 0 {
        assert(items.take(0) =~= Seq::<FeedItem>::empty());
    } else {
        let step = spec_adapter_step(fmt, false, items[0], session_id, follow_past_pause);
        assert(step.0 == fmt);
        let cut = spec_open_prefix_len(items, follow_past_pause);
        if !spec_item_closes(items[0], follow_past_pause) {
            lemma_open_prefix_len_bounds(items.drop_first(), follow_past_pause);
        }
        assert(cut >= 1);
        let pre = items.take(cut);
        assert(pre[0] == items[0]);
        if spec_item_closes(items[0], follow_past_pause) {
            assert(step.1);
            lemma_done_emits_nothing::<F>(
                step.0,
                items.drop_first(),
                session_id,
                follow_past_pause,
            );
            assert(cut == 1);
            assert(pre.drop_first() =~= Seq::<FeedItem>::empty());
            assert(spec_filtered_outputs(fmt, pre.drop_first(), session_id) == Seq::<
                <F::Output as View>::V,
            >::empty());
        } else {
            assert(!step.1);
            lemma_frames_are_ordered_outputs(
                fmt,
                items.drop_first(),
                session_id,
                follow_past_pause,
            );
            let tail_cut = spec_open_prefix_len(items.drop_first(), follow_past_pause);
            lemma_open_prefix_len_bounds(items.drop_first(), follow_past_pause);
            assert(cut == 1 + tail_cut);
            assert(pre.drop_first() =~= items.drop_first().take(tail_cut));
        }
    }
}

/// A non-terminal event the formatter filters out produces no frame and
/// leaves the rest of the stream as if the event had not been received,
/// save for the formatter state it advanced.
pub proof fn lemma_filtered_event_no_frame<F: EventFormatter>(
    fmt: F,
    event: AgentEvent,
    rest: Seq<FeedItem>,
    session_id: Seq<char>,
    follow_past_pause: bool,
)
    requires
        !spec_is_terminal(event, follow_past_pause),
        fmt.spec_step(event, session_id).1 is None,
    ensures
        spec_frames(
            fmt,
            false,
            seq![FeedItem::Event { event }] + rest,
            session_id,
            follow_past_pause,
        ) == spec_frames(
            fmt.spec_step(event, session_id).0,
            false,
            rest,
            session_id,
            follow_past_pause,
        ),
{
    let items = seq![FeedItem::Event { event }] + rest;
    assert(items[0] == FeedItem::Event { event });
    assert(items.drop_first() =~= rest);
}

} // verus!
