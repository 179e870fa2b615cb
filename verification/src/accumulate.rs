//! The streaming accumulator: a stateful fold over decoded stream events
//! that yields a monotonically growing partial response after every
//! event, and halts after the first malformed event.
//!
//! The network drive loop lives outside the library; it feeds each
//! decoded (or undecodable) event into [`Accumulator::step`] and forwards
//! whatever item the step emits.  [`accumulate_events`] is the same fold
//! over an already-collected event list.

use vstd::prelude::*;
use vstd::string::StringExecFns;
use crate::prompt::{prompt_eq, RenderedPrompt};
use crate::response::{CompleteResponse, ResponseMetadata};
use crate::text::str_eq_str;

verus! {

/// One server-sent event, after the transport decoded its data payload —
/// or failed to.
#[derive(Debug)]
pub enum StreamEvent {
    /// The event's payload decoded into a delta.
    Delta(crate::wire::ChatCompletionResponseDelta),
    /// The event's payload did not decode; carries the decoder's
    /// description of the failure.
    Malformed(String),
}

/// A failed streaming session: the decode failure that terminated it.
#[derive(Debug)]
pub struct StreamFault {
    /// Description of the undecodable event.
    pub detail: String,
}

impl StreamFault {
    /// The human-readable description of this fault.
    pub fn message(&self) -> (m: String)
        ensures
            m@ == "Failed to parse event from EventSource: "@ + self.detail@,
    {
        let mut m: String = "Failed to parse event from EventSource: ".to_owned();
        m.append(self.detail.as_str());
        m
    }
}

/// One item of the lazy streaming sequence.
#[derive(Debug)]
pub enum StreamItem {
    /// The accumulated partial response after this event.
    Partial(CompleteResponse),
    /// The single terminal error item of a failed session.
    Failed(StreamFault),
}

/// True when the event's data payload is the terminating sentinel, which
/// ends a stream without being parsed.
pub fn is_done_sentinel(data: &str) -> (r: bool)
    ensures
        r == (data@ == "[DONE]"@),
{
    str_eq_str(data, "[DONE]")
}

/// The content fragment an event contributes: the first choice's delta
/// content, when the event decoded and carries one.
pub open spec fn frag_of(ev: StreamEvent) -> Option<Seq<char>> {
    match ev {
        StreamEvent::Delta(d) => if d.choices@.len() >= 1 {
            match d.choices@[0].delta.content {
                Some(s) => Some(s@),
                None => None,
            }
        } else {
            None
        },
        StreamEvent::Malformed(_) => None,
    }
}

/// The accumulated content after the first `n` events: every fragment,
/// concatenated in order.
pub open spec fn content_after(events: Seq<StreamEvent>, n: int) -> Seq<char>
    decreases n,
{
    if n <= 0 {
        Seq::empty()
    } else {
        content_after(events, n - 1) + (match frag_of(events[n - 1]) {
            Some(s) => s,
            None => Seq::empty(),
        })
    }
}

/// The recorded model name after the first `n` events: the model of the
/// last event that contributed a fragment, else empty.
pub open spec fn model_after(events: Seq<StreamEvent>, n: int) -> Seq<char>
    decreases n,
{
    if n <= 0 {
        Seq::empty()
    } else {
        match frag_of(events[n - 1]) {
            Some(_) => events[n - 1]->Delta_0.model@,
            None => model_after(events, n - 1),
        }
    }
}

/// The index of the first malformed event, if any.
pub open spec fn first_malformed(events: Seq<StreamEvent>) -> Option<int>
    decreases events.len(),
{
    if events.len() == 0 {
        None
    } else {
        match first_malformed(events.drop_last()) {
            Some(i) => Some(i),
            None => if events.last() is Malformed {
                Some(events.len() - 1)
            } else {
                None
            },
        }
    }
}

/// Accumulated content never regresses: the content after `i` events is
/// a prefix of the content after `j >= i` events.
pub proof fn lemma_content_monotone(events: Seq<StreamEvent>, i: int, j: int)
    requires
        0 <= i <= j,
    ensures
        content_after(events, i).is_prefix_of(content_after(events, j)),
    decreases j - i,
{
    if i < j {
        lemma_content_monotone(events, i, j - 1);
    }
}

/// The fold state of one streaming session.
pub struct Accumulator {
    /// Name of the client that opened the session.
    pub client: String,
    /// The prompt the session was opened with.
    pub prompt: RenderedPrompt,
    /// Content accumulated so far.
    pub content: String,
    /// Model name from the last contributing event, else empty.
    pub model: String,
    /// When the session started.
    pub start_time_unix_ms: u64,
    /// True once a malformed event has terminated the session.
    pub failed: bool,
}

impl Accumulator {
    /// Opens a fresh session: nothing accumulated, nothing failed.
    pub fn new(client: String, prompt: RenderedPrompt, start_time_unix_ms: u64) -> (r: Accumulator)
        ensures
            r.client == client,
            r.prompt == prompt,
            r.content@ == Seq::<char>::empty(),
            r.model@ == Seq::<char>::empty(),
            r.start_time_unix_ms == start_time_unix_ms,
            !r.failed,
    {
        Accumulator {
            client,
            prompt,
            content: String::new(),
            model: String::new(),
            start_time_unix_ms,
            failed: false,
        }
    }

    /// The partial response snapshot for the current state.  Partial
    /// emissions carry no latency measurement and default metadata; the
    /// completion-finished flag stays false until the session's end.
    fn snapshot(&self) -> (r: CompleteResponse)
        ensures
            r.client@ == self.client@,
            prompt_eq(r.prompt, self.prompt),
            r.content@ == self.content@,
            r.model@ == self.model@,
            r.start_time_unix_ms == self.start_time_unix_ms,
            r.latency_ms == 0,
            r.metadata == (ResponseMetadata {
                baml_is_complete: false,
                finish_reason: None,
                prompt_tokens: None,
                output_tokens: None,
                total_tokens: None,
            }),
    {
        CompleteResponse {
            client: self.client.clone(),
            prompt: self.prompt.clone(),
            content: self.content.clone(),
            start_time_unix_ms: self.start_time_unix_ms,
            latency_ms: 0,
            model: self.model.clone(),
            metadata: ResponseMetadata {
                baml_is_complete: false,
                finish_reason: None,
                prompt_tokens: None,
                output_tokens: None,
                total_tokens: None,
            },
        }
    }

    /// Feeds one event into the fold.
    ///
    /// A halted session consumes the event and emits nothing.  A
    /// malformed event emits the single terminal error item and halts.
    /// A decoded delta appends its fragment (when it carries one) and
    /// updates the model name, then re-emits the current partial — also
    /// when the delta contributed nothing, so every decoded event of a
    /// live session produces exactly one item.
    pub fn step(&mut self, ev: StreamEvent) -> (r: Option<StreamItem>)
        ensures
            old(self).failed ==> {
                &&& r is None
                &&& final(self).failed
                &&& final(self).content@ == old(self).content@
            },
            !old(self).failed ==> match ev {
                StreamEvent::Malformed(detail) => {
                    &&& final(self).failed
                    &&& final(self).content@ == old(self).content@
                    &&& match r {
                        Some(StreamItem::Failed(f)) => f.detail == detail,
                        _ => false,
                    }
                },
                StreamEvent::Delta(_) => {
                    &&& !final(self).failed
                    &&& final(self).content@ == old(self).content@ + (match frag_of(ev) {
                        Some(s) => s,
                        None => Seq::empty(),
                    })
                    &&& final(self).model@ == (match frag_of(ev) {
                        Some(_) => ev->Delta_0.model@,
                        None => old(self).model@,
                    })
                    &&& match r {
                        Some(StreamItem::Partial(c)) => {
                            &&& c.client@ == final(self).client@
                            &&& prompt_eq(c.prompt, final(self).prompt)
                            &&& c.content@ == final(self).content@
                            &&& c.model@ == final(self).model@
                            &&& c.start_time_unix_ms == final(self).start_time_unix_ms
                        },
                        _ => false,
                    }
                },
            },
            final(self).client@ == old(self).client@,
            final(self).prompt == old(self).prompt,
            final(self).start_time_unix_ms == old(self).start_time_unix_ms,
    {
        if self.failed {
            return None;
        }
        match ev {
            StreamEvent::Malformed(detail) => {
                self.failed = true;
                Some(StreamItem::Failed(StreamFault { detail }))
            },
            StreamEvent::Delta(d) => {
                let crate::wire::ChatCompletionGeneric { mut choices, model, .. } = d;
                if choices.len() >= 1 {
                    let first = choices.remove(0);
                    if let Some(content) = first.delta.content {
                        self.content.append(content.as_str());
                        self.model = model;
                    }
                }
                Some(StreamItem::Partial(self.snapshot()))
            },
        }
    }
}

/// Folds a whole event list, as the drive loop would feed it: one item
/// per event up to and including the first malformed event, nothing
/// after it.
pub fn accumulate_events(
    client: String,
    prompt: RenderedPrompt,
    start_time_unix_ms: u64,
    events: Vec<StreamEvent>,
) -> (out: Vec<StreamItem>)
    ensures
        match first_malformed(events@) {
            None => {
                &&& out@.len() == events@.len()
                &&& forall|i: int|
                    0 <= i < out@.len() ==> match #[trigger] out@[i] {
                        StreamItem::Partial(c) => c.content@ == content_after(events@, i + 1)
                            && c.model@ == model_after(events@, i + 1) && c.client@ == client@
                            && prompt_eq(c.prompt, prompt) && c.start_time_unix_ms
                            == start_time_unix_ms,
                        StreamItem::Failed(_) => false,
                    }
            },
            Some(j) => {
                &&& out@.len() == j + 1
                &&& forall|i: int|
                    0 <= i < j ==> match #[trigger] out@[i] {
                        StreamItem::Partial(c) => c.content@ == content_after(events@, i + 1)
                            && c.model@ == model_after(events@, i + 1) && c.client@ == client@
                            && prompt_eq(c.prompt, prompt) && c.start_time_unix_ms
                            == start_time_unix_ms,
                        StreamItem::Failed(_) => false,
                    }
                &&& out@[j] matches StreamItem::Failed(f) && events@[j] matches
                    StreamEvent::Malformed(d) && f.detail == d
            },
        },
{
    let mut acc = Accumulator::new(client, prompt, start_time_unix_ms);
    let mut out: Vec<StreamItem> = Vec::new();
    let mut evs = events;
    let ghost all: Seq<StreamEvent> = evs@;
    let total: usize = evs.len();
    let mut i: usize = 0;
    while evs.len() > 0
        invariant
            all =~= all.take(i as int) + evs@,
            i + evs@.len() == all.len(),
            all.len() == total,
            acc.client@ == client@,
            acc.prompt == prompt,
            acc.start_time_unix_ms == start_time_unix_ms,
            !acc.failed ==> {
                &&& first_malformed(all.take(i as int)) is None
                &&& acc.content@ == content_after(all, i as int)
                &&& acc.model@ == model_after(all, i as int)
                &&& out@.len() == i
                &&& forall|t: int| 0 <= t < out@.len() ==> !((#[trigger] out@[t]) is Failed)
            },
            acc.failed ==> {
                &&& first_malformed(all.take(i as int)) == Some(out@.len() - 1)
                &&& out@.len() >= 1
                &&& out@.len() <= i
                &&& out@.last() matches StreamItem::Failed(f) && all[out@.len() - 1] matches
                    StreamEvent::Malformed(d) && f.detail == d
            },
            forall|t: int|
                0 <= t < out@.len() && !(#[trigger] out@[t] is Failed) ==> match out@[t] {
                    StreamItem::Partial(c) => c.content@ == content_after(all, t + 1) && c.model@
                        == model_after(all, t + 1) && c.client@ == client@ && prompt_eq(
                        c.prompt,
                        prompt,
                    ) && c.start_time_unix_ms == start_time_unix_ms,
                    StreamItem::Failed(_) => false,
                },
            forall|t: int| 0 <= t < out@.len() - 1 ==> !(#[trigger] out@[t] is Failed),
        decreases evs.len(),
    {
        let ev = evs.remove(0);
        proof {
            assert(all.take(i + 1 as int).drop_last() =~= all.take(i as int));
            assert(all.take(i + 1 as int).last() == all[i as int]);
            assert(all[i as int] == ev);
            assert(all =~= all.take(i + 1 as int) + evs@);
        }
        let item = acc.step(ev);
        match item {
            Some(it) => {
                out.push(it);
            },
            None => {},
        }
        i = i + 1;
    }
    proof {
        assert(all.take(i as int) =~= all);
        assert(all =~= events@);
    }
    out
}

} // verus!
