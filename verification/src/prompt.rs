//! Rendered prompts, as handed to the client by the prompt-rendering
//! collaborator: role-tagged messages whose parts are literal text or
//! image references.

use vstd::prelude::*;

verus! {

/// One part of a rendered chat message.
#[derive(Debug, PartialEq, Eq)]
pub enum MessagePart {
    Text(String),
    ImageUrl(String),
    ImageBase64(String),
}

/// A role-tagged message produced by prompt rendering; consumed read-only.
#[derive(Debug, PartialEq, Eq)]
pub struct RenderedMessage {
    pub role: String,
    pub parts: Vec<MessagePart>,
}

/// A rendered prompt: either a flat completion string or an ordered
/// sequence of chat messages.
#[derive(Debug, PartialEq, Eq)]
pub enum RenderedPrompt {
    Completion(String),
    Chat(Vec<RenderedMessage>),
}

/// Structural equality of message parts: same kind, same characters.
pub open spec fn part_eq(a: MessagePart, b: MessagePart) -> bool {
    match (a, b) {
        (MessagePart::Text(x), MessagePart::Text(y)) => x@ == y@,
        (MessagePart::ImageUrl(x), MessagePart::ImageUrl(y)) => x@ == y@,
        (MessagePart::ImageBase64(x), MessagePart::ImageBase64(y)) => x@ == y@,
        _ => false,
    }
}

/// Structural equality of rendered messages.
pub open spec fn message_eq(a: RenderedMessage, b: RenderedMessage) -> bool {
    &&& a.role@ == b.role@
    &&& a.parts@.len() == b.parts@.len()
    &&& forall|i: int| 0 <= i < a.parts@.len() ==> part_eq(#[trigger] a.parts@[i], b.parts@[i])
}

/// Structural equality of rendered prompts.
pub open spec fn prompt_eq(a: RenderedPrompt, b: RenderedPrompt) -> bool {
    match (a, b) {
        (RenderedPrompt::Completion(x), RenderedPrompt::Completion(y)) => x@ == y@,
        (RenderedPrompt::Chat(x), RenderedPrompt::Chat(y)) => {
            &&& x@.len() == y@.len()
            &&& forall|i: int| 0 <= i < x@.len() ==> message_eq(#[trigger] x@[i], y@[i])
        },
        _ => false,
    }
}

impl Clone for MessagePart {
    /// Copy; the clone is structurally equal to the original.
    fn clone(&self) -> (r: Self)
        ensures
            part_eq(r, *self),
    {
        match self {
            MessagePart::Text(s) => MessagePart::Text(s.clone()),
            MessagePart::ImageUrl(s) => MessagePart::ImageUrl(s.clone()),
            MessagePart::ImageBase64(s) => MessagePart::ImageBase64(s.clone()),
        }
    }
}

impl Clone for RenderedMessage {
    /// Copy; the clone is structurally equal to the original.
    fn clone(&self) -> (r: Self)
        ensures
            message_eq(r, *self),
    {
        let mut parts: Vec<MessagePart> = Vec::new();
        let mut i: usize = 0;
        while i < self.parts.len()
            invariant
                i <= self.parts.len(),
                parts@.len() == i,
                forall|j: int| 0 <= j < i ==> part_eq(#[trigger] parts@[j], self.parts@[j]),
            decreases self.parts.len() - i,
        {
            parts.push(self.parts[i].clone());
            i = i + 1;
        }
        RenderedMessage { role: self.role.clone(), parts }
    }
}

impl Clone for RenderedPrompt {
    /// Copy; the clone is structurally equal to the original.
    fn clone(&self) -> (r: Self)
        ensures
            prompt_eq(r, *self),
    {
        match self {
            RenderedPrompt::Completion(s) => RenderedPrompt::Completion(s.clone()),
            RenderedPrompt::Chat(msgs) => {
                let mut out: Vec<RenderedMessage> = Vec::new();
                let mut i: usize = 0;
                while i < msgs.len()
                    invariant
                        i <= msgs.len(),
                        out@.len() == i,
                        forall|j: int| 0 <= j < i ==> message_eq(#[trigger] out@[j], msgs@[j]),
                    decreases msgs.len() - i,
                {
                    out.push(msgs[i].clone());
                    i = i + 1;
                }
                RenderedPrompt::Chat(out)
            },
        }
    }
}

} // verus!
