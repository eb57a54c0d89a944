//! Plain-value models of the platform's wire objects: the generic reply
//! envelope, the decoded update events, and the outgoing send request.

use vstd::prelude::*;

verus! {

/// The generic success/failure wrapper returned by every remote call:
/// `ok == false` means the platform rejected the call and `result` carries
/// nothing; any `description` is informational only.
pub struct Envelope<T> {
    pub ok: bool,
    pub result: Option<T>,
    pub description: Option<String>,
}

/// An inline search request from a user; `query_id` must be echoed verbatim
/// in the answer.
pub struct InlineQueryEvent {
    pub query_id: String,
    pub from_full_name: String,
    pub query_text: String,
}

/// A direct message; `chat_id` is enough to target a reply.
pub struct MessageEvent {
    pub chat_id: u64,
}

/// The payload of one decoded update.
pub enum EventKind {
    InlineQuery(InlineQueryEvent),
    Message(MessageEvent),
    Other,
}

/// One decoded unit of work from a fetch. `event_id` drives cursor
/// advancement only.
pub struct Event {
    pub event_id: u64,
    pub kind: EventKind,
}

/// The error kind a failed transport call surfaces as: the network call
/// itself failed, or the reply could not be decoded.
#[derive(Debug, Clone, Copy, PartialEq, Eq)]
pub enum TransportError {
    Network,
    Decode,
}

/// An outgoing direct-message send: the target chat, the text, rich-text
/// rendering on, every other formatting knob at its default.
pub struct SendMessageRequest {
    pub chat_id: u64,
    pub text: String,
    pub rich_text: bool,
}

} // verus!
