//! The protocol messages that the transport moves.
//!
//! A message is one of three kinds: a request, a notification, or a response.
//! The tag decides how the reader worker routes the message; the payload is
//! carried through untouched and has no meaning to the transport itself.

use vstd::prelude::*;

verus! {

/// Payload of a request message.
#[derive(Debug, Clone, PartialEq, Eq)]
pub struct Request {
    pub id: u64,
}

/// Payload of a notification message.
#[derive(Debug, Clone, PartialEq, Eq)]
pub struct Notification {
    pub method: String,
}

/// Payload of a response message.
#[derive(Debug, Clone, PartialEq, Eq)]
pub struct Response {
    pub id: u64,
}

/// A decoded protocol unit, tagged with its kind.
#[derive(Debug, Clone, PartialEq, Eq)]
pub enum Message {
    Request(Request),
    Notification(Notification),
    Response(Response),
}

/// The kind of a message, without its payload.
#[derive(Debug, Clone, Copy, PartialEq, Eq, Structural)]
pub enum MessageKind {
    Request,
    Notification,
    Response,
}

/// The kind a message is classified under.
pub open spec fn kind_of(m: Message) -> MessageKind {
    match m {
        Message::Request(_) => MessageKind::Request,
        Message::Notification(_) => MessageKind::Notification,
        Message::Response(_) => MessageKind::Response,
    }
}

impl Message {
    /// Classifies the message by its tag.
    pub fn kind(&self) -> (k: MessageKind)
        ensures
            k == kind_of(*self),
    {
        match self {
            Message::Request(_) => MessageKind::Request,
            Message::Notification(_) => MessageKind::Notification,
            Message::Response(_) => MessageKind::Response,
        }
    }
}

} // verus!
