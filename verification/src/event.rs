//! Events: what the inbound pump hands to subscribers.

use vstd::prelude::*;
use crate::frame::CloseFrame;
use crate::frame::CloseFrameView;
use crate::values::option_view;

verus! {

/// One event for subscribers.
#[derive(Debug, PartialEq, Eq)]
pub enum Event {
    /// A payload that decoded as JSON, in decoded form.
    Message(serde_json::Value),
    /// A text payload that did not decode, unmodified.
    RawMessage(String),
    /// A binary payload that is not text, unmodified.
    Binary(Vec<u8>),
    /// The peer closed the session.
    Closed { code: Option<u16>, reason: Option<String> },
    /// The transport failed while reading; the text is its description.
    Error(String),
}

/// Mathematical value of an [`Event`].
pub enum EventView {
    Message(serde_json::Value),
    RawMessage(Seq<char>),
    Binary(Seq<u8>),
    Closed { code: Option<u16>, reason: Option<Seq<char>> },
    Error(Seq<char>),
}

impl View for Event {
    type V = EventView;

    open spec fn view(&self) -> EventView {
        match *self {
            Event::Message(v) => EventView::Message(v),
            Event::RawMessage(t) => EventView::RawMessage(t@),
            Event::Binary(b) => EventView::Binary(b@),
            Event::Closed { code, reason } => EventView::Closed {
                code,
                reason: option_view(reason),
            },
            Event::Error(d) => EventView::Error(d@),
        }
    }
}

impl EventView {
    /// The name under which the event is published.
    pub open spec fn name(self) -> Seq<char> {
        match self {
            EventView::Message(_) => "message"@,
            EventView::RawMessage(_) => "raw-message"@,
            EventView::Binary(_) => "binary"@,
            EventView::Closed { .. } => "closed"@,
            EventView::Error(_) => "error"@,
        }
    }
}

/// The `closed` event for a close frame: it carries the code and the reason
/// when the peer gave them, and neither when it did not.
pub open spec fn closed_event(info: Option<CloseFrameView>) -> EventView {
    match info {
        Some(c) => EventView::Closed { code: Some(c.code), reason: Some(c.reason) },
        None => EventView::Closed { code: None, reason: None },
    }
}

impl Event {
    /// The name under which the event is published.
    pub fn name(&self) -> (name: &'static str)
        ensures
            name@ == self@.name(),
    {
        match self {
            Event::Message(_) => "message",
            Event::RawMessage(_) => "raw-message",
            Event::Binary(_) => "binary",
            Event::Closed { .. } => "closed",
            Event::Error(_) => "error",
        }
    }

    /// The `closed` event for a close frame.
    pub fn closed(info: Option<CloseFrame>) -> (event: Event)
        ensures
            event@ == closed_event(option_view(info)),
    {
        match info {
            Some(c) => Event::Closed { code: Some(c.code), reason: Some(c.reason) },
            None => Event::Closed { code: None, reason: None },
        }
    }
}

} // verus!
