//! Frames: the discrete units of data exchanged over the socket.

use vstd::prelude::*;
use crate::values::option_view;

verus! {

/// The code and reason that a close frame may carry.
#[derive(Debug, PartialEq, Eq)]
pub struct CloseFrame {
    pub code: u16,
    pub reason: String,
}

/// Mathematical value of a [`CloseFrame`].
pub struct CloseFrameView {
    pub code: u16,
    pub reason: Seq<char>,
}

impl View for CloseFrame {
    type V = CloseFrameView;

    open spec fn view(&self) -> CloseFrameView {
        CloseFrameView { code: self.code, reason: self.reason@ }
    }
}

/// One frame, as it travels in either direction.
#[derive(Debug, PartialEq, Eq)]
pub enum Frame {
    /// Application data that is text.
    Text(String),
    /// Application data that is raw bytes.
    Binary(Vec<u8>),
    /// Keepalive probe; the payload is echoed by the matching pong.
    Ping(Vec<u8>),
    /// Keepalive acknowledgment.
    Pong(Vec<u8>),
    /// End of the session, with the code and reason if the peer gave them.
    Close(Option<CloseFrame>),
}

/// Mathematical value of a [`Frame`].
pub enum FrameView {
    Text(Seq<char>),
    Binary(Seq<u8>),
    Ping(Seq<u8>),
    Pong(Seq<u8>),
    Close(Option<CloseFrameView>),
}

impl View for Frame {
    type V = FrameView;

    open spec fn view(&self) -> FrameView {
        match *self {
            Frame::Text(t) => FrameView::Text(t@),
            Frame::Binary(b) => FrameView::Binary(b@),
            Frame::Ping(d) => FrameView::Ping(d@),
            Frame::Pong(d) => FrameView::Pong(d@),
            Frame::Close(c) => FrameView::Close(option_view(c)),
        }
    }
}

/// What a caller submits for sending: a text or a binary payload. It has no
/// identity beyond its content, and no response is matched to it.
#[derive(Debug, PartialEq, Eq)]
pub enum OutboundRequest {
    Text(String),
    Binary(Vec<u8>),
}

/// Mathematical value of an [`OutboundRequest`].
pub enum OutboundRequestView {
    Text(Seq<char>),
    Binary(Seq<u8>),
}

impl View for OutboundRequest {
    type V = OutboundRequestView;

    open spec fn view(&self) -> OutboundRequestView {
        match *self {
            OutboundRequest::Text(t) => OutboundRequestView::Text(t@),
            OutboundRequest::Binary(b) => OutboundRequestView::Binary(b@),
        }
    }
}

impl OutboundRequestView {
    /// The frame that carries the payload: of the same kind, with the
    /// payload whole and unchanged.
    pub open spec fn frame(self) -> FrameView {
        match self {
            OutboundRequestView::Text(t) => FrameView::Text(t),
            OutboundRequestView::Binary(b) => FrameView::Binary(b),
        }
    }
}

impl OutboundRequest {
    /// The frame that carries the payload.
    pub fn into_frame(self) -> (frame: Frame)
        ensures
            frame@ == self@.frame(),
    {
        match self {
            OutboundRequest::Text(t) => Frame::Text(t),
            OutboundRequest::Binary(b) => Frame::Binary(b),
        }
    }
}

} // verus!
