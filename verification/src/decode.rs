//! Decoding of inbound frames: what each one means to the pump.
//!
//! A text payload is decoded as JSON. If it decodes, the pump publishes the
//! decoded document as a `message`; if not, it publishes the text unmodified
//! as a `raw-message`. A binary payload that is valid UTF-8 is text and goes
//! the same way. A binary payload that is not text is published unmodified
//! as `binary`; it is never dropped.

use vstd::prelude::*;
use vstd::utf8::decode_utf8;
use vstd::utf8::encode_utf8_decode_utf8;
use vstd::utf8::valid_utf8;
use crate::external::decode_json;
use crate::external::json_document;
use crate::external::utf8_text;
use crate::frame::CloseFrame;
use crate::frame::CloseFrameView;
use crate::frame::Frame;
use crate::frame::FrameView;
use crate::values::option_view;

verus! {

/// What the read half yielded.
#[derive(Debug, PartialEq, Eq)]
pub enum Inbound {
    /// The next frame.
    Frame(Frame),
    /// The transport failed; the text is its description.
    Failure(String),
    /// The stream ended without a close frame.
    End,
}

/// Mathematical value of an [`Inbound`].
pub enum InboundView {
    Frame(FrameView),
    Failure(Seq<char>),
    End,
}

impl View for Inbound {
    type V = InboundView;

    open spec fn view(&self) -> InboundView {
        match *self {
            Inbound::Frame(f) => InboundView::Frame(f@),
            Inbound::Failure(d) => InboundView::Failure(d@),
            Inbound::End => InboundView::End,
        }
    }
}

/// What the read half yielded, with payloads decoded.
#[derive(Debug, PartialEq, Eq)]
pub enum Decoded {
    /// A payload that decoded as JSON.
    Message(serde_json::Value),
    /// A text payload that did not decode.
    RawMessage(String),
    /// A binary payload that is not text.
    Binary(Vec<u8>),
    /// A keepalive probe.
    Ping(Vec<u8>),
    /// A keepalive acknowledgment.
    Pong,
    /// A close frame.
    Close(Option<CloseFrame>),
    /// The transport failed.
    Failure(String),
    /// The stream ended without a close frame.
    End,
}

/// Mathematical value of an [`Decoded`].
pub enum DecodedView {
    Message(serde_json::Value),
    RawMessage(Seq<char>),
    Binary(Seq<u8>),
    Ping(Seq<u8>),
    Pong,
    Close(Option<CloseFrameView>),
    Failure(Seq<char>),
    End,
}

impl View for Decoded {
    type V = DecodedView;

    open spec fn view(&self) -> DecodedView {
        match *self {
            Decoded::Message(v) => DecodedView::Message(v),
            Decoded::RawMessage(t) => DecodedView::RawMessage(t@),
            Decoded::Binary(b) => DecodedView::Binary(b@),
            Decoded::Ping(d) => DecodedView::Ping(d@),
            Decoded::Pong => DecodedView::Pong,
            Decoded::Close(c) => DecodedView::Close(option_view(c)),
            Decoded::Failure(d) => DecodedView::Failure(d@),
            Decoded::End => DecodedView::End,
        }
    }
}

/// The meaning of the text payload `text`: the document that it decodes
/// to, if it is one JSON document, and the text itself if it is not.
pub open spec fn text_meaning(text: Seq<char>) -> DecodedView {
    match json_document(text) {
        Some(v) => DecodedView::Message(v),
        None => DecodedView::RawMessage(text),
    }
}

/// The meaning of the binary payload `data`: that of the text it encodes,
/// if it is valid UTF-8, and the bytes themselves if it is not.
pub open spec fn binary_meaning(data: Seq<u8>) -> DecodedView {
    if valid_utf8(data) {
        text_meaning(decode_utf8(data))
    } else {
        DecodedView::Binary(data)
    }
}

/// The meaning of what the read half yielded. Everything but the payload
/// of a data frame passes through as it is.
pub open spec fn meaning(input: InboundView) -> DecodedView {
    match input {
        InboundView::Frame(FrameView::Text(t)) => text_meaning(t),
        InboundView::Frame(FrameView::Binary(b)) => binary_meaning(b),
        InboundView::Frame(FrameView::Ping(d)) => DecodedView::Ping(d),
        InboundView::Frame(FrameView::Pong(_)) => DecodedView::Pong,
        InboundView::Frame(FrameView::Close(c)) => DecodedView::Close(c),
        InboundView::Failure(d) => DecodedView::Failure(d),
        InboundView::End => DecodedView::End,
    }
}

/// The meaning of a text payload for which the decoder gave `document`:
/// the document if there is one, the text unmodified if there is none.
pub fn text_decoded(text: String, document: Option<serde_json::Value>) -> (decoded: Decoded)
    ensures
        decoded@ == (match document {
            Some(v) => DecodedView::Message(v),
            None => DecodedView::RawMessage(text@),
        }),
{
    match document {
        Some(v) => Decoded::Message(v),
        None => Decoded::RawMessage(text),
    }
}

/// Decodes a text payload.
pub fn decode_text(text: String) -> (decoded: Decoded)
    ensures
        decoded@ == text_meaning(text@),
{
    let document = decode_json(text.as_str());
    text_decoded(text, document)
}

/// Decodes a binary payload.
pub fn decode_binary(data: Vec<u8>) -> (decoded: Decoded)
    ensures
        decoded@ == binary_meaning(data@),
{
    match utf8_text(data.as_slice()) {
        Ok(s) => {
            proof {
                encode_utf8_decode_utf8(s@);
            }
            decode_text(s.to_owned())
        },
        Err(_) => Decoded::Binary(data),
    }
}

/// Decodes what the read half yielded.
pub fn decode(input: Inbound) -> (decoded: Decoded)
    ensures
        decoded@ == meaning(input@),
{
    match input {
        Inbound::Frame(Frame::Text(t)) => decode_text(t),
        Inbound::Frame(Frame::Binary(b)) => decode_binary(b),
        Inbound::Frame(Frame::Ping(d)) => Decoded::Ping(d),
        Inbound::Frame(Frame::Pong(_)) => Decoded::Pong,
        Inbound::Frame(Frame::Close(c)) => Decoded::Close(c),
        Inbound::Failure(d) => Decoded::Failure(d),
        Inbound::End => Decoded::End,
    }
}

} // verus!
