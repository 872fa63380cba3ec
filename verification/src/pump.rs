//! The inbound pump: the state machine that turns what the read half yields
//! into events, keepalive replies and the end of the session.
//!
//! The pump owns its own state and nothing else. The caller awaits the next
//! frame, hands it to [`InboundPump::handle`] together with the client the
//! pump serves, and carries out the reaction. When the reaction is
//! [`Reaction::Stop`], the caller publishes its event, leaves its loop and
//! calls [`InboundPump::finish`], which releases the write half.
//!
//! A pong is the only thing the pump ever asks to have written. The caller
//! writes it through the same write half, under the same exclusive access,
//! as any send, so a pong never lands inside another frame. A pong that
//! could not be written, or an event that could not be published, is the
//! caller's to report; neither ends the pump.

use vstd::prelude::*;
use crate::client::ClientView;
use crate::client::WebSocketClient;
use crate::decode::decode;
use crate::decode::meaning;
use crate::decode::Inbound;
use crate::decode::Decoded;
use crate::decode::DecodedView;
use crate::event::closed_event;
use crate::event::Event;
use crate::event::EventView;
use crate::frame::Frame;
use crate::frame::FrameView;
use crate::values::option_view;

verus! {

/// Where the pump stands.
#[derive(Debug, Clone, Copy, PartialEq, Eq, Structural)]
pub enum PumpState {
    /// Reading frames.
    Running,
    /// The session has ended; the write half is still to be released.
    Closing,
    /// Terminal. A new connection needs a new pump.
    Stopped,
}

/// What the caller is to do with what was read.
#[derive(Debug, PartialEq, Eq)]
pub enum Reaction {
    /// Publish the event and go on reading.
    Publish(Event),
    /// Write the frame through the write half and go on reading.
    Reply(Frame),
    /// Nothing to do.
    Ignore,
    /// Publish the event, if there is one, and stop reading.
    Stop(Option<Event>),
}

/// Mathematical value of a [`Reaction`].
pub enum ReactionView {
    Publish(EventView),
    Reply(FrameView),
    Ignore,
    Stop(Option<EventView>),
}

impl View for Reaction {
    type V = ReactionView;

    open spec fn view(&self) -> ReactionView {
        match *self {
            Reaction::Publish(e) => ReactionView::Publish(e@),
            Reaction::Reply(f) => ReactionView::Reply(f@),
            Reaction::Ignore => ReactionView::Ignore,
            Reaction::Stop(e) => ReactionView::Stop(option_view(e)),
        }
    }
}

impl ReactionView {
    /// The event that the reaction publishes, if any.
    pub open spec fn published(self) -> Option<EventView> {
        match self {
            ReactionView::Publish(e) => Some(e),
            ReactionView::Stop(e) => e,
            _ => None,
        }
    }

    /// The frame that the reaction has written, if any.
    pub open spec fn written(self) -> Option<FrameView> {
        match self {
            ReactionView::Reply(f) => Some(f),
            _ => None,
        }
    }
}

/// One step of the pump: where it stands afterwards, what became of the
/// client, and what the caller is to do.
pub struct Step<S> {
    pub state: PumpState,
    pub client: ClientView<S>,
    pub reaction: ReactionView,
}

/// The step that a pump in `state`, serving `client`, takes on `decoded`.
///
/// Only a running pump reacts. A payload is published. A ping is answered
/// by the pong that echoes it, as long as there is a write half to write it
/// through. A close frame or a failure lowers the client's flag, is
/// published, and ends the reading; so does the end of the stream, with
/// nothing to publish and the flag left alone.
pub open spec fn step<S>(state: PumpState, client: ClientView<S>, decoded: DecodedView) -> Step<
    S,
> {
    if state != PumpState::Running {
        Step { state, client, reaction: ReactionView::Ignore }
    } else {
        match decoded {
            DecodedView::Message(v) => Step {
                state,
                client,
                reaction: ReactionView::Publish(EventView::Message(v)),
            },
            DecodedView::RawMessage(t) => Step {
                state,
                client,
                reaction: ReactionView::Publish(EventView::RawMessage(t)),
            },
            DecodedView::Binary(b) => Step {
                state,
                client,
                reaction: ReactionView::Publish(EventView::Binary(b)),
            },
            DecodedView::Ping(d) => Step {
                state,
                client,
                reaction: if client.sink is Some {
                    ReactionView::Reply(FrameView::Pong(d))
                } else {
                    ReactionView::Ignore
                },
            },
            DecodedView::Pong => Step { state, client, reaction: ReactionView::Ignore },
            DecodedView::Close(c) => Step {
                state: PumpState::Closing,
                client: client.lowered(),
                reaction: ReactionView::Stop(Some(closed_event(c))),
            },
            DecodedView::Failure(d) => Step {
                state: PumpState::Closing,
                client: client.lowered(),
                reaction: ReactionView::Stop(Some(EventView::Error(d))),
            },
            DecodedView::End => Step {
                state: PumpState::Closing,
                client,
                reaction: ReactionView::Stop(None),
            },
        }
    }
}

/// The inbound pump of one connection.
#[derive(Debug, PartialEq, Eq)]
pub struct InboundPump {
    connection: u64,
    state: PumpState,
}

/// Mathematical value of an [`InboundPump`].
pub struct PumpView {
    /// The serial of the connection that the pump reads from.
    pub connection: u64,
    /// Where the pump stands.
    pub state: PumpState,
}

impl View for InboundPump {
    type V = PumpView;

    closed spec fn view(&self) -> PumpView {
        PumpView { connection: self.connection, state: self.state }
    }
}

impl PumpView {
    /// This pump in another state.
    pub open spec fn moved(self, state: PumpState) -> Self {
        PumpView { connection: self.connection, state }
    }
}

impl InboundPump {
    /// A running pump for the connection with serial `connection`.
    pub fn new(connection: u64) -> (pump: Self)
        ensures
            pump@ == (PumpView { connection, state: PumpState::Running }),
    {
        InboundPump { connection, state: PumpState::Running }
    }

    /// The serial of the connection that the pump reads from.
    pub fn connection(&self) -> (serial: u64)
        ensures
            serial == self@.connection,
    {
        self.connection
    }

    /// Where the pump stands.
    pub fn state(&self) -> (state: PumpState)
        ensures
            state == self@.state,
    {
        self.state
    }

    /// Takes one step on a decoded input. See [`step`].
    pub fn react<S>(&mut self, client: &mut WebSocketClient<S>, decoded: Decoded) -> (reaction:
        Reaction)
        ensures
            final(self)@ == old(self)@.moved(step(old(self)@.state, old(client)@, decoded@).state),
            final(client)@ == step(old(self)@.state, old(client)@, decoded@).client,
            reaction@ == step(old(self)@.state, old(client)@, decoded@).reaction,
    {
        match self.state {
            PumpState::Running => {},
            _ => {
                return Reaction::Ignore;
            },
        }
        match decoded {
            Decoded::Message(v) => Reaction::Publish(Event::Message(v)),
            Decoded::RawMessage(t) => Reaction::Publish(Event::RawMessage(t)),
            Decoded::Binary(b) => Reaction::Publish(Event::Binary(b)),
            Decoded::Ping(d) => {
                if client.has_sink() {
                    Reaction::Reply(Frame::Pong(d))
                } else {
                    Reaction::Ignore
                }
            },
            Decoded::Pong => Reaction::Ignore,
            Decoded::Close(c) => {
                client.mark_closed();
                self.state = PumpState::Closing;
                Reaction::Stop(Some(Event::closed(c)))
            },
            Decoded::Failure(d) => {
                client.mark_closed();
                self.state = PumpState::Closing;
                Reaction::Stop(Some(Event::Error(d)))
            },
            Decoded::End => {
                self.state = PumpState::Closing;
                Reaction::Stop(None)
            },
        }
    }

    /// Takes one step on what the read half yielded: decodes it and reacts.
    /// The step is the one that [`step`] gives for the meaning of `input`.
    pub fn handle<S>(&mut self, client: &mut WebSocketClient<S>, input: Inbound) -> (reaction:
        Reaction)
        ensures
            final(self)@ == old(self)@.moved(
                step(old(self)@.state, old(client)@, meaning(input@)).state,
            ),
            final(client)@ == step(old(self)@.state, old(client)@, meaning(input@)).client,
            reaction@ == step(old(self)@.state, old(client)@, meaning(input@)).reaction,
    {
        self.react(client, decode(input))
    }

    /// Leaves the loop, whichever way it ended: releases the write half, so
    /// that a later teardown finds none, and stops for good.
    pub fn finish<S>(&mut self, client: &mut WebSocketClient<S>) -> (sink: Option<S>)
        ensures
            final(self)@ == old(self)@.moved(PumpState::Stopped),
            final(client)@ == old(client)@.released(),
            sink == old(client)@.sink,
    {
        self.state = PumpState::Stopped;
        client.release()
    }
}

} // verus!
