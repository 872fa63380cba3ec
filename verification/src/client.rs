//! One connection: the write half and the flag that says whether the
//! session is usable, with the outbound gateway in front of them.
//!
//! The client never writes. [`WebSocketClient::send`] decides whether a
//! frame may go out and hands it back; the caller writes it through the write
//! half and reports how the write ended with
//! [`WebSocketClient::write_finished`]. Every method takes the client by
//! exclusive reference, so two sends cannot interleave: each one is decided,
//! and its frame handed out whole, before the next begins. No method waits
//! for anything.
//!
//! The flag only ever falls. It is raised when the client is made and
//! lowered by the first failure, by a close frame, or by a disconnect.

use vstd::prelude::*;
use crate::auth::authentication_frame;
use crate::auth::authentication_outcome;
use crate::error::prefixed;
use crate::error::WsError;
use crate::error::WsErrorView;
use crate::external::json_string;
use crate::frame::Frame;
use crate::frame::FrameView;
use crate::frame::OutboundRequest;
use crate::frame::OutboundRequestView;
use crate::values::result_view;

verus! {

/// One live or formerly live session. `S` is the write half of the
/// transport; the client owns it until it is taken for teardown.
#[derive(Debug)]
pub struct WebSocketClient<S> {
    sink: Option<S>,
    is_connected: bool,
}

/// Mathematical value of a [`WebSocketClient`].
pub struct ClientView<S> {
    /// The write half, while the client holds it.
    pub sink: Option<S>,
    /// Whether the session is usable for sending.
    pub connected: bool,
}

impl<S> View for WebSocketClient<S> {
    type V = ClientView<S>;

    closed spec fn view(&self) -> ClientView<S> {
        ClientView { sink: self.sink, connected: self.is_connected }
    }
}

impl<S> ClientView<S> {
    /// A client that holds the write half `sink` and is connected.
    pub open spec fn fresh(sink: S) -> Self {
        ClientView { sink: Some(sink), connected: true }
    }

    /// A client that holds nothing and is not connected.
    pub open spec fn detached() -> Self {
        ClientView { sink: None, connected: false }
    }

    /// Whether a send is accepted.
    pub open spec fn can_send(self) -> bool {
        self.connected && self.sink is Some
    }

    /// This client with the flag lowered.
    pub open spec fn lowered(self) -> Self {
        ClientView { sink: self.sink, connected: false }
    }

    /// This client without its write half.
    pub open spec fn released(self) -> Self {
        ClientView { sink: None, connected: self.connected }
    }

    /// The client after a send was decided. Only a send that finds the
    /// flag up and the write half gone changes anything: it lowers the flag.
    pub open spec fn after_send(self) -> Self {
        if self.connected && self.sink is None {
            self.lowered()
        } else {
            self
        }
    }

    /// What a send of `request` gives: the frame that carries its payload,
    /// or the reason why nothing goes out.
    pub open spec fn send_outcome(self, request: OutboundRequestView) -> Result<
        FrameView,
        WsErrorView,
    > {
        if !self.connected {
            Err(WsErrorView::Connection("WebSocket is not connected"@))
        } else if self.sink is None {
            Err(WsErrorView::Connection("WebSocket sink is not available"@))
        } else {
            Ok(request.frame())
        }
    }

    /// The client after a write ended as `outcome`: a failure lowers the
    /// flag.
    pub open spec fn after_write(self, outcome: Result<(), Seq<char>>) -> Self {
        match outcome {
            Ok(()) => self,
            Err(_) => self.lowered(),
        }
    }
}

/// What the caller of a write is told: nothing on success, the transport's
/// error on failure.
pub open spec fn write_outcome(outcome: Result<(), Seq<char>>) -> Result<(), WsErrorView> {
    match outcome {
        Ok(()) => Ok(()),
        Err(d) => Err(WsErrorView::Tungstenite(d)),
    }
}

/// The text for a transport that could not be opened, around the
/// transport's own description.
pub open spec fn connection_failed(description: Seq<char>) -> Seq<char> {
    "Connection failed: "@ + description
}

/// What opening a transport gave: the write half, or the description of the
/// failure.
pub open spec fn transport_view<S>(transport: Result<S, String>) -> Result<S, Seq<char>> {
    match transport {
        Ok(sink) => Ok(sink),
        Err(d) => Err(d@),
    }
}

impl<S> WebSocketClient<S> {
    /// The client for a transport that was opened, or the error for one that
    /// was not. `transport` is the write half on success and the transport's
    /// description of the failure otherwise. A new client is connected and
    /// holds the write half.
    pub fn new(transport: Result<S, String>) -> (outcome: Result<Self, WsError>)
        ensures
            match transport {
                Ok(sink) => outcome matches Ok(client) && client@ == ClientView::fresh(sink),
                Err(d) => outcome matches Err(e) && e@ == WsErrorView::Connection(
                    connection_failed(d@),
                ),
            },
    {
        match transport {
            Ok(sink) => Ok(WebSocketClient { sink: Some(sink), is_connected: true }),
            Err(d) => Err(WsError::Connection(prefixed("Connection failed: ", d.as_str()))),
        }
    }

    /// A client that holds nothing and is not connected: what is left of a
    /// connection after its teardown.
    pub fn detached() -> (client: Self)
        ensures
            client@ == ClientView::<S>::detached(),
    {
        WebSocketClient { sink: None, is_connected: false }
    }

    /// Whether the session is usable for sending.
    pub fn is_connected(&self) -> (connected: bool)
        ensures
            connected == self@.connected,
    {
        self.is_connected
    }

    /// Whether the client holds the write half.
    pub fn has_sink(&self) -> (held: bool)
        ensures
            held == self@.sink is Some,
    {
        self.sink.is_some()
    }

    /// The write half, for the caller to write a frame through. The client
    /// keeps it: after the borrow the client holds whatever the caller left
    /// there, and the flag is as before.
    pub fn sink_mut(&mut self) -> (sink: Option<&mut S>)
        ensures
            match old(self)@.sink {
                Some(s) => sink matches Some(borrowed) && *borrowed == s && final(self)@ == (
                ClientView::<S> { sink: Some(*final(borrowed)), connected: old(self)@.connected }),
                None => sink is None && final(self)@ == old(self)@,
            },
    {
        self.sink.as_mut()
    }

    /// The outbound gateway. Decides whether `request` may go out and, if
    /// so, hands back the frame to write: the payload whole, with nothing
    /// added. A client whose flag is down refuses at once. A client whose
    /// flag is up but whose write half is gone refuses and lowers the flag.
    pub fn send(&mut self, request: OutboundRequest) -> (outcome: Result<Frame, WsError>)
        ensures
            final(self)@ == old(self)@.after_send(),
            result_view(outcome) == old(self)@.send_outcome(request@),
    {
        if !self.is_connected {
            return Err(WsError::Connection("WebSocket is not connected".to_owned()));
        }
        if self.sink.is_none() {
            self.is_connected = false;
            return Err(WsError::Connection("WebSocket sink is not available".to_owned()));
        }
        Ok(request.into_frame())
    }

    /// Passes the text `message` through the gateway. See
    /// [`WebSocketClient::send`].
    pub fn send_message(&mut self, message: &str) -> (outcome: Result<Frame, WsError>)
        ensures
            final(self)@ == old(self)@.after_send(),
            result_view(outcome) == old(self)@.send_outcome(OutboundRequestView::Text(message@)),
    {
        self.send(OutboundRequest::Text(message.to_owned()))
    }

    /// Records how the write of a frame ended. A failure lowers the flag, so
    /// that later sends are refused at once, and comes back as
    /// [`WsError::Tungstenite`] with the transport's description.
    pub fn write_finished(&mut self, outcome: Result<(), String>) -> (done: Result<(), WsError>)
        ensures
            final(self)@ == old(self)@.after_write(result_view(outcome)),
            result_view(done) == write_outcome(result_view(outcome)),
    {
        match outcome {
            Ok(()) => Ok(()),
            Err(d) => {
                self.is_connected = false;
                Err(WsError::Tungstenite(d))
            },
        }
    }

    /// The authenticator: the frame that presents `token`, passed through the
    /// gateway like any other send: it is handed out exactly when a send is
    /// accepted. The caller writes it once and need not treat a failure as
    /// the end of the connection.
    pub fn authenticate(&mut self, token: &str) -> (outcome: Result<Frame, WsError>)
        ensures
            outcome is Ok <==> old(self)@.can_send(),
            match authentication_outcome(json_string(token@)) {
                Ok(text) => final(self)@ == old(self)@.after_send() && result_view(outcome) == old(
                    self,
                )@.send_outcome(OutboundRequestView::Text(text)),
                Err(e) => final(self)@ == old(self)@ && result_view(outcome) == Err::<
                    FrameView,
                    WsErrorView,
                >(e),
            },
    {
        match authentication_frame(token) {
            Ok(text) => self.send(OutboundRequest::Text(text)),
            Err(e) => Err(e),
        }
    }

    /// Lowers the flag and leaves the write half where it is.
    pub fn mark_closed(&mut self)
        ensures
            final(self)@ == old(self)@.lowered(),
    {
        self.is_connected = false;
    }

    /// Takes the write half out and leaves the flag as it is. This is what
    /// the inbound pump does on its way out.
    pub fn release(&mut self) -> (sink: Option<S>)
        ensures
            sink == old(self)@.sink,
            final(self)@ == old(self)@.released(),
    {
        self.sink.take()
    }

    /// Tears the connection down: lowers the flag and takes the write half
    /// out, for the caller to close. A second call finds nothing to take and
    /// changes nothing.
    pub fn disconnect(&mut self) -> (sink: Option<S>)
        ensures
            sink == old(self)@.sink,
            final(self)@ == ClientView::<S>::detached(),
    {
        self.is_connected = false;
        self.sink.take()
    }
}

} // verus!
