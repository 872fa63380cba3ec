//! The supervisor: the single owner of the current connection.
//!
//! The supervisor holds at most one connection. Connecting replaces it,
//! and tears the one before it down first; sending goes through the gateway
//! of the one that is active; disconnecting releases the slot and may be
//! repeated.
//!
//! The supervisor opens no transport. Connecting is two calls with the
//! opening between them: [`ConnectionSupervisor::prepare_connect`] tears the
//! prior connection down and checks the address,
//! [`ConnectionSupervisor::complete_connect`] takes what the opening gave.
//! The caller keeps the supervisor to itself from the first call to the
//! second, so that nobody sees a connection that is half made.
//!
//! Each connection has a serial, and each pump knows the serial of the
//! connection it reads from. A pump whose connection is no longer the active
//! one still decodes and publishes what it reads, up to the close of its
//! stream, but it touches nothing that belongs to a later connection. Events
//! carry no serial of their own: a caller that must tell a late event of an
//! earlier connection from one of the active connection asks
//! [`ConnectionSupervisor::serves`] about the pump that produced it.

use vstd::prelude::*;
use crate::auth::authentication_outcome;
use crate::client::connection_failed;
use crate::client::transport_view;
use crate::client::ClientView;
use crate::client::WebSocketClient;
use crate::decode::decode;
use crate::decode::meaning;
use crate::decode::Inbound;
use crate::decode::Decoded;
use crate::decode::DecodedView;
use crate::endpoint::parse_endpoint;
use crate::error::ConnectError;
use crate::error::ConnectErrorView;
use crate::error::SendError;
use crate::error::SendErrorView;
use crate::error::WsError;
use crate::error::WsErrorView;
use crate::external::json_string;
use crate::external::url_parse;
use crate::frame::Frame;
use crate::frame::FrameView;
use crate::frame::OutboundRequest;
use crate::frame::OutboundRequestView;
use crate::pump::step;
use crate::pump::InboundPump;
use crate::pump::PumpState;
use crate::pump::PumpView;
use crate::pump::Reaction;
use crate::pump::Step;
use crate::values::result_view;

verus! {

/// The owner of the current connection. `S` is the write half of the
/// transport.
#[derive(Debug)]
pub struct ConnectionSupervisor<S> {
    slot: Option<WebSocketClient<S>>,
    serial: u64,
}

/// Mathematical value of a [`ConnectionSupervisor`].
pub struct SupervisorView<S> {
    /// The active connection, if there is one.
    pub active: Option<ClientView<S>>,
    /// The serial of the active connection, or of the last one there was.
    pub serial: u64,
}

impl<S> View for ConnectionSupervisor<S> {
    type V = SupervisorView<S>;

    closed spec fn view(&self) -> SupervisorView<S> {
        SupervisorView {
            active: match self.slot {
                Some(client) => Some(client@),
                None => None,
            },
            serial: self.serial,
        }
    }
}

/// The serial after `serial`. It differs from `serial`.
pub open spec fn next_serial(serial: u64) -> u64 {
    if serial == u64::MAX {
        0
    } else {
        (serial + 1) as u64
    }
}

/// What the first half of connecting gives.
#[derive(Debug, PartialEq, Eq)]
pub struct Opening<S> {
    /// The write half of the prior connection, for the caller to close
    /// before it opens the transport.
    pub displaced: Option<S>,
    /// The endpoint to open, or the reason why the address is refused.
    pub endpoint: Result<String, ConnectError>,
}

/// What the second half of connecting gives.
#[derive(Debug, PartialEq, Eq)]
pub struct Established<S> {
    /// The pump of the new connection, running, for the caller to drive.
    pub pump: InboundPump,
    /// The authentication frame, for the caller to write once the pump is
    /// started. A new connection always has one. The type leaves room for an
    /// error of the encoder; the caller reports it and keeps the connection.
    pub authentication: Result<Frame, WsError>,
    /// The write half of a connection that was still active, for the caller
    /// to close. There is none after `prepare_connect`.
    pub displaced: Option<S>,
}

/// What disconnecting found.
#[derive(Debug, PartialEq, Eq)]
pub enum Teardown<S> {
    /// There was no connection: nothing to disconnect.
    Nothing,
    /// The connection was torn down. The write half, if it was still held,
    /// is for the caller to close.
    Disconnected(Option<S>),
}

/// The endpoint for an address that parsed as `parsed`.
pub open spec fn checked_address(parsed: Result<Seq<char>, Seq<char>>) -> Result<
    Seq<char>,
    ConnectErrorView,
> {
    match parsed {
        Ok(s) => Ok(s),
        Err(m) => Err(ConnectErrorView::MalformedAddress(m)),
    }
}

/// The authentication frame for a credential that quoted as `quoted`.
pub open spec fn authentication(quoted: Result<Seq<char>, Seq<char>>) -> Result<
    FrameView,
    WsErrorView,
> {
    match authentication_outcome(quoted) {
        Ok(text) => Ok(FrameView::Text(text)),
        Err(e) => Err(e),
    }
}

/// What the caller of a write is told.
pub open spec fn write_report(outcome: Result<(), Seq<char>>) -> Result<(), SendErrorView> {
    match outcome {
        Ok(()) => Ok(()),
        Err(d) => Err(SendErrorView::Transport(d)),
    }
}

impl<S> SupervisorView<S> {
    /// A supervisor that never held a connection.
    pub open spec fn empty() -> Self {
        SupervisorView { active: None, serial: 0 }
    }

    /// The write half that a teardown hands out.
    pub open spec fn held(self) -> Option<S> {
        match self.active {
            Some(client) => client.sink,
            None => None,
        }
    }

    /// What disconnecting finds.
    pub open spec fn teardown(self) -> Teardown<S> {
        match self.active {
            Some(client) => Teardown::Disconnected(client.sink),
            None => Teardown::Nothing,
        }
    }

    /// The supervisor with its slot released.
    pub open spec fn vacated(self) -> Self {
        SupervisorView { active: None, serial: self.serial }
    }

    /// The supervisor with a new connection on `sink` in its slot.
    pub open spec fn occupied(self, sink: S) -> Self {
        SupervisorView {
            active: Some(ClientView::fresh(sink)),
            serial: next_serial(self.serial),
        }
    }

    /// The supervisor after the opening of a transport ended as `transport`.
    pub open spec fn after_opening(self, transport: Result<S, Seq<char>>) -> Self {
        match transport {
            Ok(sink) => self.occupied(sink),
            Err(_) => self,
        }
    }

    /// The supervisor after a send was decided.
    pub open spec fn after_send(self) -> Self {
        match self.active {
            Some(client) => SupervisorView {
                active: Some(client.after_send()),
                serial: self.serial,
            },
            None => self,
        }
    }

    /// What a send of `request` gives.
    pub open spec fn send_outcome(self, request: OutboundRequestView) -> Result<
        FrameView,
        SendErrorView,
    > {
        match self.active {
            Some(client) => if client.can_send() {
                Ok(request.frame())
            } else {
                Err(SendErrorView::NotConnected)
            },
            None => Err(SendErrorView::NotConnected),
        }
    }

    /// The supervisor after a write ended as `outcome`.
    pub open spec fn after_write(self, outcome: Result<(), Seq<char>>) -> Self {
        match self.active {
            Some(client) => SupervisorView {
                active: Some(client.after_write(outcome)),
                serial: self.serial,
            },
            None => self,
        }
    }

    /// Whether `pump` reads from the active connection.
    pub open spec fn serves(self, pump: PumpView) -> bool {
        self.active is Some && pump.connection == self.serial
    }

    /// The client that `pump` acts on: the active one if the pump reads from
    /// it, and otherwise what is left of a connection after its teardown.
    pub open spec fn client_of(self, pump: PumpView) -> ClientView<S> {
        if self.serves(pump) {
            self.active->0
        } else {
            ClientView::detached()
        }
    }

    /// The supervisor after `pump` left the client it acts on as `client`.
    pub open spec fn with_client_of(self, pump: PumpView, client: ClientView<S>) -> Self {
        if self.serves(pump) {
            SupervisorView { active: Some(client), serial: self.serial }
        } else {
            self
        }
    }

    /// The step that `pump` takes on `decoded`, on the client it acts on.
    pub open spec fn pump_step(self, pump: PumpView, decoded: DecodedView) -> Step<S> {
        step(pump.state, self.client_of(pump), decoded)
    }

    /// The supervisor after `pump` took a step on `decoded`.
    pub open spec fn after_pump_step(self, pump: PumpView, decoded: DecodedView) -> Self {
        self.with_client_of(pump, self.pump_step(pump, decoded).client)
    }

    /// The supervisor after `pump` left its loop.
    pub open spec fn after_pump_finished(self, pump: PumpView) -> Self {
        self.with_client_of(pump, self.client_of(pump).released())
    }
}

impl<S> ConnectionSupervisor<S> {
    /// A supervisor with no connection.
    pub fn new() -> (supervisor: Self)
        ensures
            supervisor@ == SupervisorView::<S>::empty(),
    {
        ConnectionSupervisor { slot: None, serial: 0 }
    }

    /// Whether there is an active connection.
    pub fn is_active(&self) -> (active: bool)
        ensures
            active == self@.active is Some,
    {
        self.slot.is_some()
    }

    /// The serial of the active connection, or of the last one there was.
    pub fn serial(&self) -> (serial: u64)
        ensures
            serial == self@.serial,
    {
        self.serial
    }

    /// Whether `pump` reads from the active connection.
    pub fn serves(&self, pump: &InboundPump) -> (current: bool)
        ensures
            current == self@.serves(pump@),
    {
        self.slot.is_some() && pump.connection() == self.serial
    }

    /// The write half of the active connection, for the caller to write a
    /// frame through. The supervisor keeps it: after the borrow the
    /// connection holds whatever the caller left there, and nothing else has
    /// changed.
    pub fn write_half(&mut self) -> (sink: Option<&mut S>)
        ensures
            match old(self)@.held() {
                Some(s) => sink matches Some(borrowed) && *borrowed == s && final(self)@ == (
                SupervisorView::<S> {
                    active: Some(
                        ClientView {
                            sink: Some(*final(borrowed)),
                            connected: old(self)@.active->0.connected,
                        },
                    ),
                    serial: old(self)@.serial,
                }),
                None => sink is None && final(self)@ == old(self)@,
            },
    {
        match self.slot.as_mut() {
            Some(client) => client.sink_mut(),
            None => None,
        }
    }

    /// The first half of connecting. Tears the prior connection down, if
    /// there is one: its flag is lowered, its write half is handed out for
    /// closing, and the slot is released. Then checks the address. The
    /// teardown happens whether or not the address is accepted.
    pub fn prepare_connect(&mut self, url: &str) -> (opening: Opening<S>)
        ensures
            final(self)@ == old(self)@.vacated(),
            opening.displaced == old(self)@.held(),
            result_view(opening.endpoint) == checked_address(url_parse(url@)),
    {
        let displaced = match self.slot.take() {
            Some(mut prior) => prior.disconnect(),
            None => None,
        };
        let endpoint = match parse_endpoint(url) {
            Ok(s) => Ok(s),
            Err(e) => Err(ConnectError::from_client(e)),
        };
        Opening { displaced, endpoint }
    }

    /// The second half of connecting. `transport` tells how the opening
    /// ended: with the write half, or with the transport's description of
    /// the failure.
    ///
    /// After a failure nothing has changed. After a success the slot holds
    /// the new connection, connected, under the next serial; the result
    /// carries its pump and the authentication frame for `token`. A
    /// connection that was still in the slot is torn down and its write half
    /// handed out.
    pub fn complete_connect(&mut self, transport: Result<S, String>, token: &str) -> (outcome:
        Result<Established<S>, ConnectError>)
        ensures
            final(self)@ == old(self)@.after_opening(transport_view(transport)),
            match transport {
                Ok(_) => outcome matches Ok(established) && established.pump@ == (PumpView {
                    connection: next_serial(old(self)@.serial),
                    state: PumpState::Running,
                }) && established.authentication is Ok && result_view(
                    established.authentication,
                ) == authentication(json_string(token@)) && established.displaced == old(
                    self,
                )@.held(),
                Err(d) => outcome matches Err(e) && e@ == ConnectErrorView::Unreachable(
                    connection_failed(d@),
                ),
            },
    {
        match WebSocketClient::new(transport) {
            Ok(mut client) => {
                let displaced = match self.slot.take() {
                    Some(mut prior) => prior.disconnect(),
                    None => None,
                };
                let serial: u64 = if self.serial == u64::MAX {
                    0
                } else {
                    self.serial + 1
                };
                let authentication = client.authenticate(token);
                self.serial = serial;
                self.slot = Some(client);
                Ok(Established { pump: InboundPump::new(serial), authentication, displaced })
            },
            Err(e) => Err(ConnectError::from_client(e)),
        }
    }

    /// Sends through the gateway of the active connection: hands back the
    /// frame to write, or refuses with [`SendError::NotConnected`] when
    /// there is no connection or the one there is cannot send.
    pub fn send_request(&mut self, request: OutboundRequest) -> (outcome: Result<Frame, SendError>)
        ensures
            final(self)@ == old(self)@.after_send(),
            result_view(outcome) == old(self)@.send_outcome(request@),
    {
        match self.slot.take() {
            Some(mut client) => {
                let sent = client.send(request);
                self.slot = Some(client);
                match sent {
                    Ok(frame) => Ok(frame),
                    Err(_) => Err(SendError::NotConnected),
                }
            },
            None => Err(SendError::NotConnected),
        }
    }

    /// Sends the text `message`. See [`ConnectionSupervisor::send_request`].
    pub fn send(&mut self, message: &str) -> (outcome: Result<Frame, SendError>)
        ensures
            final(self)@ == old(self)@.after_send(),
            result_view(outcome) == old(self)@.send_outcome(OutboundRequestView::Text(message@)),
    {
        self.send_request(OutboundRequest::Text(message.to_owned()))
    }

    /// Records how the write of a frame ended. A failure lowers the flag of
    /// the active connection and comes back as [`SendError::Transport`].
    pub fn write_finished(&mut self, outcome: Result<(), String>) -> (done: Result<(), SendError>)
        ensures
            final(self)@ == old(self)@.after_write(result_view(outcome)),
            result_view(done) == write_report(result_view(outcome)),
    {
        match outcome {
            Ok(()) => {
                assert(old(self)@.after_write(result_view(outcome)) == old(self)@);
                Ok(())
            },
            Err(d) => {
                match self.slot.take() {
                    Some(mut client) => {
                        client.mark_closed();
                        self.slot = Some(client);
                    },
                    None => {},
                }
                Err(SendError::Transport(d))
            },
        }
    }

    /// Disconnects. With no connection there is nothing to do, and the
    /// result says so. Otherwise the connection's flag is lowered, its write
    /// half is handed out for closing, and the slot is released.
    pub fn disconnect(&mut self) -> (teardown: Teardown<S>)
        ensures
            final(self)@ == old(self)@.vacated(),
            teardown == old(self)@.teardown(),
    {
        match self.slot.take() {
            Some(mut client) => Teardown::Disconnected(client.disconnect()),
            None => Teardown::Nothing,
        }
    }

    /// Lets `pump` take one step on a decoded input, on the client it acts
    /// on.
    pub fn react(&mut self, pump: &mut InboundPump, decoded: Decoded) -> (reaction: Reaction)
        ensures
            final(self)@ == old(self)@.after_pump_step(old(pump)@, decoded@),
            final(pump)@ == old(pump)@.moved(old(self)@.pump_step(old(pump)@, decoded@).state),
            reaction@ == old(self)@.pump_step(old(pump)@, decoded@).reaction,
    {
        if self.serves(pump) {
            match self.slot.take() {
                Some(mut client) => {
                    let reaction = pump.react(&mut client, decoded);
                    self.slot = Some(client);
                    reaction
                },
                None => Reaction::Ignore,
            }
        } else {
            let mut client: WebSocketClient<S> = WebSocketClient::detached();
            pump.react(&mut client, decoded)
        }
    }

    /// Lets `pump` take one step on what its read half yielded: decodes it
    /// and reacts, on the client the pump acts on.
    pub fn inbound(&mut self, pump: &mut InboundPump, input: Inbound) -> (reaction: Reaction)
        ensures
            final(self)@ == old(self)@.after_pump_step(old(pump)@, meaning(input@)),
            final(pump)@ == old(pump)@.moved(
                old(self)@.pump_step(old(pump)@, meaning(input@)).state,
            ),
            reaction@ == old(self)@.pump_step(old(pump)@, meaning(input@)).reaction,
    {
        self.react(pump, decode(input))
    }

    /// Lets `pump` leave its loop: the pump stops for good, and the write
    /// half of the client it acts on is released and handed out.
    pub fn pump_finished(&mut self, pump: &mut InboundPump) -> (sink: Option<S>)
        ensures
            final(pump)@ == old(pump)@.moved(PumpState::Stopped),
            final(self)@ == old(self)@.after_pump_finished(old(pump)@),
            sink == old(self)@.client_of(old(pump)@).sink,
    {
        if self.serves(pump) {
            match self.slot.take() {
                Some(mut client) => {
                    let sink = pump.finish(&mut client);
                    self.slot = Some(client);
                    sink
                },
                None => None,
            }
        } else {
            let mut client: WebSocketClient<S> = WebSocketClient::detached();
            pump.finish(&mut client)
        }
    }
}

} // verus!
