//! What holds of a session over time.
//!
//! A session is a client and the pump that serves it. Its history is a
//! sequence of operations, each applied to what the one before it left. The
//! operations stand for calls of this library: a pass through the gateway
//! (`send` and, when the frame went out, `write_finished`), a step of the
//! pump, the pump leaving its loop, and a disconnect. Each call takes the
//! session by exclusive reference, so a history has one order, and the laws
//! below hold of every history.
//!
//! The last laws are about the supervisor, which holds the session that is
//! active and replaces it by the next.

use vstd::prelude::*;
use crate::client::ClientView;
use crate::decode::meaning;
use crate::decode::DecodedView;
use crate::decode::InboundView;
use crate::error::SendErrorView;
use crate::error::WsErrorView;
use crate::event::closed_event;
use crate::event::EventView;
use crate::external::json_document;
use crate::frame::CloseFrameView;
use crate::frame::FrameView;
use crate::frame::OutboundRequestView;
use crate::pump::step;
use crate::pump::PumpState;
use crate::pump::PumpView;
use crate::pump::ReactionView;
use crate::supervisor::SupervisorView;
use crate::supervisor::Teardown;

verus! {

/// A client and the pump that serves it.
pub struct Session<S> {
    pub client: ClientView<S>,
    pub pump: PumpState,
}

/// One operation on a session.
pub enum Operation {
    /// A pass through the gateway: a send of `request` and, if its frame was
    /// handed out, the end of the write as `written`.
    Send { request: OutboundRequestView, written: Result<(), Seq<char>> },
    /// A step of the pump on what it read.
    Read(DecodedView),
    /// The pump leaves its loop.
    Finish,
    /// A disconnect.
    Disconnect,
}

/// What an operation lets the outside see: the event it publishes and the
/// frame it has written, if any.
pub struct Effect {
    pub published: Option<EventView>,
    pub written: Option<FrameView>,
}

/// The effect of an operation that publishes nothing and writes nothing.
pub open spec fn silent() -> Effect {
    Effect { published: None, written: None }
}

/// A session after an operation, and what the operation let the outside see.
pub struct Outcome<S> {
    pub session: Session<S>,
    pub effect: Effect,
}

/// Applies one operation to a session.
pub open spec fn apply<S>(session: Session<S>, operation: Operation) -> Outcome<S> {
    match operation {
        Operation::Send { request, written } => if session.client.can_send() {
            Outcome {
                session: Session {
                    client: session.client.after_send().after_write(written),
                    pump: session.pump,
                },
                effect: Effect { published: None, written: Some(request.frame()) },
            }
        } else {
            Outcome {
                session: Session { client: session.client.after_send(), pump: session.pump },
                effect: silent(),
            }
        },
        Operation::Read(decoded) => {
            let taken = step(session.pump, session.client, decoded);
            Outcome {
                session: Session { client: taken.client, pump: taken.state },
                effect: Effect {
                    published: taken.reaction.published(),
                    written: taken.reaction.written(),
                },
            }
        },
        Operation::Finish => Outcome {
            session: Session { client: session.client.released(), pump: PumpState::Stopped },
            effect: silent(),
        },
        Operation::Disconnect => Outcome {
            session: Session { client: ClientView::detached(), pump: session.pump },
            effect: silent(),
        },
    }
}

/// The session as the `i`-th operation of a history finds it.
pub open spec fn before<S>(start: Session<S>, history: Seq<Operation>, i: nat) -> Session<S>
    decreases i,
{
    if i == 0 {
        start
    } else {
        apply(before(start, history, (i - 1) as nat), history[i - 1]).session
    }
}

/// What the `i`-th operation of a history lets the outside see.
pub open spec fn effect_at<S>(start: Session<S>, history: Seq<Operation>, i: nat) -> Effect {
    apply(before(start, history, i), history[i as int]).effect
}

/// Whether nothing can be sent and the pump reads no more: the session is
/// over.
pub open spec fn over<S>(session: Session<S>) -> bool {
    !session.client.connected && session.pump != PumpState::Running
}

/// The history that sends `requests` one after another, every write
/// succeeding.
pub open spec fn sends(requests: Seq<OutboundRequestView>) -> Seq<Operation> {
    Seq::new(
        requests.len(),
        |i: int| Operation::Send { request: requests[i], written: Ok::<(), Seq<char>>(()) },
    )
}

/// The history that reads pings with the given payloads one after another.
pub open spec fn pings(payloads: Seq<Seq<u8>>) -> Seq<Operation> {
    Seq::new(payloads.len(), |i: int| Operation::Read(DecodedView::Ping(payloads[i])))
}

/// The event that reading `decoded` publishes, if the pump is running.
pub open spec fn event_of(decoded: DecodedView) -> Option<EventView> {
    match decoded {
        DecodedView::Message(v) => Some(EventView::Message(v)),
        DecodedView::RawMessage(t) => Some(EventView::RawMessage(t)),
        DecodedView::Binary(b) => Some(EventView::Binary(b)),
        DecodedView::Close(c) => Some(closed_event(c)),
        DecodedView::Failure(d) => Some(EventView::Error(d)),
        DecodedView::Ping(_) => None,
        DecodedView::Pong => None,
        DecodedView::End => None,
    }
}

/// The flag only ever falls: no operation raises it.
pub proof fn flag_only_falls<S>(session: Session<S>, operation: Operation)
    requires
        !session.client.connected,
    ensures
        !apply(session, operation).session.client.connected,
{
}

/// A pump that has left the running state never returns to it.
pub proof fn pump_never_restarts<S>(session: Session<S>, operation: Operation)
    requires
        session.pump != PumpState::Running,
    ensures
        apply(session, operation).session.pump != PumpState::Running,
{
}

/// A write half that was taken does not come back: it is taken at most
/// once.
pub proof fn write_half_is_taken_once<S>(session: Session<S>, operation: Operation)
    requires
        session.client.sink is None,
    ensures
        apply(session, operation).session.client.sink is None,
{
}

/// Every frame that reaches the write half is one whole frame of the very
/// operation that is being applied: the payload of a send, unchanged, or
/// the pong that echoes a ping. Since the operations of a history are
/// applied one after another, the frames reach the write half whole and in
/// the order of the operations.
pub proof fn frames_go_out_whole_and_in_order<S>(
    start: Session<S>,
    history: Seq<Operation>,
    i: nat,
)
    requires
        i < history.len(),
    ensures
        match effect_at(start, history, i).written {
            Some(frame) => match history[i as int] {
                Operation::Send { request, written } => frame == request.frame(),
                Operation::Read(DecodedView::Ping(data)) => frame == FrameView::Pong(data),
                _ => false,
            },
            None => true,
        },
{
}

/// A running pump publishes a text payload as it decodes: as a `message`
/// that carries the very document the text decodes to, if it is one JSON
/// document, and as a `raw-message` that carries the text unmodified if it
/// is not. The pump and the client are left as they were.
pub proof fn text_is_published_as_it_decodes<S>(client: ClientView<S>, text: Seq<char>)
    ensures
        ({
            let taken = step(
                PumpState::Running,
                client,
                meaning(InboundView::Frame(FrameView::Text(text))),
            );
            &&& taken.state == PumpState::Running
            &&& taken.client == client
            &&& taken.reaction == (match json_document(text) {
                Some(document) => ReactionView::Publish(EventView::Message(document)),
                None => ReactionView::Publish(EventView::RawMessage(text)),
            })
        }),
{
}

/// Every event that is published is the event of the very input that is
/// being read, and a running pump publishes the event of each input that has
/// one. Since the operations of a history are applied one after another,
/// events are published in the order in which the frames were read.
pub proof fn events_follow_the_frames<S>(start: Session<S>, history: Seq<Operation>, i: nat)
    requires
        i < history.len(),
    ensures
        match effect_at(start, history, i).published {
            Some(event) => history[i as int] matches Operation::Read(decoded) && event_of(
                decoded,
            ) == Some(event),
            None => true,
        },
        before(start, history, i).pump == PumpState::Running ==> (
        history[i as int] matches Operation::Read(decoded) ==> effect_at(
            start,
            history,
            i,
        ).published == event_of(decoded)),
{
}

/// Once the flag is down, every send is refused at once, whatever else
/// happens in between: the flag stays down, and no send of the history has
/// a frame handed out.
pub proof fn lowered_flag_refuses_every_send<S>(
    start: Session<S>,
    history: Seq<Operation>,
    i: nat,
)
    requires
        !start.client.connected,
        i < history.len(),
    ensures
        !before(start, history, i).client.connected,
        history[i as int] is Send ==> effect_at(start, history, i) == silent(),
    decreases i,
{
    if i > 0 {
        lowered_flag_refuses_every_send(start, history, (i - 1) as nat);
    }
}

/// A failed write ends the sending: the pass through the gateway whose
/// write fails lowers the flag.
pub proof fn failed_write_lowers_the_flag<S>(
    session: Session<S>,
    request: OutboundRequestView,
    description: Seq<char>,
)
    requires
        session.client.can_send(),
    ensures
        !apply(
            session,
            Operation::Send { request, written: Err::<(), Seq<char>>(description) },
        ).session.client.connected,
{
}

/// While every write succeeds, every send of a run of sends goes out: a
/// session that can send hands out the frame of each request, in their
/// order, and is left as it was.
pub proof fn sends_all_go_out<S>(start: Session<S>, requests: Seq<OutboundRequestView>, i: nat)
    requires
        start.client.can_send(),
        i < requests.len(),
    ensures
        before(start, sends(requests), i) == start,
        effect_at(start, sends(requests), i) == (Effect {
            published: None,
            written: Some(requests[i as int].frame()),
        }),
    decreases i,
{
    if i > 0 {
        sends_all_go_out(start, requests, (i - 1) as nat);
    }
}

/// A session that is over stays over, and is silent: whatever is applied to
/// it, nothing is published and nothing is written.
pub proof fn silence_after_the_end<S>(start: Session<S>, history: Seq<Operation>, i: nat)
    requires
        over(start),
        i < history.len(),
    ensures
        over(before(start, history, i)),
        effect_at(start, history, i) == silent(),
    decreases i,
{
    if i > 0 {
        silence_after_the_end(start, history, (i - 1) as nat);
    }
}

/// A close frame ends the session. The running pump that reads it publishes
/// the `closed` event, with the code and reason of the frame, and stops
/// reading. From then on, whatever follows, nothing more is published,
/// nothing is written, and every send is refused as not connected.
pub proof fn close_frame_ends_session<S>(
    session: Session<S>,
    info: Option<CloseFrameView>,
    later: Seq<Operation>,
    i: nat,
    request: OutboundRequestView,
)
    requires
        session.pump == PumpState::Running,
        i < later.len(),
    ensures
        ({
            let closed = apply(session, Operation::Read(DecodedView::Close(info)));
            &&& closed.effect == (Effect { published: Some(closed_event(info)), written: None })
            &&& effect_at(closed.session, later, i) == silent()
            &&& before(closed.session, later, i).client.send_outcome(request) == Err::<
                FrameView,
                WsErrorView,
            >(WsErrorView::Connection("WebSocket is not connected"@))
        }),
{
    let closed = apply(session, Operation::Read(DecodedView::Close(info)));
    silence_after_the_end(closed.session, later, i);
}

/// Each ping is answered by exactly one pong, which echoes it. A running
/// pump whose client holds the write half has, for the `i`-th ping of any
/// run of pings, exactly the pong of that ping written, publishes nothing,
/// and is left as it was.
pub proof fn one_pong_per_ping<S>(start: Session<S>, payloads: Seq<Seq<u8>>, i: nat)
    requires
        start.pump == PumpState::Running,
        start.client.sink is Some,
        i < payloads.len(),
    ensures
        before(start, pings(payloads), i) == start,
        effect_at(start, pings(payloads), i) == (Effect {
            published: None,
            written: Some(FrameView::Pong(payloads[i as int])),
        }),
    decreases i,
{
    if i > 0 {
        one_pong_per_ping(start, payloads, (i - 1) as nat);
    }
}

/// Disconnecting twice is disconnecting once. The first call leaves the
/// client detached; the second finds it so, changes nothing, and has
/// nothing to hand out.
pub proof fn disconnect_is_idempotent<S>(session: Session<S>)
    ensures
        ({
            let once = apply(session, Operation::Disconnect).session;
            let twice = apply(once, Operation::Disconnect).session;
            &&& twice == once
            &&& once.client == ClientView::<S>::detached()
        }),
{
}

/// Disconnecting the supervisor twice is disconnecting it once. The first
/// call releases the slot; the second finds nothing to disconnect and
/// changes nothing.
pub proof fn supervisor_disconnect_is_idempotent<S>(supervisor: SupervisorView<S>)
    ensures
        supervisor.vacated().vacated() == supervisor.vacated(),
        supervisor.vacated().teardown() == Teardown::<S>::Nothing,
{
}

/// Without a connection every send is refused as not connected, and
/// nothing changes: before the first connect, and after a disconnect.
pub proof fn no_connection_refuses_sends<S>(
    supervisor: SupervisorView<S>,
    request: OutboundRequestView,
)
    ensures
        SupervisorView::<S>::empty().send_outcome(request) == Err::<FrameView, SendErrorView>(
            SendErrorView::NotConnected,
        ),
        supervisor.vacated().send_outcome(request) == Err::<FrameView, SendErrorView>(
            SendErrorView::NotConnected,
        ),
        supervisor.vacated().after_send() == supervisor.vacated(),
{
}

/// Once the pump of the active connection has read a close frame, the
/// supervisor refuses every send as not connected.
pub proof fn supervisor_refuses_after_close<S>(
    supervisor: SupervisorView<S>,
    pump: PumpView,
    info: Option<CloseFrameView>,
    request: OutboundRequestView,
)
    requires
        supervisor.serves(pump),
        pump.state == PumpState::Running,
    ensures
        supervisor.after_pump_step(pump, DecodedView::Close(info)).send_outcome(request) == Err::<
            FrameView,
            SendErrorView,
        >(SendErrorView::NotConnected),
        supervisor.after_pump_step(pump, DecodedView::Close(info)).after_send()
            == supervisor.after_pump_step(pump, DecodedView::Close(info)),
{
}

/// A pump that does not read from the active connection is inert: whatever
/// it reads, and when it leaves its loop, the supervisor stays as it is, and
/// the pump gets nothing written.
pub proof fn stale_pump_is_inert<S>(
    supervisor: SupervisorView<S>,
    pump: PumpView,
    decoded: DecodedView,
)
    requires
        !supervisor.serves(pump),
    ensures
        supervisor.after_pump_step(pump, decoded) == supervisor,
        supervisor.after_pump_finished(pump) == supervisor,
        supervisor.pump_step(pump, decoded).reaction.written() is None,
{
}

/// Connecting tears the prior connection down first. After the first half
/// of connecting there is no connection, and the pump of the prior one acts
/// on a detached client. After the second half the new connection is active
/// under a new serial, its own pump serves it, and the pump of the prior
/// one does not: whatever that pump still reads leaves the supervisor as it
/// is and gets nothing written.
pub proof fn connect_tears_down_first<S>(
    supervisor: SupervisorView<S>,
    prior: PumpView,
    sink: S,
    decoded: DecodedView,
)
    requires
        supervisor.serves(prior),
    ensures
        ({
            let torn = supervisor.vacated();
            let made = torn.occupied(sink);
            let fresh = PumpView { connection: made.serial, state: PumpState::Running };
            &&& torn.active is None
            &&& torn.client_of(prior) == ClientView::<S>::detached()
            &&& made.serial != supervisor.serial
            &&& made.serves(fresh)
            &&& made.client_of(fresh) == ClientView::fresh(sink)
            &&& !made.serves(prior)
            &&& made.after_pump_step(prior, decoded) == made
            &&& made.after_pump_finished(prior) == made
            &&& made.pump_step(prior, decoded).reaction.written() is None
        }),
{
}

} // verus!
