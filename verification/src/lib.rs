//! A persistent-connection client core without I/O of its own.
//!
//! The crate holds the decisions of a single full-duplex socket session:
//! whether a send may go out, what an inbound frame means, when the session
//! ends, and how a supervisor replaces one connection by the next. The caller
//! owns the transport, performs each write and read, and reports the outcome.
//!
//! - [`frame`], [`event`], [`error`]: what travels, what is published, what
//!   goes wrong.
//! - [`auth`], [`endpoint`], [`decode`]: the authentication frame, the
//!   address check, and the meaning of inbound payloads.
//! - [`client`]: one connection and the outbound gateway.
//! - [`pump`]: the inbound state machine.
//! - [`supervisor`]: the owner of the current connection.
//! - [`laws`]: what holds of a session over time.
//! - [`external`]: what is taken from outside crates, unproved.
//! - [`values`]: mathematical values of optional and fallible results.

pub mod values;
pub mod external;
pub mod frame;
pub mod event;
pub mod error;
pub mod auth;
pub mod endpoint;
pub mod decode;
pub mod client;
pub mod pump;
pub mod supervisor;
pub mod laws;

pub use crate::client::WebSocketClient;
pub use crate::error::ConnectError;
pub use crate::error::SendError;
pub use crate::error::WsError;
pub use crate::event::Event;
pub use crate::frame::Frame;
pub use crate::pump::InboundPump;
pub use crate::pump::Reaction;
pub use crate::supervisor::ConnectionSupervisor;
