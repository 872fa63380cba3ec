//! Error types of the client, the outbound gateway and the supervisor.

use vstd::prelude::*;
use vstd::string::StringExecFns;

verus! {

/// What can go wrong inside one connection.
#[derive(Debug, PartialEq, Eq)]
pub enum WsError {
    /// The transport reported a failure; the text is its description.
    Tungstenite(String),
    /// The address is not a well-formed URL; the text says why.
    Url(String),
    /// The connection is not usable, or could not be opened.
    Connection(String),
    /// A frame could not be encoded.
    Serialization(String),
}

/// Mathematical value of a [`WsError`].
pub enum WsErrorView {
    Tungstenite(Seq<char>),
    Url(Seq<char>),
    Connection(Seq<char>),
    Serialization(Seq<char>),
}

impl View for WsError {
    type V = WsErrorView;

    open spec fn view(&self) -> WsErrorView {
        match *self {
            WsError::Tungstenite(d) => WsErrorView::Tungstenite(d@),
            WsError::Url(d) => WsErrorView::Url(d@),
            WsError::Connection(d) => WsErrorView::Connection(d@),
            WsError::Serialization(d) => WsErrorView::Serialization(d@),
        }
    }
}

impl WsErrorView {
    /// The text a user is shown for this error.
    pub open spec fn message(self) -> Seq<char> {
        match self {
            WsErrorView::Tungstenite(d) => "WebSocket error: "@ + d,
            WsErrorView::Url(d) => "URL error: "@ + d,
            WsErrorView::Connection(d) => "Connection error: "@ + d,
            WsErrorView::Serialization(d) => "Serialization error: "@ + d,
        }
    }
}

/// `prefix` followed by `detail`.
pub fn prefixed(prefix: &str, detail: &str) -> (text: String)
    ensures
        text@ == prefix@ + detail@,
{
    let mut text = String::from_str(prefix);
    text.append(detail);
    text
}

impl WsError {
    /// The text a user is shown for this error.
    pub fn message(&self) -> (text: String)
        ensures
            text@ == self@.message(),
    {
        match self {
            WsError::Tungstenite(d) => prefixed("WebSocket error: ", d.as_str()),
            WsError::Url(d) => prefixed("URL error: ", d.as_str()),
            WsError::Connection(d) => prefixed("Connection error: ", d.as_str()),
            WsError::Serialization(d) => prefixed("Serialization error: ", d.as_str()),
        }
    }
}

/// Why a send did not go out.
#[derive(Debug, PartialEq, Eq)]
pub enum SendError {
    /// No connection is active, or the active one is no longer usable.
    NotConnected,
    /// The transport failed while writing; the text is its description.
    Transport(String),
}

/// Mathematical value of a [`SendError`].
pub enum SendErrorView {
    NotConnected,
    Transport(Seq<char>),
}

impl View for SendError {
    type V = SendErrorView;

    open spec fn view(&self) -> SendErrorView {
        match *self {
            SendError::NotConnected => SendErrorView::NotConnected,
            SendError::Transport(d) => SendErrorView::Transport(d@),
        }
    }
}

impl SendErrorView {
    /// The text a user is shown for this error.
    pub open spec fn message(self) -> Seq<char> {
        match self {
            SendErrorView::NotConnected => "Connection error: WebSocket is not connected"@,
            SendErrorView::Transport(d) => "WebSocket error: "@ + d,
        }
    }
}

impl SendError {
    /// The text a user is shown for this error.
    pub fn message(&self) -> (text: String)
        ensures
            text@ == self@.message(),
    {
        match self {
            SendError::NotConnected => String::from_str(
                "Connection error: WebSocket is not connected",
            ),
            SendError::Transport(d) => prefixed("WebSocket error: ", d.as_str()),
        }
    }
}

/// Why a connection could not be established.
#[derive(Debug, PartialEq, Eq)]
pub enum ConnectError {
    /// The address is not a well-formed URL; the text says why.
    MalformedAddress(String),
    /// The transport could not be opened; the text is its description.
    Unreachable(String),
}

/// Mathematical value of a [`ConnectError`].
pub enum ConnectErrorView {
    MalformedAddress(Seq<char>),
    Unreachable(Seq<char>),
}

impl View for ConnectError {
    type V = ConnectErrorView;

    open spec fn view(&self) -> ConnectErrorView {
        match *self {
            ConnectError::MalformedAddress(d) => ConnectErrorView::MalformedAddress(d@),
            ConnectError::Unreachable(d) => ConnectErrorView::Unreachable(d@),
        }
    }
}

impl ConnectErrorView {
    /// The reason why connecting failed, for an error of the client: a
    /// malformed address is named as such, and everything else means that the
    /// endpoint was not reached.
    pub open spec fn from_client(error: WsErrorView) -> Self {
        match error {
            WsErrorView::Url(d) => ConnectErrorView::MalformedAddress(d),
            WsErrorView::Connection(d) => ConnectErrorView::Unreachable(d),
            WsErrorView::Tungstenite(d) => ConnectErrorView::Unreachable(d),
            WsErrorView::Serialization(d) => ConnectErrorView::Unreachable(d),
        }
    }

    /// The text a user is shown for this error.
    pub open spec fn message(self) -> Seq<char> {
        match self {
            ConnectErrorView::MalformedAddress(d) => "URL error: "@ + d,
            ConnectErrorView::Unreachable(d) => "Connection error: "@ + d,
        }
    }
}

impl ConnectError {
    /// The reason why connecting failed, for an error of the client.
    pub fn from_client(error: WsError) -> (reason: ConnectError)
        ensures
            reason@ == ConnectErrorView::from_client(error@),
    {
        match error {
            WsError::Url(d) => ConnectError::MalformedAddress(d),
            WsError::Connection(d) => ConnectError::Unreachable(d),
            WsError::Tungstenite(d) => ConnectError::Unreachable(d),
            WsError::Serialization(d) => ConnectError::Unreachable(d),
        }
    }

    /// The text a user is shown for this error.
    pub fn message(&self) -> (text: String)
        ensures
            text@ == self@.message(),
    {
        match self {
            ConnectError::MalformedAddress(d) => prefixed("URL error: ", d.as_str()),
            ConnectError::Unreachable(d) => prefixed("Connection error: ", d.as_str()),
        }
    }
}

} // verus!
