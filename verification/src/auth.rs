//! The authenticator: the one frame that presents the credential.
//!
//! The credential travels as a frame sent once after the connection is
//! established, not as part of the address. The frame is the JSON object
//! `{"type":"authenticate","data":{"token":<credential>}}`, with the
//! credential as a JSON string. No acknowledgment is awaited: what the
//! server answers arrives as an ordinary inbound message.

use vstd::prelude::*;
use vstd::string::StringExecFns;
use crate::error::WsError;
use crate::error::WsErrorView;
use crate::external::json_string;
use crate::external::quote_json;
use crate::values::result_view;

verus! {

/// The text of the authentication frame around a credential that is already
/// written as a JSON string literal.
pub open spec fn authentication_text(quoted: Seq<char>) -> Seq<char> {
    "{\"type\":\"authenticate\",\"data\":{\"token\":"@ + quoted + "}}"@
}

/// What [`authentication_frame`] gives for each outcome of quoting the
/// credential.
pub open spec fn authentication_outcome(quoted: Result<Seq<char>, Seq<char>>) -> Result<
    Seq<char>,
    WsErrorView,
> {
    match quoted {
        Ok(q) => Ok(authentication_text(q)),
        Err(m) => Err(WsErrorView::Serialization(m)),
    }
}

/// Wraps a quoted credential into the text of the authentication frame.
pub fn wrap_credential(quoted: &str) -> (text: String)
    ensures
        text@ == authentication_text(quoted@),
{
    let mut text = String::from_str("{\"type\":\"authenticate\",\"data\":{\"token\":");
    text.append(quoted);
    text.append("}}");
    text
}

/// The authentication text for a credential whose quoting came out as
/// `quoted`: the frame text around it, or the encoder's error.
pub fn authentication_from(quoted: Result<String, String>) -> (outcome: Result<String, WsError>)
    ensures
        result_view(outcome) == authentication_outcome(result_view(quoted)),
{
    match quoted {
        Ok(q) => Ok(wrap_credential(q.as_str())),
        Err(m) => Err(WsError::Serialization(m)),
    }
}

/// The text of the authentication frame for `token`. Every token has one:
/// quoting a string does not fail.
pub fn authentication_frame(token: &str) -> (outcome: Result<String, WsError>)
    ensures
        outcome is Ok,
        result_view(outcome) == authentication_outcome(json_string(token@)),
{
    authentication_from(quote_json(token))
}

} // verus!
