//! The address of the remote endpoint.
//!
//! An address is checked by `url::Url::parse` before any transport is
//! opened. The transport is then opened on the address as that parser wrote
//! it back.

use vstd::prelude::*;
use crate::error::WsError;
use crate::error::WsErrorView;
use crate::external::parse_url;
use crate::external::url_parse;
use crate::values::result_view;

verus! {

/// What [`parse_endpoint`] gives for each outcome of parsing the address.
pub open spec fn endpoint_outcome(parsed: Result<Seq<char>, Seq<char>>) -> Result<
    Seq<char>,
    WsErrorView,
> {
    match parsed {
        Ok(s) => Ok(s),
        Err(m) => Err(WsErrorView::Url(m)),
    }
}

/// The endpoint for an address whose parsing came out as `parsed`: the
/// address to open, or the error that names it malformed.
pub fn endpoint_from(parsed: Result<String, String>) -> (outcome: Result<String, WsError>)
    ensures
        result_view(outcome) == endpoint_outcome(result_view(parsed)),
{
    match parsed {
        Ok(s) => Ok(s),
        Err(m) => Err(WsError::Url(m)),
    }
}

/// Checks that `url` is a well-formed address and gives the endpoint to
/// open. A malformed address is rejected with [`WsError::Url`].
pub fn parse_endpoint(url: &str) -> (outcome: Result<String, WsError>)
    ensures
        result_view(outcome) == endpoint_outcome(url_parse(url@)),
{
    endpoint_from(parse_url(url))
}

} // verus!
