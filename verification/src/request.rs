//! What goes over the wire, as plain values: requests to send, replies that
//! came back, and the ways a request can fail.

use vstd::prelude::*;

verus! {

/// The HTTP method of a request.
#[derive(Clone, Copy, Debug, PartialEq, Eq, Structural)]
pub enum Method {
    Get,
    Delete,
}

/// A request to send: where to, and with which user and token for HTTP Basic
/// authentication. It has no body.
pub struct Request {
    pub method: Method,
    pub url: String,
    pub username: String,
    pub token: String,
}

/// Why a request failed.
#[derive(Clone, Copy, Debug, PartialEq, Eq, Structural)]
pub enum RequestError {
    /// No response arrived: name resolution, TLS, a timeout.
    Transport,
    /// The server answered with this status, which is not a success.
    Status(u16),
    /// The response body was not the JSON that was asked for.
    Deserialization,
}

/// What came back for one request.
#[derive(Clone, Copy, Debug, PartialEq, Eq, Structural)]
pub enum Reply {
    /// A response with this status code.
    Status(u16),
    /// No response at all.
    Transport,
}

/// Whether a status code is a success, 200 to 299.
pub open spec fn is_success(status: u16) -> bool {
    200 <= status < 300
}

/// Whether a status code is a server error, 500 to 599.
pub open spec fn is_server_error(status: u16) -> bool {
    500 <= status < 600
}

/// Whether a status code is a success.
pub fn status_is_success(status: u16) -> (yes: bool)
    ensures
        yes == is_success(status),
{
    200 <= status && status < 300
}

/// Whether a status code is a server error.
pub fn status_is_server_error(status: u16) -> (yes: bool)
    ensures
        yes == is_server_error(status),
{
    500 <= status && status < 600
}

/// The outcome of a request that is not tried again: a success status is the
/// only good one.
pub open spec fn checked(reply: Reply) -> Result<(), RequestError> {
    match reply {
        Reply::Transport => Err(RequestError::Transport),
        Reply::Status(status) => if is_success(status) {
            Ok(())
        } else {
            Err(RequestError::Status(status))
        },
    }
}

/// Turns a reply into the outcome of a request that is not tried again.
pub fn check(reply: Reply) -> (outcome: Result<(), RequestError>)
    ensures
        outcome == checked(reply),
{
    match reply {
        Reply::Transport => Err(RequestError::Transport),
        Reply::Status(status) => if status_is_success(status) {
            Ok(())
        } else {
            Err(RequestError::Status(status))
        },
    }
}

} // verus!
