//! What an HTTP exchange hands to the decision logic: a status code, and the
//! body once somebody has decoded it.

use vstd::prelude::*;

verus! {

/// The status code of a missing resource.
pub const NOT_FOUND: u16 = 404;

/// The status code with which a server asks its caller to slow down.
pub const TOO_MANY_REQUESTS: u16 = 429;

/// A status code that reports success: 200 up to 299.
pub open spec fn success_code(status: u16) -> bool {
    200 <= status <= 299
}

/// Whether a status code reports success.
pub fn is_success(status: u16) -> (success: bool)
    ensures
        success == success_code(status),
{
    200 <= status && status <= 299
}

/// The outcome of one request, as the caller that performed it reports it.
///
/// `body` is the decoded payload; it is `None` where the payload could not be
/// decoded, and it is not looked at unless `status` reports success.
#[derive(Debug)]
pub enum HttpReply<T> {
    /// No response arrived: the connection failed or timed out.
    Unreachable,
    /// The server answered.
    Answer { status: u16, body: Option<T> },
}

/// Why a call to a remote service gave no value.
#[derive(Clone, Copy, Debug, PartialEq, Eq, Structural)]
pub enum ErrorKind {
    /// The connection failed or timed out; the next attempt may well succeed.
    TransientNetwork,
    /// The server kept asking to slow down until the attempts ran out.
    RetriesExceeded,
    /// The resource is gone.
    NotFound,
    /// No usable credential could be had.
    Auth,
    /// The payload was not what the wire format promises.
    Deserialization,
    /// The server answered with this status code, which is no success.
    Status(u16),
    /// What was to be asked is no address, so nothing was sent.
    InvalidUrl,
}

/// What a reply amounts to for a caller that wants the payload.
pub open spec fn reply_outcome<T>(reply: HttpReply<T>) -> Result<T, ErrorKind> {
    match reply {
        HttpReply::Unreachable => Err(ErrorKind::TransientNetwork),
        HttpReply::Answer { status, body } => if success_code(status) {
            match body {
                Some(value) => Ok(value),
                None => Err(ErrorKind::Deserialization),
            }
        } else if status == NOT_FOUND {
            Err(ErrorKind::NotFound)
        } else {
            Err(ErrorKind::Status(status))
        },
    }
}

/// Turns a reply into the payload or the reason why there is none.
pub fn into_outcome<T>(reply: HttpReply<T>) -> (outcome: Result<T, ErrorKind>)
    ensures
        outcome == reply_outcome(reply),
{
    match reply {
        HttpReply::Unreachable => Err(ErrorKind::TransientNetwork),
        HttpReply::Answer { status, body } => {
            if is_success(status) {
                match body {
                    Some(value) => Ok(value),
                    None => Err(ErrorKind::Deserialization),
                }
            } else if status == NOT_FOUND {
                Err(ErrorKind::NotFound)
            } else {
                Err(ErrorKind::Status(status))
            }
        },
    }
}

} // verus!
