//! What the transport and the text codec hand to the correlators.
use vstd::prelude::*;
use crate::error::VISClientError;
use crate::message::Response;

verus! {

/// One event on the inbound side of a connection, in arrival order.
///
/// `V` is what a response's value has been read as; the single-shot and
/// subscription correlators take `Result<T, serde_json::Error>`, the value
/// read as the caller's type or the reason it could not be.
#[derive(Debug)]
pub enum Inbound<V> {
    /// A text frame that decoded into a response.
    Response(Response<V>),
    /// A text frame that is not a well-formed response.
    Malformed(serde_json::Error),
    /// A binary or control frame: it carries no protocol payload.
    NonText,
    /// The transport failed.
    TransportFailed(websocket::WebSocketError),
    /// The connection closed.
    Closed,
}

/// What a streaming correlator does with one inbound event.
#[derive(Debug)]
pub enum StreamStep<I> {
    /// The event belongs to no item of this stream.
    Skip,
    /// The event yields the next item.
    Item(I),
    /// The stream ends with this error; no later event is read.
    Fail(VISClientError),
}

/// How a finite run of a streaming correlator came to a stop.
#[derive(Debug)]
pub enum Ending {
    /// The events ran out while the stream was still open.
    Open,
    /// The stream ended with this error.
    Failed(VISClientError),
}

/// The error that a transport failure surfaces as.
pub open spec fn transport_error(e: websocket::WebSocketError) -> VISClientError {
    VISClientError::WebSocketError(e)
}

/// A value read as the caller's type, or the error that reading it gave.
pub open spec fn value_outcome<T>(value: Result<T, serde_json::Error>) -> Result<T, VISClientError> {
    match value {
        Ok(t) => Ok(t),
        Err(e) => Err(VISClientError::SerdeError(e)),
    }
}

/// Turns the reading of a value into the operation's result.
pub fn into_outcome<T>(value: Result<T, serde_json::Error>) -> (r: Result<T, VISClientError>)
    ensures
        r == value_outcome(value),
{
    match value {
        Ok(t) => Ok(t),
        Err(e) => Err(VISClientError::SerdeError(e)),
    }
}

} // verus!
