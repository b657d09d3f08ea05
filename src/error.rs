//! The errors that an operation of the client can end with.
use vstd::prelude::*;

verus! {

/// Declares websocket::WebSocketError (re-exported from websocket-base) so that a
/// transport failure can be carried to the caller; nothing inside it is read.
#[verifier::external_type_specification]
#[verifier::external_body]
pub struct ExWebSocketError(websocket::WebSocketError);

/// Declares serde_json::Error so that a failed reading of a frame or a value
/// can be carried to the caller; nothing inside it is read.
#[verifier::external_type_specification]
#[verifier::external_body]
pub struct ExSerdeJsonError(serde_json::Error);

/// Declares std::io::Error so that an I/O failure below the transport can be
/// carried to the caller; nothing inside it is read.
#[verifier::external_type_specification]
#[verifier::external_body]
pub struct ExIoError(std::io::Error);

/// Why an operation of the client failed.
#[derive(Debug)]
pub enum VISClientError {
    /// The transport failed while the operation was under way.
    WebSocketError(websocket::WebSocketError),
    /// A frame that the operation was waiting for did not have the expected
    /// shape, or its value could not be read as the caller's type.
    SerdeError(serde_json::Error),
    /// An I/O failure below the transport.
    IoError(std::io::Error),
    /// The connection closed before the operation got its answer.
    ConnectionClosed,
    /// Any other failure, such as a connection that has no request id left.
    Other,
}

impl VISClientError {
    /// Whether the error stems from the transport rather than from a payload.
    pub open spec fn spec_is_transport(&self) -> bool {
        match self {
            VISClientError::WebSocketError(_) => true,
            VISClientError::IoError(_) => true,
            VISClientError::ConnectionClosed => true,
            _ => false,
        }
    }

    /// Whether the error stems from the transport rather than from a payload.
    pub fn is_transport(&self) -> (r: bool)
        ensures
            r == self.spec_is_transport(),
    {
        match self {
            VISClientError::WebSocketError(_) => true,
            VISClientError::IoError(_) => true,
            VISClientError::ConnectionClosed => true,
            _ => false,
        }
    }
}

impl From<websocket::WebSocketError> for VISClientError {
    fn from(ws_error: websocket::WebSocketError) -> (r: Self) {
        VISClientError::WebSocketError(ws_error)
    }
}

impl vstd::std_specs::convert::FromSpecImpl<websocket::WebSocketError> for VISClientError {
    open spec fn obeys_from_spec() -> bool {
        true
    }

    open spec fn from_spec(ws_error: websocket::WebSocketError) -> Self {
        VISClientError::WebSocketError(ws_error)
    }
}

impl From<serde_json::Error> for VISClientError {
    fn from(json_error: serde_json::Error) -> (r: Self) {
        VISClientError::SerdeError(json_error)
    }
}

impl vstd::std_specs::convert::FromSpecImpl<serde_json::Error> for VISClientError {
    open spec fn obeys_from_spec() -> bool {
        true
    }

    open spec fn from_spec(json_error: serde_json::Error) -> Self {
        VISClientError::SerdeError(json_error)
    }
}

impl From<std::io::Error> for VISClientError {
    fn from(io_error: std::io::Error) -> (r: Self) {
        VISClientError::IoError(io_error)
    }
}

impl vstd::std_specs::convert::FromSpecImpl<std::io::Error> for VISClientError {
    open spec fn obeys_from_spec() -> bool {
        true
    }

    open spec fn from_spec(io_error: std::io::Error) -> Self {
        VISClientError::IoError(io_error)
    }
}

} // verus!
