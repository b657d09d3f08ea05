//! Client-side correlation for a vehicle-signal query and subscription protocol.
//!
//! The transport (a websocket) and the rendering of envelopes as JSON text
//! live outside this library. What is here is the message model with its
//! wire envelope, the request id generator, and the correlators that turn
//! one interleaved stream of inbound frames into the results of individual
//! logical operations.

pub mod ids;
pub mod message;
pub mod error;
pub mod inbound;
pub mod single;
pub mod subscribe;
pub mod demux;
