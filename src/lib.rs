//! Guest-side translation logic for issuing gRPC calls from a WebAssembly
//! component through the host's outgoing HTTP handler.
//!
//! The library decides everything that does not touch the host: where a
//! request is sent, how its method and scheme are named on the host side,
//! which headers are forwarded, and what each read of the response stream
//! means for the response body.
mod text;
pub mod conversion;
pub mod headers;
pub mod uri;
pub mod body;
pub mod request;
