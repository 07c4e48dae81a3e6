//! Streaming client core for a duplex speech transcription and translation
//! service: control messages, inbound event decoding, the per-sentence result
//! accumulator and the phase-typed session that ties them together.
//!
//! The session never touches a socket. Each operation either produces the
//! frame to put on the wire or consumes one frame that the transport handed
//! over, so every protocol decision is a total function with a contract.

pub mod accumulator;
pub mod audio;
pub mod document;
pub mod error;
pub mod event;
pub mod handshake;
pub mod protocol;
pub mod request;
pub mod round_trip;
pub mod session;
pub mod text;
