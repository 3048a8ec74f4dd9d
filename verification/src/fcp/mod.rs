//! The Freenet client protocol: message model, encoding, decoding and dispatch.

pub mod decode_error;
pub mod model;
pub mod connector;
pub mod decoder;
pub mod roundtrip;
pub mod messages;
pub mod peekable_reader;
