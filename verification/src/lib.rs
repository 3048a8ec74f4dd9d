//! Verified core of the Mycelink messenger: the Freenet client protocol (FCP)
//! message model, its wire encoding and decoding, and the Mycelink chat data types.

pub mod fcp;
pub mod mycelink;
pub mod text;
