//! The Mycelink messenger protocol on top of FCP.

pub mod account;
pub mod channel;
pub mod chat;
pub mod channel_keys;
pub mod channel_message;
pub mod chat_message;
pub mod compressed_box;
pub mod connection_details;
pub mod contact;
pub mod keys;
