//! Values that FCP messages carry.

pub mod message_type_identifier;
pub mod fields;
pub mod field_values;
pub mod message;
pub mod connection_identifier;
pub mod fcp_version;
pub mod persistence;
pub mod return_type;
pub mod upload_type;
pub mod uri;
pub mod verbosity;
pub mod priority_class;
pub mod unique_identifier;
pub mod content_type;
pub mod message_identifier;
