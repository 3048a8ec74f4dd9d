//! A request to fetch the data under a URI.

use vstd::prelude::*;

use crate::fcp::model::fields::{field_views, optional_field, push_field, Field, Fields};
use crate::fcp::model::message::{FCPEncodable, Message, MessageView};
use crate::fcp::model::message_type_identifier::{ClientMessageType, MessageType};
use crate::fcp::model::persistence::Persistence;
use crate::fcp::model::priority_class::PriorityClass;
use crate::fcp::model::return_type::ReturnType;
use crate::fcp::model::unique_identifier::UniqueIdentifier;
use crate::fcp::model::uri::URI;
use crate::fcp::model::verbosity::Verbosity;
use crate::text::{
    bool_string, bool_text, decimal, decimal_string, owned, signed_decimal,
    signed_decimal_string,
};

verus! {

/// Asks the node to fetch the data under `uri`.
pub struct ClientGetMessage {
    pub identifier: UniqueIdentifier,
    pub uri: URI,
    pub verbosity: Verbosity,
    pub return_type: ReturnType,
    pub max_size: Option<usize>,
    pub max_temp_size: Option<usize>,
    pub max_retries: i32,
    pub priority: PriorityClass,
    pub persistence: Persistence,
    /// Always fetches from the network.
    pub ignore_data_store: bool,
    /// Only looks in the local data store.
    pub data_store_only: bool,
    pub real_time: bool,
}

/// The decimal text of a size, where there is one.
pub open spec fn size_text(size: Option<usize>) -> Option<Seq<char>> {
    match size {
        Some(n) => Some(decimal(n as nat)),
        None => None,
    }
}

/// The path a return type names, where it names one.
pub open spec fn return_path(r: ReturnType) -> Option<Seq<char>> {
    match r {
        ReturnType::Disk { path } => Some(path@),
        _ => None,
    }
}

impl ClientGetMessage {
    /// The fields every request carries, in order.
    pub open spec fn spec_base_fields(&self) -> Seq<(Seq<char>, Seq<char>)> {
        seq![
            ("Identifier"@, self.identifier.spec_text()),
            ("uri"@, self.uri@),
            ("Verbosity"@, decimal(self.verbosity.spec_bitmask())),
            ("ReturnType"@, self.return_type.spec_text()),
            ("MaxRetries"@, signed_decimal(self.max_retries as int)),
            ("Priority"@, decimal(self.priority.spec_code())),
            ("Persistence"@, self.persistence.spec_text()),
            ("IgnoreDS"@, bool_text(self.ignore_data_store)),
            ("DSonly"@, bool_text(self.data_store_only)),
            ("RealTimeFlag"@, bool_text(self.real_time)),
        ]
    }
}

/// Appends `key=size` where there is a size.
fn push_size(fields: &mut Vec<Field>, key: &str, size: Option<usize>)
    ensures
        field_views(final(fields)@) == field_views(old(fields)@) + optional_field(
            key@,
            size_text(size),
        ),
{
    match size {
        Some(n) => push_field(fields, key, decimal_string(n as u64)),
        None => {},
    }
    assert(field_views(fields@) =~= field_views(old(fields)@) + optional_field(key@, size_text(size)));
}

impl FCPEncodable for ClientGetMessage {
    /// The base fields, then `Filename` for a return to disk, then `MaxSize` and
    /// `MaxTempSize` where they are set.
    open spec fn spec_message(&self) -> MessageView {
        MessageView {
            message_type: MessageType::Client(ClientMessageType::ClientGet),
            fields: self.spec_base_fields() + optional_field(
                "Filename"@,
                return_path(self.return_type),
            ) + optional_field("MaxSize"@, size_text(self.max_size)) + optional_field(
                "MaxTempSize"@,
                size_text(self.max_temp_size),
            ),
            payload: None,
        }
    }

    fn to_message(self) -> (res: Message) {
        let mut fields: Vec<Field> = Vec::new();
        push_field(&mut fields, "Identifier", self.identifier.to_text());
        push_field(&mut fields, "uri", self.uri.to_text());
        push_field(&mut fields, "Verbosity", self.verbosity.text());
        push_field(&mut fields, "ReturnType", owned(self.return_type.as_str()));
        push_field(&mut fields, "MaxRetries", signed_decimal_string(self.max_retries));
        push_field(&mut fields, "Priority", self.priority.text());
        push_field(&mut fields, "Persistence", owned(self.persistence.as_str()));
        push_field(&mut fields, "IgnoreDS", bool_string(self.ignore_data_store));
        push_field(&mut fields, "DSonly", bool_string(self.data_store_only));
        push_field(&mut fields, "RealTimeFlag", bool_string(self.real_time));
        assert(field_views(fields@) =~= self.spec_base_fields());
        let ghost base = field_views(fields@);
        match &self.return_type {
            ReturnType::Disk { path } => push_field(&mut fields, "Filename", path.clone()),
            _ => {},
        }
        assert(field_views(fields@) =~= base + optional_field(
            "Filename"@,
            return_path(self.return_type),
        ));
        push_size(&mut fields, "MaxSize", self.max_size);
        push_size(&mut fields, "MaxTempSize", self.max_temp_size);
        let res = Message::new(
            MessageType::Client(ClientMessageType::ClientGet),
            Fields::from_vec(fields),
            None,
        );
        assert(res@.fields =~= self.spec_message().fields);
        res
    }
}

} // verus!
