//! A request to insert data under a URI.

use vstd::prelude::*;

use crate::fcp::model::content_type::ContentType;
use crate::fcp::model::fields::{data_length_key, data_length_lit, field_views, optional_field, push_field, Field, Fields};
use crate::fcp::model::message::{FCPEncodable, Message, MessagePayload, MessageView, PayloadView};
use crate::fcp::model::message_type_identifier::{ClientMessageType, MessageType};
use crate::fcp::model::persistence::Persistence;
use crate::fcp::model::priority_class::PriorityClass;
use crate::fcp::model::unique_identifier::UniqueIdentifier;
use crate::fcp::model::upload_type::UploadType;
use crate::fcp::model::uri::URI;
use crate::fcp::model::verbosity::Verbosity;
use crate::text::{
    bool_string, bool_text, copy_bytes, decimal, owned, signed_decimal, signed_decimal_string,
};

verus! {

/// Asks the node to insert data under `uri`.
pub struct ClientPutMessage {
    pub uri: URI,
    pub content_type: Option<ContentType>,
    pub identifier: UniqueIdentifier,
    pub verbosity: Verbosity,
    pub max_retries: i32,
    pub priority: PriorityClass,
    pub get_only_chk: bool,
    pub dont_compress: bool,
    pub persistence: Persistence,
    pub target_filename: Option<String>,
    pub upload_from: UploadType,
    pub is_binary_blob: bool,
    pub real_time: bool,
}

/// The text of an optional value that has a text view.
pub open spec fn content_type_text(c: Option<ContentType>) -> Option<Seq<char>> {
    match c {
        Some(t) => Some(t@),
        None => None,
    }
}

/// The text of an optional file name.
pub open spec fn optional_text(s: Option<String>) -> Option<Seq<char>> {
    match s {
        Some(t) => Some(t@),
        None => None,
    }
}

/// The path an upload reads from, where it reads from disk.
pub open spec fn upload_path(u: UploadType) -> Option<Seq<char>> {
    match u {
        UploadType::Disk { path } => Some(path@),
        _ => None,
    }
}

/// The URI an upload redirects to, where it is a redirect.
pub open spec fn upload_target(u: UploadType) -> Option<Seq<char>> {
    match u {
        UploadType::Redirect { target } => Some(target@),
        _ => None,
    }
}

/// The payload of an upload: its data, announced by `DataLength`, where it is direct.
pub open spec fn upload_payload(u: UploadType) -> Option<PayloadView> {
    match u {
        UploadType::Direct { data } => Some(
            PayloadView { data: data@, data_len_identifier: data_length_key() },
        ),
        _ => None,
    }
}

impl ClientPutMessage {
    /// The fields every insert carries, in order.
    pub open spec fn spec_base_fields(&self) -> Seq<(Seq<char>, Seq<char>)> {
        seq![
            ("Identifier"@, self.identifier.spec_text()),
            ("URI"@, self.uri@),
            ("Verbosity"@, decimal(self.verbosity.spec_bitmask())),
            ("MaxRetries"@, signed_decimal(self.max_retries as int)),
            ("PriorityClass"@, decimal(self.priority.spec_code())),
            ("GetCHKOnly"@, bool_text(self.get_only_chk)),
            ("DontCompress"@, bool_text(self.dont_compress)),
            ("Persistence"@, self.persistence.spec_text()),
            ("UploadFrom"@, self.upload_from.spec_text()),
            ("BinaryBlob"@, bool_text(self.is_binary_blob)),
            ("RealTimeFlag"@, bool_text(self.real_time)),
        ]
    }

    /// The fields that are present only for some inserts, in order.
    pub open spec fn spec_optional_fields(&self) -> Seq<(Seq<char>, Seq<char>)> {
        optional_field("Metadata.ContentType"@, content_type_text(self.content_type))
            + optional_field("TargetFilename"@, optional_text(self.target_filename))
            + optional_field("Filename"@, upload_path(self.upload_from))
            + optional_field("TargetURI"@, upload_target(self.upload_from))
    }
}

impl FCPEncodable for ClientPutMessage {
    /// The base fields, then the optional ones; a direct upload carries its data.
    open spec fn spec_message(&self) -> MessageView {
        MessageView {
            message_type: MessageType::Client(ClientMessageType::ClientPut),
            fields: self.spec_base_fields() + self.spec_optional_fields(),
            payload: upload_payload(self.upload_from),
        }
    }

    fn to_message(self) -> (res: Message) {
        let mut fields: Vec<Field> = Vec::new();
        push_field(&mut fields, "Identifier", self.identifier.to_text());
        push_field(&mut fields, "URI", self.uri.to_text());
        push_field(&mut fields, "Verbosity", self.verbosity.text());
        push_field(&mut fields, "MaxRetries", signed_decimal_string(self.max_retries));
        push_field(&mut fields, "PriorityClass", self.priority.text());
        push_field(&mut fields, "GetCHKOnly", bool_string(self.get_only_chk));
        push_field(&mut fields, "DontCompress", bool_string(self.dont_compress));
        push_field(&mut fields, "Persistence", owned(self.persistence.as_str()));
        push_field(&mut fields, "UploadFrom", owned(self.upload_from.as_str()));
        push_field(&mut fields, "BinaryBlob", bool_string(self.is_binary_blob));
        push_field(&mut fields, "RealTimeFlag", bool_string(self.real_time));
        assert(field_views(fields@) =~= self.spec_base_fields());
        let ghost f0 = field_views(fields@);
        match &self.content_type {
            Some(t) => push_field(&mut fields, "Metadata.ContentType", t.to_text()),
            None => {},
        }
        let ghost f1 = field_views(fields@);
        assert(f1 =~= f0 + optional_field(
            "Metadata.ContentType"@,
            content_type_text(self.content_type),
        ));
        match &self.target_filename {
            Some(name) => push_field(&mut fields, "TargetFilename", name.clone()),
            None => {},
        }
        let ghost f2 = field_views(fields@);
        assert(f2 =~= f1 + optional_field("TargetFilename"@, optional_text(self.target_filename)));
        match &self.upload_from {
            UploadType::Disk { path } => push_field(&mut fields, "Filename", path.clone()),
            _ => {},
        }
        let ghost f3 = field_views(fields@);
        assert(f3 =~= f2 + optional_field("Filename"@, upload_path(self.upload_from)));
        match &self.upload_from {
            UploadType::Redirect { target } => push_field(&mut fields, "TargetURI", target.to_text()),
            _ => {},
        }
        assert(field_views(fields@) =~= f3 + optional_field(
            "TargetURI"@,
            upload_target(self.upload_from),
        ));
        assert(field_views(fields@) =~= self.spec_base_fields() + self.spec_optional_fields());
        let payload = match &self.upload_from {
            UploadType::Direct { data } => Some(
                MessagePayload { data: copy_bytes(data), data_len_identifier: owned(data_length_lit()) },
            ),
            _ => None,
        };
        let res = Message::new(
            MessageType::Client(ClientMessageType::ClientPut),
            Fields::from_vec(fields),
            payload,
        );
        assert(res@.fields =~= self.spec_message().fields);
        res
    }
}

} // verus!
