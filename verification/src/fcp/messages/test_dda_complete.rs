//! The end of a test of direct disk access.

use vstd::prelude::*;

use crate::fcp::decode_error::{unexpected_type, DecodeError, DecodeErrorView};
use crate::fcp::model::field_values::read_text;
use crate::fcp::model::fields::field_value;
use crate::fcp::model::message::{Message, MessageView};
use crate::fcp::model::message_type_identifier::{MessageType, NodeMessageType};

verus! {

/// The node finished testing access to `directory`, through the two named files; the
/// path is kept as its text.
pub struct TestDDACompleteMessage {
    pub directory: String,
    pub read_filename: String,
    pub write_filename: String,
}

/// The mathematical value of a [`TestDDACompleteMessage`].
pub struct TestDDACompleteView {
    pub directory: Seq<char>,
    pub read_filename: Seq<char>,
    pub write_filename: Seq<char>,
}

impl View for TestDDACompleteMessage {
    type V = TestDDACompleteView;

    open spec fn view(&self) -> TestDDACompleteView {
        TestDDACompleteView {
            directory: self.directory@,
            read_filename: self.read_filename@,
            write_filename: self.write_filename@,
        }
    }
}

/// What decoding a message as a finished test gives: the type is checked, then
/// `Directory`, `ReadFilename` and `WriteFilename` are read in that order.
pub open spec fn spec_test_dda_complete(m: MessageView) -> Result<TestDDACompleteView, DecodeErrorView> {
    if m.message_type != MessageType::Node(NodeMessageType::TestDDAComplete) {
        Err(unexpected_type(NodeMessageType::TestDDAComplete, m.message_type))
    } else {
        match field_value(m.fields, "Directory"@) {
            Err(e) => Err(e),
            Ok(directory) => match field_value(m.fields, "ReadFilename"@) {
                Err(e) => Err(e),
                Ok(read_filename) => match field_value(m.fields, "WriteFilename"@) {
                    Err(e) => Err(e),
                    Ok(write_filename) => Ok(
                        TestDDACompleteView { directory, read_filename, write_filename },
                    ),
                },
            },
        }
    }
}

impl TestDDACompleteMessage {
    /// Decodes a finished test (`TryFrom<Message>`).
    pub fn try_from_message(value: Message) -> (res: Result<TestDDACompleteMessage, DecodeError>)
        ensures
            match spec_test_dda_complete(value@) {
                Ok(v) => res matches Ok(r) && r@ == v,
                Err(e) => res matches Err(err) && err@ == e,
            },
    {
        if let Err(e) = value.message_type().expect_specific_node_message(
            NodeMessageType::TestDDAComplete,
        ) {
            return Err(e);
        }
        let fields = value.fields();
        let directory = match read_text(fields, "Directory") {
            Err(e) => return Err(e),
            Ok(v) => v,
        };
        let read_filename = match read_text(fields, "ReadFilename") {
            Err(e) => return Err(e),
            Ok(v) => v,
        };
        let write_filename = match read_text(fields, "WriteFilename") {
            Err(e) => return Err(e),
            Ok(v) => v,
        };
        Ok(TestDDACompleteMessage { directory, read_filename, write_filename })
    }
}

} // verus!
