//! The response that a form is expected to give.

use crate::json_text::{lemma_literals, no_members, object_text, MemberList};
use crate::serialization::{JsonString, JsonValue, SerializableField, SerializationError};
use crate::steps::{lemma_field_written, lemma_object_closed, lemma_object_opened};
use vstd::prelude::*;

verus! {

/// The response that a form gives when all goes well.
#[derive(Debug, Default, Clone)]
pub struct ExpectedResponse {
    pub content_type: String,
}

impl ExpectedResponse {
    /// A response with the given content type.
    pub fn new(content_type: String) -> (r: ExpectedResponse)
        ensures
            r == (ExpectedResponse { content_type }),
    {
        ExpectedResponse { content_type }
    }

    /// The one member of the rendered object: `contentType`.
    pub open spec fn members(&self) -> Seq<(Seq<u8>, Seq<u8>)> {
        no_members()
            .field("contentType", self.content_type.field_value())
    }
}

impl JsonValue for ExpectedResponse {
    open spec fn json_value(&self) -> Seq<u8> {
        object_text(self.members())
    }

    fn to_json_value(&self, buf: &mut [u8], index: usize) -> (r: Result<
        usize,
        SerializationError,
    >) {
        proof {
            lemma_literals();
            assert(self.json_value() == object_text(self.members()));
            let (b, at) = (buf@, index as int);
            let m = lemma_object_opened(b, at);
            let m = lemma_field_written(
                b,
                at,
                m,
                "contentType",
                self.content_type.field_value(),
                false,
            );
            lemma_object_closed(b, at, m);
        }
        let mut index = "{".to_json_string(buf, index)?;
        index = self.content_type.serialize_field("contentType", buf, index, false)?;
        index = "}".to_json_string(buf, index)?;
        Ok(index)
    }
}

} // verus!
