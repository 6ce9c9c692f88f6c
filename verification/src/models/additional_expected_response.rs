//! Responses that a form may give besides the expected one.

use crate::json_text::{lemma_literals, no_members, object_text, with_field, MemberList};
use crate::serialization::{JsonString, JsonValue, SerializableField, SerializationError};
use crate::steps::{lemma_field_written, lemma_object_closed, lemma_object_opened};
use vstd::prelude::*;

verus! {

/// A response that a form may give besides the expected one.
#[derive(Debug, Default)]
pub struct AdditionalExpectedResponse<'a> {
    pub success: Option<bool>,
    pub content_type: Option<&'a str>,
    pub schema: Option<&'a str>,
}

impl<'a> AdditionalExpectedResponse<'a> {
    /// Starts building, with no optional field set.
    pub fn builder() -> (r: AdditionalExpectedResponseBuilder<'a>)
        ensures
            r == (AdditionalExpectedResponseBuilder {
                success: None,
                content_type: None,
                schema: None,
            }),
    {
        AdditionalExpectedResponseBuilder::new()
    }

    /// The members of the rendered object, in order: `success`,
    /// `contentType`, `schema`, each only if it is set.
    pub open spec fn members(&self) -> Seq<(Seq<u8>, Seq<u8>)> {
        no_members()
            .field("success", self.success.field_value())
            .field("contentType", self.content_type.field_value())
            .field("schema", self.schema.field_value())
    }

    /// With no optional field set, the object holds no member at all.
    pub proof fn lemma_only_mandatory(&self)
        requires
            self.success is None,
            self.content_type is None,
            self.schema is None,
        ensures
            self.members() == no_members(),
    {
        reveal(with_field);
    }
}

/// Builder of a [`AdditionalExpectedResponse`].
#[derive(Debug, Default)]
pub struct AdditionalExpectedResponseBuilder<'a> {
    pub success: Option<bool>,
    pub content_type: Option<&'a str>,
    pub schema: Option<&'a str>,
}

impl<'a> AdditionalExpectedResponseBuilder<'a> {
    /// A builder with no optional field set.
    pub fn new() -> (r: Self)
        ensures
            r == (AdditionalExpectedResponseBuilder {
                success: None,
                content_type: None,
                schema: None,
            }),
    {
        AdditionalExpectedResponseBuilder {
            success: None,
            content_type: None,
            schema: None,
        }
    }

    /// Sets `success`.
    pub fn success(self, success: bool) -> (r: Self)
        ensures
            r == (AdditionalExpectedResponseBuilder { success: Some(success), ..self }),
    {
        let mut builder = self;
        builder.success = Some(success);
        builder
    }

    /// Sets `content_type`.
    pub fn content_type(self, content_type: &'a str) -> (r: Self)
        ensures
            r == (AdditionalExpectedResponseBuilder {
                content_type: Some(content_type),
                ..self
            }),
    {
        let mut builder = self;
        builder.content_type = Some(content_type);
        builder
    }

    /// Sets `schema`.
    pub fn schema(self, schema: &'a str) -> (r: Self)
        ensures
            r == (AdditionalExpectedResponseBuilder { schema: Some(schema), ..self }),
    {
        let mut builder = self;
        builder.schema = Some(schema);
        builder
    }

    /// The record with the fields as they were set.
    pub fn build(self) -> (r: AdditionalExpectedResponse<'a>)
        ensures
            r == (AdditionalExpectedResponse {
                success: self.success,
                content_type: self.content_type,
                schema: self.schema,
            }),
    {
        AdditionalExpectedResponse {
            success: self.success,
            content_type: self.content_type,
            schema: self.schema,
        }
    }
}

impl<'a> JsonValue for AdditionalExpectedResponse<'a> {
    open spec fn json_value(&self) -> Seq<u8> {
        object_text(self.members())
    }

    fn to_json_value(&self, buf: &mut [u8], index: usize) -> (r: Result<
        usize,
        SerializationError,
    >) {
        proof {
            lemma_literals();
            assert(self.json_value() == object_text(self.members()));
            let (b, at) = (buf@, index as int);
            let m = lemma_object_opened(b, at);
            let previous = false;
            let m = lemma_field_written(b, at, m, "success", self.success.field_value(), previous);
            let previous = previous || self.success.is_some();
            let m = lemma_field_written(
                b,
                at,
                m,
                "contentType",
                self.content_type.field_value(),
                previous,
            );
            let previous = previous || self.content_type.is_some();
            let m = lemma_field_written(b, at, m, "schema", self.schema.field_value(), previous);
            lemma_object_closed(b, at, m);
        }
        let mut has_previous = false;
        let mut index = "{".to_json_string(buf, index)?;
        index = self.success.serialize_field("success", buf, index, has_previous)?;
        has_previous = has_previous || self.success.is_some();
        index = self.content_type.serialize_field("contentType", buf, index, has_previous)?;
        has_previous = has_previous || self.content_type.is_some();
        index = self.schema.serialize_field("schema", buf, index, has_previous)?;
        index = "}".to_json_string(buf, index)?;
        Ok(index)
    }
}

} // verus!
