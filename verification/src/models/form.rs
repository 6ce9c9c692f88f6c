//! Forms: how the operations of a Thing are carried out.

use crate::data_structures::Array;
use crate::json_text::{
    bytes_of, lemma_literals, no_members, object_text, quoted, with_field, MemberList,
};
use crate::models::additional_expected_response::AdditionalExpectedResponse;
use crate::models::expected_response::ExpectedResponse;
use crate::serialization::{JsonString, JsonValue, SerializableField, SerializationError};
use crate::steps::{lemma_field_written, lemma_object_closed, lemma_object_opened};
use vstd::prelude::*;

verus! {

/// How an operation on a Thing is carried out: where to send the request and in
/// what form.
#[derive(Debug, Default)]
pub struct Form<'a> {
    pub href: &'a str,
    pub content_type: Option<&'a str>,
    pub content_coding: Option<&'a str>,
    pub security: Option<Array<&'a str>>,
    pub scopes: Option<Array<&'a str>>,
    pub response: Option<ExpectedResponse>,
    pub additional_responses: Option<Array<AdditionalExpectedResponse<'a>>>,
    pub subprotocol: Option<&'a str>,
    pub op: Option<Array<OperationType>>,
}

impl<'a> Form<'a> {
    /// Starts building, with no optional field set.
    pub fn builder(href: &'a str) -> (r: FormBuilder<'a>)
        ensures
            r == (FormBuilder {
                href,
                content_type: None,
                content_coding: None,
                security: None,
                scopes: None,
                response: None,
                additional_responses: None,
                subprotocol: None,
                op: None,
            }),
    {
        FormBuilder::new(href)
    }

    /// The members of the rendered object, in order: `href`, then
    /// `contentType`, `contentCoding`, `security`, `scopes`, `response`,
    /// `additionalResponses`, `subprotocol` and `op`, each only if it is set.
    pub open spec fn members(&self) -> Seq<(Seq<u8>, Seq<u8>)> {
        no_members()
            .field("href", self.href.field_value())
            .field("contentType", self.content_type.field_value())
            .field("contentCoding", self.content_coding.field_value())
            .field("security", self.security.field_value())
            .field("scopes", self.scopes.field_value())
            .field("response", self.response.field_value())
            .field("additionalResponses", self.additional_responses.field_value())
            .field("subprotocol", self.subprotocol.field_value())
            .field("op", self.op.field_value())
    }

    /// With no optional field set, the object holds the mandatory member
    /// and nothing else.
    pub proof fn lemma_only_mandatory(&self)
        requires
            self.content_type is None,
            self.content_coding is None,
            self.security is None,
            self.scopes is None,
            self.response is None,
            self.additional_responses is None,
            self.subprotocol is None,
            self.op is None,
        ensures
            self.members() == no_members().field("href", self.href.field_value()),
    {
        reveal(with_field);
    }
}

/// Builder of a [`Form`].
#[derive(Debug, Default)]
pub struct FormBuilder<'a> {
    pub href: &'a str,
    pub content_type: Option<&'a str>,
    pub content_coding: Option<&'a str>,
    pub security: Option<Array<&'a str>>,
    pub scopes: Option<Array<&'a str>>,
    pub response: Option<ExpectedResponse>,
    pub additional_responses: Option<Array<AdditionalExpectedResponse<'a>>>,
    pub subprotocol: Option<&'a str>,
    pub op: Option<Array<OperationType>>,
}

impl<'a> FormBuilder<'a> {
    /// A builder with no optional field set.
    pub fn new(href: &'a str) -> (r: Self)
        ensures
            r == (FormBuilder {
                href,
                content_type: None,
                content_coding: None,
                security: None,
                scopes: None,
                response: None,
                additional_responses: None,
                subprotocol: None,
                op: None,
            }),
    {
        FormBuilder {
            href,
            content_type: None,
            content_coding: None,
            security: None,
            scopes: None,
            response: None,
            additional_responses: None,
            subprotocol: None,
            op: None,
        }
    }

    /// Sets `content_type`.
    pub fn content_type(self, content_type: &'a str) -> (r: Self)
        ensures
            r == (FormBuilder { content_type: Some(content_type), ..self }),
    {
        let mut builder = self;
        builder.content_type = Some(content_type);
        builder
    }

    /// Sets `content_coding`.
    pub fn content_coding(self, content_coding: &'a str) -> (r: Self)
        ensures
            r == (FormBuilder { content_coding: Some(content_coding), ..self }),
    {
        let mut builder = self;
        builder.content_coding = Some(content_coding);
        builder
    }

    /// Sets `security`.
    pub fn security(self, security: Array<&'a str>) -> (r: Self)
        ensures
            r == (FormBuilder { security: Some(security), ..self }),
    {
        let mut builder = self;
        builder.security = Some(security);
        builder
    }

    /// Sets `scopes`.
    pub fn scopes(self, scopes: Array<&'a str>) -> (r: Self)
        ensures
            r == (FormBuilder { scopes: Some(scopes), ..self }),
    {
        let mut builder = self;
        builder.scopes = Some(scopes);
        builder
    }

    /// Sets `response`.
    pub fn response(self, response: ExpectedResponse) -> (r: Self)
        ensures
            r == (FormBuilder { response: Some(response), ..self }),
    {
        let mut builder = self;
        builder.response = Some(response);
        builder
    }

    /// Sets `additional_responses`.
    pub fn additional_responses(
        self,
        additional_responses: Array<AdditionalExpectedResponse<'a>>,
    ) -> (r: Self)
        ensures
            r == (FormBuilder { additional_responses: Some(additional_responses), ..self }),
    {
        let mut builder = self;
        builder.additional_responses = Some(additional_responses);
        builder
    }

    /// Sets `subprotocol`.
    pub fn subprotocol(self, subprotocol: &'a str) -> (r: Self)
        ensures
            r == (FormBuilder { subprotocol: Some(subprotocol), ..self }),
    {
        let mut builder = self;
        builder.subprotocol = Some(subprotocol);
        builder
    }

    /// Sets `op`.
    pub fn op(self, op: Array<OperationType>) -> (r: Self)
        ensures
            r == (FormBuilder { op: Some(op), ..self }),
    {
        let mut builder = self;
        builder.op = Some(op);
        builder
    }

    /// The record with the fields as they were set.
    pub fn build(self) -> (r: Form<'a>)
        ensures
            r == (Form {
                href: self.href,
                content_type: self.content_type,
                content_coding: self.content_coding,
                security: self.security,
                scopes: self.scopes,
                response: self.response,
                additional_responses: self.additional_responses,
                subprotocol: self.subprotocol,
                op: self.op,
            }),
    {
        Form {
            href: self.href,
            content_type: self.content_type,
            content_coding: self.content_coding,
            security: self.security,
            scopes: self.scopes,
            response: self.response,
            additional_responses: self.additional_responses,
            subprotocol: self.subprotocol,
            op: self.op,
        }
    }
}

impl<'a> JsonValue for Form<'a> {
    open spec fn json_value(&self) -> Seq<u8> {
        object_text(self.members())
    }

    fn to_json_value(&self, buf: &mut [u8], index: usize) -> (r: Result<
        usize,
        SerializationError,
    >) {
        proof {
            lemma_literals();
            assert(self.json_value() == object_text(self.members()));
            let (b, at) = (buf@, index as int);
            let m = lemma_object_opened(b, at);
            let m = lemma_field_written(b, at, m, "href", self.href.field_value(), false);
            let m = lemma_field_written(
                b,
                at,
                m,
                "contentType",
                self.content_type.field_value(),
                true,
            );
            let m = lemma_field_written(
                b,
                at,
                m,
                "contentCoding",
                self.content_coding.field_value(),
                true,
            );
            let m = lemma_field_written(b, at, m, "security", self.security.field_value(), true);
            let m = lemma_field_written(b, at, m, "scopes", self.scopes.field_value(), true);
            let m = lemma_field_written(b, at, m, "response", self.response.field_value(), true);
            let m = lemma_field_written(
                b,
                at,
                m,
                "additionalResponses",
                self.additional_responses.field_value(),
                true,
            );
            let m = lemma_field_written(
                b,
                at,
                m,
                "subprotocol",
                self.subprotocol.field_value(),
                true,
            );
            let m = lemma_field_written(b, at, m, "op", self.op.field_value(), true);
            lemma_object_closed(b, at, m);
        }
        let mut index = "{".to_json_string(buf, index)?;
        index = self.href.serialize_field("href", buf, index, false)?;
        index = self.content_type.serialize_field("contentType", buf, index, true)?;
        index = self.content_coding.serialize_field("contentCoding", buf, index, true)?;
        index = self.security.serialize_field("security", buf, index, true)?;
        index = self.scopes.serialize_field("scopes", buf, index, true)?;
        index = self.response.serialize_field("response", buf, index, true)?;
        index = self.additional_responses.serialize_field("additionalResponses", buf, index, true)?;
        index = self.subprotocol.serialize_field("subprotocol", buf, index, true)?;
        index = self.op.serialize_field("op", buf, index, true)?;
        index = "}".to_json_string(buf, index)?;
        Ok(index)
    }
}

/// The operations that a form can stand for. Each is written as its name in
/// lower case.
#[derive(Debug)]
pub enum OperationType {
    Readproperty,
    Writeproperty,
    Observeproperty,
    Unobserveproperty,
    Invokeaction,
    Queryaction,
    Cancelaction,
    Subscribeevent,
    Unsubscribeevent,
    Readallproperties,
    Writeallproperties,
    Readmultipleproperties,
    Writemultipleproperties,
    Observeallproperties,
    Unobserveallproperties,
    Subscribeallevents,
    Unsubscribeallevents,
    Queryallactions,
}

impl OperationType {
    /// The name under which the value is written.
    pub open spec fn name(&self) -> Seq<char> {
        match self {
            OperationType::Readproperty => "readproperty"@,
            OperationType::Writeproperty => "writeproperty"@,
            OperationType::Observeproperty => "observeproperty"@,
            OperationType::Unobserveproperty => "unobserveproperty"@,
            OperationType::Invokeaction => "invokeaction"@,
            OperationType::Queryaction => "queryaction"@,
            OperationType::Cancelaction => "cancelaction"@,
            OperationType::Subscribeevent => "subscribeevent"@,
            OperationType::Unsubscribeevent => "unsubscribeevent"@,
            OperationType::Readallproperties => "readallproperties"@,
            OperationType::Writeallproperties => "writeallproperties"@,
            OperationType::Readmultipleproperties => "readmultipleproperties"@,
            OperationType::Writemultipleproperties => "writemultipleproperties"@,
            OperationType::Observeallproperties => "observeallproperties"@,
            OperationType::Unobserveallproperties => "unobserveallproperties"@,
            OperationType::Subscribeallevents => "subscribeallevents"@,
            OperationType::Unsubscribeallevents => "unsubscribeallevents"@,
            OperationType::Queryallactions => "queryallactions"@,
        }
    }

    /// The name under which the value is written.
    pub fn as_str(&self) -> (r: &'static str)
        ensures
            r@ == self.name(),
    {
        match self {
            OperationType::Readproperty => "readproperty",
            OperationType::Writeproperty => "writeproperty",
            OperationType::Observeproperty => "observeproperty",
            OperationType::Unobserveproperty => "unobserveproperty",
            OperationType::Invokeaction => "invokeaction",
            OperationType::Queryaction => "queryaction",
            OperationType::Cancelaction => "cancelaction",
            OperationType::Subscribeevent => "subscribeevent",
            OperationType::Unsubscribeevent => "unsubscribeevent",
            OperationType::Readallproperties => "readallproperties",
            OperationType::Writeallproperties => "writeallproperties",
            OperationType::Readmultipleproperties => "readmultipleproperties",
            OperationType::Writemultipleproperties => "writemultipleproperties",
            OperationType::Observeallproperties => "observeallproperties",
            OperationType::Unobserveallproperties => "unobserveallproperties",
            OperationType::Subscribeallevents => "subscribeallevents",
            OperationType::Unsubscribeallevents => "unsubscribeallevents",
            OperationType::Queryallactions => "queryallactions",
        }
    }
}

impl JsonValue for OperationType {
    open spec fn json_value(&self) -> Seq<u8> {
        quoted(bytes_of(self.name()))
    }

    fn to_json_value(&self, buf: &mut [u8], index: usize) -> (r: Result<
        usize,
        SerializationError,
    >) {
        let name = self.as_str();
        assert(self.json_value() == name.json_value());
        name.to_json_value(buf, index)
    }
}

} // verus!
