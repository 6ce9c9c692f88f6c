//! The bearer token security scheme.

use crate::buffer::emitted;
use crate::json_text::{members_text, no_members, with_field, MemberList};
use crate::models::security_definition::{In, QoP};
use crate::serialization::{NestedJsonValue, SerializableField, SerializationError};
use crate::steps::{lemma_nested_field_written, lemma_nested_opened};
use vstd::prelude::*;

verus! {

/// The parameters of the bearer token security scheme.
#[derive(Debug, Clone)]
pub struct BearerSecurityScheme<'a> {
    pub authorization: Option<&'a str>,
    pub name: Option<&'a str>,
    pub alg: Option<&'a str>,
    pub format: Option<&'a str>,
    pub in_: Option<In>,
    pub qop: Option<QoP>,
}

impl<'a> BearerSecurityScheme<'a> {
    /// Starts building, with no optional field set.
    pub fn builder() -> (r: BearerSecuritySchemeBuilder<'a>)
        ensures
            r == (BearerSecuritySchemeBuilder {
                authorization: None,
                name: None,
                alg: None,
                format: None,
                in_: None,
                qop: None,
            }),
    {
        BearerSecuritySchemeBuilder::new()
    }

    /// The members that the scheme adds to a security definition, in order:
    /// `authorization`, `alg`, `format`, `name`, `in`, each only if it is set.
    /// The quality of protection is kept in the record and not written.
    pub open spec fn members(&self) -> Seq<(Seq<u8>, Seq<u8>)> {
        no_members()
            .field("authorization", self.authorization.field_value())
            .field("alg", self.alg.field_value())
            .field("format", self.format.field_value())
            .field("name", self.name.field_value())
            .field("in", self.in_.field_value())
    }

    /// With no optional field set, the object holds no member at all.
    pub proof fn lemma_only_mandatory(&self)
        requires
            self.authorization is None,
            self.alg is None,
            self.format is None,
            self.name is None,
            self.in_ is None,
        ensures
            self.members() == no_members(),
    {
        reveal(with_field);
    }
}

/// Builder of a [`BearerSecurityScheme`].
#[derive(Debug, Default)]
pub struct BearerSecuritySchemeBuilder<'a> {
    pub authorization: Option<&'a str>,
    pub name: Option<&'a str>,
    pub alg: Option<&'a str>,
    pub format: Option<&'a str>,
    pub in_: Option<In>,
    pub qop: Option<QoP>,
}

impl<'a> BearerSecuritySchemeBuilder<'a> {
    /// A builder with no optional field set.
    pub fn new() -> (r: Self)
        ensures
            r == (BearerSecuritySchemeBuilder {
                authorization: None,
                name: None,
                alg: None,
                format: None,
                in_: None,
                qop: None,
            }),
    {
        BearerSecuritySchemeBuilder {
            authorization: None,
            name: None,
            alg: None,
            format: None,
            in_: None,
            qop: None,
        }
    }

    /// Sets `authorization`.
    pub fn authorization(self, authorization: &'a str) -> (r: Self)
        ensures
            r == (BearerSecuritySchemeBuilder {
                authorization: Some(authorization),
                ..self
            }),
    {
        let mut builder = self;
        builder.authorization = Some(authorization);
        builder
    }

    /// Sets `name`.
    pub fn name(self, name: &'a str) -> (r: Self)
        ensures
            r == (BearerSecuritySchemeBuilder { name: Some(name), ..self }),
    {
        let mut builder = self;
        builder.name = Some(name);
        builder
    }

    /// Sets `alg`.
    pub fn alg(self, alg: &'a str) -> (r: Self)
        ensures
            r == (BearerSecuritySchemeBuilder { alg: Some(alg), ..self }),
    {
        let mut builder = self;
        builder.alg = Some(alg);
        builder
    }

    /// Sets `format`.
    pub fn format(self, format: &'a str) -> (r: Self)
        ensures
            r == (BearerSecuritySchemeBuilder { format: Some(format), ..self }),
    {
        let mut builder = self;
        builder.format = Some(format);
        builder
    }

    /// Sets `in_`.
    pub fn in_(self, in_: In) -> (r: Self)
        ensures
            r == (BearerSecuritySchemeBuilder { in_: Some(in_), ..self }),
    {
        let mut builder = self;
        builder.in_ = Some(in_);
        builder
    }

    /// Sets `qop`.
    pub fn qop(self, qop: QoP) -> (r: Self)
        ensures
            r == (BearerSecuritySchemeBuilder { qop: Some(qop), ..self }),
    {
        let mut builder = self;
        builder.qop = Some(qop);
        builder
    }

    /// The record with the fields as they were set.
    pub fn build(self) -> (r: BearerSecurityScheme<'a>)
        ensures
            r == (BearerSecurityScheme {
                authorization: self.authorization,
                name: self.name,
                alg: self.alg,
                format: self.format,
                in_: self.in_,
                qop: self.qop,
            }),
    {
        BearerSecurityScheme {
            authorization: self.authorization,
            name: self.name,
            alg: self.alg,
            format: self.format,
            in_: self.in_,
            qop: self.qop,
        }
    }
}

impl<'a> BearerSecurityScheme<'a> {
    /// Writes the members at the cursor, without braces, so that they become
    /// members of the object that is being written. A comma goes in front of
    /// the first member that is written where `has_previous` is set.
    pub fn serialize_to_map(&self, buf: &mut [u8], index: usize, has_previous: bool) -> (r: Result<
        usize,
        SerializationError,
    >)
        ensures
            emitted(old(buf)@, final(buf)@, index, members_text(self.members(), has_previous), r),
    {
        proof {
            let (b, at) = (buf@, index as int);
            let m = lemma_nested_opened(b, at, has_previous);
            let previous = has_previous;
            let m = lemma_nested_field_written(
                b,
                at,
                m,
                "authorization",
                self.authorization.field_value(),
                has_previous,
                previous,
            );
            let previous = previous || self.authorization.is_some();
            let m = lemma_nested_field_written(
                b,
                at,
                m,
                "alg",
                self.alg.field_value(),
                has_previous,
                previous,
            );
            let previous = previous || self.alg.is_some();
            let m = lemma_nested_field_written(
                b,
                at,
                m,
                "format",
                self.format.field_value(),
                has_previous,
                previous,
            );
            let previous = previous || self.format.is_some();
            let m = lemma_nested_field_written(
                b,
                at,
                m,
                "name",
                self.name.field_value(),
                has_previous,
                previous,
            );
            let previous = previous || self.name.is_some();
            let m = lemma_nested_field_written(
                b,
                at,
                m,
                "in",
                self.in_.field_value(),
                has_previous,
                previous,
            );
        }
        let mut has_previous = has_previous;
        let mut index = index;
        index = self.authorization.serialize_field("authorization", buf, index, has_previous)?;
        has_previous = has_previous || self.authorization.is_some();
        index = self.alg.serialize_field("alg", buf, index, has_previous)?;
        has_previous = has_previous || self.alg.is_some();
        index = self.format.serialize_field("format", buf, index, has_previous)?;
        has_previous = has_previous || self.format.is_some();
        index = self.name.serialize_field("name", buf, index, has_previous)?;
        has_previous = has_previous || self.name.is_some();
        index = self.in_.serialize_field("in", buf, index, has_previous)?;
        Ok(index)
    }
}

impl<'a> NestedJsonValue for BearerSecurityScheme<'a> {
    open spec fn members(&self) -> Seq<(Seq<u8>, Seq<u8>)> {
        self.members()
    }

    fn to_nested_json_value(&self, buf: &mut [u8], index: usize, has_previous: bool) -> (r: Result<
        usize,
        SerializationError,
    >) {
        assert(NestedJsonValue::members(self) == self.members());
        self.serialize_to_map(buf, index, has_previous)
    }
}

} // verus!
