//! The digest security scheme.

use crate::buffer::emitted;
use crate::json_text::{members_text, no_members, with_field, MemberList};
use crate::models::security_definition::{In, QoP};
use crate::serialization::{NestedJsonValue, SerializableField, SerializationError};
use crate::steps::{lemma_nested_field_written, lemma_nested_opened};
use vstd::prelude::*;

verus! {

/// The parameters of the digest security scheme.
#[derive(Debug, Default)]
pub struct DigestSecurityScheme<'a> {
    pub name: Option<&'a str>,
    pub in_: Option<In>,
    pub qop: Option<QoP>,
}

impl<'a> DigestSecurityScheme<'a> {
    /// Starts building, with no optional field set.
    pub fn builder() -> (r: DigestSecuritySchemeBuilder<'a>)
        ensures
            r == (DigestSecuritySchemeBuilder { name: None, in_: None, qop: None }),
    {
        DigestSecuritySchemeBuilder::new()
    }

    /// The members that the scheme adds to a security definition, in order:
    /// `name`, `in`, `qop`, each only if it is set.
    pub open spec fn members(&self) -> Seq<(Seq<u8>, Seq<u8>)> {
        no_members()
            .field("name", self.name.field_value())
            .field("in", self.in_.field_value())
            .field("qop", self.qop.field_value())
    }

    /// With no optional field set, the object holds no member at all.
    pub proof fn lemma_only_mandatory(&self)
        requires
            self.name is None,
            self.in_ is None,
            self.qop is None,
        ensures
            self.members() == no_members(),
    {
        reveal(with_field);
    }
}

/// Builder of a [`DigestSecurityScheme`].
#[derive(Debug, Default)]
pub struct DigestSecuritySchemeBuilder<'a> {
    pub name: Option<&'a str>,
    pub in_: Option<In>,
    pub qop: Option<QoP>,
}

impl<'a> DigestSecuritySchemeBuilder<'a> {
    /// A builder with no optional field set.
    pub fn new() -> (r: Self)
        ensures
            r == (DigestSecuritySchemeBuilder { name: None, in_: None, qop: None }),
    {
        DigestSecuritySchemeBuilder { name: None, in_: None, qop: None }
    }

    /// Sets `name`.
    pub fn name(self, name: &'a str) -> (r: Self)
        ensures
            r == (DigestSecuritySchemeBuilder { name: Some(name), ..self }),
    {
        let mut builder = self;
        builder.name = Some(name);
        builder
    }

    /// Sets `in_`.
    pub fn in_(self, in_: In) -> (r: Self)
        ensures
            r == (DigestSecuritySchemeBuilder { in_: Some(in_), ..self }),
    {
        let mut builder = self;
        builder.in_ = Some(in_);
        builder
    }

    /// Sets `qop`.
    pub fn qop(self, qop: QoP) -> (r: Self)
        ensures
            r == (DigestSecuritySchemeBuilder { qop: Some(qop), ..self }),
    {
        let mut builder = self;
        builder.qop = Some(qop);
        builder
    }

    /// The record with the fields as they were set.
    pub fn build(self) -> (r: DigestSecurityScheme<'a>)
        ensures
            r == (DigestSecurityScheme { name: self.name, in_: self.in_, qop: self.qop }),
    {
        DigestSecurityScheme { name: self.name, in_: self.in_, qop: self.qop }
    }
}

impl<'a> DigestSecurityScheme<'a> {
    /// Writes the members at the cursor, without braces, so that they become
    /// members of the object that is being written. A comma goes in front of
    /// the first member that is written where `has_previous` is set.
    pub fn serialize_to_map(&self, buf: &mut [u8], index: usize, has_previous: bool) -> (r: Result<
        usize,
        SerializationError,
    >)
        ensures
            emitted(old(buf)@, final(buf)@, index, members_text(self.members(), has_previous), r),
    {
        proof {
            let (b, at) = (buf@, index as int);
            let m = lemma_nested_opened(b, at, has_previous);
            let previous = has_previous;
            let m = lemma_nested_field_written(
                b,
                at,
                m,
                "name",
                self.name.field_value(),
                has_previous,
                previous,
            );
            let previous = previous || self.name.is_some();
            let m = lemma_nested_field_written(
                b,
                at,
                m,
                "in",
                self.in_.field_value(),
                has_previous,
                previous,
            );
            let previous = previous || self.in_.is_some();
            let m = lemma_nested_field_written(
                b,
                at,
                m,
                "qop",
                self.qop.field_value(),
                has_previous,
                previous,
            );
        }
        let mut has_previous = has_previous;
        let mut index = index;
        index = self.name.serialize_field("name", buf, index, has_previous)?;
        has_previous = has_previous || self.name.is_some();
        index = self.in_.serialize_field("in", buf, index, has_previous)?;
        has_previous = has_previous || self.in_.is_some();
        index = self.qop.serialize_field("qop", buf, index, has_previous)?;
        Ok(index)
    }
}

impl<'a> NestedJsonValue for DigestSecurityScheme<'a> {
    open spec fn members(&self) -> Seq<(Seq<u8>, Seq<u8>)> {
        self.members()
    }

    fn to_nested_json_value(&self, buf: &mut [u8], index: usize, has_previous: bool) -> (r: Result<
        usize,
        SerializationError,
    >) {
        assert(NestedJsonValue::members(self) == self.members());
        self.serialize_to_map(buf, index, has_previous)
    }
}

} // verus!
