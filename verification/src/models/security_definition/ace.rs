//! The ACE security scheme.

use crate::buffer::emitted;
use crate::data_structures::Array;
use crate::json_text::{members_text, no_members, with_field, MemberList};
use crate::serialization::{NestedJsonValue, SerializableField, SerializationError};
use crate::steps::{lemma_nested_field_written, lemma_nested_opened};
use vstd::prelude::*;

verus! {

/// The parameters of the ACE security scheme.
#[derive(Debug)]
pub struct AceSecurityScheme<'a> {
    pub authorization_server: Option<&'a str>,
    pub audience: Option<&'a str>,
    pub scopes: Option<Array<&'a str>>,
    pub cnonce: Option<bool>,
}

impl<'a> AceSecurityScheme<'a> {
    /// Starts building, with no optional field set.
    pub fn builder() -> (r: AceSecuritySchemeBuilder<'a>)
        ensures
            r == (AceSecuritySchemeBuilder {
                authorization_server: None,
                audience: None,
                scopes: None,
                cnonce: None,
            }),
    {
        AceSecuritySchemeBuilder::new()
    }

    /// The members that the scheme adds to a security definition, in order:
    /// `ace:as`, `ace:audience`, `ace:scopes`, `ace:cnonce`, each only if it is
    /// set.
    pub open spec fn members(&self) -> Seq<(Seq<u8>, Seq<u8>)> {
        no_members()
            .field("ace:as", self.authorization_server.field_value())
            .field("ace:audience", self.audience.field_value())
            .field("ace:scopes", self.scopes.field_value())
            .field("ace:cnonce", self.cnonce.field_value())
    }

    /// With no optional field set, the object holds no member at all.
    pub proof fn lemma_only_mandatory(&self)
        requires
            self.authorization_server is None,
            self.audience is None,
            self.scopes is None,
            self.cnonce is None,
        ensures
            self.members() == no_members(),
    {
        reveal(with_field);
    }
}

/// Builder of a [`AceSecurityScheme`].
#[derive(Debug, Default)]
pub struct AceSecuritySchemeBuilder<'a> {
    pub authorization_server: Option<&'a str>,
    pub audience: Option<&'a str>,
    pub scopes: Option<Array<&'a str>>,
    pub cnonce: Option<bool>,
}

impl<'a> AceSecuritySchemeBuilder<'a> {
    /// A builder with no optional field set.
    pub fn new() -> (r: Self)
        ensures
            r == (AceSecuritySchemeBuilder {
                authorization_server: None,
                audience: None,
                scopes: None,
                cnonce: None,
            }),
    {
        AceSecuritySchemeBuilder {
            authorization_server: None,
            audience: None,
            scopes: None,
            cnonce: None,
        }
    }

    /// Sets `authorization_server`.
    pub fn authorization_server(self, authorization_server: &'a str) -> (r: Self)
        ensures
            r == (AceSecuritySchemeBuilder {
                authorization_server: Some(authorization_server),
                ..self
            }),
    {
        let mut builder = self;
        builder.authorization_server = Some(authorization_server);
        builder
    }

    /// Sets `audience`.
    pub fn audience(self, audience: &'a str) -> (r: Self)
        ensures
            r == (AceSecuritySchemeBuilder { audience: Some(audience), ..self }),
    {
        let mut builder = self;
        builder.audience = Some(audience);
        builder
    }

    /// Sets `scopes`.
    pub fn scopes(self, scopes: Array<&'a str>) -> (r: Self)
        ensures
            r == (AceSecuritySchemeBuilder { scopes: Some(scopes), ..self }),
    {
        let mut builder = self;
        builder.scopes = Some(scopes);
        builder
    }

    /// Sets `cnonce`.
    pub fn cnonce(self, cnonce: bool) -> (r: Self)
        ensures
            r == (AceSecuritySchemeBuilder { cnonce: Some(cnonce), ..self }),
    {
        let mut builder = self;
        builder.cnonce = Some(cnonce);
        builder
    }

    /// The record with the fields as they were set.
    pub fn build(self) -> (r: AceSecurityScheme<'a>)
        ensures
            r == (AceSecurityScheme {
                authorization_server: self.authorization_server,
                audience: self.audience,
                scopes: self.scopes,
                cnonce: self.cnonce,
            }),
    {
        AceSecurityScheme {
            authorization_server: self.authorization_server,
            audience: self.audience,
            scopes: self.scopes,
            cnonce: self.cnonce,
        }
    }
}

impl<'a> AceSecurityScheme<'a> {
    /// Writes the members at the cursor, without braces, so that they become
    /// members of the object that is being written. A comma goes in front of
    /// the first member that is written where `has_previous` is set.
    pub fn serialize_to_map(&self, buf: &mut [u8], index: usize, has_previous: bool) -> (r: Result<
        usize,
        SerializationError,
    >)
        ensures
            emitted(old(buf)@, final(buf)@, index, members_text(self.members(), has_previous), r),
    {
        proof {
            let (b, at) = (buf@, index as int);
            let m = lemma_nested_opened(b, at, has_previous);
            let previous = has_previous;
            let m = lemma_nested_field_written(
                b,
                at,
                m,
                "ace:as",
                self.authorization_server.field_value(),
                has_previous,
                previous,
            );
            let previous = previous || self.authorization_server.is_some();
            let m = lemma_nested_field_written(
                b,
                at,
                m,
                "ace:audience",
                self.audience.field_value(),
                has_previous,
                previous,
            );
            let previous = previous || self.audience.is_some();
            let m = lemma_nested_field_written(
                b,
                at,
                m,
                "ace:scopes",
                self.scopes.field_value(),
                has_previous,
                previous,
            );
            let previous = previous || self.scopes.is_some();
            let m = lemma_nested_field_written(
                b,
                at,
                m,
                "ace:cnonce",
                self.cnonce.field_value(),
                has_previous,
                previous,
            );
        }
        let mut has_previous = has_previous;
        let mut index = index;
        index = self.authorization_server.serialize_field("ace:as", buf, index, has_previous)?;
        has_previous = has_previous || self.authorization_server.is_some();
        index = self.audience.serialize_field("ace:audience", buf, index, has_previous)?;
        has_previous = has_previous || self.audience.is_some();
        index = self.scopes.serialize_field("ace:scopes", buf, index, has_previous)?;
        has_previous = has_previous || self.scopes.is_some();
        index = self.cnonce.serialize_field("ace:cnonce", buf, index, has_previous)?;
        Ok(index)
    }
}

impl<'a> NestedJsonValue for AceSecurityScheme<'a> {
    open spec fn members(&self) -> Seq<(Seq<u8>, Seq<u8>)> {
        self.members()
    }

    fn to_nested_json_value(&self, buf: &mut [u8], index: usize, has_previous: bool) -> (r: Result<
        usize,
        SerializationError,
    >) {
        assert(NestedJsonValue::members(self) == self.members());
        self.serialize_to_map(buf, index, has_previous)
    }
}

} // verus!
