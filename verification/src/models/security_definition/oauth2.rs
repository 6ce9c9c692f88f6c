//! The OAuth 2.0 security scheme.

use crate::buffer::emitted;
use crate::json_text::{members_text, no_members, with_field, MemberList};
use crate::serialization::{NestedJsonValue, SerializableField, SerializationError};
use crate::steps::{lemma_nested_field_written, lemma_nested_opened};
use vstd::prelude::*;

verus! {

/// The parameters of the OAuth 2.0 security scheme.
#[derive(Debug)]
pub struct Oauth2SecurityScheme<'a> {
    pub flow: &'a str,
    pub authorization: Option<&'a str>,
    pub token: Option<&'a str>,
    pub refresh: Option<&'a str>,
    pub scopes: Option<Vec<&'a str>>,
}

impl<'a> Oauth2SecurityScheme<'a> {
    /// Starts building, with no optional field set.
    pub fn builder(flow: &'a str) -> (r: Oauth2SecuritySchemeBuilder<'a>)
        ensures
            r == (Oauth2SecuritySchemeBuilder {
                flow,
                authorization: None,
                token: None,
                refresh: None,
                scopes: None,
            }),
    {
        Oauth2SecuritySchemeBuilder::new(flow)
    }

    /// The members that the scheme adds to a security definition, in order:
    /// `flow`, then `authorization`, `token`, `refresh`, `scopes`, each only if
    /// it is set.
    pub open spec fn members(&self) -> Seq<(Seq<u8>, Seq<u8>)> {
        no_members()
            .field("flow", self.flow.field_value())
            .field("authorization", self.authorization.field_value())
            .field("token", self.token.field_value())
            .field("refresh", self.refresh.field_value())
            .field("scopes", self.scopes.field_value())
    }

    /// With no optional field set, the object holds the mandatory member
    /// and nothing else.
    pub proof fn lemma_only_mandatory(&self)
        requires
            self.authorization is None,
            self.token is None,
            self.refresh is None,
            self.scopes is None,
        ensures
            self.members() == no_members().field("flow", self.flow.field_value()),
    {
        reveal(with_field);
    }
}

/// Builder of a [`Oauth2SecurityScheme`].
#[derive(Debug, Default)]
pub struct Oauth2SecuritySchemeBuilder<'a> {
    pub flow: &'a str,
    pub authorization: Option<&'a str>,
    pub token: Option<&'a str>,
    pub refresh: Option<&'a str>,
    pub scopes: Option<Vec<&'a str>>,
}

impl<'a> Oauth2SecuritySchemeBuilder<'a> {
    /// A builder with no optional field set.
    pub fn new(flow: &'a str) -> (r: Self)
        ensures
            r == (Oauth2SecuritySchemeBuilder {
                flow,
                authorization: None,
                token: None,
                refresh: None,
                scopes: None,
            }),
    {
        Oauth2SecuritySchemeBuilder {
            flow,
            authorization: None,
            token: None,
            refresh: None,
            scopes: None,
        }
    }

    /// Sets `authorization`.
    pub fn authorization(self, authorization: &'a str) -> (r: Self)
        ensures
            r == (Oauth2SecuritySchemeBuilder {
                authorization: Some(authorization),
                ..self
            }),
    {
        let mut builder = self;
        builder.authorization = Some(authorization);
        builder
    }

    /// Sets `token`.
    pub fn token(self, token: &'a str) -> (r: Self)
        ensures
            r == (Oauth2SecuritySchemeBuilder { token: Some(token), ..self }),
    {
        let mut builder = self;
        builder.token = Some(token);
        builder
    }

    /// Sets `refresh`.
    pub fn refresh(self, refresh: &'a str) -> (r: Self)
        ensures
            r == (Oauth2SecuritySchemeBuilder { refresh: Some(refresh), ..self }),
    {
        let mut builder = self;
        builder.refresh = Some(refresh);
        builder
    }

    /// Sets `scopes`.
    pub fn scopes(self, scopes: Vec<&'a str>) -> (r: Self)
        ensures
            r == (Oauth2SecuritySchemeBuilder { scopes: Some(scopes), ..self }),
    {
        let mut builder = self;
        builder.scopes = Some(scopes);
        builder
    }

    /// The record with the fields as they were set.
    pub fn build(self) -> (r: Oauth2SecurityScheme<'a>)
        ensures
            r == (Oauth2SecurityScheme {
                flow: self.flow,
                authorization: self.authorization,
                token: self.token,
                refresh: self.refresh,
                scopes: self.scopes,
            }),
    {
        Oauth2SecurityScheme {
            flow: self.flow,
            authorization: self.authorization,
            token: self.token,
            refresh: self.refresh,
            scopes: self.scopes,
        }
    }
}

impl<'a> Oauth2SecurityScheme<'a> {
    /// Writes the members at the cursor, without braces, so that they become
    /// members of the object that is being written. A comma goes in front of
    /// the first member that is written where `has_previous` is set.
    pub fn serialize_to_map(&self, buf: &mut [u8], index: usize, has_previous: bool) -> (r: Result<
        usize,
        SerializationError,
    >)
        ensures
            emitted(old(buf)@, final(buf)@, index, members_text(self.members(), has_previous), r),
    {
        proof {
            let (b, at) = (buf@, index as int);
            let m = lemma_nested_opened(b, at, has_previous);
            let previous = has_previous;
            let m = lemma_nested_field_written(
                b,
                at,
                m,
                "flow",
                self.flow.field_value(),
                has_previous,
                previous,
            );
            let m = lemma_nested_field_written(
                b,
                at,
                m,
                "authorization",
                self.authorization.field_value(),
                has_previous,
                true,
            );
            let m = lemma_nested_field_written(
                b,
                at,
                m,
                "token",
                self.token.field_value(),
                has_previous,
                true,
            );
            let m = lemma_nested_field_written(
                b,
                at,
                m,
                "refresh",
                self.refresh.field_value(),
                has_previous,
                true,
            );
            let m = lemma_nested_field_written(
                b,
                at,
                m,
                "scopes",
                self.scopes.field_value(),
                has_previous,
                true,
            );
        }
        let mut index = index;
        index = self.flow.serialize_field("flow", buf, index, has_previous)?;
        index = self.authorization.serialize_field("authorization", buf, index, true)?;
        index = self.token.serialize_field("token", buf, index, true)?;
        index = self.refresh.serialize_field("refresh", buf, index, true)?;
        index = self.scopes.serialize_field("scopes", buf, index, true)?;
        Ok(index)
    }
}

impl<'a> NestedJsonValue for Oauth2SecurityScheme<'a> {
    open spec fn members(&self) -> Seq<(Seq<u8>, Seq<u8>)> {
        self.members()
    }

    fn to_nested_json_value(&self, buf: &mut [u8], index: usize, has_previous: bool) -> (r: Result<
        usize,
        SerializationError,
    >) {
        assert(NestedJsonValue::members(self) == self.members());
        self.serialize_to_map(buf, index, has_previous)
    }
}

} // verus!
