//! The pre-shared key security scheme.

use crate::buffer::emitted;
use crate::json_text::{members_text, no_members, with_field, MemberList};
use crate::serialization::{NestedJsonValue, SerializableField, SerializationError};
use crate::steps::{lemma_nested_field_written, lemma_nested_opened};
use vstd::prelude::*;

verus! {

/// The parameters of the pre-shared key security scheme.
#[derive(Debug)]
pub struct PskSecurityScheme<'a> {
    pub identity: Option<&'a str>,
}

impl<'a> PskSecurityScheme<'a> {
    /// Starts building, with no optional field set.
    pub fn builder() -> (r: PskSecuritySchemeBuilder<'a>)
        ensures
            r == (PskSecuritySchemeBuilder { identity: None }),
    {
        PskSecuritySchemeBuilder::new()
    }

    /// The one member that the scheme adds to a security definition:
    /// `identity`, if it is set.
    pub open spec fn members(&self) -> Seq<(Seq<u8>, Seq<u8>)> {
        no_members()
            .field("identity", self.identity.field_value())
    }

    /// With no optional field set, the object holds no member at all.
    pub proof fn lemma_only_mandatory(&self)
        requires
            self.identity is None,
        ensures
            self.members() == no_members(),
    {
        reveal(with_field);
    }
}

/// Builder of a [`PskSecurityScheme`].
#[derive(Debug, Default)]
pub struct PskSecuritySchemeBuilder<'a> {
    pub identity: Option<&'a str>,
}

impl<'a> PskSecuritySchemeBuilder<'a> {
    /// A builder with no optional field set.
    pub fn new() -> (r: Self)
        ensures
            r == (PskSecuritySchemeBuilder { identity: None }),
    {
        PskSecuritySchemeBuilder { identity: None }
    }

    /// Sets `identity`.
    pub fn authorization(self, identity: &'a str) -> (r: Self)
        ensures
            r == (PskSecuritySchemeBuilder { identity: Some(identity), ..self }),
    {
        let mut builder = self;
        builder.identity = Some(identity);
        builder
    }

    /// The record with the fields as they were set.
    pub fn build(self) -> (r: PskSecurityScheme<'a>)
        ensures
            r == (PskSecurityScheme { identity: self.identity }),
    {
        PskSecurityScheme { identity: self.identity }
    }
}

impl<'a> PskSecurityScheme<'a> {
    /// Writes the members at the cursor, without braces, so that they become
    /// members of the object that is being written. A comma goes in front of
    /// the first member that is written where `has_previous` is set.
    pub fn serialize_to_map(&self, buf: &mut [u8], index: usize, has_previous: bool) -> (r: Result<
        usize,
        SerializationError,
    >)
        ensures
            emitted(old(buf)@, final(buf)@, index, members_text(self.members(), has_previous), r),
    {
        proof {
            let (b, at) = (buf@, index as int);
            let m = lemma_nested_opened(b, at, has_previous);
            let m = lemma_nested_field_written(
                b,
                at,
                m,
                "identity",
                self.identity.field_value(),
                has_previous,
                has_previous,
            );
        }
        let mut index = index;
        index = self.identity.serialize_field("identity", buf, index, has_previous)?;
        Ok(index)
    }
}

impl<'a> NestedJsonValue for PskSecurityScheme<'a> {
    open spec fn members(&self) -> Seq<(Seq<u8>, Seq<u8>)> {
        self.members()
    }

    fn to_nested_json_value(&self, buf: &mut [u8], index: usize, has_previous: bool) -> (r: Result<
        usize,
        SerializationError,
    >) {
        assert(NestedJsonValue::members(self) == self.members());
        self.serialize_to_map(buf, index, has_previous)
    }
}

} // verus!
