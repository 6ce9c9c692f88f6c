//! The combination of security schemes.

use crate::data_structures::Array;
use crate::buffer::emitted;
use crate::json_text::{members_text, no_members, MemberList};
use crate::serialization::{NestedJsonValue, SerializableField, SerializationError};
use crate::steps::{lemma_nested_field_written, lemma_nested_opened};
use vstd::prelude::*;

verus! {

/// A security scheme that combines other schemes, named by their keys in the
/// security definitions.
#[derive(Debug)]
pub struct ComboSecurityScheme<'a> {
    pub combo_variant: ComboVariant<'a>,
}

/// How the schemes are combined.
#[derive(Debug)]
pub enum ComboVariant<'a> {
    /// Every one of the schemes has to be met.
    AllOf(Array<&'a str>),
    /// One of the schemes has to be met.
    OneOf(Array<&'a str>),
}

impl<'a> ComboSecurityScheme<'a> {
    /// The combination of the given kind.
    pub fn new(combo_variant: ComboVariant<'a>) -> (r: ComboSecurityScheme<'a>)
        ensures
            r == (ComboSecurityScheme { combo_variant }),
    {
        ComboSecurityScheme { combo_variant }
    }

    /// The one member that the scheme adds to a security definition: the
    /// names of the combined schemes, as `allOf` or as `oneOf`.
    pub open spec fn members(&self) -> Seq<(Seq<u8>, Seq<u8>)> {
        match self.combo_variant {
            ComboVariant::AllOf(all_of) => no_members().field("allOf", all_of.field_value()),
            ComboVariant::OneOf(one_of) => no_members().field("oneOf", one_of.field_value()),
        }
    }

    /// Writes the member at the cursor, without braces, so that it becomes a
    /// member of the object that is being written. A comma goes in front of
    /// it where `has_previous` is set.
    pub fn serialize_to_map(&self, buf: &mut [u8], index: usize, has_previous: bool) -> (r: Result<
        usize,
        SerializationError,
    >)
        ensures
            emitted(old(buf)@, final(buf)@, index, members_text(self.members(), has_previous), r),
    {
        proof {
            let (b, at) = (buf@, index as int);
            let m = lemma_nested_opened(b, at, has_previous);
            match &self.combo_variant {
                ComboVariant::AllOf(all_of) => {
                    lemma_nested_field_written(
                        b,
                        at,
                        m,
                        "allOf",
                        all_of.field_value(),
                        has_previous,
                        has_previous,
                    );
                },
                ComboVariant::OneOf(one_of) => {
                    lemma_nested_field_written(
                        b,
                        at,
                        m,
                        "oneOf",
                        one_of.field_value(),
                        has_previous,
                        has_previous,
                    );
                },
            }
        }
        match &self.combo_variant {
            ComboVariant::AllOf(all_of) => all_of.serialize_field("allOf", buf, index, has_previous),
            ComboVariant::OneOf(one_of) => one_of.serialize_field("oneOf", buf, index, has_previous),
        }
    }
}

impl<'a> NestedJsonValue for ComboSecurityScheme<'a> {
    open spec fn members(&self) -> Seq<(Seq<u8>, Seq<u8>)> {
        self.members()
    }

    fn to_nested_json_value(&self, buf: &mut [u8], index: usize, has_previous: bool) -> (r: Result<
        usize,
        SerializationError,
    >) {
        assert(NestedJsonValue::members(self) == self.members());
        self.serialize_to_map(buf, index, has_previous)
    }
}

} // verus!
