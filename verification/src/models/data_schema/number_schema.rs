//! The schema of a number.

use crate::buffer::emitted;
use crate::decimal::Decimal;
use crate::json_text::{members_text, no_members, with_field, MemberList};
use crate::serialization::{NestedJsonValue, SerializableField, SerializationError};
use crate::steps::{lemma_nested_field_written, lemma_nested_opened};
use vstd::prelude::*;

verus! {

/// The bounds of a number.
#[derive(Debug)]
pub struct NumberSchema<'a> {
    pub minimum: Option<Decimal<'a>>,
    pub maximum: Option<Decimal<'a>>,
    pub exclusive_minimum: Option<Decimal<'a>>,
    pub exclusive_maximum: Option<Decimal<'a>>,
    pub multiple_of: Option<Decimal<'a>>,
}

impl<'a> NumberSchema<'a> {
    /// The members that the bounds add to a data schema, in order: `minimum`,
    /// `maximum`, `exclusiveMinimum`, `exclusiveMaximum`, `multipleOf`, each
    /// only if it is set.
    pub open spec fn members(&self) -> Seq<(Seq<u8>, Seq<u8>)> {
        no_members()
            .field("minimum", self.minimum.field_value())
            .field("maximum", self.maximum.field_value())
            .field("exclusiveMinimum", self.exclusive_minimum.field_value())
            .field("exclusiveMaximum", self.exclusive_maximum.field_value())
            .field("multipleOf", self.multiple_of.field_value())
    }

    /// With no optional field set, the object holds no member at all.
    pub proof fn lemma_only_mandatory(&self)
        requires
            self.minimum is None,
            self.maximum is None,
            self.exclusive_minimum is None,
            self.exclusive_maximum is None,
            self.multiple_of is None,
        ensures
            self.members() == no_members(),
    {
        reveal(with_field);
    }
}

impl<'a> NumberSchema<'a> {
    /// Writes the members at the cursor, without braces, so that they become
    /// members of the object that is being written. A comma goes in front of
    /// the first member that is written where `has_previous` is set.
    pub fn serialize_to_map(&self, buf: &mut [u8], index: usize, has_previous: bool) -> (r: Result<
        usize,
        SerializationError,
    >)
        ensures
            emitted(old(buf)@, final(buf)@, index, members_text(self.members(), has_previous), r),
    {
        proof {
            let (b, at) = (buf@, index as int);
            let m = lemma_nested_opened(b, at, has_previous);
            let previous = has_previous;
            let m = lemma_nested_field_written(
                b,
                at,
                m,
                "minimum",
                self.minimum.field_value(),
                has_previous,
                previous,
            );
            let previous = previous || self.minimum.is_some();
            let m = lemma_nested_field_written(
                b,
                at,
                m,
                "maximum",
                self.maximum.field_value(),
                has_previous,
                previous,
            );
            let previous = previous || self.maximum.is_some();
            let m = lemma_nested_field_written(
                b,
                at,
                m,
                "exclusiveMinimum",
                self.exclusive_minimum.field_value(),
                has_previous,
                previous,
            );
            let previous = previous || self.exclusive_minimum.is_some();
            let m = lemma_nested_field_written(
                b,
                at,
                m,
                "exclusiveMaximum",
                self.exclusive_maximum.field_value(),
                has_previous,
                previous,
            );
            let previous = previous || self.exclusive_maximum.is_some();
            let m = lemma_nested_field_written(
                b,
                at,
                m,
                "multipleOf",
                self.multiple_of.field_value(),
                has_previous,
                previous,
            );
        }
        let mut has_previous = has_previous;
        let mut index = index;
        index = self.minimum.serialize_field("minimum", buf, index, has_previous)?;
        has_previous = has_previous || self.minimum.is_some();
        index = self.maximum.serialize_field("maximum", buf, index, has_previous)?;
        has_previous = has_previous || self.maximum.is_some();
        index = self.exclusive_minimum.serialize_field(
            "exclusiveMinimum",
            buf,
            index,
            has_previous,
        )?;
        has_previous = has_previous || self.exclusive_minimum.is_some();
        index = self.exclusive_maximum.serialize_field(
            "exclusiveMaximum",
            buf,
            index,
            has_previous,
        )?;
        has_previous = has_previous || self.exclusive_maximum.is_some();
        index = self.multiple_of.serialize_field("multipleOf", buf, index, has_previous)?;
        Ok(index)
    }
}

impl<'a> NestedJsonValue for NumberSchema<'a> {
    open spec fn members(&self) -> Seq<(Seq<u8>, Seq<u8>)> {
        self.members()
    }

    fn to_nested_json_value(&self, buf: &mut [u8], index: usize, has_previous: bool) -> (r: Result<
        usize,
        SerializationError,
    >) {
        assert(NestedJsonValue::members(self) == self.members());
        self.serialize_to_map(buf, index, has_previous)
    }
}

} // verus!
