//! The schema of an array.

use crate::buffer::emitted;
use crate::json_text::{members_text, no_members, with_field, MemberList};
use crate::models::data_schema::DataSchema;
use crate::serialization::{NestedJsonValue, SerializableField, SerializationError};
use crate::steps::{lemma_nested_field_written, lemma_nested_opened};
use vstd::prelude::*;

verus! {

/// The items of an array and the bounds of their number.
#[derive(Debug)]
pub struct ArraySchema<'a> {
    pub items: Option<Vec<&'a DataSchema<'a>>>,
    pub min_items: Option<u64>,
    pub max_items: Option<u64>,
}

impl<'a> ArraySchema<'a> {
    /// The members that the array adds to a data schema, in order: `items`,
    /// `minItems`, `maxItems`, each only if it is set.
    pub open spec fn members(&self) -> Seq<(Seq<u8>, Seq<u8>)> {
        no_members()
            .field("items", self.items.field_value())
            .field("minItems", self.min_items.field_value())
            .field("maxItems", self.max_items.field_value())
    }

    /// With no optional field set, the object holds no member at all.
    pub proof fn lemma_only_mandatory(&self)
        requires
            self.items is None,
            self.min_items is None,
            self.max_items is None,
        ensures
            self.members() == no_members(),
    {
        reveal(with_field);
    }
}

impl<'a> ArraySchema<'a> {
    /// Writes the members at the cursor, without braces, so that they become
    /// members of the object that is being written. A comma goes in front of
    /// the first member that is written where `has_previous` is set.
    pub fn serialize_to_map(&self, buf: &mut [u8], index: usize, has_previous: bool) -> (r: Result<
        usize,
        SerializationError,
    >)
        ensures
            emitted(old(buf)@, final(buf)@, index, members_text(self.members(), has_previous), r),
    {
        proof {
            let (b, at) = (buf@, index as int);
            let m = lemma_nested_opened(b, at, has_previous);
            let previous = has_previous;
            let m = lemma_nested_field_written(
                b,
                at,
                m,
                "items",
                self.items.field_value(),
                has_previous,
                previous,
            );
            let previous = previous || self.items.is_some();
            let m = lemma_nested_field_written(
                b,
                at,
                m,
                "minItems",
                self.min_items.field_value(),
                has_previous,
                previous,
            );
            let previous = previous || self.min_items.is_some();
            let m = lemma_nested_field_written(
                b,
                at,
                m,
                "maxItems",
                self.max_items.field_value(),
                has_previous,
                previous,
            );
        }
        let mut has_previous = has_previous;
        let mut index = index;
        index = self.items.serialize_field("items", buf, index, has_previous)?;
        has_previous = has_previous || self.items.is_some();
        index = self.min_items.serialize_field("minItems", buf, index, has_previous)?;
        has_previous = has_previous || self.min_items.is_some();
        index = self.max_items.serialize_field("maxItems", buf, index, has_previous)?;
        Ok(index)
    }
}

impl<'a> NestedJsonValue for ArraySchema<'a> {
    open spec fn members(&self) -> Seq<(Seq<u8>, Seq<u8>)> {
        self.members()
    }

    fn to_nested_json_value(&self, buf: &mut [u8], index: usize, has_previous: bool) -> (r: Result<
        usize,
        SerializationError,
    >) {
        assert(NestedJsonValue::members(self) == self.members());
        self.serialize_to_map(buf, index, has_previous)
    }
}

} // verus!
