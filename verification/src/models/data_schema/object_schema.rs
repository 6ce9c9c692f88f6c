//! The schema of an object.

use crate::buffer::emitted;
use crate::data_structures::VecMap;
use crate::json_text::{members_text, no_members, with_field, MemberList};
use crate::models::data_schema::DataSchema;
use crate::serialization::{NestedJsonValue, SerializableField, SerializationError};
use crate::steps::{lemma_nested_field_written, lemma_nested_opened};
use vstd::prelude::*;

verus! {

/// The members of an object and which of them have to be there.
#[derive(Debug)]
pub struct ObjectSchema<'a> {
    pub properties: Option<VecMap<'a, DataSchema<'a>>>,
    pub required: Option<Vec<&'a str>>,
}

impl<'a> ObjectSchema<'a> {
    /// The members that the object adds to a data schema, in order:
    /// `properties`, `required`, each only if it is set.
    pub open spec fn members(&self) -> Seq<(Seq<u8>, Seq<u8>)> {
        no_members()
            .field("properties", self.properties.field_value())
            .field("required", self.required.field_value())
    }

    /// With no optional field set, the object holds no member at all.
    pub proof fn lemma_only_mandatory(&self)
        requires
            self.properties is None,
            self.required is None,
        ensures
            self.members() == no_members(),
    {
        reveal(with_field);
    }
}

impl<'a> ObjectSchema<'a> {
    /// Writes the members at the cursor, without braces, so that they become
    /// members of the object that is being written. A comma goes in front of
    /// the first member that is written where `has_previous` is set.
    pub fn serialize_to_map(&self, buf: &mut [u8], index: usize, has_previous: bool) -> (r: Result<
        usize,
        SerializationError,
    >)
        ensures
            emitted(old(buf)@, final(buf)@, index, members_text(self.members(), has_previous), r),
    {
        proof {
            let (b, at) = (buf@, index as int);
            let m = lemma_nested_opened(b, at, has_previous);
            let previous = has_previous;
            let m = lemma_nested_field_written(
                b,
                at,
                m,
                "properties",
                self.properties.field_value(),
                has_previous,
                previous,
            );
            let previous = previous || self.properties.is_some();
            let m = lemma_nested_field_written(
                b,
                at,
                m,
                "required",
                self.required.field_value(),
                has_previous,
                previous,
            );
        }
        let mut has_previous = has_previous;
        let mut index = index;
        index = self.properties.serialize_field("properties", buf, index, has_previous)?;
        has_previous = has_previous || self.properties.is_some();
        index = self.required.serialize_field("required", buf, index, has_previous)?;
        Ok(index)
    }
}

impl<'a> NestedJsonValue for ObjectSchema<'a> {
    open spec fn members(&self) -> Seq<(Seq<u8>, Seq<u8>)> {
        self.members()
    }

    fn to_nested_json_value(&self, buf: &mut [u8], index: usize, has_previous: bool) -> (r: Result<
        usize,
        SerializationError,
    >) {
        assert(NestedJsonValue::members(self) == self.members());
        self.serialize_to_map(buf, index, has_previous)
    }
}

} // verus!
