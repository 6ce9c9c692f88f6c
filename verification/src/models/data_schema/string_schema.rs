//! The schema of a text.

use crate::buffer::emitted;
use crate::json_text::{members_text, no_members, with_field, MemberList};
use crate::serialization::{NestedJsonValue, SerializableField, SerializationError};
use crate::steps::{lemma_nested_field_written, lemma_nested_opened};
use vstd::prelude::*;

verus! {

/// The bounds and the form of a text.
#[derive(Debug, Clone)]
pub struct StringSchema<'a> {
    pub min_length: Option<u64>,
    pub max_length: Option<u64>,
    pub pattern: Option<&'a str>,
    pub content_encoding: Option<&'a str>,
    pub content_media_type: Option<&'a str>,
}

impl<'a> StringSchema<'a> {
    /// The members that the bounds add to a data schema, in order:
    /// `minLength`, `maxLength`, `pattern`, `contentEncoding`,
    /// `contentMediaType`, each only if it is set.
    pub open spec fn members(&self) -> Seq<(Seq<u8>, Seq<u8>)> {
        no_members()
            .field("minLength", self.min_length.field_value())
            .field("maxLength", self.max_length.field_value())
            .field("pattern", self.pattern.field_value())
            .field("contentEncoding", self.content_encoding.field_value())
            .field("contentMediaType", self.content_media_type.field_value())
    }

    /// With no optional field set, the object holds no member at all.
    pub proof fn lemma_only_mandatory(&self)
        requires
            self.min_length is None,
            self.max_length is None,
            self.pattern is None,
            self.content_encoding is None,
            self.content_media_type is None,
        ensures
            self.members() == no_members(),
    {
        reveal(with_field);
    }
}

impl<'a> StringSchema<'a> {
    /// Writes the members at the cursor, without braces, so that they become
    /// members of the object that is being written. A comma goes in front of
    /// the first member that is written where `has_previous` is set.
    pub fn serialize_to_map(&self, buf: &mut [u8], index: usize, has_previous: bool) -> (r: Result<
        usize,
        SerializationError,
    >)
        ensures
            emitted(old(buf)@, final(buf)@, index, members_text(self.members(), has_previous), r),
    {
        proof {
            let (b, at) = (buf@, index as int);
            let m = lemma_nested_opened(b, at, has_previous);
            let previous = has_previous;
            let m = lemma_nested_field_written(
                b,
                at,
                m,
                "minLength",
                self.min_length.field_value(),
                has_previous,
                previous,
            );
            let previous = previous || self.min_length.is_some();
            let m = lemma_nested_field_written(
                b,
                at,
                m,
                "maxLength",
                self.max_length.field_value(),
                has_previous,
                previous,
            );
            let previous = previous || self.max_length.is_some();
            let m = lemma_nested_field_written(
                b,
                at,
                m,
                "pattern",
                self.pattern.field_value(),
                has_previous,
                previous,
            );
            let previous = previous || self.pattern.is_some();
            let m = lemma_nested_field_written(
                b,
                at,
                m,
                "contentEncoding",
                self.content_encoding.field_value(),
                has_previous,
                previous,
            );
            let previous = previous || self.content_encoding.is_some();
            let m = lemma_nested_field_written(
                b,
                at,
                m,
                "contentMediaType",
                self.content_media_type.field_value(),
                has_previous,
                previous,
            );
        }
        let mut has_previous = has_previous;
        let mut index = index;
        index = self.min_length.serialize_field("minLength", buf, index, has_previous)?;
        has_previous = has_previous || self.min_length.is_some();
        index = self.max_length.serialize_field("maxLength", buf, index, has_previous)?;
        has_previous = has_previous || self.max_length.is_some();
        index = self.pattern.serialize_field("pattern", buf, index, has_previous)?;
        has_previous = has_previous || self.pattern.is_some();
        index = self.content_encoding.serialize_field("contentEncoding", buf, index, has_previous)?;
        has_previous = has_previous || self.content_encoding.is_some();
        index = self.content_media_type.serialize_field(
            "contentMediaType",
            buf,
            index,
            has_previous,
        )?;
        Ok(index)
    }
}

impl<'a> NestedJsonValue for StringSchema<'a> {
    open spec fn members(&self) -> Seq<(Seq<u8>, Seq<u8>)> {
        self.members()
    }

    fn to_nested_json_value(&self, buf: &mut [u8], index: usize, has_previous: bool) -> (r: Result<
        usize,
        SerializationError,
    >) {
        assert(NestedJsonValue::members(self) == self.members());
        self.serialize_to_map(buf, index, has_previous)
    }
}

} // verus!
