//! Version information of a Thing Description.

use crate::json_text::{lemma_literals, no_members, object_text, with_field, MemberList};
use crate::serialization::{JsonString, JsonValue, SerializableField, SerializationError};
use crate::steps::{lemma_field_written, lemma_object_closed, lemma_object_opened};
use vstd::prelude::*;

verus! {

/// The version of a Thing Description and, optionally, of the model it
/// instantiates.
#[derive(Debug, Default)]
pub struct VersionInfo<'a> {
    pub instance: &'a str,
    pub model: Option<&'a str>,
}

impl<'a> VersionInfo<'a> {
    /// A version with an instance and no model.
    pub fn new(instance: &'a str) -> (r: VersionInfo<'a>)
        ensures
            r == (VersionInfo { instance, model: None }),
    {
        VersionInfo { instance, model: None }
    }

    /// Starts building, with no optional field set.
    pub fn builder(instance: &'a str) -> (r: VersionInfoBuilder<'a>)
        ensures
            r == (VersionInfoBuilder { instance, model: None }),
    {
        VersionInfoBuilder::new(instance)
    }

    /// The members of the rendered object: `instance`, then `model` if it is
    /// set.
    pub open spec fn members(&self) -> Seq<(Seq<u8>, Seq<u8>)> {
        no_members()
            .field("instance", self.instance.field_value())
            .field("model", self.model.field_value())
    }

    /// With no optional field set, the object holds the mandatory member
    /// and nothing else.
    pub proof fn lemma_only_mandatory(&self)
        requires
            self.model is None,
        ensures
            self.members() == no_members().field("instance", self.instance.field_value()),
    {
        reveal(with_field);
    }
}

/// Builder of a [`VersionInfo`].
#[derive(Debug, Default)]
pub struct VersionInfoBuilder<'a> {
    pub instance: &'a str,
    pub model: Option<&'a str>,
}

impl<'a> VersionInfoBuilder<'a> {
    /// A builder with no optional field set.
    pub fn new(instance: &'a str) -> (r: Self)
        ensures
            r == (VersionInfoBuilder { instance, model: None }),
    {
        VersionInfoBuilder { instance, model: None }
    }

    /// Sets `instance`.
    pub fn instance(self, instance: &'a str) -> (r: Self)
        ensures
            r == (VersionInfoBuilder { instance, ..self }),
    {
        let mut builder = self;
        builder.instance = instance;
        builder
    }

    /// Sets `model`.
    pub fn model(self, model: &'a str) -> (r: Self)
        ensures
            r == (VersionInfoBuilder { model: Some(model), ..self }),
    {
        let mut builder = self;
        builder.model = Some(model);
        builder
    }

    /// The record with the fields as they were set.
    pub fn build(self) -> (r: VersionInfo<'a>)
        ensures
            r == (VersionInfo { instance: self.instance, model: self.model }),
    {
        VersionInfo { instance: self.instance, model: self.model }
    }
}

impl<'a> JsonValue for VersionInfo<'a> {
    open spec fn json_value(&self) -> Seq<u8> {
        object_text(self.members())
    }

    fn to_json_value(&self, buf: &mut [u8], index: usize) -> (r: Result<
        usize,
        SerializationError,
    >) {
        proof {
            lemma_literals();
            assert(self.json_value() == object_text(self.members()));
            let (b, at) = (buf@, index as int);
            let m = lemma_object_opened(b, at);
            let m = lemma_field_written(b, at, m, "instance", self.instance.field_value(), false);
            let m = lemma_field_written(b, at, m, "model", self.model.field_value(), true);
            lemma_object_closed(b, at, m);
        }
        let mut index = "{".to_json_string(buf, index)?;
        index = self.instance.serialize_field("instance", buf, index, false)?;
        index = self.model.serialize_field("model", buf, index, true)?;
        index = "}".to_json_string(buf, index)?;
        Ok(index)
    }
}

} // verus!
