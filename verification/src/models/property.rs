//! Properties: the state that a Thing exposes.

use crate::json_text::{lemma_literals, no_members, object_text, with_field, MemberList};
use crate::models::data_schema::DataSchema;
use crate::models::form::Form;
use crate::serialization::{JsonString, JsonValue, SerializableField, SerializationError};
use crate::steps::{
    lemma_field_written, lemma_nested_written, lemma_object_closed, lemma_object_opened,
};
use vstd::prelude::*;

verus! {

/// A property that a Thing exposes: a value to read or to write.
#[derive(Debug)]
pub struct Property<'a> {
    pub forms: Vec<Form<'a>>,
    pub data_schema: DataSchema<'a>,
    pub observable: Option<bool>,
}

impl<'a> Property<'a> {
    /// Starts building, with no optional field set.
    pub fn builder(forms: Vec<Form<'a>>, data_schema: DataSchema<'a>) -> (r: PropertyBuilder<'a>)
        ensures
            r == (PropertyBuilder { forms, data_schema, observable: None }),
    {
        PropertyBuilder::new(forms, data_schema)
    }

    /// The members of the rendered object, in order: `forms`, then
    /// `observable` if it is set, then the members of the data schema.
    pub open spec fn members(&self) -> Seq<(Seq<u8>, Seq<u8>)> {
        no_members()
            .field("forms", self.forms.field_value())
            .field("observable", self.observable.field_value())
            .nested(self.data_schema.members())
    }

    /// With no optional field set, the object holds the mandatory members
    /// and nothing else.
    pub proof fn lemma_only_mandatory(&self)
        requires
            self.observable is None,
        ensures
            self.members() == no_members().field("forms", self.forms.field_value()).nested(self.data_schema.members()),
    {
        reveal(with_field);
    }
}

/// Builder of a [`Property`].
#[derive(Debug)]
pub struct PropertyBuilder<'a> {
    pub forms: Vec<Form<'a>>,
    pub data_schema: DataSchema<'a>,
    pub observable: Option<bool>,
}

impl<'a> PropertyBuilder<'a> {
    /// A builder with no optional field set.
    pub fn new(forms: Vec<Form<'a>>, data_schema: DataSchema<'a>) -> (r: Self)
        ensures
            r == (PropertyBuilder { forms, data_schema, observable: None }),
    {
        PropertyBuilder { forms, data_schema, observable: None }
    }

    /// Sets `observable`.
    pub fn observable(&mut self, observable: bool) -> (r: &PropertyBuilder<'a>)
        ensures
            *final(self) == (PropertyBuilder { observable: Some(observable), ..*old(self) }),
            *r == *final(self),
    {
        self.observable = Some(observable);
        self
    }

    /// Sets `data_schema`.
    pub fn data_schema(&mut self, data_schema: DataSchema<'a>) -> (r: &PropertyBuilder<'a>)
        ensures
            *final(self) == (PropertyBuilder { data_schema, ..*old(self) }),
            *r == *final(self),
    {
        self.data_schema = data_schema;
        self
    }

    /// The record with the fields as they were set.
    pub fn build(self) -> (r: Property<'a>)
        ensures
            r == (Property {
                forms: self.forms,
                data_schema: self.data_schema,
                observable: self.observable,
            }),
    {
        Property {
            forms: self.forms,
            data_schema: self.data_schema,
            observable: self.observable,
        }
    }
}

impl<'a> JsonValue for Property<'a> {
    open spec fn json_value(&self) -> Seq<u8> {
        object_text(self.members())
    }

    fn to_json_value(&self, buf: &mut [u8], index: usize) -> (r: Result<
        usize,
        SerializationError,
    >) {
        proof {
            lemma_literals();
            assert(self.json_value() == object_text(self.members()));
            let (b, at) = (buf@, index as int);
            let m = lemma_object_opened(b, at);
            let m = lemma_field_written(b, at, m, "forms", self.forms.field_value(), false);
            let m = lemma_field_written(
                b,
                at,
                m,
                "observable",
                self.observable.field_value(),
                true,
            );
            let m = lemma_nested_written(b, at, m, self.data_schema.members(), true);
            lemma_object_closed(b, at, m);
        }
        let mut index = "{".to_json_string(buf, index)?;
        index = self.forms.serialize_field("forms", buf, index, false)?;
        index = self.observable.serialize_field("observable", buf, index, true)?;
        index = self.data_schema.serialize_to_map(buf, index, true)?;
        index = "}".to_json_string(buf, index)?;
        Ok(index)
    }
}

} // verus!
