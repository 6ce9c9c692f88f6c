//! Actions: what a Thing can be asked to do.

use crate::data_structures::{Array, VecMap};
use crate::json_text::{lemma_literals, no_members, object_text, with_field, MemberList};
use crate::models::data_schema::DataSchema;
use crate::models::form::Form;
use crate::serialization::{JsonString, JsonValue, SerializableField, SerializationError};
use crate::steps::{lemma_field_written, lemma_object_closed, lemma_object_opened};
use vstd::prelude::*;

verus! {

/// An action that a Thing offers: something to invoke.
#[derive(Debug)]
pub struct Action<'a> {
    pub forms: Array<Form<'a>>,
    pub json_ld_type: Option<Array<&'a str>>,
    pub title: Option<&'a str>,
    pub titles: Option<VecMap<'a, &'a str>>,
    pub description: Option<&'a str>,
    pub descriptions: Option<VecMap<'a, &'a str>>,
    pub input: Option<DataSchema<'a>>,
    pub output: Option<DataSchema<'a>>,
    pub safe: Option<bool>,
    pub idempotent: Option<bool>,
    pub synchronous: Option<bool>,
}

impl<'a> Action<'a> {
    /// Starts building, with no optional field set.
    pub fn builder(forms: Array<Form<'a>>) -> (r: ActionBuilder<'a>)
        ensures
            r == (ActionBuilder {
                forms,
                json_ld_type: None,
                title: None,
                titles: None,
                description: None,
                descriptions: None,
                input: None,
                output: None,
                safe: None,
                idempotent: None,
                synchronous: None,
            }),
    {
        ActionBuilder::new(forms)
    }

    /// The members of the rendered object, in order: `forms`, then `@type`,
    /// `title`, `titles`, `description`, `descriptions`, `input`, `output`,
    /// `safe`, `idempotent` and `synchronous`, each only if it is set.
    pub open spec fn members(&self) -> Seq<(Seq<u8>, Seq<u8>)> {
        no_members()
            .field("forms", self.forms.field_value())
            .field("@type", self.json_ld_type.field_value())
            .field("title", self.title.field_value())
            .field("titles", self.titles.field_value())
            .field("description", self.description.field_value())
            .field("descriptions", self.descriptions.field_value())
            .field("input", self.input.field_value())
            .field("output", self.output.field_value())
            .field("safe", self.safe.field_value())
            .field("idempotent", self.idempotent.field_value())
            .field("synchronous", self.synchronous.field_value())
    }

    /// With no optional field set, the object holds the mandatory member
    /// and nothing else.
    pub proof fn lemma_only_mandatory(&self)
        requires
            self.json_ld_type is None,
            self.title is None,
            self.titles is None,
            self.description is None,
            self.descriptions is None,
            self.input is None,
            self.output is None,
            self.safe is None,
            self.idempotent is None,
            self.synchronous is None,
        ensures
            self.members() == no_members().field("forms", self.forms.field_value()),
    {
        reveal(with_field);
    }
}

/// Builder of a [`Action`].
#[derive(Debug)]
pub struct ActionBuilder<'a> {
    pub forms: Array<Form<'a>>,
    pub json_ld_type: Option<Array<&'a str>>,
    pub title: Option<&'a str>,
    pub titles: Option<VecMap<'a, &'a str>>,
    pub description: Option<&'a str>,
    pub descriptions: Option<VecMap<'a, &'a str>>,
    pub input: Option<DataSchema<'a>>,
    pub output: Option<DataSchema<'a>>,
    pub safe: Option<bool>,
    pub idempotent: Option<bool>,
    pub synchronous: Option<bool>,
}

impl<'a> ActionBuilder<'a> {
    /// A builder with no optional field set.
    pub fn new(forms: Array<Form<'a>>) -> (r: Self)
        ensures
            r == (ActionBuilder {
                forms,
                json_ld_type: None,
                title: None,
                titles: None,
                description: None,
                descriptions: None,
                input: None,
                output: None,
                safe: None,
                idempotent: None,
                synchronous: None,
            }),
    {
        ActionBuilder {
            forms,
            json_ld_type: None,
            title: None,
            titles: None,
            description: None,
            descriptions: None,
            input: None,
            output: None,
            safe: None,
            idempotent: None,
            synchronous: None,
        }
    }

    /// Sets `json_ld_type`.
    pub fn json_ld_type(self, json_ld_type: Array<&'a str>) -> (r: Self)
        ensures
            r == (ActionBuilder { json_ld_type: Some(json_ld_type), ..self }),
    {
        let mut builder = self;
        builder.json_ld_type = Some(json_ld_type);
        builder
    }

    /// Sets `title`.
    pub fn title(self, title: &'a str) -> (r: Self)
        ensures
            r == (ActionBuilder { title: Some(title), ..self }),
    {
        let mut builder = self;
        builder.title = Some(title);
        builder
    }

    /// Sets `titles`.
    pub fn titles(self, titles: VecMap<'a, &'a str>) -> (r: Self)
        ensures
            r == (ActionBuilder { titles: Some(titles), ..self }),
    {
        let mut builder = self;
        builder.titles = Some(titles);
        builder
    }

    /// Sets `description`.
    pub fn description(self, description: &'a str) -> (r: Self)
        ensures
            r == (ActionBuilder { description: Some(description), ..self }),
    {
        let mut builder = self;
        builder.description = Some(description);
        builder
    }

    /// Sets `descriptions`.
    pub fn descriptions(self, descriptions: VecMap<'a, &'a str>) -> (r: Self)
        ensures
            r == (ActionBuilder { descriptions: Some(descriptions), ..self }),
    {
        let mut builder = self;
        builder.descriptions = Some(descriptions);
        builder
    }

    /// Sets `input`.
    pub fn input(self, input: DataSchema<'a>) -> (r: Self)
        ensures
            r == (ActionBuilder { input: Some(input), ..self }),
    {
        let mut builder = self;
        builder.input = Some(input);
        builder
    }

    /// Sets `output`.
    pub fn output(self, output: DataSchema<'a>) -> (r: Self)
        ensures
            r == (ActionBuilder { output: Some(output), ..self }),
    {
        let mut builder = self;
        builder.output = Some(output);
        builder
    }

    /// Sets `safe`.
    pub fn safe(self, safe: bool) -> (r: Self)
        ensures
            r == (ActionBuilder { safe: Some(safe), ..self }),
    {
        let mut builder = self;
        builder.safe = Some(safe);
        builder
    }

    /// Sets `idempotent`.
    pub fn idempotent(self, idempotent: bool) -> (r: Self)
        ensures
            r == (ActionBuilder { idempotent: Some(idempotent), ..self }),
    {
        let mut builder = self;
        builder.idempotent = Some(idempotent);
        builder
    }

    /// Sets `synchronous`.
    pub fn synchronous(self, synchronous: bool) -> (r: Self)
        ensures
            r == (ActionBuilder { synchronous: Some(synchronous), ..self }),
    {
        let mut builder = self;
        builder.synchronous = Some(synchronous);
        builder
    }

    /// The record with the fields as they were set.
    pub fn build(self) -> (r: Action<'a>)
        ensures
            r == (Action {
                forms: self.forms,
                json_ld_type: self.json_ld_type,
                title: self.title,
                titles: self.titles,
                description: self.description,
                descriptions: self.descriptions,
                input: self.input,
                output: self.output,
                safe: self.safe,
                idempotent: self.idempotent,
                synchronous: self.synchronous,
            }),
    {
        Action {
            forms: self.forms,
            json_ld_type: self.json_ld_type,
            title: self.title,
            titles: self.titles,
            description: self.description,
            descriptions: self.descriptions,
            input: self.input,
            output: self.output,
            safe: self.safe,
            idempotent: self.idempotent,
            synchronous: self.synchronous,
        }
    }
}

impl<'a> JsonValue for Action<'a> {
    open spec fn json_value(&self) -> Seq<u8> {
        object_text(self.members())
    }

    fn to_json_value(&self, buf: &mut [u8], index: usize) -> (r: Result<
        usize,
        SerializationError,
    >) {
        proof {
            lemma_literals();
            assert(self.json_value() == object_text(self.members()));
            let (b, at) = (buf@, index as int);
            let m = lemma_object_opened(b, at);
            let m = lemma_field_written(b, at, m, "forms", self.forms.field_value(), false);
            let m = lemma_field_written(b, at, m, "@type", self.json_ld_type.field_value(), true);
            let m = lemma_field_written(b, at, m, "title", self.title.field_value(), true);
            let m = lemma_field_written(b, at, m, "titles", self.titles.field_value(), true);
            let m = lemma_field_written(
                b,
                at,
                m,
                "description",
                self.description.field_value(),
                true,
            );
            let m = lemma_field_written(
                b,
                at,
                m,
                "descriptions",
                self.descriptions.field_value(),
                true,
            );
            let m = lemma_field_written(b, at, m, "input", self.input.field_value(), true);
            let m = lemma_field_written(b, at, m, "output", self.output.field_value(), true);
            let m = lemma_field_written(b, at, m, "safe", self.safe.field_value(), true);
            let m = lemma_field_written(
                b,
                at,
                m,
                "idempotent",
                self.idempotent.field_value(),
                true,
            );
            let m = lemma_field_written(
                b,
                at,
                m,
                "synchronous",
                self.synchronous.field_value(),
                true,
            );
            lemma_object_closed(b, at, m);
        }
        let mut index = "{".to_json_string(buf, index)?;
        index = self.forms.serialize_field("forms", buf, index, false)?;
        index = self.json_ld_type.serialize_field("@type", buf, index, true)?;
        index = self.title.serialize_field("title", buf, index, true)?;
        index = self.titles.serialize_field("titles", buf, index, true)?;
        index = self.description.serialize_field("description", buf, index, true)?;
        index = self.descriptions.serialize_field("descriptions", buf, index, true)?;
        index = self.input.serialize_field("input", buf, index, true)?;
        index = self.output.serialize_field("output", buf, index, true)?;
        index = self.safe.serialize_field("safe", buf, index, true)?;
        index = self.idempotent.serialize_field("idempotent", buf, index, true)?;
        index = self.synchronous.serialize_field("synchronous", buf, index, true)?;
        index = "}".to_json_string(buf, index)?;
        Ok(index)
    }
}

} // verus!
