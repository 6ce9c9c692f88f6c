//! Events: what a Thing reports of its own accord.

use crate::data_structures::VecMap;
use crate::json_text::{lemma_literals, no_members, object_text, with_field, MemberList};
use crate::models::data_schema::DataSchema;
use crate::models::form::Form;
use crate::serialization::{JsonString, JsonValue, SerializableField, SerializationError};
use crate::steps::{lemma_field_written, lemma_object_closed, lemma_object_opened};
use vstd::prelude::*;

verus! {

/// An event that a Thing emits: something to subscribe to.
#[derive(Debug)]
pub struct Event<'a> {
    pub forms: Vec<Form<'a>>,
    pub json_ld_type: Option<Vec<&'a str>>,
    pub title: Option<&'a str>,
    pub titles: Option<VecMap<'a, &'a str>>,
    pub description: Option<&'a str>,
    pub descriptions: Option<VecMap<'a, &'a str>>,
    pub subscription: Option<DataSchema<'a>>,
    pub data: Option<DataSchema<'a>>,
    pub data_response: Option<DataSchema<'a>>,
    pub cancellation: Option<DataSchema<'a>>,
}

impl<'a> Event<'a> {
    /// Starts building, with no optional field set.
    pub fn builder(forms: Vec<Form<'a>>) -> (r: EventBuilder<'a>)
        ensures
            r == (EventBuilder {
                forms,
                json_ld_type: None,
                title: None,
                titles: None,
                description: None,
                descriptions: None,
                subscription: None,
                data: None,
                data_response: None,
                cancellation: None,
            }),
    {
        EventBuilder::new(forms)
    }

    /// The members of the rendered object, in order: `forms`, then `@type`,
    /// `title`, `titles`, `description`, `descriptions`, `subscription`,
    /// `data`, `dataResponse` and `cancellation`, each only if it is set.
    pub open spec fn members(&self) -> Seq<(Seq<u8>, Seq<u8>)> {
        no_members()
            .field("forms", self.forms.field_value())
            .field("@type", self.json_ld_type.field_value())
            .field("title", self.title.field_value())
            .field("titles", self.titles.field_value())
            .field("description", self.description.field_value())
            .field("descriptions", self.descriptions.field_value())
            .field("subscription", self.subscription.field_value())
            .field("data", self.data.field_value())
            .field("dataResponse", self.data_response.field_value())
            .field("cancellation", self.cancellation.field_value())
    }

    /// With no optional field set, the object holds the mandatory member
    /// and nothing else.
    pub proof fn lemma_only_mandatory(&self)
        requires
            self.json_ld_type is None,
            self.title is None,
            self.titles is None,
            self.description is None,
            self.descriptions is None,
            self.subscription is None,
            self.data is None,
            self.data_response is None,
            self.cancellation is None,
        ensures
            self.members() == no_members().field("forms", self.forms.field_value()),
    {
        reveal(with_field);
    }
}

/// Builder of a [`Event`].
#[derive(Debug)]
pub struct EventBuilder<'a> {
    pub forms: Vec<Form<'a>>,
    pub json_ld_type: Option<Vec<&'a str>>,
    pub title: Option<&'a str>,
    pub titles: Option<VecMap<'a, &'a str>>,
    pub description: Option<&'a str>,
    pub descriptions: Option<VecMap<'a, &'a str>>,
    pub subscription: Option<DataSchema<'a>>,
    pub data: Option<DataSchema<'a>>,
    pub data_response: Option<DataSchema<'a>>,
    pub cancellation: Option<DataSchema<'a>>,
}

impl<'a> EventBuilder<'a> {
    /// A builder with no optional field set.
    pub fn new(forms: Vec<Form<'a>>) -> (r: Self)
        ensures
            r == (EventBuilder {
                forms,
                json_ld_type: None,
                title: None,
                titles: None,
                description: None,
                descriptions: None,
                subscription: None,
                data: None,
                data_response: None,
                cancellation: None,
            }),
    {
        EventBuilder {
            forms,
            json_ld_type: None,
            title: None,
            titles: None,
            description: None,
            descriptions: None,
            subscription: None,
            data: None,
            data_response: None,
            cancellation: None,
        }
    }

    /// Sets `subscription`.
    pub fn subscription(self, subscription: DataSchema<'a>) -> (r: Self)
        ensures
            r == (EventBuilder { subscription: Some(subscription), ..self }),
    {
        let mut builder = self;
        builder.subscription = Some(subscription);
        builder
    }

    /// Sets `data`.
    pub fn data(self, data: DataSchema<'a>) -> (r: Self)
        ensures
            r == (EventBuilder { data: Some(data), ..self }),
    {
        let mut builder = self;
        builder.data = Some(data);
        builder
    }

    /// Sets `data_response`.
    pub fn data_response(self, data_response: DataSchema<'a>) -> (r: Self)
        ensures
            r == (EventBuilder { data_response: Some(data_response), ..self }),
    {
        let mut builder = self;
        builder.data_response = Some(data_response);
        builder
    }

    /// Sets `cancellation`.
    pub fn cancellation(self, cancellation: DataSchema<'a>) -> (r: Self)
        ensures
            r == (EventBuilder { cancellation: Some(cancellation), ..self }),
    {
        let mut builder = self;
        builder.cancellation = Some(cancellation);
        builder
    }

    /// The record with the fields as they were set.
    pub fn build(self) -> (r: Event<'a>)
        ensures
            r == (Event {
                forms: self.forms,
                json_ld_type: self.json_ld_type,
                title: self.title,
                titles: self.titles,
                description: self.description,
                descriptions: self.descriptions,
                subscription: self.subscription,
                data: self.data,
                data_response: self.data_response,
                cancellation: self.cancellation,
            }),
    {
        Event {
            forms: self.forms,
            json_ld_type: self.json_ld_type,
            title: self.title,
            titles: self.titles,
            description: self.description,
            descriptions: self.descriptions,
            subscription: self.subscription,
            data: self.data,
            data_response: self.data_response,
            cancellation: self.cancellation,
        }
    }
}

impl<'a> JsonValue for Event<'a> {
    open spec fn json_value(&self) -> Seq<u8> {
        object_text(self.members())
    }

    fn to_json_value(&self, buf: &mut [u8], index: usize) -> (r: Result<
        usize,
        SerializationError,
    >) {
        proof {
            lemma_literals();
            assert(self.json_value() == object_text(self.members()));
            let (b, at) = (buf@, index as int);
            let m = lemma_object_opened(b, at);
            let m = lemma_field_written(b, at, m, "forms", self.forms.field_value(), false);
            let m = lemma_field_written(b, at, m, "@type", self.json_ld_type.field_value(), true);
            let m = lemma_field_written(b, at, m, "title", self.title.field_value(), true);
            let m = lemma_field_written(b, at, m, "titles", self.titles.field_value(), true);
            let m = lemma_field_written(
                b,
                at,
                m,
                "description",
                self.description.field_value(),
                true,
            );
            let m = lemma_field_written(
                b,
                at,
                m,
                "descriptions",
                self.descriptions.field_value(),
                true,
            );
            let m = lemma_field_written(
                b,
                at,
                m,
                "subscription",
                self.subscription.field_value(),
                true,
            );
            let m = lemma_field_written(b, at, m, "data", self.data.field_value(), true);
            let m = lemma_field_written(
                b,
                at,
                m,
                "dataResponse",
                self.data_response.field_value(),
                true,
            );
            let m = lemma_field_written(
                b,
                at,
                m,
                "cancellation",
                self.cancellation.field_value(),
                true,
            );
            lemma_object_closed(b, at, m);
        }
        let mut index = "{".to_json_string(buf, index)?;
        index = self.forms.serialize_field("forms", buf, index, false)?;
        index = self.json_ld_type.serialize_field("@type", buf, index, true)?;
        index = self.title.serialize_field("title", buf, index, true)?;
        index = self.titles.serialize_field("titles", buf, index, true)?;
        index = self.description.serialize_field("description", buf, index, true)?;
        index = self.descriptions.serialize_field("descriptions", buf, index, true)?;
        index = self.subscription.serialize_field("subscription", buf, index, true)?;
        index = self.data.serialize_field("data", buf, index, true)?;
        index = self.data_response.serialize_field("dataResponse", buf, index, true)?;
        index = self.cancellation.serialize_field("cancellation", buf, index, true)?;
        index = "}".to_json_string(buf, index)?;
        Ok(index)
    }
}

} // verus!
