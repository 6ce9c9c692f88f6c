//! The Thing Description itself.

use crate::buffer::{emitted, lemma_overwrite_keeps, lemma_overwrite_nothing};
use crate::constants::WOT_TD_11_CONTEXT;
use crate::data_structures::{Array, VecMap};
use crate::json_text::{
    bytes_of, lemma_literals, no_members, object_prefix, object_text, optional_field_text,
    with_field, MemberList,
};
use crate::models::action::Action;
use crate::models::data_schema::DataSchema;
use crate::models::event::Event;
use crate::models::form::Form;
use crate::models::link::Link;
use crate::models::property::Property;
use crate::models::security_definition::SecurityScheme;
use crate::models::version_info::VersionInfo;
use crate::serialization::{JsonString, JsonValue, SerializableField, SerializationError};
use crate::steps::{lemma_field_written, lemma_object_closed, lemma_object_opened};
use vstd::prelude::*;

verus! {

/// One entry of the context of a Thing Description: the address of a
/// vocabulary, or an association of prefixes with such addresses.
#[derive(Debug)]
pub enum ContextEntry<'a> {
    StringEntry(&'a str),
    MapEntry(VecMap<'a, &'a str>),
}

impl<'a> Default for ContextEntry<'a> {
    /// The address of the Thing Description vocabulary.
    fn default() -> (r: Self)
        ensures
            r == ContextEntry::StringEntry(WOT_TD_11_CONTEXT),
    {
        ContextEntry::StringEntry(WOT_TD_11_CONTEXT)
    }
}

impl<'a> JsonValue for ContextEntry<'a> {
    /// An address is written as a text, an association as an object.
    open spec fn json_value(&self) -> Seq<u8> {
        match self {
            ContextEntry::StringEntry(address) => address.json_value(),
            ContextEntry::MapEntry(prefixes) => prefixes.json_value(),
        }
    }

    fn to_json_value(&self, buf: &mut [u8], index: usize) -> (r: Result<
        usize,
        SerializationError,
    >) {
        assert(self.json_value() == match self {
            ContextEntry::StringEntry(address) => address.json_value(),
            ContextEntry::MapEntry(prefixes) => prefixes.json_value(),
        });
        match self {
            ContextEntry::StringEntry(address) => address.to_json_value(buf, index),
            ContextEntry::MapEntry(prefixes) => prefixes.to_json_value(buf, index),
        }
    }
}

/// What the context is written as: the array of its entries, or nothing where
/// there is no entry.
pub open spec fn context_value(context: &Array<ContextEntry>) -> Option<Seq<u8>> {
    if context@.len() > 0 {
        Some(context.json_value())
    } else {
        None
    }
}

/// Writes the context as the member `@context`, behind a comma where
/// `has_previous` is set. A context without entries writes nothing.
fn write_context(
    context: &Array<ContextEntry>,
    buf: &mut [u8],
    index: usize,
    has_previous: bool,
) -> (r: Result<usize, SerializationError>)
    ensures
        emitted(
            old(buf)@,
            final(buf)@,
            index,
            optional_field_text(bytes_of("@context"@), context_value(context), has_previous),
            r,
        ),
{
    if context.len() > 0 {
        assert(context.field_value() == context_value(context));
        context.serialize_field("@context", buf, index, has_previous)
    } else {
        proof {
            reveal(optional_field_text);
            lemma_overwrite_nothing(buf@, index as int);
        }
        Ok(index)
    }
}

/// The description of a Thing: what it is, what it offers and how to reach
/// it.
#[derive(Debug)]
pub struct ThingDescription<'a> {
    pub context: Array<ContextEntry<'a>>,
    pub json_ld_type: Option<Array<&'a str>>,
    pub id: Option<&'a str>,
    pub title: &'a str,
    pub titles: Option<VecMap<'a, &'a str>>,
    pub description: Option<&'a str>,
    pub descriptions: Option<VecMap<'a, &'a str>>,
    pub version: Option<VersionInfo<'a>>,
    pub created: Option<&'a str>,
    pub modified: Option<&'a str>,
    pub support: Option<&'a str>,
    pub base: Option<&'a str>,
    pub properties: Option<VecMap<'a, Property<'a>>>,
    pub actions: Option<VecMap<'a, Action<'a>>>,
    pub events: Option<VecMap<'a, Event<'a>>>,
    pub links: Option<Array<Link<'a>>>,
    pub forms: Option<Array<Form<'a>>>,
    pub security: Option<Array<&'a str>>,
    pub security_definitions: Option<VecMap<'a, SecurityScheme<'a>>>,
    pub profile: Option<Array<&'a str>>,
    pub schema_definitions: Option<VecMap<'a, DataSchema<'a>>>,
    pub uri_variables: Option<VecMap<'a, DataSchema<'a>>>,
}

impl<'a> ThingDescription<'a> {
    /// The members that name the Thing, in order: `@context` if there is a
    /// context entry, `@type` and `id` if they are set, and `title`.
    pub open spec fn naming_members(&self) -> Seq<(Seq<u8>, Seq<u8>)> {
        no_members()
            .field("@context", context_value(&self.context))
            .field("@type", self.json_ld_type.field_value())
            .field("id", self.id.field_value())
            .field("title", self.title.field_value())
    }

    /// The members that name and describe the Thing: those of
    /// [`Self::naming_members`], then `titles`, `description`,
    /// `descriptions`, `version`, `created`, `modified`, `support` and
    /// `base`, each only if it is set.
    pub open spec fn describing_members(&self) -> Seq<(Seq<u8>, Seq<u8>)> {
        self.naming_members()
            .field("titles", self.titles.field_value())
            .field("description", self.description.field_value())
            .field("descriptions", self.descriptions.field_value())
            .field("version", self.version.field_value())
            .field("created", self.created.field_value())
            .field("modified", self.modified.field_value())
            .field("support", self.support.field_value())
            .field("base", self.base.field_value())
    }

    /// The members of the rendered object: those of
    /// [`Self::describing_members`], then `properties`, `actions`, `events`,
    /// `links`, `forms`, `security`, `securityDefinitions`, `profile`,
    /// `schemaDefinitions` and `uriVariables`, each only if it is set.
    pub open spec fn members(&self) -> Seq<(Seq<u8>, Seq<u8>)> {
        self.describing_members()
            .field("properties", self.properties.field_value())
            .field("actions", self.actions.field_value())
            .field("events", self.events.field_value())
            .field("links", self.links.field_value())
            .field("forms", self.forms.field_value())
            .field("security", self.security.field_value())
            .field("securityDefinitions", self.security_definitions.field_value())
            .field("profile", self.profile.field_value())
            .field("schemaDefinitions", self.schema_definitions.field_value())
            .field("uriVariables", self.uri_variables.field_value())
    }

    /// With no optional field set, the object holds the mandatory member
    /// and nothing else.
    pub proof fn lemma_only_mandatory(&self)
        requires
            self.context@.len() == 0,
            self.json_ld_type is None,
            self.id is None,
            self.titles is None,
            self.description is None,
            self.descriptions is None,
            self.version is None,
            self.created is None,
            self.modified is None,
            self.support is None,
            self.base is None,
            self.properties is None,
            self.actions is None,
            self.events is None,
            self.links is None,
            self.forms is None,
            self.security is None,
            self.security_definitions is None,
            self.profile is None,
            self.schema_definitions is None,
            self.uri_variables is None,
        ensures
            self.members() == no_members().field("title", self.title.field_value()),
    {
        reveal(with_field);
        assert(self.naming_members() == no_members().field("title", self.title.field_value()));
        assert(self.describing_members() == self.naming_members());
    }

    /// Starts building, with an empty title, no context entry and no
    /// optional field set.
    pub fn builder() -> (r: ThingDescriptionBuilder<'a>)
        ensures
            r.context@ == Seq::<ContextEntry>::empty(),
            r.json_ld_type is None,
            r.id is None,
            r.title@ == ""@,
            r.titles is None,
            r.description is None,
            r.descriptions is None,
            r.version is None,
            r.created is None,
            r.modified is None,
            r.support is None,
            r.base is None,
            r.properties is None,
            r.actions is None,
            r.events is None,
            r.links is None,
            r.forms is None,
            r.security is None,
            r.security_definitions is None,
            r.profile is None,
            r.schema_definitions is None,
            r.uri_variables is None,
    {
        ThingDescriptionBuilder::default()
    }

    /// The part [`Self::naming_members`] is never empty.
    pub proof fn lemma_naming_members(&self)
        ensures
            self.naming_members().len() > 0,
    {
        reveal(with_field);
    }

    /// Writes the object up to the last member of [`Self::naming_members`].
    fn write_naming_members(&self, buf: &mut [u8], index: usize) -> (r: Result<
        usize,
        SerializationError,
    >)
        ensures
            emitted(old(buf)@, final(buf)@, index, object_prefix(self.naming_members()), r),
    {
        proof {
            lemma_literals();
            let (b, at) = (buf@, index as int);
            let m = lemma_object_opened(b, at);
            let previous = false;
            let m = lemma_field_written(
                b,
                at,
                m,
                "@context",
                context_value(&self.context),
                previous,
            );
            let previous = previous || self.context.len() > 0;
            let m = lemma_field_written(
                b,
                at,
                m,
                "@type",
                self.json_ld_type.field_value(),
                previous,
            );
            let previous = previous || self.json_ld_type.is_some();
            let m = lemma_field_written(b, at, m, "id", self.id.field_value(), previous);
            let previous = previous || self.id.is_some();
            let m = lemma_field_written(b, at, m, "title", self.title.field_value(), previous);
        }
        let mut has_previous = false;
        let mut index = "{".to_json_string(buf, index)?;
        index = write_context(&self.context, buf, index, has_previous)?;
        has_previous = has_previous || self.context.len() > 0;
        index = self.json_ld_type.serialize_field("@type", buf, index, has_previous)?;
        has_previous = has_previous || self.json_ld_type.is_some();
        index = self.id.serialize_field("id", buf, index, has_previous)?;
        has_previous = has_previous || self.id.is_some();
        index = self.title.serialize_field("title", buf, index, has_previous)?;
        Ok(index)
    }

    /// The part [`Self::describing_members`] is never empty.
    pub proof fn lemma_describing_members(&self)
        ensures
            self.describing_members().len() > 0,
    {
        reveal(with_field);
        self.lemma_naming_members();
    }

    /// Writes the object up to the last member of [`Self::describing_members`].
    fn write_describing_members(&self, buf: &mut [u8], index: usize) -> (r: Result<
        usize,
        SerializationError,
    >)
        ensures
            emitted(old(buf)@, final(buf)@, index, object_prefix(self.describing_members()), r),
    {
        proof {
            lemma_literals();
            let (b, at) = (buf@, index as int);
            let m = self.naming_members();
            self.lemma_naming_members();
            lemma_overwrite_keeps(b, at, object_prefix(m));
            let m = lemma_field_written(b, at, m, "titles", self.titles.field_value(), true);
            let m = lemma_field_written(
                b,
                at,
                m,
                "description",
                self.description.field_value(),
                true,
            );
            let m = lemma_field_written(
                b,
                at,
                m,
                "descriptions",
                self.descriptions.field_value(),
                true,
            );
            let m = lemma_field_written(b, at, m, "version", self.version.field_value(), true);
            let m = lemma_field_written(b, at, m, "created", self.created.field_value(), true);
            let m = lemma_field_written(b, at, m, "modified", self.modified.field_value(), true);
            let m = lemma_field_written(b, at, m, "support", self.support.field_value(), true);
            let m = lemma_field_written(b, at, m, "base", self.base.field_value(), true);
        }
        let mut index = self.write_naming_members(buf, index)?;
        index = self.titles.serialize_field("titles", buf, index, true)?;
        index = self.description.serialize_field("description", buf, index, true)?;
        index = self.descriptions.serialize_field("descriptions", buf, index, true)?;
        index = self.version.serialize_field("version", buf, index, true)?;
        index = self.created.serialize_field("created", buf, index, true)?;
        index = self.modified.serialize_field("modified", buf, index, true)?;
        index = self.support.serialize_field("support", buf, index, true)?;
        index = self.base.serialize_field("base", buf, index, true)?;
        Ok(index)
    }
}

/// Builder of a [`ThingDescription`].
#[derive(Debug)]
pub struct ThingDescriptionBuilder<'a> {
    pub context: Array<ContextEntry<'a>>,
    pub json_ld_type: Option<Array<&'a str>>,
    pub id: Option<&'a str>,
    pub title: &'a str,
    pub titles: Option<VecMap<'a, &'a str>>,
    pub description: Option<&'a str>,
    pub descriptions: Option<VecMap<'a, &'a str>>,
    pub version: Option<VersionInfo<'a>>,
    pub created: Option<&'a str>,
    pub modified: Option<&'a str>,
    pub support: Option<&'a str>,
    pub base: Option<&'a str>,
    pub properties: Option<VecMap<'a, Property<'a>>>,
    pub actions: Option<VecMap<'a, Action<'a>>>,
    pub events: Option<VecMap<'a, Event<'a>>>,
    pub links: Option<Array<Link<'a>>>,
    pub forms: Option<Array<Form<'a>>>,
    pub security: Option<Array<&'a str>>,
    pub security_definitions: Option<VecMap<'a, SecurityScheme<'a>>>,
    pub profile: Option<Array<&'a str>>,
    pub schema_definitions: Option<VecMap<'a, DataSchema<'a>>>,
    pub uri_variables: Option<VecMap<'a, DataSchema<'a>>>,
}

impl<'a> ThingDescriptionBuilder<'a> {
    /// A builder with an empty title, no context entry and no optional field
    /// set.
    fn default() -> (r: Self)
        ensures
            r.context@ == Seq::<ContextEntry>::empty(),
            r.json_ld_type is None,
            r.id is None,
            r.title@ == ""@,
            r.titles is None,
            r.description is None,
            r.descriptions is None,
            r.version is None,
            r.created is None,
            r.modified is None,
            r.support is None,
            r.base is None,
            r.properties is None,
            r.actions is None,
            r.events is None,
            r.links is None,
            r.forms is None,
            r.security is None,
            r.security_definitions is None,
            r.profile is None,
            r.schema_definitions is None,
            r.uri_variables is None,
    {
        ThingDescriptionBuilder::new("")
    }

    /// A builder with no optional field set.
    pub fn new(title: &'a str) -> (r: Self)
        ensures
            r.context@ == Seq::<ContextEntry>::empty(),
            r.json_ld_type is None,
            r.id is None,
            r.title == title,
            r.titles is None,
            r.description is None,
            r.descriptions is None,
            r.version is None,
            r.created is None,
            r.modified is None,
            r.support is None,
            r.base is None,
            r.properties is None,
            r.actions is None,
            r.events is None,
            r.links is None,
            r.forms is None,
            r.security is None,
            r.security_definitions is None,
            r.profile is None,
            r.schema_definitions is None,
            r.uri_variables is None,
    {
        ThingDescriptionBuilder {
            context: Array::new(),
            json_ld_type: None,
            id: None,
            title,
            titles: None,
            description: None,
            descriptions: None,
            version: None,
            created: None,
            modified: None,
            support: None,
            base: None,
            properties: None,
            actions: None,
            events: None,
            links: None,
            forms: None,
            security: None,
            security_definitions: None,
            profile: None,
            schema_definitions: None,
            uri_variables: None,
        }
    }

    /// Sets `context`.
    pub fn context(self, context: Array<ContextEntry<'a>>) -> (r: Self)
        ensures
            r == (ThingDescriptionBuilder { context, ..self }),
    {
        let mut builder = self;
        builder.context = context;
        builder
    }

    /// Sets `title`.
    pub fn title(self, title: &'a str) -> (r: Self)
        ensures
            r == (ThingDescriptionBuilder { title, ..self }),
    {
        let mut builder = self;
        builder.title = title;
        builder
    }

    /// Sets `titles`.
    pub fn titles(self, titles: VecMap<'a, &'a str>) -> (r: Self)
        ensures
            r == (ThingDescriptionBuilder { titles: Some(titles), ..self }),
    {
        let mut builder = self;
        builder.titles = Some(titles);
        builder
    }

    /// Sets `description`.
    pub fn description(self, description: &'a str) -> (r: Self)
        ensures
            r == (ThingDescriptionBuilder { description: Some(description), ..self }),
    {
        let mut builder = self;
        builder.description = Some(description);
        builder
    }

    /// Sets `descriptions`.
    pub fn descriptions(self, descriptions: VecMap<'a, &'a str>) -> (r: Self)
        ensures
            r == (ThingDescriptionBuilder { descriptions: Some(descriptions), ..self }),
    {
        let mut builder = self;
        builder.descriptions = Some(descriptions);
        builder
    }

    /// Sets `base`.
    pub fn base(self, base: &'a str) -> (r: Self)
        ensures
            r == (ThingDescriptionBuilder { base: Some(base), ..self }),
    {
        let mut builder = self;
        builder.base = Some(base);
        builder
    }

    /// Sets `version`.
    pub fn version(self, version: VersionInfo<'a>) -> (r: Self)
        ensures
            r == (ThingDescriptionBuilder { version: Some(version), ..self }),
    {
        let mut builder = self;
        builder.version = Some(version);
        builder
    }

    /// Sets `created`.
    pub fn created(self, created: &'a str) -> (r: Self)
        ensures
            r == (ThingDescriptionBuilder { created: Some(created), ..self }),
    {
        let mut builder = self;
        builder.created = Some(created);
        builder
    }

    /// Sets `modified`.
    pub fn modified(self, modified: &'a str) -> (r: Self)
        ensures
            r == (ThingDescriptionBuilder { modified: Some(modified), ..self }),
    {
        let mut builder = self;
        builder.modified = Some(modified);
        builder
    }

    /// Sets `properties`.
    pub fn properties(self, properties: VecMap<'a, Property<'a>>) -> (r: Self)
        ensures
            r == (ThingDescriptionBuilder { properties: Some(properties), ..self }),
    {
        let mut builder = self;
        builder.properties = Some(properties);
        builder
    }

    /// Sets `actions`.
    pub fn actions(self, actions: VecMap<'a, Action<'a>>) -> (r: Self)
        ensures
            r == (ThingDescriptionBuilder { actions: Some(actions), ..self }),
    {
        let mut builder = self;
        builder.actions = Some(actions);
        builder
    }

    /// Sets `events`.
    pub fn events(self, events: VecMap<'a, Event<'a>>) -> (r: Self)
        ensures
            r == (ThingDescriptionBuilder { events: Some(events), ..self }),
    {
        let mut builder = self;
        builder.events = Some(events);
        builder
    }

    /// Sets `forms`.
    pub fn forms(self, forms: Array<Form<'a>>) -> (r: Self)
        ensures
            r == (ThingDescriptionBuilder { forms: Some(forms), ..self }),
    {
        let mut builder = self;
        builder.forms = Some(forms);
        builder
    }

    /// Sets `links`.
    pub fn links(self, links: Array<Link<'a>>) -> (r: Self)
        ensures
            r == (ThingDescriptionBuilder { links: Some(links), ..self }),
    {
        let mut builder = self;
        builder.links = Some(links);
        builder
    }

    /// Sets `json_ld_type`.
    pub fn json_ld_type(self, json_ld_type: Array<&'a str>) -> (r: Self)
        ensures
            r == (ThingDescriptionBuilder { json_ld_type: Some(json_ld_type), ..self }),
    {
        let mut builder = self;
        builder.json_ld_type = Some(json_ld_type);
        builder
    }

    /// Sets `security`.
    pub fn security(self, security: Array<&'a str>) -> (r: Self)
        ensures
            r == (ThingDescriptionBuilder { security: Some(security), ..self }),
    {
        let mut builder = self;
        builder.security = Some(security);
        builder
    }

    /// Sets `security_definitions`.
    pub fn security_definitions(
        self,
        security_definitions: VecMap<'a,
        SecurityScheme<'a>>,
    ) -> (r: Self)
        ensures
            r == (ThingDescriptionBuilder {
                security_definitions: Some(security_definitions),
                ..self
            }),
    {
        let mut builder = self;
        builder.security_definitions = Some(security_definitions);
        builder
    }

    /// Sets `uri_variables`.
    pub fn uri_variables(self, uri_variables: VecMap<'a, DataSchema<'a>>) -> (r: Self)
        ensures
            r == (ThingDescriptionBuilder { uri_variables: Some(uri_variables), ..self }),
    {
        let mut builder = self;
        builder.uri_variables = Some(uri_variables);
        builder
    }

    /// The record with the fields as they were set.
    pub fn build(self) -> (r: ThingDescription<'a>)
        ensures
            r == (ThingDescription {
                context: self.context,
                json_ld_type: self.json_ld_type,
                id: self.id,
                title: self.title,
                titles: self.titles,
                description: self.description,
                descriptions: self.descriptions,
                version: self.version,
                created: self.created,
                modified: self.modified,
                support: self.support,
                base: self.base,
                properties: self.properties,
                actions: self.actions,
                events: self.events,
                links: self.links,
                forms: self.forms,
                security: self.security,
                security_definitions: self.security_definitions,
                profile: self.profile,
                schema_definitions: self.schema_definitions,
                uri_variables: self.uri_variables,
            }),
    {
        ThingDescription {
            context: self.context,
            json_ld_type: self.json_ld_type,
            id: self.id,
            title: self.title,
            titles: self.titles,
            description: self.description,
            descriptions: self.descriptions,
            version: self.version,
            created: self.created,
            modified: self.modified,
            support: self.support,
            base: self.base,
            properties: self.properties,
            actions: self.actions,
            events: self.events,
            links: self.links,
            forms: self.forms,
            security: self.security,
            security_definitions: self.security_definitions,
            profile: self.profile,
            schema_definitions: self.schema_definitions,
            uri_variables: self.uri_variables,
        }
    }
}

impl<'a> JsonValue for ThingDescription<'a> {
    open spec fn json_value(&self) -> Seq<u8> {
        object_text(self.members())
    }

    fn to_json_value(&self, buf: &mut [u8], index: usize) -> (r: Result<
        usize,
        SerializationError,
    >) {
        proof {
            lemma_literals();
            assert(self.json_value() == object_text(self.members()));
            let (b, at) = (buf@, index as int);
            let m = self.describing_members();
            self.lemma_describing_members();
            lemma_overwrite_keeps(b, at, object_prefix(m));
            let m = lemma_field_written(
                b,
                at,
                m,
                "properties",
                self.properties.field_value(),
                true,
            );
            let m = lemma_field_written(b, at, m, "actions", self.actions.field_value(), true);
            let m = lemma_field_written(b, at, m, "events", self.events.field_value(), true);
            let m = lemma_field_written(b, at, m, "links", self.links.field_value(), true);
            let m = lemma_field_written(b, at, m, "forms", self.forms.field_value(), true);
            let m = lemma_field_written(b, at, m, "security", self.security.field_value(), true);
            let m = lemma_field_written(
                b,
                at,
                m,
                "securityDefinitions",
                self.security_definitions.field_value(),
                true,
            );
            let m = lemma_field_written(b, at, m, "profile", self.profile.field_value(), true);
            let m = lemma_field_written(
                b,
                at,
                m,
                "schemaDefinitions",
                self.schema_definitions.field_value(),
                true,
            );
            let m = lemma_field_written(
                b,
                at,
                m,
                "uriVariables",
                self.uri_variables.field_value(),
                true,
            );
            lemma_object_closed(b, at, m);
        }
        let mut index = self.write_describing_members(buf, index)?;
        index = self.properties.serialize_field("properties", buf, index, true)?;
        index = self.actions.serialize_field("actions", buf, index, true)?;
        index = self.events.serialize_field("events", buf, index, true)?;
        index = self.links.serialize_field("links", buf, index, true)?;
        index = self.forms.serialize_field("forms", buf, index, true)?;
        index = self.security.serialize_field("security", buf, index, true)?;
        index = self.security_definitions.serialize_field("securityDefinitions", buf, index, true)?;
        index = self.profile.serialize_field("profile", buf, index, true)?;
        index = self.schema_definitions.serialize_field("schemaDefinitions", buf, index, true)?;
        index = self.uri_variables.serialize_field("uriVariables", buf, index, true)?;
        index = "}".to_json_string(buf, index)?;
        Ok(index)
    }
}

} // verus!
