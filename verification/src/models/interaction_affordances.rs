//! The interactions of a Thing.

use crate::buffer::emitted;
use crate::data_structures::VecMap;
use crate::json_text::{members_text, no_members, with_field, MemberList};
use crate::models::action::Action;
use crate::models::event::Event;
use crate::models::property::Property;
use crate::serialization::{NestedJsonValue, SerializableField, SerializationError};
use crate::steps::{lemma_nested_field_written, lemma_nested_opened};
use vstd::prelude::*;

verus! {

/// The interactions that a Thing offers: its properties, actions and events,
/// each under its name.
#[derive(Debug)]
pub struct InteractionAffordances<'a> {
    pub properties: Option<VecMap<'a, Property<'a>>>,
    pub actions: Option<VecMap<'a, Action<'a>>>,
    pub events: Option<VecMap<'a, Event<'a>>>,
}

impl<'a> InteractionAffordances<'a> {
    /// The members that the interactions add to the object of a Thing, in
    /// order: `properties`, `actions`, `events`, each only if it is set.
    pub open spec fn members(&self) -> Seq<(Seq<u8>, Seq<u8>)> {
        no_members()
            .field("properties", self.properties.field_value())
            .field("actions", self.actions.field_value())
            .field("events", self.events.field_value())
    }

    /// With no optional field set, the object holds no member at all.
    pub proof fn lemma_only_mandatory(&self)
        requires
            self.properties is None,
            self.actions is None,
            self.events is None,
        ensures
            self.members() == no_members(),
    {
        reveal(with_field);
    }
}

/// Builder of a [`InteractionAffordances`].
#[derive(Debug, Default)]
pub struct InteractionAffordancesBuilder<'a> {
    pub properties: Option<VecMap<'a, Property<'a>>>,
    pub actions: Option<VecMap<'a, Action<'a>>>,
    pub events: Option<VecMap<'a, Event<'a>>>,
}

impl<'a> InteractionAffordancesBuilder<'a> {
    /// A builder with no optional field set.
    pub fn new() -> (r: Self)
        ensures
            r == (InteractionAffordancesBuilder {
                properties: None,
                actions: None,
                events: None,
            }),
    {
        InteractionAffordancesBuilder { properties: None, actions: None, events: None }
    }

    /// Sets `properties`.
    pub fn properties(self, properties: VecMap<'a, Property<'a>>) -> (r: Self)
        ensures
            r == (InteractionAffordancesBuilder { properties: Some(properties), ..self }),
    {
        let mut builder = self;
        builder.properties = Some(properties);
        builder
    }

    /// Sets `actions`.
    pub fn actions(self, actions: VecMap<'a, Action<'a>>) -> (r: Self)
        ensures
            r == (InteractionAffordancesBuilder { actions: Some(actions), ..self }),
    {
        let mut builder = self;
        builder.actions = Some(actions);
        builder
    }

    /// Sets `events`.
    pub fn events(self, events: VecMap<'a, Event<'a>>) -> (r: Self)
        ensures
            r == (InteractionAffordancesBuilder { events: Some(events), ..self }),
    {
        let mut builder = self;
        builder.events = Some(events);
        builder
    }

    /// The record with the fields as they were set.
    pub fn build(self) -> (r: InteractionAffordances<'a>)
        ensures
            r == (InteractionAffordances {
                properties: self.properties,
                actions: self.actions,
                events: self.events,
            }),
    {
        InteractionAffordances {
            properties: self.properties,
            actions: self.actions,
            events: self.events,
        }
    }
}

impl<'a> InteractionAffordances<'a> {
    /// Writes the members at the cursor, without braces, so that they become
    /// members of the object that is being written. A comma goes in front of
    /// the first member that is written where `has_previous` is set.
    pub fn serialize_to_map(&self, buf: &mut [u8], index: usize, has_previous: bool) -> (r: Result<
        usize,
        SerializationError,
    >)
        ensures
            emitted(old(buf)@, final(buf)@, index, members_text(self.members(), has_previous), r),
    {
        proof {
            let (b, at) = (buf@, index as int);
            let m = lemma_nested_opened(b, at, has_previous);
            let previous = has_previous;
            let m = lemma_nested_field_written(
                b,
                at,
                m,
                "properties",
                self.properties.field_value(),
                has_previous,
                previous,
            );
            let previous = previous || self.properties.is_some();
            let m = lemma_nested_field_written(
                b,
                at,
                m,
                "actions",
                self.actions.field_value(),
                has_previous,
                previous,
            );
            let previous = previous || self.actions.is_some();
            let m = lemma_nested_field_written(
                b,
                at,
                m,
                "events",
                self.events.field_value(),
                has_previous,
                previous,
            );
        }
        let mut has_previous = has_previous;
        let mut index = index;
        index = self.properties.serialize_field("properties", buf, index, has_previous)?;
        has_previous = has_previous || self.properties.is_some();
        index = self.actions.serialize_field("actions", buf, index, has_previous)?;
        has_previous = has_previous || self.actions.is_some();
        index = self.events.serialize_field("events", buf, index, has_previous)?;
        Ok(index)
    }
}

impl<'a> NestedJsonValue for InteractionAffordances<'a> {
    open spec fn members(&self) -> Seq<(Seq<u8>, Seq<u8>)> {
        self.members()
    }

    fn to_nested_json_value(&self, buf: &mut [u8], index: usize, has_previous: bool) -> (r: Result<
        usize,
        SerializationError,
    >) {
        assert(NestedJsonValue::members(self) == self.members());
        self.serialize_to_map(buf, index, has_previous)
    }
}

} // verus!
