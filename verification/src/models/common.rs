//! Titles and descriptions.

use crate::data_structures::map::LinkedMap;
use vstd::prelude::*;

verus! {

/// What can be said of a Thing or of any of its parts in words: a title and a
/// description, and both in several languages.
#[derive(Debug)]
pub struct CommonFields<'a> {
    pub title: Option<&'a str>,
    pub titles: Option<&'a LinkedMap<'a, &'a str>>,
    pub description: Option<&'a str>,
    pub descriptions: Option<&'a LinkedMap<'a, &'a str>>,
}

impl<'a> CommonFields<'a> {
    /// Starts building, with no optional field set.
    pub fn builder() -> (r: CommonFieldsBuilder<'a>)
        ensures
            r == (CommonFieldsBuilder {
                title: None,
                titles: None,
                description: None,
                descriptions: None,
            }),
    {
        CommonFieldsBuilder::new()
    }
}

/// Builder of a [`CommonFields`].
#[derive(Default)]
pub struct CommonFieldsBuilder<'a> {
    pub title: Option<&'a str>,
    pub titles: Option<&'a LinkedMap<'a, &'a str>>,
    pub description: Option<&'a str>,
    pub descriptions: Option<&'a LinkedMap<'a, &'a str>>,
}

impl<'a> CommonFieldsBuilder<'a> {
    /// A builder with no optional field set.
    pub fn new() -> (r: Self)
        ensures
            r == (CommonFieldsBuilder {
                title: None,
                titles: None,
                description: None,
                descriptions: None,
            }),
    {
        CommonFieldsBuilder {
            title: None,
            titles: None,
            description: None,
            descriptions: None,
        }
    }

    /// Sets `title`.
    pub fn title(self, title: &'a str) -> (r: Self)
        ensures
            r == (CommonFieldsBuilder { title: Some(title), ..self }),
    {
        let mut builder = self;
        builder.title = Some(title);
        builder
    }

    /// Sets `titles`.
    pub fn titles(self, titles: &'a LinkedMap<'a, &'a str>) -> (r: Self)
        ensures
            r == (CommonFieldsBuilder { titles: Some(titles), ..self }),
    {
        let mut builder = self;
        builder.titles = Some(titles);
        builder
    }

    /// Sets `description`.
    pub fn description(self, description: &'a str) -> (r: Self)
        ensures
            r == (CommonFieldsBuilder { description: Some(description), ..self }),
    {
        let mut builder = self;
        builder.description = Some(description);
        builder
    }

    /// Sets `descriptions`.
    pub fn descriptions(self, descriptions: &'a LinkedMap<'a, &'a str>) -> (r: Self)
        ensures
            r == (CommonFieldsBuilder { descriptions: Some(descriptions), ..self }),
    {
        let mut builder = self;
        builder.descriptions = Some(descriptions);
        builder
    }

    /// The record with the fields as they were set.
    pub fn build(self) -> (r: CommonFields<'a>)
        ensures
            r == (CommonFields {
                title: self.title,
                titles: self.titles,
                description: self.description,
                descriptions: self.descriptions,
            }),
    {
        CommonFields {
            title: self.title,
            titles: self.titles,
            description: self.description,
            descriptions: self.descriptions,
        }
    }
}

} // verus!
