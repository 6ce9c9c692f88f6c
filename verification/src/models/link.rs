//! Links from a Thing to other resources.

use crate::json_text::{lemma_literals, no_members, object_text, with_field, MemberList};
use crate::serialization::{JsonString, JsonValue, SerializableField, SerializationError};
use crate::steps::{lemma_field_written, lemma_object_closed, lemma_object_opened};
use vstd::prelude::*;

verus! {

/// A link from a Thing to another resource.
#[derive(Debug, Default)]
pub struct Link<'a> {
    pub href: &'a str,
    pub link_type: Option<&'a str>,
    pub rel: Option<&'a str>,
    pub anchor: Option<&'a str>,
    pub sizes: Option<&'a str>,
    pub hreflang: Option<Vec<&'a str>>,
}

impl<'a> Link<'a> {
    /// A link with a target and nothing else.
    pub fn new(href: &'a str) -> (r: Link<'a>)
        ensures
            r == (Link {
                href,
                link_type: None,
                rel: None,
                anchor: None,
                sizes: None,
                hreflang: None,
            }),
    {
        Link { href, link_type: None, rel: None, anchor: None, sizes: None, hreflang: None }
    }

    /// Starts building, with no optional field set.
    pub fn builder(href: &'a str) -> (r: LinkBuilder<'a>)
        ensures
            r == (LinkBuilder {
                href,
                link_type: None,
                rel: None,
                anchor: None,
                sizes: None,
                hreflang: None,
            }),
    {
        LinkBuilder::new(href)
    }

    /// The members of the rendered object, in order: `href`, then `@type`,
    /// `rel`, `anchor`, `sizes` and `hreflang`, each only if it is set.
    pub open spec fn members(&self) -> Seq<(Seq<u8>, Seq<u8>)> {
        no_members()
            .field("href", self.href.field_value())
            .field("@type", self.link_type.field_value())
            .field("rel", self.rel.field_value())
            .field("anchor", self.anchor.field_value())
            .field("sizes", self.sizes.field_value())
            .field("hreflang", self.hreflang.field_value())
    }

    /// With no optional field set, the object holds the mandatory member
    /// and nothing else.
    pub proof fn lemma_only_mandatory(&self)
        requires
            self.link_type is None,
            self.rel is None,
            self.anchor is None,
            self.sizes is None,
            self.hreflang is None,
        ensures
            self.members() == no_members().field("href", self.href.field_value()),
    {
        reveal(with_field);
    }
}

/// Builder of a [`Link`].
#[derive(Debug, Default)]
pub struct LinkBuilder<'a> {
    pub href: &'a str,
    pub link_type: Option<&'a str>,
    pub rel: Option<&'a str>,
    pub anchor: Option<&'a str>,
    pub sizes: Option<&'a str>,
    pub hreflang: Option<Vec<&'a str>>,
}

impl<'a> LinkBuilder<'a> {
    /// A builder with no optional field set.
    pub fn new(href: &'a str) -> (r: Self)
        ensures
            r == (LinkBuilder {
                href,
                link_type: None,
                rel: None,
                anchor: None,
                sizes: None,
                hreflang: None,
            }),
    {
        LinkBuilder {
            href,
            link_type: None,
            rel: None,
            anchor: None,
            sizes: None,
            hreflang: None,
        }
    }

    /// Sets `href`.
    pub fn href(self, href: &'a str) -> (r: Self)
        ensures
            r == (LinkBuilder { href, ..self }),
    {
        let mut builder = self;
        builder.href = href;
        builder
    }

    /// Sets `link_type`.
    pub fn link_type(self, link_type: &'a str) -> (r: Self)
        ensures
            r == (LinkBuilder { link_type: Some(link_type), ..self }),
    {
        let mut builder = self;
        builder.link_type = Some(link_type);
        builder
    }

    /// Sets `rel`.
    pub fn rel(self, rel: &'a str) -> (r: Self)
        ensures
            r == (LinkBuilder { rel: Some(rel), ..self }),
    {
        let mut builder = self;
        builder.rel = Some(rel);
        builder
    }

    /// Sets `anchor`.
    pub fn anchor(self, anchor: &'a str) -> (r: Self)
        ensures
            r == (LinkBuilder { anchor: Some(anchor), ..self }),
    {
        let mut builder = self;
        builder.anchor = Some(anchor);
        builder
    }

    /// Sets `hreflang`.
    pub fn hreflang(self, hreflang: Vec<&'a str>) -> (r: Self)
        ensures
            r == (LinkBuilder { hreflang: Some(hreflang), ..self }),
    {
        let mut builder = self;
        builder.hreflang = Some(hreflang);
        builder
    }

    /// The record with the fields as they were set.
    pub fn build(self) -> (r: Link<'a>)
        ensures
            r == (Link {
                href: self.href,
                link_type: self.link_type,
                rel: self.rel,
                anchor: self.anchor,
                sizes: self.sizes,
                hreflang: self.hreflang,
            }),
    {
        Link {
            href: self.href,
            link_type: self.link_type,
            rel: self.rel,
            anchor: self.anchor,
            sizes: self.sizes,
            hreflang: self.hreflang,
        }
    }
}

impl<'a> JsonValue for Link<'a> {
    open spec fn json_value(&self) -> Seq<u8> {
        object_text(self.members())
    }

    fn to_json_value(&self, buf: &mut [u8], index: usize) -> (r: Result<
        usize,
        SerializationError,
    >) {
        proof {
            lemma_literals();
            assert(self.json_value() == object_text(self.members()));
            let (b, at) = (buf@, index as int);
            let m = lemma_object_opened(b, at);
            let m = lemma_field_written(b, at, m, "href", self.href.field_value(), false);
            let m = lemma_field_written(b, at, m, "@type", self.link_type.field_value(), true);
            let m = lemma_field_written(b, at, m, "rel", self.rel.field_value(), true);
            let m = lemma_field_written(b, at, m, "anchor", self.anchor.field_value(), true);
            let m = lemma_field_written(b, at, m, "sizes", self.sizes.field_value(), true);
            let m = lemma_field_written(b, at, m, "hreflang", self.hreflang.field_value(), true);
            lemma_object_closed(b, at, m);
        }
        let mut index = "{".to_json_string(buf, index)?;
        index = self.href.serialize_field("href", buf, index, false)?;
        index = self.link_type.serialize_field("@type", buf, index, true)?;
        index = self.rel.serialize_field("rel", buf, index, true)?;
        index = self.anchor.serialize_field("anchor", buf, index, true)?;
        index = self.sizes.serialize_field("sizes", buf, index, true)?;
        index = self.hreflang.serialize_field("hreflang", buf, index, true)?;
        index = "}".to_json_string(buf, index)?;
        Ok(index)
    }
}

} // verus!
