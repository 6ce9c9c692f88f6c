//! Security definitions: the security schemes of a Thing and their
//! parameters.

pub mod ace;
pub mod api_key;
pub mod basic;
pub mod bearer;
pub mod combo;
pub mod digest;
pub mod oauth2;
pub mod psk;

use crate::data_structures::array::Array;
use crate::data_structures::map::LinkedMap;
use crate::models::security_definition::ace::AceSecurityScheme;
use crate::models::security_definition::api_key::ApiKeySecurityScheme;
use crate::models::security_definition::basic::BasicSecurityScheme;
use crate::models::security_definition::bearer::BearerSecurityScheme;
use crate::models::security_definition::combo::ComboSecurityScheme;
use crate::models::security_definition::digest::DigestSecurityScheme;
use crate::models::security_definition::oauth2::Oauth2SecurityScheme;
use crate::models::security_definition::psk::PskSecurityScheme;
use crate::json_text::{
    bytes_of, lemma_literals, no_members, object_text, quoted, with_field, MemberList,
};
use crate::serialization::{JsonString, JsonValue, SerializableField, SerializationError};
use crate::steps::{
    lemma_field_written, lemma_nested_opened, lemma_nested_written, lemma_object_closed,
    lemma_object_opened,
};
use vstd::prelude::*;

verus! {

/// A security definition: a security scheme, its parameters and what is said
/// about it.
#[derive(Debug)]
pub struct SecurityScheme<'a> {
    pub json_ld_type: Option<Array<'a, &'a str>>,
    pub description: Option<&'a str>,
    pub descriptions: Option<&'a LinkedMap<'a, &'a str>>,
    pub proxy: Option<&'a str>,
    pub scheme: SecuritySchemeType<'a>,
}

impl<'a> SecurityScheme<'a> {
    /// Starts building, with no optional field set.
    pub fn builder(scheme: SecuritySchemeType<'a>) -> (r: SecuritySchemeBuilder<'a>)
        ensures
            r == (SecuritySchemeBuilder {
                json_ld_type: None,
                description: None,
                descriptions: None,
                proxy: None,
                scheme,
            }),
    {
        SecuritySchemeBuilder::new(scheme)
    }
}

/// Builder of a [`SecurityScheme`].
#[derive(Debug)]
pub struct SecuritySchemeBuilder<'a> {
    pub json_ld_type: Option<Array<'a, &'a str>>,
    pub description: Option<&'a str>,
    pub descriptions: Option<&'a LinkedMap<'a, &'a str>>,
    pub proxy: Option<&'a str>,
    pub scheme: SecuritySchemeType<'a>,
}

impl<'a> SecuritySchemeBuilder<'a> {
    /// A builder with no optional field set.
    pub fn new(scheme: SecuritySchemeType<'a>) -> (r: Self)
        ensures
            r == (SecuritySchemeBuilder {
                json_ld_type: None,
                description: None,
                descriptions: None,
                proxy: None,
                scheme,
            }),
    {
        SecuritySchemeBuilder {
            json_ld_type: None,
            description: None,
            descriptions: None,
            proxy: None,
            scheme,
        }
    }

    /// Sets `json_ld_type`.
    pub fn json_ld_type(self, json_ld_type: Array<'a, &'a str>) -> (r: Self)
        ensures
            r == (SecuritySchemeBuilder { json_ld_type: Some(json_ld_type), ..self }),
    {
        let mut builder = self;
        builder.json_ld_type = Some(json_ld_type);
        builder
    }

    /// Sets `description`.
    pub fn description(self, description: &'a str) -> (r: Self)
        ensures
            r == (SecuritySchemeBuilder { description: Some(description), ..self }),
    {
        let mut builder = self;
        builder.description = Some(description);
        builder
    }

    /// Sets `descriptions`.
    pub fn descriptions(self, descriptions: &'a LinkedMap<'a, &'a str>) -> (r: Self)
        ensures
            r == (SecuritySchemeBuilder { descriptions: Some(descriptions), ..self }),
    {
        let mut builder = self;
        builder.descriptions = Some(descriptions);
        builder
    }

    /// Sets `proxy`.
    pub fn proxy(self, proxy: &'a str) -> (r: Self)
        ensures
            r == (SecuritySchemeBuilder { proxy: Some(proxy), ..self }),
    {
        let mut builder = self;
        builder.proxy = Some(proxy);
        builder
    }

    /// The record with the fields as they were set.
    pub fn build(self) -> (r: SecurityScheme<'a>)
        ensures
            r == (SecurityScheme {
                json_ld_type: self.json_ld_type,
                description: self.description,
                descriptions: self.descriptions,
                proxy: self.proxy,
                scheme: self.scheme,
            }),
    {
        SecurityScheme {
            json_ld_type: self.json_ld_type,
            description: self.description,
            descriptions: self.descriptions,
            proxy: self.proxy,
            scheme: self.scheme,
        }
    }
}

impl<'a> SecurityScheme<'a> {
    /// The members of the rendered object, in order: `scheme` with the name
    /// of the scheme, the parameters of the scheme, then `@type`,
    /// `description`, `descriptions` and `proxy`, each only if it is set.
    pub open spec fn members(&self) -> Seq<(Seq<u8>, Seq<u8>)> {
        no_members()
            .field("scheme", Some(quoted(bytes_of(self.scheme.name()))))
            .nested(self.scheme.members())
            .field("@type", self.json_ld_type.field_value())
            .field("description", self.description.field_value())
            .field("descriptions", self.descriptions.field_value())
            .field("proxy", self.proxy.field_value())
    }

    /// With no optional field set, the object holds the scheme and its
    /// parameters and nothing else.
    pub proof fn lemma_only_mandatory(&self)
        requires
            self.json_ld_type is None,
            self.description is None,
            self.descriptions is None,
            self.proxy is None,
        ensures
            self.members() == no_members().field(
                "scheme",
                Some(quoted(bytes_of(self.scheme.name()))),
            ).nested(self.scheme.members()),
    {
        reveal(with_field);
    }
}

/// A security scheme with its parameters.
#[derive(Debug)]
pub enum SecuritySchemeType<'a> {
    Nosec,
    Auto,
    Combo(ComboSecurityScheme<'a>),
    Basic(BasicSecurityScheme),
    Digest(DigestSecurityScheme<'a>),
    Apikey(ApiKeySecurityScheme<'a>),
    Bearer(BearerSecurityScheme<'a>),
    Psk(PskSecurityScheme<'a>),
    Oauth2(Oauth2SecurityScheme<'a>),
    Ace(AceSecurityScheme<'a>),
}

impl<'a> SecuritySchemeType<'a> {
    /// The name under which the scheme is written.
    pub open spec fn name(&self) -> Seq<char> {
        match self {
            SecuritySchemeType::Nosec => "nosec"@,
            SecuritySchemeType::Auto => "auto"@,
            SecuritySchemeType::Combo(_) => "combo"@,
            SecuritySchemeType::Basic(_) => "basic"@,
            SecuritySchemeType::Digest(_) => "digest"@,
            SecuritySchemeType::Apikey(_) => "apikey"@,
            SecuritySchemeType::Bearer(_) => "bearer"@,
            SecuritySchemeType::Psk(_) => "psk"@,
            SecuritySchemeType::Oauth2(_) => "oauth2"@,
            SecuritySchemeType::Ace(_) => "ace:ACESecurityScheme"@,
        }
    }

    /// The members that the parameters of the scheme add to a security
    /// definition.
    pub open spec fn members(&self) -> Seq<(Seq<u8>, Seq<u8>)> {
        match self {
            SecuritySchemeType::Nosec => no_members(),
            SecuritySchemeType::Auto => no_members(),
            SecuritySchemeType::Combo(security) => security.members(),
            SecuritySchemeType::Basic(security) => security.members(),
            SecuritySchemeType::Digest(security) => security.members(),
            SecuritySchemeType::Apikey(security) => security.members(),
            SecuritySchemeType::Bearer(security) => security.members(),
            SecuritySchemeType::Psk(security) => security.members(),
            SecuritySchemeType::Oauth2(security) => security.members(),
            SecuritySchemeType::Ace(security) => security.members(),
        }
    }
}

impl<'a> JsonValue for SecurityScheme<'a> {
    open spec fn json_value(&self) -> Seq<u8> {
        object_text(self.members())
    }

    fn to_json_value(&self, buf: &mut [u8], index: usize) -> (r: Result<
        usize,
        SerializationError,
    >) {
        proof {
            lemma_literals();
            let (b, at) = (buf@, index as int);
            let m = lemma_object_opened(b, at);
            let m = lemma_field_written(
                b,
                at,
                m,
                "scheme",
                Some(quoted(bytes_of(self.scheme.name()))),
                false,
            );
            let m = lemma_nested_written(b, at, m, self.scheme.members(), true);
            let m = lemma_field_written(b, at, m, "@type", self.json_ld_type.field_value(), true);
            let m = lemma_field_written(
                b,
                at,
                m,
                "description",
                self.description.field_value(),
                true,
            );
            let m = lemma_field_written(
                b,
                at,
                m,
                "descriptions",
                self.descriptions.field_value(),
                true,
            );
            let m = lemma_field_written(b, at, m, "proxy", self.proxy.field_value(), true);
            lemma_object_closed(b, at, m);
        }
        let mut index = "{".to_json_string(buf, index)?;
        match &self.scheme {
            SecuritySchemeType::Auto => {
                index = "auto".serialize_field("scheme", buf, index, false)?;
                proof {
                    lemma_nested_opened(buf@, index as int, true);
                }
            },
            SecuritySchemeType::Nosec => {
                index = "nosec".serialize_field("scheme", buf, index, false)?;
                proof {
                    lemma_nested_opened(buf@, index as int, true);
                }
            },
            SecuritySchemeType::Basic(security) => {
                index = "basic".serialize_field("scheme", buf, index, false)?;
                index = security.serialize_to_map(buf, index, true)?;
            },
            SecuritySchemeType::Digest(security) => {
                index = "digest".serialize_field("scheme", buf, index, false)?;
                index = security.serialize_to_map(buf, index, true)?;
            },
            SecuritySchemeType::Apikey(security) => {
                index = "apikey".serialize_field("scheme", buf, index, false)?;
                index = security.serialize_to_map(buf, index, true)?;
            },
            SecuritySchemeType::Bearer(security) => {
                index = "bearer".serialize_field("scheme", buf, index, false)?;
                index = security.serialize_to_map(buf, index, true)?;
            },
            SecuritySchemeType::Psk(security) => {
                index = "psk".serialize_field("scheme", buf, index, false)?;
                index = security.serialize_to_map(buf, index, true)?;
            },
            SecuritySchemeType::Oauth2(security) => {
                index = "oauth2".serialize_field("scheme", buf, index, false)?;
                index = security.serialize_to_map(buf, index, true)?;
            },
            SecuritySchemeType::Ace(security) => {
                index = "ace:ACESecurityScheme".serialize_field("scheme", buf, index, false)?;
                index = security.serialize_to_map(buf, index, true)?;
            },
            SecuritySchemeType::Combo(security) => {
                index = "combo".serialize_field("scheme", buf, index, false)?;
                index = security.serialize_to_map(buf, index, true)?;
            },
        };
        index = self.json_ld_type.serialize_field("@type", buf, index, true)?;
        index = self.description.serialize_field("description", buf, index, true)?;
        index = self.descriptions.serialize_field("descriptions", buf, index, true)?;
        index = self.proxy.serialize_field("proxy", buf, index, true)?;
        index = "}".to_json_string(buf, index)?;
        Ok(index)
    }
}

/// Where the credentials of a scheme are carried. Each is written as its name
/// in lower case.
#[derive(Debug, Clone, Copy, PartialEq, Eq)]
pub enum In {
    Header,
    Query,
    Body,
    Cookie,
    Auto,
}

impl In {
    /// The name under which the value is written.
    pub open spec fn name(&self) -> Seq<char> {
        match self {
            In::Header => "header"@,
            In::Query => "query"@,
            In::Body => "body"@,
            In::Cookie => "cookie"@,
            In::Auto => "auto"@,
        }
    }

    /// The name under which the value is written.
    pub fn as_str(&self) -> (r: &'static str)
        ensures
            r@ == self.name(),
    {
        match self {
            In::Header => "header",
            In::Query => "query",
            In::Body => "body",
            In::Cookie => "cookie",
            In::Auto => "auto",
        }
    }
}

impl JsonValue for In {
    open spec fn json_value(&self) -> Seq<u8> {
        quoted(bytes_of(self.name()))
    }

    fn to_json_value(&self, buf: &mut [u8], index: usize) -> (r: Result<
        usize,
        SerializationError,
    >) {
        let name = self.as_str();
        assert(self.json_value() == name.json_value());
        name.to_json_value(buf, index)
    }
}

/// The quality of protection of a scheme.
#[derive(Debug, Clone, Copy, PartialEq, Eq)]
pub enum QoP {
    Auth,
    AuthInt,
}

impl QoP {
    /// The name under which the value is written.
    pub open spec fn name(&self) -> Seq<char> {
        match self {
            QoP::Auth => "auth"@,
            QoP::AuthInt => "auth-int"@,
        }
    }

    /// The name under which the value is written.
    pub fn as_str(&self) -> (r: &'static str)
        ensures
            r@ == self.name(),
    {
        match self {
            QoP::Auth => "auth",
            QoP::AuthInt => "auth-int",
        }
    }
}

impl JsonValue for QoP {
    open spec fn json_value(&self) -> Seq<u8> {
        quoted(bytes_of(self.name()))
    }

    fn to_json_value(&self, buf: &mut [u8], index: usize) -> (r: Result<
        usize,
        SerializationError,
    >) {
        let name = self.as_str();
        assert(self.json_value() == name.json_value());
        name.to_json_value(buf, index)
    }
}

} // verus!
