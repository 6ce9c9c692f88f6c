//! Data schemas and the values that they speak of.

pub mod array_schema;
pub mod integer_schema;
pub mod number_schema;
pub mod object_schema;
pub mod string_schema;

use crate::data_structures::array::Array;
use crate::data_structures::map::LinkedMap;
use crate::decimal::Decimal;
use crate::buffer::{
    emitted, lemma_overwrite_keeps, lemma_overwrite_nothing, lemma_overwrite_twice, overwrite,
};
use crate::json_text::{
    array_prefix, array_text, bytes_of, decimal_text, key_text, lemma_array_prefix_grows,
    lemma_literals, lemma_members_nested_alone, lemma_object_prefix_field,
    lemma_object_prefix_grows, lemma_object_prefix_push, members_text, no_members, object_prefix,
    object_text, optional_field_text, quoted, with_field, MemberList,
};
use crate::serialization::{
    JsonKey, JsonString, JsonValue, NestedJsonValue, SerializableField, SerializationError,
};
use crate::steps::{
    lemma_array_closed, lemma_array_opened, lemma_item_written, lemma_member_written,
    lemma_nested_field_written, lemma_nested_members_written, lemma_nested_opened,
    lemma_nested_written, lemma_object_closed, lemma_object_opened,
};
use vstd::prelude::*;

verus! {

/// What the data of an interaction looks like.
#[derive(Debug)]
pub struct DataSchema<'a> {
    pub json_ld_type: Option<Array<'a, &'a str>>,
    pub title: Option<&'a str>,
    pub titles: Option<&'a LinkedMap<'a, &'a str>>,
    pub description: Option<&'a str>,
    pub descriptions: Option<&'a LinkedMap<'a, &'a str>>,
    pub constant: Option<DataStructure<'a>>,
    pub default: Option<DataStructure<'a>>,
    pub unit: Option<&'a str>,
    pub one_of: Option<Array<'a, &'a DataSchema<'a>>>,
    pub enumeration: Option<Array<'a, DataStructure<'a>>>,
    pub read_only: Option<bool>,
    pub write_only: Option<bool>,
    pub format: Option<&'a str>,
    pub data_type: Option<DataType>,
    pub additional_fields: Option<&'a LinkedMap<'a, DataStructure<'a>>>,
}

impl<'a> DataSchema<'a> {
    /// Starts building, with no optional field set.
    pub fn builder() -> (r: DataSchemaBuilder<'a>)
        ensures
            r == (DataSchemaBuilder {
                json_ld_type: None,
                title: None,
                titles: None,
                description: None,
                descriptions: None,
                constant: None,
                default: None,
                unit: None,
                one_of: None,
                enumeration: None,
                read_only: None,
                write_only: None,
                format: None,
                data_type: None,
                additional_fields: None,
            }),
    {
        DataSchemaBuilder::new()
    }
}

/// Builder of a [`DataSchema`].
#[derive(Debug)]
pub struct DataSchemaBuilder<'a> {
    pub json_ld_type: Option<Array<'a, &'a str>>,
    pub title: Option<&'a str>,
    pub titles: Option<&'a LinkedMap<'a, &'a str>>,
    pub description: Option<&'a str>,
    pub descriptions: Option<&'a LinkedMap<'a, &'a str>>,
    pub constant: Option<DataStructure<'a>>,
    pub default: Option<DataStructure<'a>>,
    pub unit: Option<&'a str>,
    pub one_of: Option<Array<'a, &'a DataSchema<'a>>>,
    pub enumeration: Option<Array<'a, DataStructure<'a>>>,
    pub read_only: Option<bool>,
    pub write_only: Option<bool>,
    pub format: Option<&'a str>,
    pub data_type: Option<DataType>,
    pub additional_fields: Option<&'a LinkedMap<'a, DataStructure<'a>>>,
}

impl<'a> DataSchemaBuilder<'a> {
    /// A builder with no optional field set.
    pub fn new() -> (r: Self)
        ensures
            r == (DataSchemaBuilder {
                json_ld_type: None,
                title: None,
                titles: None,
                description: None,
                descriptions: None,
                constant: None,
                default: None,
                unit: None,
                one_of: None,
                enumeration: None,
                read_only: None,
                write_only: None,
                format: None,
                data_type: None,
                additional_fields: None,
            }),
    {
        DataSchemaBuilder {
            json_ld_type: None,
            title: None,
            titles: None,
            description: None,
            descriptions: None,
            constant: None,
            default: None,
            unit: None,
            one_of: None,
            enumeration: None,
            read_only: None,
            write_only: None,
            format: None,
            data_type: None,
            additional_fields: None,
        }
    }

    /// Sets `json_ld_type`.
    pub fn json_ld_type(self, json_ld_type: Array<'a, &'a str>) -> (r: Self)
        ensures
            r == (DataSchemaBuilder { json_ld_type: Some(json_ld_type), ..self }),
    {
        let mut builder = self;
        builder.json_ld_type = Some(json_ld_type);
        builder
    }

    /// Sets `title`.
    pub fn title(self, title: &'a str) -> (r: Self)
        ensures
            r == (DataSchemaBuilder { title: Some(title), ..self }),
    {
        let mut builder = self;
        builder.title = Some(title);
        builder
    }

    /// Sets `titles`.
    pub fn titles(self, titles: &'a LinkedMap<'a, &'a str>) -> (r: Self)
        ensures
            r == (DataSchemaBuilder { titles: Some(titles), ..self }),
    {
        let mut builder = self;
        builder.titles = Some(titles);
        builder
    }

    /// Sets `description`.
    pub fn description(self, description: &'a str) -> (r: Self)
        ensures
            r == (DataSchemaBuilder { description: Some(description), ..self }),
    {
        let mut builder = self;
        builder.description = Some(description);
        builder
    }

    /// Sets `descriptions`.
    pub fn descriptions(self, descriptions: &'a LinkedMap<'a, &'a str>) -> (r: Self)
        ensures
            r == (DataSchemaBuilder { descriptions: Some(descriptions), ..self }),
    {
        let mut builder = self;
        builder.descriptions = Some(descriptions);
        builder
    }

    /// Sets `constant`.
    pub fn constant(self, constant: DataStructure<'a>) -> (r: Self)
        ensures
            r == (DataSchemaBuilder { constant: Some(constant), ..self }),
    {
        let mut builder = self;
        builder.constant = Some(constant);
        builder
    }

    /// Sets `default`.
    pub fn default(self, default: DataStructure<'a>) -> (r: Self)
        ensures
            r == (DataSchemaBuilder { default: Some(default), ..self }),
    {
        let mut builder = self;
        builder.default = Some(default);
        builder
    }

    /// Sets `unit`.
    pub fn unit(self, unit: &'a str) -> (r: Self)
        ensures
            r == (DataSchemaBuilder { unit: Some(unit), ..self }),
    {
        let mut builder = self;
        builder.unit = Some(unit);
        builder
    }

    /// Sets `one_of`.
    pub fn one_of(self, one_of: Array<'a, &'a DataSchema<'a>>) -> (r: Self)
        ensures
            r == (DataSchemaBuilder { one_of: Some(one_of), ..self }),
    {
        let mut builder = self;
        builder.one_of = Some(one_of);
        builder
    }

    /// Sets `enumeration`.
    pub fn enumeration(self, enumeration: Array<'a, DataStructure<'a>>) -> (r: Self)
        ensures
            r == (DataSchemaBuilder { enumeration: Some(enumeration), ..self }),
    {
        let mut builder = self;
        builder.enumeration = Some(enumeration);
        builder
    }

    /// Sets `read_only`.
    pub fn read_only(self, read_only: bool) -> (r: Self)
        ensures
            r == (DataSchemaBuilder { read_only: Some(read_only), ..self }),
    {
        let mut builder = self;
        builder.read_only = Some(read_only);
        builder
    }

    /// Sets `write_only`.
    pub fn write_only(self, write_only: bool) -> (r: Self)
        ensures
            r == (DataSchemaBuilder { write_only: Some(write_only), ..self }),
    {
        let mut builder = self;
        builder.write_only = Some(write_only);
        builder
    }

    /// Sets `format`.
    pub fn format(self, format: &'a str) -> (r: Self)
        ensures
            r == (DataSchemaBuilder { format: Some(format), ..self }),
    {
        let mut builder = self;
        builder.format = Some(format);
        builder
    }

    /// Sets `data_type`.
    pub fn data_type(self, data_type: DataType) -> (r: Self)
        ensures
            r == (DataSchemaBuilder { data_type: Some(data_type), ..self }),
    {
        let mut builder = self;
        builder.data_type = Some(data_type);
        builder
    }

    /// Sets `additional_fields`.
    pub fn additional_fields(
        self,
        additional_fields: &'a LinkedMap<'a,
        DataStructure<'a>>,
    ) -> (r: Self)
        ensures
            r == (DataSchemaBuilder { additional_fields: Some(additional_fields), ..self }),
    {
        let mut builder = self;
        builder.additional_fields = Some(additional_fields);
        builder
    }

    /// The record with the fields as they were set.
    pub fn build(self) -> (r: DataSchema<'a>)
        ensures
            r == (DataSchema {
                json_ld_type: self.json_ld_type,
                title: self.title,
                titles: self.titles,
                description: self.description,
                descriptions: self.descriptions,
                constant: self.constant,
                default: self.default,
                unit: self.unit,
                one_of: self.one_of,
                enumeration: self.enumeration,
                read_only: self.read_only,
                write_only: self.write_only,
                format: self.format,
                data_type: self.data_type,
                additional_fields: self.additional_fields,
            }),
    {
        DataSchema {
            json_ld_type: self.json_ld_type,
            title: self.title,
            titles: self.titles,
            description: self.description,
            descriptions: self.descriptions,
            constant: self.constant,
            default: self.default,
            unit: self.unit,
            one_of: self.one_of,
            enumeration: self.enumeration,
            read_only: self.read_only,
            write_only: self.write_only,
            format: self.format,
            data_type: self.data_type,
            additional_fields: self.additional_fields,
        }
    }
}

/// The JSON texts of the schemas of a sequence of schemas.
#[verifier::opaque]
pub open spec fn schema_items(list: &Array<&DataSchema>) -> Seq<Seq<u8>>
    decreases list, 0nat,
{
    Seq::new(
        list@.len(),
        |i: int|
            if 0 <= i < list@.len() {
                proof {
                    list.lemma_values_decrease(i);
                }
                schema_text(list@[i])
            } else {
                Seq::empty()
            },
    )
}

/// The JSON text of the alternatives of a schema, if it has any: an array of
/// the texts of the alternative schemas.
#[verifier::opaque]
pub open spec fn one_of_value(one_of: &Option<Array<&DataSchema>>) -> Option<Seq<u8>>
    decreases one_of, 0nat,
{
    match one_of {
        Some(list) => Some(array_text(schema_items(list))),
        None => None,
    }
}

/// The members by which a schema is named and described, in order: `@type`,
/// `title`, `titles`, `description`, `descriptions`, each only if it is set.
pub open spec fn schema_descriptive_members(schema: &DataSchema) -> Seq<(Seq<u8>, Seq<u8>)> {
    no_members()
        .field("@type", schema.json_ld_type.field_value())
        .field("title", schema.title.field_value())
        .field("titles", schema.titles.field_value())
        .field("description", schema.description.field_value())
        .field("descriptions", schema.descriptions.field_value())
}

/// The members that name values of a schema, in order: `constant`,
/// `default`, `unit`, `oneOf`, `enum`, each only if it is set.
#[verifier::opaque]
pub open spec fn schema_value_members(schema: &DataSchema) -> Seq<(Seq<u8>, Seq<u8>)>
    decreases schema, 0nat,
{
    no_members()
        .field("constant", schema.constant.field_value())
        .field("default", schema.default.field_value())
        .field("unit", schema.unit.field_value())
        .field("oneOf", one_of_value(&schema.one_of))
        .field("enum", schema.enumeration.field_value())
}

/// The members that say how the data is used and of what kind it is, in
/// order: `readOnly`, `writeOnly`, `format`, `type`, `additionalFields`, each
/// only if it is set.
pub open spec fn schema_kind_members(schema: &DataSchema) -> Seq<(Seq<u8>, Seq<u8>)> {
    no_members()
        .field("readOnly", schema.read_only.field_value())
        .field("writeOnly", schema.write_only.field_value())
        .field("format", schema.format.field_value())
        .field("type", schema.data_type.field_value())
        .field("additionalFields", schema.additional_fields.field_value())
}

/// The members that a schema is written as: those that name and describe
/// it, those that name values of it, and those that say how its data is used
/// and of what kind it is.
#[verifier::opaque]
pub open spec fn schema_members(schema: &DataSchema) -> Seq<(Seq<u8>, Seq<u8>)>
    decreases schema, 1nat,
{
    no_members()
        .nested(schema_descriptive_members(schema))
        .nested(schema_value_members(schema))
        .nested(schema_kind_members(schema))
}

/// The JSON text of a schema: the object of its members.
#[verifier::opaque]
pub open spec fn schema_text(schema: &DataSchema) -> Seq<u8>
    decreases schema, 2nat,
{
    object_text(schema_members(schema))
}

/// The texts of a sequence of schemas are the texts of its schemas, in
/// order.
pub proof fn lemma_schema_items(list: &Array<&DataSchema>)
    ensures
        schema_items(list).len() == list@.len(),
        forall|i: int|
            0 <= i < list@.len() ==> #[trigger] schema_items(list)[i] == schema_text(list@[i]),
{
    reveal_with_fuel(schema_items, 2);
    reveal_with_fuel(one_of_value, 2);
    reveal_with_fuel(schema_value_members, 2);
    reveal_with_fuel(schema_members, 2);
    reveal_with_fuel(schema_text, 2);
}

/// The text of a schema is the object of its members.
pub proof fn lemma_schema_text(schema: &DataSchema)
    ensures
        schema_text(schema) == object_text(schema_members(schema)),
{
    reveal_with_fuel(schema_items, 2);
    reveal_with_fuel(one_of_value, 2);
    reveal_with_fuel(schema_value_members, 2);
    reveal_with_fuel(schema_members, 2);
    reveal_with_fuel(schema_text, 2);
}

/// The alternatives of a schema are written as the array of their texts.
pub proof fn lemma_one_of_value(one_of: &Option<Array<&DataSchema>>)
    ensures
        one_of_value(one_of) == match one_of {
            Some(list) => Some(array_text(schema_items(list))),
            None => None,
        },
{
    reveal_with_fuel(schema_items, 2);
    reveal_with_fuel(one_of_value, 2);
    reveal_with_fuel(schema_value_members, 2);
    reveal_with_fuel(schema_members, 2);
    reveal_with_fuel(schema_text, 2);
}

/// The members of a schema, group by group.
pub proof fn lemma_schema_members(schema: &DataSchema)
    ensures
        schema_members(schema) == no_members().nested(schema_descriptive_members(schema)).nested(
            schema_value_members(schema),
        ).nested(schema_kind_members(schema)),
{
    reveal_with_fuel(schema_items, 2);
    reveal_with_fuel(one_of_value, 2);
    reveal_with_fuel(schema_value_members, 2);
    reveal_with_fuel(schema_members, 2);
    reveal_with_fuel(schema_text, 2);
}

/// The members of a schema that name values, field by field.
pub proof fn lemma_schema_value_members(schema: &DataSchema)
    ensures
        schema_value_members(schema) == no_members()
            .field("constant", schema.constant.field_value())
            .field("default", schema.default.field_value())
            .field("unit", schema.unit.field_value())
            .field("oneOf", one_of_value(&schema.one_of))
            .field("enum", schema.enumeration.field_value()),
{
    reveal_with_fuel(schema_items, 2);
    reveal_with_fuel(one_of_value, 2);
    reveal_with_fuel(schema_value_members, 2);
    reveal_with_fuel(schema_members, 2);
    reveal_with_fuel(schema_text, 2);
}

/// Writes the schemas of a sequence as a JSON array.
fn write_schema_array(list: &Array<&DataSchema>, buf: &mut [u8], index: usize) -> (r: Result<
    usize,
    SerializationError,
>)
    ensures
        emitted(old(buf)@, final(buf)@, index, array_text(schema_items(list)), r),
    decreases list, 0nat,
{
    proof {
        lemma_literals();
        lemma_array_opened(buf@, index as int);
        lemma_schema_items(list);
    }
    let ghost items = schema_items(list);
    let mut rest = list.iter();
    let mut cursor = "[".to_json_string(buf, index)?;
    let mut first = true;
    let ghost mut done: int = 0;
    loop
        invariant
            items == schema_items(list),
            0 <= done <= items.len(),
            first == (done == 0),
            items.len() == list@.len() == done + rest@.len(),
            forall|k: int| 0 <= k < rest@.len() ==> list@[done + k] == #[trigger] rest@[k],
            buf@.len() == old(buf)@.len(),
            index + array_prefix(items.take(done)).len() == cursor <= buf@.len(),
            buf@ == overwrite(old(buf)@, index as int, array_prefix(items.take(done))),
        ensures
            done == items.len(),
        decreases rest@.len(),
    {
        let ghost left = rest@;
        let ghost front = items.take(done);
        match rest.next() {
            Some(schema) => {
                proof {
                    lemma_literals();
                    lemma_schema_items(list);
                    assert(list@[done] == left[0]);
                    assert(items[done] == schema_text(list@[done]));
                    assert(items.take(done + 1) =~= front.push(items[done]));
                    assert(items.take(items.len() as int) =~= items);
                    lemma_array_prefix_grows(items, done + 1, items.len() as int);
                    lemma_item_written(old(buf)@, index as int, front, items[done]);
                    lemma_overwrite_keeps(old(buf)@, index as int, array_prefix(front));
                    list.lemma_values_decrease(done);
                }
                if !first {
                    cursor = ",".to_json_string(buf, cursor)?;
                    proof {
                        lemma_overwrite_keeps(
                            overwrite(old(buf)@, index as int, array_prefix(front)),
                            cursor - 1,
                            seq![0x2cu8],
                        );
                    }
                }
                cursor = write_schema(schema, buf, cursor)?;
                first = false;
                proof {
                    done = done + 1;
                }
            },
            None => {
                break ;
            },
        }
    }
    proof {
        assert(items.take(done) =~= items);
        lemma_array_closed(old(buf)@, index as int, items);
        lemma_overwrite_keeps(old(buf)@, index as int, array_prefix(items));
    }
    cursor = "]".to_json_string(buf, cursor)?;
    Ok(cursor)
}

/// Writes the alternatives of a schema as the member `oneOf`, behind a comma
/// where `has_previous` is set. A schema without alternatives writes
/// nothing.
fn write_one_of(
    one_of: &Option<Array<&DataSchema>>,
    buf: &mut [u8],
    index: usize,
    has_previous: bool,
) -> (r: Result<usize, SerializationError>)
    ensures
        emitted(
            old(buf)@,
            final(buf)@,
            index,
            optional_field_text(bytes_of("oneOf"@), one_of_value(one_of), has_previous),
            r,
        ),
    decreases one_of, 0nat,
{
    broadcast use lemma_overwrite_keeps, lemma_overwrite_twice, lemma_overwrite_nothing;

    proof {
        lemma_literals();
        reveal(optional_field_text);
        lemma_one_of_value(one_of);
    }
    let mut index = index;
    if let Some(list) = one_of {
        if has_previous {
            index = ",".to_json_string(buf, index)?;
        }
        index = "oneOf".to_json_key(buf, index)?;
        index = write_schema_array(list, buf, index)?;
    }
    Ok(index)
}

/// Writes the members of a schema that [`schema_descriptive_members`] lists, without
/// braces.
fn write_descriptive_members(
    schema: &DataSchema,
    buf: &mut [u8],
    index: usize,
    has_previous: bool,
) -> (r: Result<usize, SerializationError>)
    ensures
        emitted(
            old(buf)@,
            final(buf)@,
            index,
            members_text(schema_descriptive_members(schema), has_previous),
            r,
        ),
{
    proof {
        let (b, at) = (buf@, index as int);
        let m = lemma_nested_opened(b, at, has_previous);
        let previous = has_previous;
        let m = lemma_nested_field_written(
            b,
            at,
            m,
            "@type",
            schema.json_ld_type.field_value(),
            has_previous,
            previous,
        );
        let previous = previous || schema.json_ld_type.is_some();
        let m = lemma_nested_field_written(
            b,
            at,
            m,
            "title",
            schema.title.field_value(),
            has_previous,
            previous,
        );
        let previous = previous || schema.title.is_some();
        let m = lemma_nested_field_written(
            b,
            at,
            m,
            "titles",
            schema.titles.field_value(),
            has_previous,
            previous,
        );
        let previous = previous || schema.titles.is_some();
        let m = lemma_nested_field_written(
            b,
            at,
            m,
            "description",
            schema.description.field_value(),
            has_previous,
            previous,
        );
        let previous = previous || schema.description.is_some();
        let m = lemma_nested_field_written(
            b,
            at,
            m,
            "descriptions",
            schema.descriptions.field_value(),
            has_previous,
            previous,
        );
    }
    let mut has_previous = has_previous;
    let mut index = index;
    index = schema.json_ld_type.serialize_field("@type", buf, index, has_previous)?;
    has_previous = has_previous || schema.json_ld_type.is_some();
    index = schema.title.serialize_field("title", buf, index, has_previous)?;
    has_previous = has_previous || schema.title.is_some();
    index = schema.titles.serialize_field("titles", buf, index, has_previous)?;
    has_previous = has_previous || schema.titles.is_some();
    index = schema.description.serialize_field("description", buf, index, has_previous)?;
    has_previous = has_previous || schema.description.is_some();
    index = schema.descriptions.serialize_field("descriptions", buf, index, has_previous)?;
    Ok(index)
}

/// Whether a schema has any of the members that [`schema_descriptive_members`] lists.
fn has_descriptive_members(schema: &DataSchema) -> (r: bool)
    ensures
        r == (schema_descriptive_members(schema).len() > 0),
{
    proof {
        reveal(with_field);
    }
    schema.json_ld_type.is_some()
        || schema.title.is_some()
        || schema.titles.is_some()
        || schema.description.is_some()
        || schema.descriptions.is_some()
}

/// Writes the members of a schema that [`schema_value_members`] lists, without
/// braces.
fn write_value_members(
    schema: &DataSchema,
    buf: &mut [u8],
    index: usize,
    has_previous: bool,
) -> (r: Result<usize, SerializationError>)
    ensures
        emitted(
            old(buf)@,
            final(buf)@,
            index,
            members_text(schema_value_members(schema), has_previous),
            r,
        ),
    decreases schema, 0nat,
{
    proof {
        lemma_schema_value_members(schema);
        lemma_one_of_value(&schema.one_of);
        let (b, at) = (buf@, index as int);
        let m = lemma_nested_opened(b, at, has_previous);
        let previous = has_previous;
        let m = lemma_nested_field_written(
            b,
            at,
            m,
            "constant",
            schema.constant.field_value(),
            has_previous,
            previous,
        );
        let previous = previous || schema.constant.is_some();
        let m = lemma_nested_field_written(
            b,
            at,
            m,
            "default",
            schema.default.field_value(),
            has_previous,
            previous,
        );
        let previous = previous || schema.default.is_some();
        let m = lemma_nested_field_written(
            b,
            at,
            m,
            "unit",
            schema.unit.field_value(),
            has_previous,
            previous,
        );
        let previous = previous || schema.unit.is_some();
        let m = lemma_nested_field_written(
            b,
            at,
            m,
            "oneOf",
            one_of_value(&schema.one_of),
            has_previous,
            previous,
        );
        let previous = previous || schema.one_of.is_some();
        let m = lemma_nested_field_written(
            b,
            at,
            m,
            "enum",
            schema.enumeration.field_value(),
            has_previous,
            previous,
        );
    }
    let mut has_previous = has_previous;
    let mut index = index;
    index = schema.constant.serialize_field("constant", buf, index, has_previous)?;
    has_previous = has_previous || schema.constant.is_some();
    index = schema.default.serialize_field("default", buf, index, has_previous)?;
    has_previous = has_previous || schema.default.is_some();
    index = schema.unit.serialize_field("unit", buf, index, has_previous)?;
    has_previous = has_previous || schema.unit.is_some();
    index = write_one_of(&schema.one_of, buf, index, has_previous)?;
    has_previous = has_previous || schema.one_of.is_some();
    index = schema.enumeration.serialize_field("enum", buf, index, has_previous)?;
    Ok(index)
}

/// Whether a schema has any of the members that [`schema_value_members`] lists.
fn has_value_members(schema: &DataSchema) -> (r: bool)
    ensures
        r == (schema_value_members(schema).len() > 0),
{
    proof {
        reveal(with_field);
        lemma_schema_value_members(schema);
        lemma_one_of_value(&schema.one_of);
    }
    schema.constant.is_some()
        || schema.default.is_some()
        || schema.unit.is_some()
        || schema.one_of.is_some()
        || schema.enumeration.is_some()
}

/// Writes the members of a schema that [`schema_kind_members`] lists, without
/// braces.
fn write_kind_members(
    schema: &DataSchema,
    buf: &mut [u8],
    index: usize,
    has_previous: bool,
) -> (r: Result<usize, SerializationError>)
    ensures
        emitted(
            old(buf)@,
            final(buf)@,
            index,
            members_text(schema_kind_members(schema), has_previous),
            r,
        ),
{
    proof {
        let (b, at) = (buf@, index as int);
        let m = lemma_nested_opened(b, at, has_previous);
        let previous = has_previous;
        let m = lemma_nested_field_written(
            b,
            at,
            m,
            "readOnly",
            schema.read_only.field_value(),
            has_previous,
            previous,
        );
        let previous = previous || schema.read_only.is_some();
        let m = lemma_nested_field_written(
            b,
            at,
            m,
            "writeOnly",
            schema.write_only.field_value(),
            has_previous,
            previous,
        );
        let previous = previous || schema.write_only.is_some();
        let m = lemma_nested_field_written(
            b,
            at,
            m,
            "format",
            schema.format.field_value(),
            has_previous,
            previous,
        );
        let previous = previous || schema.format.is_some();
        let m = lemma_nested_field_written(
            b,
            at,
            m,
            "type",
            schema.data_type.field_value(),
            has_previous,
            previous,
        );
        let previous = previous || schema.data_type.is_some();
        let m = lemma_nested_field_written(
            b,
            at,
            m,
            "additionalFields",
            schema.additional_fields.field_value(),
            has_previous,
            previous,
        );
    }
    let mut has_previous = has_previous;
    let mut index = index;
    index = schema.read_only.serialize_field("readOnly", buf, index, has_previous)?;
    has_previous = has_previous || schema.read_only.is_some();
    index = schema.write_only.serialize_field("writeOnly", buf, index, has_previous)?;
    has_previous = has_previous || schema.write_only.is_some();
    index = schema.format.serialize_field("format", buf, index, has_previous)?;
    has_previous = has_previous || schema.format.is_some();
    index = schema.data_type.serialize_field("type", buf, index, has_previous)?;
    has_previous = has_previous || schema.data_type.is_some();
    index = schema.additional_fields.serialize_field("additionalFields", buf, index, has_previous)?;
    Ok(index)
}

/// Whether a schema has any of the members that [`schema_kind_members`] lists.
fn has_kind_members(schema: &DataSchema) -> (r: bool)
    ensures
        r == (schema_kind_members(schema).len() > 0),
{
    proof {
        reveal(with_field);
    }
    schema.read_only.is_some()
        || schema.write_only.is_some()
        || schema.format.is_some()
        || schema.data_type.is_some()
        || schema.additional_fields.is_some()
}

/// Writes the members of a schema, without braces.
fn write_schema_members(
    schema: &DataSchema,
    buf: &mut [u8],
    index: usize,
    has_previous: bool,
) -> (r: Result<usize, SerializationError>)
    ensures
        emitted(old(buf)@, final(buf)@, index, members_text(schema_members(schema), has_previous), r),
    decreases schema, 1nat,
{
    proof {
        lemma_schema_members(schema);
        let (b, at) = (buf@, index as int);
        let m = lemma_nested_opened(b, at, has_previous);
        let previous = has_previous;
        let m = lemma_nested_members_written(
            b,
            at,
            m,
            schema_descriptive_members(schema),
            has_previous,
            previous,
        );
        let previous = previous || schema_descriptive_members(schema).len() > 0;
        let m = lemma_nested_members_written(
            b,
            at,
            m,
            schema_value_members(schema),
            has_previous,
            previous,
        );
        let previous = previous || schema_value_members(schema).len() > 0;
        let m = lemma_nested_members_written(
            b,
            at,
            m,
            schema_kind_members(schema),
            has_previous,
            previous,
        );
    }
    let mut has_previous = has_previous;
    let mut index = index;
    index = write_descriptive_members(schema, buf, index, has_previous)?;
    has_previous = has_previous || has_descriptive_members(schema);
    index = write_value_members(schema, buf, index, has_previous)?;
    has_previous = has_previous || has_value_members(schema);
    index = write_kind_members(schema, buf, index, has_previous)?;
    Ok(index)
}

/// Writes the JSON text of a schema.
fn write_schema(schema: &DataSchema, buf: &mut [u8], index: usize) -> (r: Result<
    usize,
    SerializationError,
>)
    ensures
        emitted(old(buf)@, final(buf)@, index, schema_text(schema), r),
    decreases schema, 2nat,
{
    proof {
        lemma_literals();
        let (b, at) = (buf@, index as int);
        let m = lemma_object_opened(b, at);
        let m = lemma_nested_written(b, at, m, schema_members(schema), false);
        lemma_members_nested_alone(schema_members(schema));
        lemma_schema_text(schema);
        lemma_object_closed(b, at, m);
    }
    let mut index = "{".to_json_string(buf, index)?;
    index = write_schema_members(schema, buf, index, false)?;
    index = "}".to_json_string(buf, index)?;
    Ok(index)
}

impl<'a> DataSchema<'a> {
    /// The members of the rendered object.
    pub open spec fn members(&self) -> Seq<(Seq<u8>, Seq<u8>)> {
        schema_members(self)
    }

    /// With no field set, the schema is written as an object without
    /// members.
    pub proof fn lemma_only_mandatory(&self)
        requires
            self.json_ld_type is None,
            self.title is None,
            self.titles is None,
            self.description is None,
            self.descriptions is None,
            self.constant is None,
            self.default is None,
            self.unit is None,
            self.one_of is None,
            self.enumeration is None,
            self.read_only is None,
            self.write_only is None,
            self.format is None,
            self.data_type is None,
            self.additional_fields is None,
        ensures
            self.members() == no_members(),
    {
        reveal(with_field);
        lemma_one_of_value(&self.one_of);
        lemma_schema_members(self);
        lemma_schema_value_members(self);
        lemma_members_nested_alone(no_members());
    }

    /// Writes the members at the cursor, without braces, so that they become
    /// members of the object that is being written. A comma goes in front of
    /// the first member that is written where `has_previous` is set.
    pub fn serialize_to_map(&self, buf: &mut [u8], index: usize, has_previous: bool) -> (r: Result<
        usize,
        SerializationError,
    >)
        ensures
            emitted(old(buf)@, final(buf)@, index, members_text(self.members(), has_previous), r),
    {
        write_schema_members(self, buf, index, has_previous)
    }
}

impl<'a> NestedJsonValue for DataSchema<'a> {
    open spec fn members(&self) -> Seq<(Seq<u8>, Seq<u8>)> {
        schema_members(self)
    }

    fn to_nested_json_value(&self, buf: &mut [u8], index: usize, has_previous: bool) -> (r: Result<
        usize,
        SerializationError,
    >) {
        assert(NestedJsonValue::members(self) == schema_members(self));
        write_schema_members(self, buf, index, has_previous)
    }
}

impl<'a> JsonValue for DataSchema<'a> {
    open spec fn json_value(&self) -> Seq<u8> {
        schema_text(self)
    }

    fn to_json_value(&self, buf: &mut [u8], index: usize) -> (r: Result<
        usize,
        SerializationError,
    >) {
        assert(self.json_value() == schema_text(self));
        write_schema(self, buf, index)
    }
}

/// The kind of the values that a schema speaks of. Each is written as its
/// name in lower case.
#[derive(Debug)]
pub enum DataType {
    Object,
    Array,
    String,
    Number,
    Integer,
    Boolean,
    Null,
}

impl DataType {
    /// The name under which the value is written.
    pub open spec fn name(&self) -> Seq<char> {
        match self {
            DataType::Object => "object"@,
            DataType::Array => "array"@,
            DataType::String => "string"@,
            DataType::Number => "number"@,
            DataType::Integer => "integer"@,
            DataType::Boolean => "boolean"@,
            DataType::Null => "null"@,
        }
    }

    /// The name under which the value is written.
    pub fn as_str(&self) -> (r: &'static str)
        ensures
            r@ == self.name(),
    {
        match self {
            DataType::Object => "object",
            DataType::Array => "array",
            DataType::String => "string",
            DataType::Number => "number",
            DataType::Integer => "integer",
            DataType::Boolean => "boolean",
            DataType::Null => "null",
        }
    }
}

impl JsonValue for DataType {
    open spec fn json_value(&self) -> Seq<u8> {
        quoted(bytes_of(self.name()))
    }

    fn to_json_value(&self, buf: &mut [u8], index: usize) -> (r: Result<
        usize,
        SerializationError,
    >) {
        let name = self.as_str();
        assert(self.json_value() == name.json_value());
        name.to_json_value(buf, index)
    }
}

/// A value as a data schema names it: as a constant, as a default or as one
/// of the values of an enumeration.
#[derive(Debug)]
pub enum DataStructure<'a> {
    Null,
    String(&'a str),
    Integer(i64),
    Number(Decimal<'a>),
    Object(LinkedMap<'a, &'a DataStructure<'a>>),
    Array(Array<'a, &'a DataStructure<'a>>),
}

/// An object with one member: the name of a variant and what the variant
/// holds.
pub open spec fn tagged(tag: &str, value: Seq<u8>) -> Seq<u8> {
    object_text(no_members().field(tag, Some(value)))
}

/// The JSON texts of the values of a sequence of values.
#[verifier::opaque]
pub open spec fn structure_items(list: &Array<&DataStructure>) -> Seq<Seq<u8>>
    decreases list,
{
    Seq::new(
        list@.len(),
        |i: int|
            if 0 <= i < list@.len() {
                proof {
                    list.lemma_values_decrease(i);
                }
                structure_text(list@[i])
            } else {
                Seq::empty()
            },
    )
}

/// The members that the entries of an association of values are written as.
#[verifier::opaque]
pub open spec fn structure_members(map: &LinkedMap<&DataStructure>) -> Seq<(Seq<u8>, Seq<u8>)>
    decreases map,
{
    Seq::new(
        map@.len(),
        |i: int|
            if 0 <= i < map@.len() {
                proof {
                    map.lemma_values_decrease(i);
                }
                (bytes_of(map@[i].0), structure_text(map@[i].1))
            } else {
                (Seq::empty(), Seq::empty())
            },
    )
}

/// The JSON text of a value. The null value is written as the text `"Null"`;
/// every other value as an object with one member, whose key names the kind
/// of the value: `String`, `Integer`, `Number`, `Object` or `Array`.
#[verifier::opaque]
pub open spec fn structure_text(value: &DataStructure) -> Seq<u8>
    decreases value,
{
    match value {
        DataStructure::Null => quoted(bytes_of("Null"@)),
        DataStructure::String(text) => tagged("String", quoted(bytes_of(text@))),
        DataStructure::Integer(number) => tagged("Integer", decimal_text(*number as int)),
        DataStructure::Number(number) => tagged("Number", number.json_value()),
        DataStructure::Object(map) => tagged("Object", object_text(structure_members(map))),
        DataStructure::Array(list) => tagged("Array", array_text(structure_items(list))),
    }
}

/// The texts of a sequence of values are the texts of its values, in order.
pub proof fn lemma_structure_items(list: &Array<&DataStructure>)
    ensures
        structure_items(list).len() == list@.len(),
        forall|i: int|
            0 <= i < list@.len() ==> #[trigger] structure_items(list)[i] == structure_text(list@[i]),
{
    reveal_with_fuel(structure_items, 2);
    reveal_with_fuel(structure_members, 2);
    reveal_with_fuel(structure_text, 2);
}

/// The members of an association of values are its entries, in order, each
/// value as its text.
pub proof fn lemma_structure_members(map: &LinkedMap<&DataStructure>)
    ensures
        structure_members(map).len() == map@.len(),
        forall|i: int|
            0 <= i < map@.len() ==> #[trigger] structure_members(map)[i] == (
                bytes_of(map@[i].0),
                structure_text(map@[i].1),
            ),
{
    reveal_with_fuel(structure_items, 2);
    reveal_with_fuel(structure_members, 2);
    reveal_with_fuel(structure_text, 2);
}

/// The text of a value, kind by kind.
pub proof fn lemma_structure_text(value: &DataStructure)
    ensures
        structure_text(value) == match value {
            DataStructure::Null => quoted(bytes_of("Null"@)),
            DataStructure::String(text) => tagged("String", quoted(bytes_of(text@))),
            DataStructure::Integer(number) => tagged("Integer", decimal_text(*number as int)),
            DataStructure::Number(number) => tagged("Number", number.json_value()),
            DataStructure::Object(map) => tagged("Object", object_text(structure_members(map))),
            DataStructure::Array(list) => tagged("Array", array_text(structure_items(list))),
        },
{
    reveal_with_fuel(structure_items, 2);
    reveal_with_fuel(structure_members, 2);
    reveal_with_fuel(structure_text, 2);
}

/// A tagged value is an opening brace, the key, the value and a closing
/// brace.
pub proof fn lemma_tagged(tag: &str, value: Seq<u8>)
    ensures
        tagged(tag, value) == seq![0x7bu8] + key_text(bytes_of(tag@)) + value + seq![0x7du8],
{
    reveal(object_prefix);
    reveal(optional_field_text);
    reveal_with_fuel(members_text, 2);
    lemma_object_prefix_field(no_members(), tag, Some(value));
    assert(object_prefix(no_members()) =~= seq![0x7bu8]);
    assert(tagged(tag, value) =~= seq![0x7bu8] + key_text(bytes_of(tag@)) + value + seq![0x7du8]);
}

/// Writes the opening brace and the key of a tagged value.
fn open_tagged(tag: &str, buf: &mut [u8], index: usize) -> (r: Result<usize, SerializationError>)
    ensures
        emitted(old(buf)@, final(buf)@, index, seq![0x7bu8] + key_text(bytes_of(tag@)), r),
{
    broadcast use lemma_overwrite_keeps, lemma_overwrite_twice;

    proof {
        lemma_literals();
    }
    let index = "{".to_json_string(buf, index)?;
    tag.to_json_key(buf, index)
}

/// Writes the values of a sequence as a JSON array.
fn write_structure_array(list: &Array<&DataStructure>, buf: &mut [u8], index: usize) -> (r: Result<
    usize,
    SerializationError,
>)
    ensures
        emitted(old(buf)@, final(buf)@, index, array_text(structure_items(list)), r),
    decreases list, 0nat,
{
    proof {
        lemma_literals();
        lemma_array_opened(buf@, index as int);
    }
    let ghost items = structure_items(list);
    proof {
        lemma_structure_items(list);
    }
    let mut rest = list.iter();
    let mut cursor = "[".to_json_string(buf, index)?;
    let mut first = true;
    let ghost mut done: int = 0;
    loop
        invariant
            items == structure_items(list),
            0 <= done <= items.len(),
            first == (done == 0),
            items.len() == list@.len() == done + rest@.len(),
            forall|k: int| 0 <= k < rest@.len() ==> list@[done + k] == #[trigger] rest@[k],
            buf@.len() == old(buf)@.len(),
            index + array_prefix(items.take(done)).len() == cursor <= buf@.len(),
            buf@ == overwrite(old(buf)@, index as int, array_prefix(items.take(done))),
        ensures
            done == items.len(),
        decreases rest@.len(),
    {
        let ghost left = rest@;
        let ghost front = items.take(done);
        match rest.next() {
            Some(value) => {
                proof {
                    lemma_literals();
                    lemma_structure_items(list);
                    assert(list@[done] == left[0]);
                    assert(items[done] == structure_text(list@[done]));
                    assert(items.take(done + 1) =~= front.push(items[done]));
                    assert(items.take(items.len() as int) =~= items);
                    lemma_array_prefix_grows(items, done + 1, items.len() as int);
                    lemma_item_written(old(buf)@, index as int, front, items[done]);
                    lemma_overwrite_keeps(old(buf)@, index as int, array_prefix(front));
                    list.lemma_values_decrease(done);
                }
                if !first {
                    cursor = ",".to_json_string(buf, cursor)?;
                    proof {
                        lemma_overwrite_keeps(
                            overwrite(old(buf)@, index as int, array_prefix(front)),
                            cursor - 1,
                            seq![0x2cu8],
                        );
                    }
                }
                cursor = write_structure(value, buf, cursor)?;
                first = false;
                proof {
                    done = done + 1;
                }
            },
            None => {
                break ;
            },
        }
    }
    proof {
        assert(items.take(done) =~= items);
        lemma_array_closed(old(buf)@, index as int, items);
        lemma_overwrite_keeps(old(buf)@, index as int, array_prefix(items));
    }
    cursor = "]".to_json_string(buf, cursor)?;
    Ok(cursor)
}

/// Writes the entries of an association of values as a JSON object.
fn write_structure_object(map: &LinkedMap<&DataStructure>, buf: &mut [u8], index: usize) -> (r:
    Result<usize, SerializationError>)
    ensures
        emitted(old(buf)@, final(buf)@, index, object_text(structure_members(map)), r),
    decreases map, 0nat,
{
    let ghost members = structure_members(map);
    proof {
        lemma_literals();
        lemma_structure_members(map);
        let m = lemma_object_opened(buf@, index as int);
        assert(members.take(0) =~= m);
    }
    let mut rest = map.iter();
    let mut cursor = "{".to_json_string(buf, index)?;
    let mut first = true;
    let ghost mut done: int = 0;
    loop
        invariant
            members == structure_members(map),
            0 <= done <= members.len(),
            first == (done == 0),
            members.len() == map@.len() == done + rest@.len(),
            forall|k: int| 0 <= k < rest@.len() ==> map@[done + k] == #[trigger] rest@[k],
            buf@.len() == old(buf)@.len(),
            index + object_prefix(members.take(done)).len() == cursor <= buf@.len(),
            buf@ == overwrite(old(buf)@, index as int, object_prefix(members.take(done))),
        ensures
            done == members.len(),
        decreases rest@.len(),
    {
        let ghost left = rest@;
        let ghost front = members.take(done);
        match rest.next() {
            Some(item) => {
                proof {
                    lemma_structure_members(map);
                    assert(map@[done] == left[0]);
                    assert(members[done] == (
                        bytes_of(map@[done].0),
                        structure_text(map@[done].1),
                    ));
                    assert(members.take(done + 1) =~= front.push(members[done]));
                    assert(members.take(members.len() as int) =~= members);
                    lemma_object_prefix_grows(members, done + 1, members.len() as int);
                    lemma_object_prefix_push(front, members[done]);
                    lemma_member_written(old(buf)@, index as int, front, members[done]);
                    lemma_overwrite_keeps(old(buf)@, index as int, object_prefix(front));
                    map.lemma_values_decrease(done);
                }
                cursor = write_structure_member(item.key, item.value, buf, cursor, !first)?;
                first = false;
                proof {
                    done = done + 1;
                }
            },
            None => {
                break ;
            },
        }
    }
    proof {
        lemma_literals();
        assert(members.take(done) =~= members);
        lemma_object_closed(old(buf)@, index as int, members);
        lemma_overwrite_keeps(old(buf)@, index as int, object_prefix(members));
    }
    cursor = "}".to_json_string(buf, cursor)?;
    Ok(cursor)
}

/// Writes one entry of an association of values as a member, behind a comma
/// where `has_previous` is set.
fn write_structure_member(
    key: &str,
    value: &DataStructure,
    buf: &mut [u8],
    index: usize,
    has_previous: bool,
) -> (r: Result<usize, SerializationError>)
    ensures
        emitted(
            old(buf)@,
            final(buf)@,
            index,
            optional_field_text(bytes_of(key@), Some(structure_text(value)), has_previous),
            r,
        ),
    decreases value, 1nat,
{
    broadcast use lemma_overwrite_keeps, lemma_overwrite_twice;

    proof {
        lemma_literals();
        reveal(optional_field_text);
    }
    let mut index = index;
    if has_previous {
        index = ",".to_json_string(buf, index)?;
    }
    index = key.to_json_key(buf, index)?;
    index = write_structure(value, buf, index)?;
    Ok(index)
}

/// Writes the JSON text of a value.
fn write_structure(value: &DataStructure, buf: &mut [u8], index: usize) -> (r: Result<
    usize,
    SerializationError,
>)
    ensures
        emitted(old(buf)@, final(buf)@, index, structure_text(value), r),
    decreases value, 0nat,
{
    broadcast use lemma_overwrite_keeps, lemma_overwrite_twice;

    proof {
        lemma_literals();
        lemma_structure_text(value);
    }
    match value {
        DataStructure::Null => "Null".to_json_value(buf, index),
        DataStructure::String(text) => {
            proof {
                lemma_tagged("String", quoted(bytes_of(text@)));
            }
            let mut index = open_tagged("String", buf, index)?;
            index = text.to_json_value(buf, index)?;
            "}".to_json_string(buf, index)
        },
        DataStructure::Integer(number) => {
            proof {
                lemma_tagged("Integer", decimal_text(*number as int));
            }
            let mut index = open_tagged("Integer", buf, index)?;
            index = number.to_json_value(buf, index)?;
            "}".to_json_string(buf, index)
        },
        DataStructure::Number(number) => {
            proof {
                lemma_tagged("Number", number.json_value());
            }
            let mut index = open_tagged("Number", buf, index)?;
            index = number.to_json_value(buf, index)?;
            "}".to_json_string(buf, index)
        },
        DataStructure::Object(map) => {
            proof {
                lemma_tagged("Object", object_text(structure_members(map)));
            }
            let mut index = open_tagged("Object", buf, index)?;
            index = write_structure_object(map, buf, index)?;
            "}".to_json_string(buf, index)
        },
        DataStructure::Array(list) => {
            proof {
                lemma_tagged("Array", array_text(structure_items(list)));
            }
            let mut index = open_tagged("Array", buf, index)?;
            index = write_structure_array(list, buf, index)?;
            "}".to_json_string(buf, index)
        },
    }
}

impl<'a> JsonValue for DataStructure<'a> {
    open spec fn json_value(&self) -> Seq<u8> {
        structure_text(self)
    }

    fn to_json_value(&self, buf: &mut [u8], index: usize) -> (r: Result<
        usize,
        SerializationError,
    >) {
        assert(self.json_value() == structure_text(self));
        write_structure(self, buf, index)
    }
}

} // verus!
