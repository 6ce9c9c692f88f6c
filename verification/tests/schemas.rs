use wot_td_embedded::data_structures::array::{Array, ArrayEntry};
use wot_td_embedded::data_structures::map::{LinkedMap, MapEntry};
use wot_td_embedded::data_structures::VecMap;
use wot_td_embedded::decimal::{is_number_text, Decimal};
use wot_td_embedded::models::action::Action;
use wot_td_embedded::models::common::CommonFields;
use wot_td_embedded::models::data_schema::array_schema::ArraySchema;
use wot_td_embedded::models::data_schema::integer_schema::IntegerSchema;
use wot_td_embedded::models::data_schema::number_schema::NumberSchema;
use wot_td_embedded::models::data_schema::object_schema::ObjectSchema;
use wot_td_embedded::models::data_schema::string_schema::StringSchema;
use wot_td_embedded::models::data_schema::{DataSchema, DataStructure, DataType};
use wot_td_embedded::models::event::Event;
use wot_td_embedded::models::form::Form;
use wot_td_embedded::models::interaction_affordances::InteractionAffordancesBuilder;
use wot_td_embedded::models::property::Property;
use wot_td_embedded::models::security_definition::ace::AceSecurityScheme;
use wot_td_embedded::models::security_definition::api_key::ApiKeySecurityScheme;
use wot_td_embedded::models::security_definition::basic::BasicSecurityScheme;
use wot_td_embedded::models::security_definition::bearer::BearerSecurityScheme;
use wot_td_embedded::models::security_definition::combo::{ComboSecurityScheme, ComboVariant};
use wot_td_embedded::models::security_definition::digest::DigestSecurityScheme;
use wot_td_embedded::models::security_definition::oauth2::Oauth2SecurityScheme;
use wot_td_embedded::models::security_definition::psk::PskSecurityScheme;
use wot_td_embedded::models::security_definition::{In, QoP, SecurityScheme, SecuritySchemeType};
use wot_td_embedded::serialization::{JsonValue, NestedJsonValue, SerializationError, ToJson};

fn text_of<T: JsonValue>(value: &T) -> String {
    let mut buf = [0u8; 512];
    let length = value.to_json_value(&mut buf, 0).unwrap();
    String::from_utf8(buf[..length].to_vec()).unwrap()
}

fn members_of<T: NestedJsonValue>(value: &T, has_previous: bool) -> String {
    let mut buf = [0u8; 512];
    let length = value.to_nested_json_value(&mut buf, 0, has_previous).unwrap();
    String::from_utf8(buf[..length].to_vec()).unwrap()
}

fn scheme_text(scheme: SecuritySchemeType) -> String {
    text_of(&SecurityScheme::builder(scheme).build())
}

#[test]
fn data_structure_null_is_written_as_a_name() {
    assert_eq!(text_of(&DataStructure::Null), r#""Null""#);
}

#[test]
fn data_structure_is_written_under_the_name_of_its_kind() {
    assert_eq!(text_of(&DataStructure::String("on")), r#"{"String":"on"}"#);
    assert_eq!(text_of(&DataStructure::Integer(-12)), r#"{"Integer":-12}"#);
    assert_eq!(text_of(&DataStructure::Number(Decimal::new("3.5").unwrap())), r#"{"Number":3.5}"#);
    assert_eq!(text_of(&DataStructure::Number(Decimal::new("-1e-7").unwrap())), r#"{"Number":-1e-7}"#);
}

#[test]
fn data_structure_array_holds_values_of_every_kind() {
    let null = DataStructure::Null;
    let number = DataStructure::Integer(3);
    let text = DataStructure::String("x");
    let mut first = ArrayEntry::new(&text);
    let mut second = ArrayEntry::new(&number);
    let mut third = ArrayEntry::new(&null);
    let list = Array::new().add(&mut first).add(&mut second).add(&mut third);
    let value = DataStructure::Array(list);
    assert_eq!(text_of(&value), r#"{"Array":["Null",{"Integer":3},{"String":"x"}]}"#);
    assert_eq!(text_of(&DataStructure::Array(Array::new())), r#"{"Array":[]}"#);
}

#[test]
fn data_structure_object_holds_entries() {
    let on = DataStructure::String("on");
    let level = DataStructure::Integer(7);
    let mut first = MapEntry::new("level", &level);
    let mut second = MapEntry::new("state", &on);
    let map = LinkedMap::new().add(&mut first).add(&mut second);
    let value = DataStructure::Object(map);
    assert_eq!(text_of(&value), r#"{"Object":{"state":{"String":"on"},"level":{"Integer":7}}}"#);
    assert_eq!(text_of(&DataStructure::Object(LinkedMap::new())), r#"{"Object":{}}"#);
}

#[test]
fn data_structure_nests() {
    let inner_value = DataStructure::Integer(1);
    let mut inner_entry = ArrayEntry::new(&inner_value);
    let inner = DataStructure::Array(Array::new().add(&mut inner_entry));
    let mut entry = MapEntry::new("list", &inner);
    let outer = DataStructure::Object(LinkedMap::new().add(&mut entry));
    assert_eq!(text_of(&outer), r#"{"Object":{"list":{"Array":[{"Integer":1}]}}}"#);
}

#[test]
fn data_structure_fails_when_it_does_not_fit() {
    let value = DataStructure::Integer(5);
    let mut buf = [0u8; 13];
    assert_eq!(value.to_json(&mut buf), Ok(13));
    assert_eq!(&buf, br#"{"Integer":5}"#);
    let mut buf = [0u8; 12];
    assert_eq!(value.to_json(&mut buf), Err(SerializationError));
}

#[test]
fn data_types_are_written_in_lower_case() {
    assert_eq!(text_of(&DataType::Object), r#""object""#);
    assert_eq!(text_of(&DataType::Array), r#""array""#);
    assert_eq!(text_of(&DataType::String), r#""string""#);
    assert_eq!(text_of(&DataType::Number), r#""number""#);
    assert_eq!(text_of(&DataType::Integer), r#""integer""#);
    assert_eq!(text_of(&DataType::Boolean), r#""boolean""#);
    assert_eq!(text_of(&DataType::Null), r#""null""#);
}

#[test]
fn data_schema_without_fields() {
    let schema = DataSchema::builder().build();
    assert_eq!(text_of(&schema), "{}");
    assert_eq!(members_of(&schema, false), "");
    assert_eq!(members_of(&schema, true), "");
}

#[test]
fn data_schema_without_fields_writes_nothing_wherever_the_cursor_stands() {
    let schema = DataSchema::builder().build();
    let mut buf = [b'.'; 2];
    assert_eq!(schema.serialize_to_map(&mut buf, 7, true), Ok(7));
    assert_eq!(schema.to_json_value(&mut buf, 7), Err(SerializationError));
    assert_eq!(schema.to_json_value(&mut buf, 0), Ok(2));
    assert_eq!(&buf, b"{}");
}

#[test]
fn data_schema_with_every_field() {
    let mut en = MapEntry::new("en", "Level");
    let titles = LinkedMap::new().add(&mut en);
    let mut de = MapEntry::new("de", "Die Stufe");
    let descriptions = LinkedMap::new().add(&mut de);
    let mut type_entry = ArrayEntry::new("saref:Level");
    let types = Array::new().add(&mut type_entry);
    let alternative = DataSchema::builder().data_type(DataType::Null).build();
    let mut alternative_entry = ArrayEntry::new(&alternative);
    let alternatives = Array::new().add(&mut alternative_entry);
    let mut low = ArrayEntry::new(DataStructure::Integer(1));
    let mut high = ArrayEntry::new(DataStructure::Integer(2));
    let values = Array::new().add(&mut high).add(&mut low);
    let extra_value = DataStructure::String("v");
    let mut extra_entry = MapEntry::new("x", extra_value);
    let extra = LinkedMap::new().add(&mut extra_entry);

    let schema = DataSchema::builder()
        .json_ld_type(types)
        .title("Level")
        .titles(&titles)
        .description("The level")
        .descriptions(&descriptions)
        .constant(DataStructure::Integer(1))
        .default(DataStructure::Null)
        .unit("percent")
        .one_of(alternatives)
        .enumeration(values)
        .read_only(true)
        .write_only(false)
        .format("f")
        .data_type(DataType::Integer)
        .additional_fields(&extra)
        .build();
    let expected = r#"{"@type":["saref:Level"],"title":"Level","titles":{"en":"Level"},"description":"The level","descriptions":{"de":"Die Stufe"},"constant":{"Integer":1},"default":"Null","unit":"percent","oneOf":[{"type":"null"}],"enum":[{"Integer":1},{"Integer":2}],"readOnly":true,"writeOnly":false,"format":"f","type":"integer","additionalFields":{"x":{"String":"v"}}}"#;
    assert_eq!(text_of(&schema), expected);
}

#[test]
fn data_schema_has_no_comma_in_front_of_its_first_member() {
    assert_eq!(text_of(&DataSchema::builder().unit("m").build()), r#"{"unit":"m"}"#);
    assert_eq!(text_of(&DataSchema::builder().format("date").build()), r#"{"format":"date"}"#);
    assert_eq!(
        text_of(&DataSchema::builder().description("d").write_only(true).build()),
        r#"{"description":"d","writeOnly":true}"#
    );
    assert_eq!(
        text_of(&DataSchema::builder().default(DataStructure::Integer(0)).data_type(DataType::Integer).build()),
        r#"{"default":{"Integer":0},"type":"integer"}"#
    );
}

#[test]
fn data_schema_members_go_behind_a_comma_where_a_member_is_in_front() {
    let schema = DataSchema::builder().title("t").read_only(true).build();
    assert_eq!(members_of(&schema, false), r#""title":"t","readOnly":true"#);
    assert_eq!(members_of(&schema, true), r#","title":"t","readOnly":true"#);
    let mut buf = [0u8; 64];
    let length = schema.serialize_to_map(&mut buf, 0, true).unwrap();
    assert_eq!(&buf[..length], br#","title":"t","readOnly":true"#);
}

#[test]
fn data_schema_alternatives_nest() {
    let leaf = DataSchema::builder().data_type(DataType::Boolean).build();
    let other = DataSchema::builder().data_type(DataType::Null).build();
    let mut leaf_entry = ArrayEntry::new(&leaf);
    let mut other_entry = ArrayEntry::new(&other);
    let middle = DataSchema::builder()
        .title("m")
        .one_of(Array::new().add(&mut leaf_entry).add(&mut other_entry))
        .build();
    let mut middle_entry = ArrayEntry::new(&middle);
    let top = DataSchema::builder().one_of(Array::new().add(&mut middle_entry)).unit("u").build();
    assert_eq!(
        text_of(&top),
        r#"{"unit":"u","oneOf":[{"title":"m","oneOf":[{"type":"null"},{"type":"boolean"}]}]}"#
    );
    assert_eq!(text_of(&DataSchema::builder().one_of(Array::new()).build()), r#"{"oneOf":[]}"#);
}

#[test]
fn data_schema_fails_when_it_does_not_fit() {
    let schema = DataSchema::builder().title("t").data_type(DataType::Null).build();
    let expected = r#"{"title":"t","type":"null"}"#;
    let mut buf = vec![0u8; expected.len()];
    assert_eq!(schema.to_json(&mut buf), Ok(expected.len()));
    for size in 0..expected.len() {
        let mut buf = vec![0u8; size];
        assert_eq!(schema.to_json(&mut buf), Err(SerializationError));
    }
}

#[test]
fn integer_schema_members() {
    let schema = IntegerSchema {
        minimum: Some(-5),
        maximum: Some(5),
        exclusive_minimum: Some(-6),
        exclusive_maximum: Some(6),
        multiple_of: Some(2),
    };
    assert_eq!(
        members_of(&schema, false),
        r#""minimum":-5,"maximum":5,"exclusiveMinimum":-6,"exclusiveMaximum":6,"multipleOf":2"#
    );
    let schema = IntegerSchema {
        minimum: None,
        maximum: Some(5),
        exclusive_minimum: None,
        exclusive_maximum: None,
        multiple_of: Some(2),
    };
    assert_eq!(members_of(&schema, false), r#""maximum":5,"multipleOf":2"#);
    assert_eq!(members_of(&schema, true), r#","maximum":5,"multipleOf":2"#);
    let mut buf = [0u8; 64];
    let length = schema.serialize_to_map(&mut buf, 0, false).unwrap();
    assert_eq!(&buf[..length], br#""maximum":5,"multipleOf":2"#);
}

#[test]
fn number_schema_members() {
    let schema = NumberSchema {
        minimum: Decimal::new("-0.5"),
        maximum: Decimal::new("100"),
        exclusive_minimum: Decimal::new("-1"),
        exclusive_maximum: Decimal::new("1.5e2"),
        multiple_of: Decimal::new("0.25"),
    };
    assert_eq!(
        members_of(&schema, false),
        r#""minimum":-0.5,"maximum":100,"exclusiveMinimum":-1,"exclusiveMaximum":1.5e2,"multipleOf":0.25"#
    );
    let schema = NumberSchema {
        minimum: None,
        maximum: None,
        exclusive_minimum: None,
        exclusive_maximum: Decimal::new("7.5"),
        multiple_of: None,
    };
    assert_eq!(members_of(&schema, false), r#""exclusiveMaximum":7.5"#);
    assert_eq!(members_of(&schema, true), r#","exclusiveMaximum":7.5"#);
}

#[test]
fn decimal_takes_json_numbers() {
    for text in ["0", "-0", "7", "10", "-12", "3.5", "0.25", "-0.5", "1e5", "1E5", "1e+5", "2.5e-3", "120.040E+07"] {
        assert!(is_number_text(text.as_bytes()), "{}", text);
        let number = Decimal::new(text).unwrap();
        assert_eq!(number.as_str(), text);
        assert_eq!(text_of(&number), text);
    }
}

#[test]
fn decimal_refuses_what_is_no_json_number() {
    for text in [
        "", "-", "+1", "01", "-01", "00", ".5", "5.", "1.e2", "1e", "1e+", "1e-", "e5", "1.5.2", "1e5e5",
        "1 ", " 1", "0x10", "NaN", "Infinity", "1,5", "--1", "1-", "٣",
    ] {
        assert!(!is_number_text(text.as_bytes()), "{}", text);
        assert!(Decimal::new(text).is_none(), "{}", text);
    }
}

#[test]
fn decimal_fails_when_it_does_not_fit() {
    let number = Decimal::new("12.5").unwrap();
    let mut buf = [0u8; 4];
    assert_eq!(number.to_json(&mut buf), Ok(4));
    assert_eq!(&buf, b"12.5");
    let mut buf = [0u8; 3];
    assert_eq!(number.to_json(&mut buf), Err(SerializationError));
    assert_eq!(number.to_json_value(&mut buf, 4), Err(SerializationError));
}

#[test]
fn string_schema_members() {
    let schema = StringSchema {
        min_length: Some(1),
        max_length: Some(8),
        pattern: Some("[a-z]+"),
        content_encoding: Some("base64"),
        content_media_type: Some("image/png"),
    };
    assert_eq!(
        members_of(&schema, false),
        r#""minLength":1,"maxLength":8,"pattern":"[a-z]+","contentEncoding":"base64","contentMediaType":"image/png""#
    );
    let schema = StringSchema {
        min_length: None,
        max_length: None,
        pattern: None,
        content_encoding: None,
        content_media_type: None,
    };
    assert_eq!(members_of(&schema, true), "");
}

#[test]
fn array_schema_members() {
    let item = DataSchema::builder().data_type(DataType::Integer).build();
    let schema = ArraySchema { items: Some(vec![&item]), min_items: Some(1), max_items: Some(4) };
    assert_eq!(members_of(&schema, false), r#""items":[{"type":"integer"}],"minItems":1,"maxItems":4"#);
    let schema = ArraySchema { items: None, min_items: None, max_items: Some(4) };
    assert_eq!(members_of(&schema, true), r#","maxItems":4"#);
}

#[test]
fn object_schema_members() {
    let schema = ObjectSchema {
        properties: Some(VecMap::new(vec![("on", DataSchema::builder().data_type(DataType::Boolean).build())])),
        required: Some(vec!["on"]),
    };
    assert_eq!(members_of(&schema, false), r#""properties":{"on":{"type":"boolean"}},"required":["on"]"#);
    let schema = ObjectSchema { properties: None, required: Some(Vec::new()) };
    assert_eq!(members_of(&schema, false), r#""required":[]"#);
}

#[test]
fn interaction_affordances_members() {
    let affordances = InteractionAffordancesBuilder::new()
        .properties(VecMap::new(vec![(
            "status",
            Property::builder(vec![Form::builder("p").build()], DataSchema::builder().build()).build(),
        )]))
        .actions(VecMap::new(vec![("toggle", Action::builder(vec![Form::builder("a").build()]).build())]))
        .events(VecMap::new(vec![("alarm", Event::builder(vec![Form::builder("e").build()]).build())]))
        .build();
    assert_eq!(
        members_of(&affordances, true),
        r#","properties":{"status":{"forms":[{"href":"p"}]}},"actions":{"toggle":{"forms":[{"href":"a"}]}},"events":{"alarm":{"forms":[{"href":"e"}]}}"#
    );
    let affordances = InteractionAffordancesBuilder::new().events(VecMap::new(Vec::new())).build();
    assert_eq!(members_of(&affordances, false), r#""events":{}"#);
    assert_eq!(members_of(&InteractionAffordancesBuilder::new().build(), true), "");
}

#[test]
fn common_fields_builder_sets_fields() {
    let mut entry = MapEntry::new("de", "Lampe");
    let titles = LinkedMap::new().add(&mut entry);
    let fields = CommonFields::builder().title("Lamp").titles(&titles).description("A lamp").build();
    assert_eq!(fields.title, Some("Lamp"));
    assert_eq!(fields.description, Some("A lamp"));
    assert!(fields.titles.is_some());
    assert!(fields.descriptions.is_none());
}

#[test]
fn security_schemes_without_parameters() {
    assert_eq!(scheme_text(SecuritySchemeType::Nosec), r#"{"scheme":"nosec"}"#);
    assert_eq!(scheme_text(SecuritySchemeType::Auto), r#"{"scheme":"auto"}"#);
}

#[test]
fn security_scheme_with_every_common_field() {
    let mut entry = MapEntry::new("de", "Keine");
    let descriptions = LinkedMap::new().add(&mut entry);
    let mut type_entry = ArrayEntry::new("sec:None");
    let scheme = SecurityScheme::builder(SecuritySchemeType::Nosec)
        .json_ld_type(Array::new().add(&mut type_entry))
        .description("None")
        .descriptions(&descriptions)
        .proxy("coap://proxy.example.org")
        .build();
    assert_eq!(
        text_of(&scheme),
        r#"{"scheme":"nosec","@type":["sec:None"],"description":"None","descriptions":{"de":"Keine"},"proxy":"coap://proxy.example.org"}"#
    );
}

#[test]
fn basic_security_scheme() {
    let basic = BasicSecurityScheme::builder().name("user".to_owned()).in_(In::Header).build();
    assert_eq!(scheme_text(SecuritySchemeType::Basic(basic)), r#"{"scheme":"basic","name":"user","in":"header"}"#);
    let basic = BasicSecurityScheme::builder().build();
    assert_eq!(scheme_text(SecuritySchemeType::Basic(basic)), r#"{"scheme":"basic"}"#);
}

#[test]
fn digest_security_scheme() {
    let digest = DigestSecurityScheme::builder().name("n").in_(In::Query).qop(QoP::AuthInt).build();
    assert_eq!(
        scheme_text(SecuritySchemeType::Digest(digest)),
        r#"{"scheme":"digest","name":"n","in":"query","qop":"auth-int"}"#
    );
    let digest = DigestSecurityScheme::builder().qop(QoP::Auth).build();
    assert_eq!(scheme_text(SecuritySchemeType::Digest(digest)), r#"{"scheme":"digest","qop":"auth"}"#);
}

#[test]
fn api_key_security_scheme() {
    let key = ApiKeySecurityScheme::builder().name("key").in_(In::Cookie).build();
    assert_eq!(scheme_text(SecuritySchemeType::Apikey(key)), r#"{"scheme":"apikey","name":"key","in":"cookie"}"#);
}

#[test]
fn bearer_security_scheme() {
    let bearer = BearerSecurityScheme::builder()
        .authorization("https://as.example.org")
        .name("token")
        .alg("ES256")
        .format("jwt")
        .in_(In::Body)
        .qop(QoP::Auth)
        .build();
    assert_eq!(
        scheme_text(SecuritySchemeType::Bearer(bearer)),
        r#"{"scheme":"bearer","authorization":"https://as.example.org","alg":"ES256","format":"jwt","name":"token","in":"body"}"#
    );
}

#[test]
fn psk_security_scheme() {
    let psk = PskSecurityScheme::builder().authorization("device-1").build();
    assert_eq!(scheme_text(SecuritySchemeType::Psk(psk)), r#"{"scheme":"psk","identity":"device-1"}"#);
}

#[test]
fn oauth2_security_scheme() {
    let oauth2 = Oauth2SecurityScheme::builder("code")
        .authorization("https://as.example.org/auth")
        .token("https://as.example.org/token")
        .refresh("https://as.example.org/refresh")
        .scopes(vec!["read", "write"])
        .build();
    assert_eq!(
        scheme_text(SecuritySchemeType::Oauth2(oauth2)),
        r#"{"scheme":"oauth2","flow":"code","authorization":"https://as.example.org/auth","token":"https://as.example.org/token","refresh":"https://as.example.org/refresh","scopes":["read","write"]}"#
    );
    let oauth2 = Oauth2SecurityScheme::builder("client").build();
    assert_eq!(scheme_text(SecuritySchemeType::Oauth2(oauth2)), r#"{"scheme":"oauth2","flow":"client"}"#);
}

#[test]
fn ace_security_scheme() {
    let ace = AceSecurityScheme::builder()
        .authorization_server("coaps://as.example.org")
        .audience("lamp")
        .scopes(vec!["toggle"])
        .cnonce(true)
        .build();
    assert_eq!(
        scheme_text(SecuritySchemeType::Ace(ace)),
        r#"{"scheme":"ace:ACESecurityScheme","ace:as":"coaps://as.example.org","ace:audience":"lamp","ace:scopes":["toggle"],"ace:cnonce":true}"#
    );
}

#[test]
fn combo_security_scheme() {
    let all = ComboSecurityScheme::new(ComboVariant::AllOf(vec!["basic_sc", "psk_sc"]));
    assert_eq!(
        scheme_text(SecuritySchemeType::Combo(all)),
        r#"{"scheme":"combo","allOf":["basic_sc","psk_sc"]}"#
    );
    let one = ComboSecurityScheme::new(ComboVariant::OneOf(vec!["basic_sc"]));
    assert_eq!(scheme_text(SecuritySchemeType::Combo(one)), r#"{"scheme":"combo","oneOf":["basic_sc"]}"#);
}

#[test]
fn security_scheme_parameters_stand_in_front_of_the_common_fields() {
    let psk = PskSecurityScheme::builder().authorization("id").build();
    let scheme = SecurityScheme::builder(SecuritySchemeType::Psk(psk)).description("d").build();
    assert_eq!(text_of(&scheme), r#"{"scheme":"psk","identity":"id","description":"d"}"#);
}

#[test]
fn security_scheme_fails_when_it_does_not_fit() {
    let scheme = SecurityScheme::builder(SecuritySchemeType::Nosec).build();
    let mut buf = [0u8; 18];
    assert_eq!(scheme.to_json(&mut buf), Ok(18));
    let mut buf = [0u8; 17];
    assert_eq!(scheme.to_json(&mut buf), Err(SerializationError));
}

#[test]
fn security_scheme_places_are_written_in_lower_case() {
    assert_eq!(text_of(&In::Header), r#""header""#);
    assert_eq!(text_of(&In::Query), r#""query""#);
    assert_eq!(text_of(&In::Body), r#""body""#);
    assert_eq!(text_of(&In::Cookie), r#""cookie""#);
    assert_eq!(text_of(&In::Auto), r#""auto""#);
    assert_eq!(text_of(&QoP::Auth), r#""auth""#);
    assert_eq!(text_of(&QoP::AuthInt), r#""auth-int""#);
}
