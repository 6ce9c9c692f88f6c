use wot_td_embedded::data_structures::VecMap;
use wot_td_embedded::models::action::Action;
use wot_td_embedded::models::additional_expected_response::AdditionalExpectedResponse;
use wot_td_embedded::models::data_schema::{DataSchema, DataType};
use wot_td_embedded::models::event::Event;
use wot_td_embedded::models::expected_response::ExpectedResponse;
use wot_td_embedded::models::form::{Form, FormBuilder, OperationType};
use wot_td_embedded::models::link::Link;
use wot_td_embedded::models::property::Property;
use wot_td_embedded::models::security_definition::{SecurityScheme, SecuritySchemeType};
use wot_td_embedded::models::thing_description::{ContextEntry, ThingDescription};
use wot_td_embedded::models::version_info::VersionInfo;
use wot_td_embedded::serialization::{SerializationError, ToJson};

fn to_string<T: ToJson, const N: usize>(value: &T) -> Result<String, SerializationError> {
    let mut buf = [0u8; N];
    let length = value.to_json(&mut buf)?;
    Ok(String::from_utf8(buf[..length].to_vec()).unwrap())
}

#[test]
fn additional_expected_response_serialize() -> Result<(), SerializationError> {
    let additional_expected_response = AdditionalExpectedResponse::builder()
        .content_type("application/json")
        .success(true)
        .schema("test")
        .build();

    let expected_result = r#"{"success":true,"contentType":"application/json","schema":"test"}"#;
    let actual_result = to_string::<_, 65>(&additional_expected_response)?;

    assert_eq!(expected_result, actual_result.as_str());
    Ok(())
}

#[test]
fn expected_response_serialize() -> Result<(), SerializationError> {
    let additional_expected_response = ExpectedResponse::new("application/json".to_owned());

    let expected_result = r#"{"contentType":"application/json"}"#;
    let actual_result = to_string::<_, 34>(&additional_expected_response)?;

    assert_eq!(expected_result, actual_result.as_str());
    Ok(())
}

#[test]
fn link_serialize() -> Result<(), SerializationError> {
    let additional_expected_response = Link::builder("coap://example.org")
        .link_type("test:testLink")
        .rel("test")
        .anchor("test")
        .hreflang(vec!["de"])
        .build();

    let expected_result = r#"{"href":"coap://example.org","@type":"test:testLink","rel":"test","anchor":"test","hreflang":["de"]}"#;
    let actual_result = to_string::<_, 100>(&additional_expected_response)?;

    assert_eq!(expected_result, actual_result.as_str());
    Ok(())
}

#[test]
fn version_info_serialize() -> Result<(), SerializationError> {
    let additional_expected_response = VersionInfo::builder("v1.0.0").model("v0.1.0").build();

    let expected_result = r#"{"instance":"v1.0.0","model":"v0.1.0"}"#;
    let actual_result = to_string::<_, 50>(&additional_expected_response)?;

    assert_eq!(expected_result, actual_result.as_str());
    Ok(())
}

#[test]
fn serialize_thing_description() -> Result<(), SerializationError> {
    let actions = VecMap::new(vec![
        (
            "toggle",
            Action::builder(vec![FormBuilder::new("coaps://example.org/toggle")
                .op(vec![OperationType::Invokeaction])
                .build()])
            .input(DataSchema::builder().title("Toggle Data").build())
            .build(),
        ),
        (
            "toggle2",
            Action::builder(vec![FormBuilder::new("coaps://example.org/toggle2").build()]).build(),
        ),
    ]);

    let links = vec![Link::new("https://example.org")];
    let json_ld_type = vec!["saref:LightSwitch"];
    const NO_SEC_KEY: &str = "nosec_sc";
    let security = vec![NO_SEC_KEY];

    let security_definitions = VecMap::new(vec![(
        NO_SEC_KEY,
        SecurityScheme::builder(SecuritySchemeType::Nosec).build(),
    )]);

    let properties = VecMap::new(vec![(
        "status",
        Property::builder(
            vec![Form::builder("coaps://example.org/status").build()],
            DataSchema::builder()
                .title("Status")
                .data_type(DataType::Boolean)
                .build(),
        )
        .build(),
    )]);

    let context = vec![
        ContextEntry::default(),
        ContextEntry::MapEntry(VecMap::new(vec![(
            "cov",
            "http://www.example.org/coap-binding#",
        )])),
    ];

    let events = VecMap::new(vec![(
        "overheating",
        Event::builder(vec![
            Form::builder("coaps://example.org/overheating").build()
        ])
        .data(DataSchema::builder().data_type(DataType::Integer).build())
        .build(),
    )]);

    let thing_description = ThingDescription::builder()
        .context(context)
        .title("Test TD")
        .description("Description for the Test TD")
        .json_ld_type(json_ld_type)
        .properties(properties)
        .actions(actions)
        .events(events)
        .links(links)
        .security(security)
        .security_definitions(security_definitions)
        .version(VersionInfo::new("v1.0.0"))
        .build();

    let expected_result = r#"{"@context":["https://www.w3.org/2022/wot/td/v1.1",{"cov":"http://www.example.org/coap-binding#"}],"@type":["saref:LightSwitch"],"title":"Test TD","description":"Description for the Test TD","version":{"instance":"v1.0.0"},"properties":{"status":{"forms":[{"href":"coaps://example.org/status"}],"title":"Status","type":"boolean"}},"actions":{"toggle":{"forms":[{"href":"coaps://example.org/toggle","op":["invokeaction"]}],"input":{"title":"Toggle Data"}},"toggle2":{"forms":[{"href":"coaps://example.org/toggle2"}]}},"events":{"overheating":{"forms":[{"href":"coaps://example.org/overheating"}],"data":{"type":"integer"}}},"links":[{"href":"https://example.org"}],"security":["nosec_sc"],"securityDefinitions":{"nosec_sc":{"scheme":"nosec"}}}"#;
    let actual_result = to_string::<_, 800>(&thing_description)?;

    assert_eq!(expected_result, actual_result.as_str());
    Ok(())
}

#[test]
fn thing_description_with_title_and_description_only() {
    let thing_description = ThingDescription::builder()
        .title("Test")
        .description("Test Description")
        .build();

    let actual_result = to_string::<_, 200>(&thing_description).unwrap();

    assert_eq!(r#"{"title":"Test","description":"Test Description"}"#, actual_result.as_str());
}

#[test]
fn link_with_target_only() {
    assert_eq!(to_string::<_, 64>(&Link::new("coap://example.org")).unwrap(), r#"{"href":"coap://example.org"}"#);
    assert_eq!(
        to_string::<_, 64>(&Link::builder("coap://example.org").build()).unwrap(),
        r#"{"href":"coap://example.org"}"#
    );
}

#[test]
fn link_builder_can_replace_the_target() {
    let link = Link::builder("a").href("b").build();
    assert_eq!(link.href, "b");
    assert_eq!(to_string::<_, 64>(&link).unwrap(), r#"{"href":"b"}"#);
}

#[test]
fn link_writes_sizes_between_anchor_and_hreflang() {
    let mut link = Link::builder("x").anchor("a").hreflang(vec!["de"]).build();
    link.sizes = Some("16x16");
    assert_eq!(
        to_string::<_, 100>(&link).unwrap(),
        r#"{"href":"x","anchor":"a","sizes":"16x16","hreflang":["de"]}"#
    );
}

#[test]
fn version_info_without_model() {
    assert_eq!(to_string::<_, 50>(&VersionInfo::new("v1.0.0")).unwrap(), r#"{"instance":"v1.0.0"}"#);
    let version = VersionInfo::builder("v1").instance("v2").build();
    assert_eq!(to_string::<_, 50>(&version).unwrap(), r#"{"instance":"v2"}"#);
}

#[test]
fn additional_expected_response_without_fields() {
    let response = AdditionalExpectedResponse::builder().build();
    assert_eq!(to_string::<_, 8>(&response).unwrap(), "{}");
}

#[test]
fn additional_expected_response_has_no_comma_in_front_of_its_first_member() {
    let response = AdditionalExpectedResponse::builder().schema("test").build();
    assert_eq!(to_string::<_, 32>(&response).unwrap(), r#"{"schema":"test"}"#);
    let response = AdditionalExpectedResponse::builder()
        .content_type("text/plain")
        .schema("test")
        .build();
    assert_eq!(
        to_string::<_, 64>(&response).unwrap(),
        r#"{"contentType":"text/plain","schema":"test"}"#
    );
    let response = AdditionalExpectedResponse::builder().success(false).build();
    assert_eq!(to_string::<_, 32>(&response).unwrap(), r#"{"success":false}"#);
}

#[test]
fn form_with_every_field() {
    let form = Form::builder("coaps://example.org/status")
        .content_type("application/json")
        .content_coding("gzip")
        .security(vec!["basic_sc"])
        .scopes(vec!["read", "write"])
        .response(ExpectedResponse::new("text/plain".to_owned()))
        .additional_responses(vec![AdditionalExpectedResponse::builder().success(false).build()])
        .subprotocol("longpoll")
        .op(vec![OperationType::Readproperty, OperationType::Writeproperty])
        .build();
    let expected = r#"{"href":"coaps://example.org/status","contentType":"application/json","contentCoding":"gzip","security":["basic_sc"],"scopes":["read","write"],"response":{"contentType":"text/plain"},"additionalResponses":[{"success":false}],"subprotocol":"longpoll","op":["readproperty","writeproperty"]}"#;
    assert_eq!(to_string::<_, 400>(&form).unwrap(), expected);
}

#[test]
fn form_with_target_only() {
    let form = Form::builder("coaps://example.org").build();
    assert_eq!(to_string::<_, 64>(&form).unwrap(), r#"{"href":"coaps://example.org"}"#);
}

#[test]
fn operation_types_are_written_in_lower_case() {
    let all = vec![
        OperationType::Readproperty,
        OperationType::Writeproperty,
        OperationType::Observeproperty,
        OperationType::Unobserveproperty,
        OperationType::Invokeaction,
        OperationType::Queryaction,
        OperationType::Cancelaction,
        OperationType::Subscribeevent,
        OperationType::Unsubscribeevent,
        OperationType::Readallproperties,
        OperationType::Writeallproperties,
        OperationType::Readmultipleproperties,
        OperationType::Writemultipleproperties,
        OperationType::Observeallproperties,
        OperationType::Unobserveallproperties,
        OperationType::Subscribeallevents,
        OperationType::Unsubscribeallevents,
        OperationType::Queryallactions,
    ];
    let expected = r#"["readproperty","writeproperty","observeproperty","unobserveproperty","invokeaction","queryaction","cancelaction","subscribeevent","unsubscribeevent","readallproperties","writeallproperties","readmultipleproperties","writemultipleproperties","observeallproperties","unobserveallproperties","subscribeallevents","unsubscribeallevents","queryallactions"]"#;
    assert_eq!(to_string::<_, 500>(&all).unwrap(), expected);
    assert_eq!(OperationType::Invokeaction.as_str(), "invokeaction");
}

#[test]
fn action_with_every_field() {
    let action = Action::builder(vec![Form::builder("f").build()])
        .json_ld_type(vec!["saref:Toggle"])
        .title("Toggle")
        .titles(VecMap::new(vec![("de", "Umschalten")]))
        .description("Toggles the lamp")
        .descriptions(VecMap::new(vec![("de", "Schaltet die Lampe um")]))
        .input(DataSchema::builder().data_type(DataType::Boolean).build())
        .output(DataSchema::builder().data_type(DataType::Null).build())
        .safe(false)
        .idempotent(true)
        .synchronous(true)
        .build();
    let expected = r#"{"forms":[{"href":"f"}],"@type":["saref:Toggle"],"title":"Toggle","titles":{"de":"Umschalten"},"description":"Toggles the lamp","descriptions":{"de":"Schaltet die Lampe um"},"input":{"type":"boolean"},"output":{"type":"null"},"safe":false,"idempotent":true,"synchronous":true}"#;
    assert_eq!(to_string::<_, 400>(&action).unwrap(), expected);
}

#[test]
fn action_without_optional_fields() {
    let action = Action::builder(Vec::new()).build();
    assert_eq!(to_string::<_, 32>(&action).unwrap(), r#"{"forms":[]}"#);
}

#[test]
fn event_with_every_schema() {
    let mut event = Event::builder(vec![Form::builder("f").build()])
        .subscription(DataSchema::builder().title("s").build())
        .data(DataSchema::builder().title("d").build())
        .data_response(DataSchema::builder().title("r").build())
        .cancellation(DataSchema::builder().title("c").build())
        .build();
    event.json_ld_type = Some(vec!["saref:Alarm"]);
    event.title = Some("Overheating");
    let expected = r#"{"forms":[{"href":"f"}],"@type":["saref:Alarm"],"title":"Overheating","subscription":{"title":"s"},"data":{"title":"d"},"dataResponse":{"title":"r"},"cancellation":{"title":"c"}}"#;
    assert_eq!(to_string::<_, 400>(&event).unwrap(), expected);
}

#[test]
fn event_without_optional_fields() {
    let event = Event::builder(vec![Form::builder("f").build()]).build();
    assert_eq!(to_string::<_, 64>(&event).unwrap(), r#"{"forms":[{"href":"f"}]}"#);
}

#[test]
fn property_inlines_its_data_schema() {
    let mut builder = Property::builder(
        vec![Form::builder("f").build()],
        DataSchema::builder().title("Status").build(),
    );
    builder.observable(true);
    builder.data_schema(DataSchema::builder().unit("celsius").data_type(DataType::Number).build());
    let property = builder.build();
    let expected = r#"{"forms":[{"href":"f"}],"observable":true,"unit":"celsius","type":"number"}"#;
    assert_eq!(to_string::<_, 200>(&property).unwrap(), expected);
}

#[test]
fn property_with_an_empty_data_schema() {
    let property = Property::builder(vec![Form::builder("f").build()], DataSchema::builder().build()).build();
    assert_eq!(to_string::<_, 64>(&property).unwrap(), r#"{"forms":[{"href":"f"}]}"#);
}

#[test]
fn thing_description_without_context_has_no_comma_in_front_of_its_first_member() {
    let only_title = ThingDescription::builder().title("T").build();
    assert_eq!(to_string::<_, 64>(&only_title).unwrap(), r#"{"title":"T"}"#);

    let mut with_id = ThingDescription::builder().title("T").build();
    with_id.id = Some("urn:x");
    assert_eq!(to_string::<_, 64>(&with_id).unwrap(), r#"{"id":"urn:x","title":"T"}"#);

    let with_type = ThingDescription::builder().title("T").json_ld_type(vec!["Lamp"]).build();
    assert_eq!(to_string::<_, 64>(&with_type).unwrap(), r#"{"@type":["Lamp"],"title":"T"}"#);

    let with_context = ThingDescription::builder()
        .title("T")
        .context(vec![ContextEntry::default()])
        .build();
    assert_eq!(
        to_string::<_, 100>(&with_context).unwrap(),
        r#"{"@context":["https://www.w3.org/2022/wot/td/v1.1"],"title":"T"}"#
    );
}

#[test]
fn thing_description_with_every_field() {
    let mut thing = ThingDescription::builder()
        .context(vec![ContextEntry::StringEntry("c")])
        .json_ld_type(vec!["Lamp"])
        .title("T")
        .titles(VecMap::new(vec![("de", "L")]))
        .description("d")
        .descriptions(VecMap::new(vec![("de", "b")]))
        .version(VersionInfo::new("1"))
        .created("2022-01-01")
        .modified("2022-01-02")
        .base("coap://example.org")
        .properties(VecMap::new(Vec::new()))
        .actions(VecMap::new(Vec::new()))
        .events(VecMap::new(Vec::new()))
        .links(vec![Link::new("l")])
        .forms(vec![Form::builder("f").build()])
        .security(vec!["nosec_sc"])
        .security_definitions(VecMap::new(vec![(
            "nosec_sc",
            SecurityScheme::builder(SecuritySchemeType::Nosec).build(),
        )]))
        .uri_variables(VecMap::new(vec![("p", DataSchema::builder().data_type(DataType::String).build())]))
        .build();
    thing.id = Some("urn:x");
    thing.support = Some("mailto:a@example.org");
    thing.profile = Some(vec!["profile-a"]);
    thing.schema_definitions = Some(VecMap::new(vec![("s", DataSchema::builder().build())]));
    let expected = r#"{"@context":["c"],"@type":["Lamp"],"id":"urn:x","title":"T","titles":{"de":"L"},"description":"d","descriptions":{"de":"b"},"version":{"instance":"1"},"created":"2022-01-01","modified":"2022-01-02","support":"mailto:a@example.org","base":"coap://example.org","properties":{},"actions":{},"events":{},"links":[{"href":"l"}],"forms":[{"href":"f"}],"security":["nosec_sc"],"securityDefinitions":{"nosec_sc":{"scheme":"nosec"}},"profile":["profile-a"],"schemaDefinitions":{"s":{}},"uriVariables":{"p":{"type":"string"}}}"#;
    assert_eq!(to_string::<_, 700>(&thing).unwrap(), expected);
}

#[test]
fn thing_description_fails_in_a_buffer_that_is_one_byte_short() {
    let thing = ThingDescription::builder().title("Test").description("Test Description").build();
    let expected = r#"{"title":"Test","description":"Test Description"}"#;
    let mut exact = vec![0u8; expected.len()];
    assert_eq!(thing.to_json(&mut exact), Ok(expected.len()));
    assert_eq!(exact, expected.as_bytes());
    let mut short = vec![0u8; expected.len() - 1];
    assert_eq!(thing.to_json(&mut short), Err(SerializationError));
}

#[test]
fn thing_description_builder_starts_empty() {
    let builder = ThingDescription::builder();
    assert_eq!(builder.title, "");
    assert!(builder.context.is_empty());
    assert!(builder.description.is_none());
    let thing = wot_td_embedded::models::thing_description::ThingDescriptionBuilder::new("Lamp").build();
    assert_eq!(thing.title, "Lamp");
    assert!(thing.context.is_empty());
}

#[test]
fn context_entry_defaults_to_the_vocabulary_address() {
    assert_eq!(
        to_string::<_, 64>(&ContextEntry::default()).unwrap(),
        r#""https://www.w3.org/2022/wot/td/v1.1""#
    );
    assert_eq!(wot_td_embedded::constants::WOT_TD_11_CONTEXT, "https://www.w3.org/2022/wot/td/v1.1");
    assert_eq!(wot_td_embedded::constants::JSON_LD_TYPE, "@type");
}
