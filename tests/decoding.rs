use sapi::client::{check_status, find_application_by_name, find_service_by_name, read_list, read_record};
use sapi::error::{DecodeError, Fragment, PathStep, SapiError};
use sapi::json::{parse_json, JsonValue};
use sapi::model::{
    decode_list, ApplicationData, InstanceData, Record, SapiManifests, ServiceData, ServiceType, ZoneConfig,
};

fn s(x: &str) -> JsonValue {
    JsonValue::Str(x.to_string())
}

fn key(x: &str) -> PathStep {
    PathStep::Key(x.to_string())
}

fn service_json(name: &str, uuid: &str) -> String {
    format!(
        "{{\"name\": \"{}\", \"uuid\": \"{}\", \"application_uuid\": \"a1\", \"params\": {{}}}}",
        name, uuid
    )
}

#[test]
fn zone_config_metadata_lookup() {
    let body = "{\"manifests\": [], \"metadata\": {\"SERVICE_NAME\": \"sapi\"}}";
    let z: ZoneConfig = read_record(200, body).unwrap();
    assert!(z.manifests.is_empty());
    assert_eq!(z.metadata.get("SERVICE_NAME"), Some(&s("sapi")));
}

#[test]
fn service_by_name_from_listing() {
    let body = format!("[{}]", service_json("sapi", "u1"));
    let list: Vec<ServiceData> = read_list(200, &body).unwrap();
    assert_eq!(list.len(), 1);
    let found = find_service_by_name(list, "sapi").unwrap();
    assert_eq!(found.name, "sapi");
    assert_eq!(found.uuid, "u1");
}

#[test]
fn service_by_name_no_match() {
    let body = format!("[{}, {}]", service_json("moray", "u1"), service_json("manatee", "u2"));
    let list: Vec<ServiceData> = read_list(200, &body).unwrap();
    assert!(find_service_by_name(list, "sapi").is_none());
}

#[test]
fn service_by_name_first_match_and_case() {
    let body = format!(
        "[{}, {}, {}]",
        service_json("SAPI", "u0"),
        service_json("sapi", "u1"),
        service_json("sapi", "u2")
    );
    let list: Vec<ServiceData> = read_list(200, &body).unwrap();
    let found = find_service_by_name(list, "sapi").unwrap();
    assert_eq!(found.uuid, "u1");
}

#[test]
fn application_by_name() {
    let body = "[{\"uuid\": \"a0\", \"name\": \"other\", \"metadata\": {}}, {\"uuid\": \"a1\", \"name\": \"sdc\", \"metadata\": {\"k\": 1}}]";
    let list: Vec<ApplicationData> = read_list(200, body).unwrap();
    let app = find_application_by_name(list, "sdc").unwrap();
    assert_eq!(app.uuid, "a1");
    let list: Vec<ApplicationData> = read_list(200, body).unwrap();
    assert!(find_application_by_name(list, "nope").is_none());
}

#[test]
fn service_master_defaults_false() {
    let svc: ServiceData = read_record(200, &service_json("sapi", "u1")).unwrap();
    assert!(!svc.master);
    let body = "{\"name\": \"n\", \"uuid\": \"u\", \"application_uuid\": \"a\", \"params\": {}, \"master\": true}";
    let svc: ServiceData = read_record(200, body).unwrap();
    assert!(svc.master);
}

#[test]
fn service_metadata_absent_or_empty() {
    let svc: ServiceData = read_record(200, &service_json("sapi", "u1")).unwrap();
    assert_eq!(svc.metadata, None);
    let body = "{\"name\": \"n\", \"uuid\": \"u\", \"application_uuid\": \"a\", \"params\": {}, \"metadata\": {}}";
    let svc: ServiceData = read_record(200, body).unwrap();
    assert_eq!(svc.metadata, Some(JsonValue::Object(vec![])));
}

#[test]
fn not_found_beats_broken_body() {
    let r: Result<ZoneConfig, SapiError> = read_record(404, "<html>nope");
    assert_eq!(r.unwrap_err(), SapiError::NotFound { body: "<html>nope".to_string() });
    let r: Result<ZoneConfig, SapiError> = read_record(404, "");
    assert_eq!(r.unwrap_err(), SapiError::NotFound { body: String::new() });
}

#[test]
fn other_status_is_http_error() {
    let r: Result<ZoneConfig, SapiError> = read_record(500, "boom");
    assert_eq!(r.unwrap_err(), SapiError::HttpStatus { status: 500, body: "boom".to_string() });
    assert_eq!(check_status(204, ""), Ok(()));
    assert_eq!(
        check_status(409, "conflict"),
        Err(SapiError::HttpStatus { status: 409, body: "conflict".to_string() })
    );
    assert_eq!(check_status(404, "x"), Err(SapiError::NotFound { body: "x".to_string() }));
}

#[test]
fn missing_uuid_names_the_field() {
    let r: Result<InstanceData, SapiError> = read_record(200, "{\"service_uuid\": \"s\"}");
    assert_eq!(
        r.unwrap_err(),
        SapiError::Decode(DecodeError { path: vec![key("uuid")], fragment: Fragment::Missing })
    );
    let r: Result<ServiceData, SapiError> =
        read_record(200, "{\"name\": \"n\", \"application_uuid\": \"a\", \"params\": {}}");
    assert_eq!(
        r.unwrap_err(),
        SapiError::Decode(DecodeError { path: vec![key("uuid")], fragment: Fragment::Missing })
    );
}

#[test]
fn service_missing_name_and_uuid_names_uuid() {
    let r: Result<ServiceData, SapiError> = read_record(200, "{\"application_uuid\": \"a\", \"params\": {}}");
    assert_eq!(
        r.unwrap_err(),
        SapiError::Decode(DecodeError { path: vec![key("uuid")], fragment: Fragment::Missing })
    );
    let r: Result<ServiceData, SapiError> = read_record(200, "{}");
    assert_eq!(
        r.unwrap_err(),
        SapiError::Decode(DecodeError { path: vec![key("uuid")], fragment: Fragment::Missing })
    );
}

#[test]
fn malformed_body_is_decode_error() {
    let r: Result<ZoneConfig, SapiError> = read_record(200, "{not json");
    assert_eq!(
        r.unwrap_err(),
        SapiError::Decode(DecodeError { path: vec![], fragment: Fragment::Text("{not json".to_string()) })
    );
}

#[test]
fn wrong_type_carries_fragment() {
    let body = "{\"name\": \"n\", \"uuid\": \"u\", \"application_uuid\": \"a\", \"params\": {}, \"master\": \"yes\"}";
    let r: Result<ServiceData, SapiError> = read_record(200, body);
    assert_eq!(
        r.unwrap_err(),
        SapiError::Decode(DecodeError { path: vec![key("master")], fragment: Fragment::Found(s("yes")) })
    );
    let r: Result<InstanceData, SapiError> = read_record(200, "{\"uuid\": 7, \"service_uuid\": \"s\"}");
    assert_eq!(
        r.unwrap_err(),
        SapiError::Decode(DecodeError {
            path: vec![key("uuid")],
            fragment: Fragment::Found(JsonValue::Number("7".to_string()))
        })
    );
}

#[test]
fn nested_manifest_failure_path() {
    let body = "{\"manifests\": [{\"uuid\": \"m\", \"name\": \"n\", \"path\": \"/p\"}, {\"uuid\": \"m2\", \"name\": \"n2\"}], \"metadata\": {}}";
    let r: Result<ZoneConfig, SapiError> = read_record(200, body);
    assert_eq!(
        r.unwrap_err(),
        SapiError::Decode(DecodeError {
            path: vec![key("manifests"), PathStep::Index(1), key("path")],
            fragment: Fragment::Missing
        })
    );
}

#[test]
fn manifest_defaults() {
    let j = parse_json("{\"uuid\": \"m\", \"name\": \"n\", \"path\": \"/p\"}").unwrap();
    let m = SapiManifests::decode(&j).unwrap();
    assert_eq!(
        m,
        SapiManifests {
            uuid: "m".to_string(),
            name: "n".to_string(),
            path: "/p".to_string(),
            template: String::new(),
            version: String::new(),
            master: false,
            post_cmd: String::new(),
        }
    );
}

#[test]
fn metadata_round_trip() {
    let body = "{\"manifests\": [{\"uuid\": \"m\", \"name\": \"n\", \"path\": \"/p\", \"master\": true}], \"metadata\": {\"SERVICE_NAME\": \"2.moray.orbit.example.com\", \"nested\": {\"list\": [1, 2.5, null, false]}}}";
    let original = parse_json(body).unwrap();
    let z = ZoneConfig::decode(&original).unwrap();
    let encoded = z.to_json();
    assert_eq!(encoded.get("metadata"), original.get("metadata"));
    assert_eq!(ZoneConfig::decode(&encoded).unwrap(), z);
}

#[test]
fn instance_optional_fields() {
    let i: InstanceData = read_record(200, "{\"uuid\": \"i\", \"service_uuid\": \"s\", \"params\": null}").unwrap();
    assert_eq!(i.params, None);
    assert_eq!(i.metadata, None);
    let list: Vec<InstanceData> =
        read_list(200, "[{\"uuid\": \"b\", \"service_uuid\": \"s\"}, {\"uuid\": \"a\", \"service_uuid\": \"s\", \"metadata\": {\"x\": \"y\"}}]")
            .unwrap();
    assert_eq!(list[0].uuid, "b");
    assert_eq!(list[1].uuid, "a");
    assert_eq!(list[1].metadata.as_ref().unwrap().get("x"), Some(&s("y")));
}

#[test]
fn list_of_wrong_kind() {
    let j = parse_json("{\"a\": 1}").unwrap();
    let r = decode_list::<ServiceData>(&j);
    assert_eq!(r.unwrap_err().path, vec![]);
    let r: Result<Vec<ServiceData>, SapiError> = read_list(200, "[1]");
    assert_eq!(
        r.unwrap_err(),
        SapiError::Decode(DecodeError {
            path: vec![PathStep::Index(0)],
            fragment: Fragment::Found(JsonValue::Number("1".to_string()))
        })
    );
}

#[test]
fn parse_json_builds_tree() {
    let j = parse_json("{\"a\": [1, -2.5, \"x\", null, true]}").unwrap();
    assert_eq!(
        j,
        JsonValue::Object(vec![(
            "a".to_string(),
            JsonValue::Array(vec![
                JsonValue::Number("1".to_string()),
                JsonValue::Number("-2.5".to_string()),
                s("x"),
                JsonValue::Null,
                JsonValue::Bool(true),
            ])
        )])
    );
    assert!(parse_json("").is_none());
    assert!(parse_json("[1,").is_none());
}

#[test]
fn service_type_tokens() {
    assert_eq!(ServiceType::Vm.token(), "vm");
    assert_eq!(ServiceType::Agent.token(), "agent");
    assert_eq!(ServiceType::from_token("VM"), Some(ServiceType::Vm));
    assert_eq!(ServiceType::from_token("Agent"), Some(ServiceType::Agent));
    assert_eq!(ServiceType::from_token("agents"), None);
    assert_eq!(ServiceType::Agent.to_json(), s("agent"));
}
