use sapi::client::{Method, SAPI};
use sapi::json::JsonValue;

fn json_headers() -> Vec<(String, String)> {
    vec![
        ("Content-Type".to_string(), "application/json".to_string()),
        ("Accept".to_string(), "application/json".to_string()),
    ]
}

#[test]
fn client_keeps_configuration() {
    let c = SAPI::new("http://10.77.77.136", 60);
    assert_eq!(c.base_url(), "http://10.77.77.136");
    assert_eq!(c.request_timeout(), 60);
}

#[test]
fn get_requests() {
    let c = SAPI::new("http://10.77.77.136", 60);
    let r = c.zone_config_request("f8bf03e3-5636-4cc4-a939-bbca6b4547f0");
    assert_eq!(r.method, Method::Get);
    assert_eq!(r.url, "http://10.77.77.136/configs/f8bf03e3-5636-4cc4-a939-bbca6b4547f0");
    assert_eq!(r.headers, json_headers());
    assert_eq!(r.body, None);
    assert_eq!(c.instance_request("i1").url, "http://10.77.77.136/instances/i1");
    assert_eq!(c.instances_request().url, "http://10.77.77.136/instances");
    assert_eq!(c.service_instances_request("s1").url, "http://10.77.77.136/instances?service_uuid=s1");
    assert_eq!(c.services_request().url, "http://10.77.77.136/services");
    assert_eq!(c.service_request("s1").url, "http://10.77.77.136/service/s1");
    assert_eq!(c.applications_request().url, "http://10.77.77.136/applications");
}

#[test]
fn create_service_body() {
    let c = SAPI::new("http://10.77.77.136", 60);
    let r = c.create_service_request("cheddar", "e68592d3-5677-44ec-a5e8-cfd3652dd5be");
    assert_eq!(r.method, Method::Post);
    assert_eq!(r.url, "http://10.77.77.136/services");
    assert_eq!(r.headers, json_headers());
    assert_eq!(
        r.body,
        Some(JsonValue::Object(vec![
            ("name".to_string(), JsonValue::Str("cheddar".to_string())),
            (
                "application_uuid".to_string(),
                JsonValue::Str("e68592d3-5677-44ec-a5e8-cfd3652dd5be".to_string())
            ),
        ]))
    );
}

#[test]
fn update_and_delete_requests() {
    let c = SAPI::new("http://h", 5);
    let body = JsonValue::Object(vec![("action".to_string(), JsonValue::Str("update".to_string()))]);
    let r = c.update_service_request("s1", body);
    assert_eq!(r.method, Method::Post);
    assert_eq!(r.url, "http://h/services/s1");
    assert_eq!(
        r.body,
        Some(JsonValue::Object(vec![("action".to_string(), JsonValue::Str("update".to_string()))]))
    );
    let r = c.delete_service_request("s1");
    assert_eq!(r.method, Method::Delete);
    assert_eq!(r.url, "http://h/services/s1");
    assert_eq!(r.body, None);
}
