use secret_redeploy::entry::{
    AuthenticationInfo, Entry, ProtoPayload, AUTHENTICATION_INFO, PRINCIPAL_EMAIL, PROTO_PAYLOAD,
    RESOURCE_NAME,
};
use secret_redeploy::error::DecodeError;
use secret_redeploy::resource::SecretIdentifier;
use cloudevents::{Data, Event, EventBuilder, EventBuilderV10};
use serde_json::Value;

fn entry(principal: &str, resource: &str) -> Entry {
    Entry {
        proto_payload: ProtoPayload {
            authentication_info: AuthenticationInfo { principal_email: principal.to_string() },
            resource_name: resource.to_string(),
        },
    }
}

fn object(members: Vec<(&str, Value)>) -> Value {
    let mut map = serde_json::Map::new();
    for (key, value) in members {
        map.insert(key.to_string(), value);
    }
    Value::Object(map)
}

fn text(s: &str) -> Value {
    Value::String(s.to_string())
}

const VALID: &str = r#"{
    "protoPayload": {
        "authenticationInfo": { "principalEmail": "alice@example.com" },
        "resourceName": "projects/123/secrets/my-secret/versions/5",
        "methodName": "google.cloud.secretmanager.v1.SecretManagerService.AddSecretVersion"
    },
    "severity": "NOTICE"
}"#;

#[test]
fn keys_are_camel_case() {
    assert_eq!(PROTO_PAYLOAD, "protoPayload");
    assert_eq!(AUTHENTICATION_INFO, "authenticationInfo");
    assert_eq!(PRINCIPAL_EMAIL, "principalEmail");
    assert_eq!(RESOURCE_NAME, "resourceName");
}

#[test]
fn decode_reads_actor_and_resource() {
    assert_eq!(
        Entry::decode(VALID.as_bytes()),
        Ok(entry("alice@example.com", "projects/123/secrets/my-secret/versions/5"))
    );
}

#[test]
fn decoded_entry_names_project_and_secret() {
    let decoded = Entry::decode(VALID.as_bytes()).unwrap();
    assert_eq!(
        decoded.secret(),
        Ok(SecretIdentifier { project: "123".to_string(), secret_name: "my-secret".to_string() })
    );
}

#[test]
fn decode_reads_escaped_text() {
    let json = r#"{"protoPayload":{"authenticationInfo":{"principalEmail":"b\u00f6b@example.com"},"resourceName":"projects\/p\/secrets\/s\/versions\/1"}}"#;
    assert_eq!(
        Entry::decode(json.as_bytes()),
        Ok(entry("böb@example.com", "projects/p/secrets/s/versions/1"))
    );
}

#[test]
fn decode_refuses_what_is_not_json() {
    for bytes in [
        &b""[..],
        &b"not json"[..],
        &b"{"[..],
        &br#"{"protoPayload": }"#[..],
        &b"{} trailing"[..],
        &[0xff, 0xfe][..],
    ] {
        assert_eq!(Entry::decode(bytes), Err(DecodeError::MalformedJson), "{:?}", bytes);
    }
}

#[test]
fn decode_refuses_json_that_is_no_object() {
    for bytes in [&b"null"[..], &b"[]"[..], &b"\"protoPayload\""[..], &b"42"[..]] {
        assert_eq!(Entry::decode(bytes), Err(DecodeError::MissingPrincipalEmail));
    }
}

#[test]
fn decode_refuses_a_missing_actor() {
    for json in [
        r#"{}"#,
        r#"{"protoPayload": null}"#,
        r#"{"protoPayload": {"resourceName": "projects/p/secrets/s/versions/1"}}"#,
        r#"{"protoPayload": {"authenticationInfo": {}, "resourceName": "projects/p/secrets/s/versions/1"}}"#,
        r#"{"protoPayload": {"authenticationInfo": "alice", "resourceName": "projects/p/secrets/s/versions/1"}}"#,
        r#"{"protoPayload": {"authenticationInfo": {"principalEmail": 7}, "resourceName": "projects/p/secrets/s/versions/1"}}"#,
        r#"{"protoPayload": {"authenticationInfo": {"principalEmail": null}, "resourceName": "projects/p/secrets/s/versions/1"}}"#,
        r#"{"protoPayload": {"authenticationInfo": {"principal_email": "a@b.c"}, "resourceName": "projects/p/secrets/s/versions/1"}}"#,
        r#"{"proto_payload": {"authenticationInfo": {"principalEmail": "a@b.c"}, "resourceName": "projects/p/secrets/s/versions/1"}}"#,
    ] {
        assert_eq!(Entry::decode(json.as_bytes()), Err(DecodeError::MissingPrincipalEmail), "{}", json);
    }
}

#[test]
fn decode_refuses_a_missing_resource() {
    for json in [
        r#"{"protoPayload": {"authenticationInfo": {"principalEmail": "a@b.c"}}}"#,
        r#"{"protoPayload": {"authenticationInfo": {"principalEmail": "a@b.c"}, "resourceName": null}}"#,
        r#"{"protoPayload": {"authenticationInfo": {"principalEmail": "a@b.c"}, "resourceName": ["projects/p/secrets/s"]}}"#,
        r#"{"protoPayload": {"authenticationInfo": {"principalEmail": "a@b.c"}, "resource_name": "projects/p/secrets/s"}}"#,
    ] {
        assert_eq!(Entry::decode(json.as_bytes()), Err(DecodeError::MissingResourceName), "{}", json);
    }
}

#[test]
fn decode_refuses_a_short_resource() {
    for resource in ["", "projects", "projects/p", "projects/p/secrets", "my-secret"] {
        let json = format!(
            r#"{{"protoPayload": {{"authenticationInfo": {{"principalEmail": "a@b.c"}}, "resourceName": "{}"}}}}"#,
            resource
        );
        assert_eq!(Entry::decode(json.as_bytes()), Err(DecodeError::InvalidResourceName), "{}", json);
    }
}

#[test]
fn decode_looks_at_the_actor_first() {
    assert_eq!(Entry::decode(b"{\"protoPayload\": {}}"), Err(DecodeError::MissingPrincipalEmail));
    let json = r#"{"protoPayload": {"resourceName": "short"}}"#;
    assert_eq!(Entry::decode(json.as_bytes()), Err(DecodeError::MissingPrincipalEmail));
}

#[test]
fn document_is_read_by_its_keys() {
    let document = object(vec![(
        "protoPayload",
        object(vec![
            ("resourceName", text("projects/p/secrets/s/versions/2")),
            ("authenticationInfo", object(vec![("principalEmail", text("carol@example.com"))])),
        ]),
    )]);
    assert_eq!(
        Entry::from_document(&document),
        Ok(entry("carol@example.com", "projects/p/secrets/s/versions/2"))
    );
}

#[test]
fn document_with_text_in_place_of_objects_is_refused() {
    let document = object(vec![("protoPayload", text("projects/p/secrets/s/versions/2"))]);
    assert_eq!(Entry::from_document(&document), Err(DecodeError::MissingPrincipalEmail));
    assert_eq!(
        Entry::from_document(&text("protoPayload")),
        Err(DecodeError::MissingPrincipalEmail)
    );
    let document = object(vec![(
        "protoPayload",
        object(vec![
            ("resourceName", object(vec![])),
            ("authenticationInfo", object(vec![("principalEmail", text("carol@example.com"))])),
        ]),
    )]);
    assert_eq!(Entry::from_document(&document), Err(DecodeError::MissingResourceName));
}

#[test]
fn fields_make_an_entry() {
    assert_eq!(
        Entry::from_fields(
            Some("dave@example.com".to_string()),
            Some("projects/p/secrets/s/versions/3".to_string())
        ),
        Ok(entry("dave@example.com", "projects/p/secrets/s/versions/3"))
    );
}

#[test]
fn fields_are_needed() {
    let resource = || Some("projects/p/secrets/s/versions/3".to_string());
    let actor = || Some("dave@example.com".to_string());
    assert_eq!(Entry::from_fields(None, resource()), Err(DecodeError::MissingPrincipalEmail));
    assert_eq!(Entry::from_fields(None, None), Err(DecodeError::MissingPrincipalEmail));
    assert_eq!(Entry::from_fields(actor(), None), Err(DecodeError::MissingResourceName));
    assert_eq!(
        Entry::from_fields(actor(), Some("projects/p".to_string())),
        Err(DecodeError::InvalidResourceName)
    );
    assert_eq!(
        Entry::from_fields(None, Some("projects/p".to_string())),
        Err(DecodeError::MissingPrincipalEmail)
    );
}

#[test]
fn entry_with_short_resource_names_no_secret() {
    assert_eq!(entry("a@b.c", "projects/p/secrets").secret(), Err(DecodeError::InvalidResourceName));
}

#[test]
fn entry_tells_actor_and_resource() {
    let e = entry("erin@example.com", "projects/p/secrets/s/versions/9");
    assert_eq!(e.actor(), "erin@example.com");
    assert_eq!(e.resource_name(), "projects/p/secrets/s/versions/9");
}

fn envelope() -> EventBuilderV10 {
    EventBuilderV10::new().id("42").ty("audit").source("//secretmanager.googleapis.com")
}

fn event(data: Data) -> Event {
    envelope().data("application/json", data).build().unwrap()
}

#[test]
fn event_with_bytes_is_decoded() {
    assert_eq!(
        Entry::from_event(&event(Data::Binary(VALID.as_bytes().to_vec()))),
        Ok(entry("alice@example.com", "projects/123/secrets/my-secret/versions/5"))
    );
}

#[test]
fn event_with_text_is_decoded() {
    assert_eq!(
        Entry::from_event(&event(Data::String(VALID.to_string()))),
        Ok(entry("alice@example.com", "projects/123/secrets/my-secret/versions/5"))
    );
}

#[test]
fn event_with_json_is_decoded() {
    let document = object(vec![(
        "protoPayload",
        object(vec![
            ("authenticationInfo", object(vec![("principalEmail", text("frank@example.com"))])),
            ("resourceName", text("projects/7/secrets/key/versions/12")),
        ]),
    )]);
    assert_eq!(
        Entry::from_event(&event(Data::Json(document))),
        Ok(entry("frank@example.com", "projects/7/secrets/key/versions/12"))
    );
}

#[test]
fn event_without_data_is_refused() {
    assert_eq!(Entry::from_event(&envelope().build().unwrap()), Err(DecodeError::MissingData));
}

#[test]
fn event_with_data_that_is_not_json_is_refused() {
    assert_eq!(
        Entry::from_event(&event(Data::Binary(b"\x00\x01".to_vec()))),
        Err(DecodeError::MalformedJson)
    );
    assert_eq!(
        Entry::from_event(&event(Data::String("secret changed".to_string()))),
        Err(DecodeError::MalformedJson)
    );
    assert_eq!(Entry::from_event(&event(Data::Binary(vec![]))), Err(DecodeError::MalformedJson));
}

#[test]
fn event_with_json_that_holds_no_entry_is_refused() {
    assert_eq!(
        Entry::from_event(&event(Data::Json(Value::Null))),
        Err(DecodeError::MissingPrincipalEmail)
    );
    assert_eq!(
        Entry::from_event(&event(Data::String("{}".to_string()))),
        Err(DecodeError::MissingPrincipalEmail)
    );
    let json = r#"{"protoPayload": {"authenticationInfo": {"principalEmail": "a@b.c"}, "resourceName": "projects/p"}}"#;
    assert_eq!(
        Entry::from_event(&event(Data::String(json.to_string()))),
        Err(DecodeError::InvalidResourceName)
    );
}
