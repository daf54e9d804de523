use weather_gateway::reply::{BodyKind, Outcome, Reply, KEY_MISSING, READ_FAILED, UPSTREAM_UNREACHABLE};
use weather_gateway::status::Status;

#[test]
fn the_fixed_texts() {
    assert_eq!(KEY_MISSING, "API key not set");
    assert_eq!(UPSTREAM_UNREACHABLE, "Failed to connect weather service");
    assert_eq!(READ_FAILED, "Failed to read weather data");
}

#[test]
fn missing_configuration_is_500() {
    assert_eq!(
        Outcome::ConfigMissing.into_reply(),
        Reply {
            status: Status::new(500).unwrap(),
            kind: BodyKind::Text,
            body: "API key not set".to_string(),
        }
    );
}

#[test]
fn unreachable_upstream_is_502() {
    assert_eq!(
        Outcome::UpstreamUnreachable.into_reply(),
        Reply {
            status: Status::new(502).unwrap(),
            kind: BodyKind::Text,
            body: "Failed to connect weather service".to_string(),
        }
    );
}

#[test]
fn failed_read_is_500() {
    assert_eq!(
        Outcome::ReadFailure.into_reply(),
        Reply {
            status: Status::new(500).unwrap(),
            kind: BodyKind::Text,
            body: "Failed to read weather data".to_string(),
        }
    );
}

#[test]
fn success_relays_status_and_wraps_body() {
    let outcome = Outcome::Success {
        status: Status::new(200).unwrap(),
        body: "{\"temp\":21}".to_string(),
    };
    assert_eq!(
        outcome.into_reply(),
        Reply {
            status: Status::new(200).unwrap(),
            kind: BodyKind::Json,
            body: "\"{\\\"temp\\\":21}\"".to_string(),
        }
    );
}

#[test]
fn success_relays_a_status_that_is_no_success() {
    for code in [401u16, 404, 429, 500, 503] {
        let outcome = Outcome::Success {
            status: Status::new(code).unwrap(),
            body: "{\"cod\":\"404\",\"message\":\"city not found\"}".to_string(),
        };
        let reply = outcome.into_reply();
        assert_eq!(reply.status.code(), code);
        assert_eq!(reply.kind, BodyKind::Json);
        assert_eq!(reply.body, "\"{\\\"cod\\\":\\\"404\\\",\\\"message\\\":\\\"city not found\\\"}\"");
    }
}

#[test]
fn success_with_an_empty_body_is_an_empty_json_string() {
    let outcome = Outcome::Success { status: Status::new(204).unwrap(), body: String::new() };
    let reply = outcome.into_reply();
    assert_eq!(reply.status.code(), 204);
    assert_eq!(reply.kind, BodyKind::Json);
    assert_eq!(reply.body, "\"\"");
}

#[test]
fn a_relayed_body_is_text_again_after_one_reading() {
    let upstream = "{\"weather\":[{\"main\":\"Rain\"}],\"name\":\"Bergen\"}";
    let outcome = Outcome::Success { status: Status::new(200).unwrap(), body: upstream.to_string() };
    let reply = outcome.into_reply();
    let read: serde_json::Value = serde_json::from_str(&reply.body).unwrap();
    assert_eq!(read, serde_json::Value::String(upstream.to_string()));
}
