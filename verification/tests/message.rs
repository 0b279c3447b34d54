use roadsense::double::Double;
use roadsense::message::{
    content_type_accepted, JsonMessage, MessageParser, QueueMessage, RawDelivery, RejectReason,
    DEFAULT_CONTENT_TYPE,
};
use roadsense::validation::{validate_ampq_message, EXPECTED_CONTENT_TYPE};

const BODY: &str =
    r#"{"device_id":"dev-1","lat":45.5,"lon":9.25,"timestamp":1700000000,"bumpiness":7}"#;

fn delivery(content_type: Option<&str>, data: &[u8]) -> RawDelivery {
    RawDelivery { content_type: content_type.map(|c| c.to_string()), data: data.to_vec() }
}

fn decoded() -> JsonMessage {
    JsonMessage {
        lat: Double::from_bits(45.5f64.to_bits()),
        lon: Double::from_bits(9.25f64.to_bits()),
        timestamp: 1_700_000_000,
        device_id: "dev-1".to_string(),
        bumpiness: 7,
    }
}

#[test]
fn json_delivery_with_a_decoded_body_is_accepted() {
    let message = QueueMessage::new(delivery(Some("application/json"), BODY.as_bytes()), None);
    assert_eq!(message.body_text(), Some(BODY));
    assert_eq!(message.parse_message(Some(decoded())), Ok(decoded()));
}

#[test]
fn other_content_type_is_rejected_whatever_the_body() {
    let message = QueueMessage::new(delivery(Some("text/plain"), BODY.as_bytes()), None);
    assert_eq!(message.body_text(), None);
    assert_eq!(message.parse_message(Some(decoded())), Err(RejectReason::ContentTypeMismatch));
    assert_eq!(message.parse_message(None), Err(RejectReason::ContentTypeMismatch));
}

#[test]
fn missing_content_type_is_rejected() {
    let message = QueueMessage::new(delivery(None, BODY.as_bytes()), None);
    assert_eq!(message.parse_message(Some(decoded())), Err(RejectReason::ContentTypeMismatch));
}

#[test]
fn content_type_is_compared_exactly() {
    let expected = "application/json".to_string();
    assert!(content_type_accepted(&Some("application/json".to_string()), &expected));
    assert!(!content_type_accepted(&Some("Application/JSON".to_string()), &expected));
    assert!(!content_type_accepted(&Some("application/json; charset=utf-8".to_string()), &expected));
    assert!(!content_type_accepted(&Some(String::new()), &expected));
    assert!(!content_type_accepted(&None, &expected));
}

#[test]
fn undecodable_body_is_a_parse_error() {
    let message = QueueMessage::new(delivery(Some("application/json"), b"{\"lat\":"), None);
    assert_eq!(message.parse_message(None), Err(RejectReason::ParseError));
}

#[test]
fn body_that_is_not_text_is_a_parse_error() {
    let message = QueueMessage::new(delivery(Some("application/json"), &[0xff, 0xfe, 0x00]), None);
    assert_eq!(message.body_text(), None);
    assert_eq!(message.parse_message(None), Err(RejectReason::ParseError));
    assert_eq!(message.parse_message(Some(decoded())), Err(RejectReason::ParseError));
}

#[test]
fn body_text_decodes_multibyte_characters() {
    let text = "{\"device_id\":\"gerät-ß\"}";
    let message = QueueMessage::new(delivery(Some("application/json"), text.as_bytes()), None);
    assert_eq!(message.body_text(), Some(text));
}

#[test]
fn configured_content_type_replaces_the_default() {
    let custom = QueueMessage::new(
        delivery(Some("application/vnd.bump+json"), BODY.as_bytes()),
        Some("application/vnd.bump+json".to_string()),
    );
    assert_eq!(custom.expected_content_type, "application/vnd.bump+json");
    assert_eq!(custom.parse_message(Some(decoded())), Ok(decoded()));

    let json = QueueMessage::new(
        delivery(Some("application/json"), BODY.as_bytes()),
        Some("application/vnd.bump+json".to_string()),
    );
    assert_eq!(json.parse_message(Some(decoded())), Err(RejectReason::ContentTypeMismatch));

    let default = QueueMessage::new(delivery(None, b""), None);
    assert_eq!(default.expected_content_type, DEFAULT_CONTENT_TYPE);
    assert_eq!(DEFAULT_CONTENT_TYPE, "application/json");
}

#[test]
fn validation_accepts_only_the_json_media_type() {
    assert_eq!(EXPECTED_CONTENT_TYPE, "application/json");
    assert!(validate_ampq_message(&delivery(Some("application/json"), b"")));
    assert!(!validate_ampq_message(&delivery(Some("application/xml"), BODY.as_bytes())));
    assert!(!validate_ampq_message(&delivery(None, BODY.as_bytes())));
}

#[test]
fn rejections_have_a_log_text() {
    assert_eq!(RejectReason::ContentTypeMismatch.describe(), "Unsupported content type");
    assert_eq!(RejectReason::ParseError.describe(), "Malformed telemetry message");
}
