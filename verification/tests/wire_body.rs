use rustc_serialize::json::Json;
use std::collections::BTreeMap;
use webdriver::ErrorStatus;
use webdriver::WebDriverError;

fn decode_fields(text: &str) -> (String, String) {
    let json = Json::from_str(text).expect("wire body must decode");
    let object = json.as_object().expect("wire body must be an object");
    assert_eq!(object.len(), 2, "wire body must hold exactly two keys");
    let status = object
        .get("status")
        .and_then(|j| j.as_string())
        .expect("status field must be a string")
        .to_string();
    let message = object
        .get("message")
        .and_then(|j| j.as_string())
        .expect("message field must be a string")
        .to_string();
    (status, message)
}

#[test]
fn wire_body_round_trips_plain_message() {
    let err = WebDriverError::new(ErrorStatus::InvalidArgument, "expected an integer");
    let (status, message) = decode_fields(&err.to_json_string());
    assert_eq!(status, err.status_code());
    assert_eq!(message, "expected an integer");
}

#[test]
fn wire_body_round_trips_empty_message() {
    let err = WebDriverError::new(ErrorStatus::UnknownError, "");
    let (status, message) = decode_fields(&err.to_json_string());
    assert_eq!(status, "unknown error");
    assert_eq!(message, "");
}

#[test]
fn wire_body_round_trips_special_characters() {
    let tricky = "quote \" backslash \\ newline \n tab \t bell \u{7} unit \u{1f} del \u{7f} end";
    let err = WebDriverError::new(ErrorStatus::JavascriptError, tricky);
    let (status, message) = decode_fields(&err.to_json_string());
    assert_eq!(status, "javascript error");
    assert_eq!(message, tricky);
}

#[test]
fn wire_body_round_trips_unicode_message() {
    let tricky = "s\u{e9}lecteur \u{2192} \u{1f9ea} invalide";
    let err = WebDriverError::new(ErrorStatus::InvalidSelector, tricky);
    let (status, message) = decode_fields(&err.to_json_string());
    assert_eq!(status, "invalid selector");
    assert_eq!(message, tricky);
}

#[test]
fn wire_body_matches_reference_encoder() {
    let messages = vec![
        "",
        "plain",
        "quote \" and backslash \\",
        "controls \u{0}\u{1}\u{8}\u{9}\u{a}\u{b}\u{c}\u{d}\u{1f}\u{7f}",
        "unicode \u{e9}\u{2192}",
    ];
    for message in messages {
        let err = WebDriverError::new(ErrorStatus::SessionNotCreated, message);
        let mut data = BTreeMap::new();
        data.insert("status".to_string(), Json::String(err.status_code().to_string()));
        data.insert("message".to_string(), Json::String(message.to_string()));
        let reference = Json::Object(data).to_string();
        assert_eq!(err.to_json_string(), reference);
    }
}

#[test]
fn wire_body_exact_text() {
    let err = WebDriverError::new(ErrorStatus::NoSuchFrame, "frame #2 gone\n");
    assert_eq!(
        err.to_json_string(),
        "{\"message\":\"frame #2 gone\\n\",\"status\":\"no such frame\"}"
    );
    let control = WebDriverError::new(ErrorStatus::Timeout, "\u{1}\u{7f}");
    assert_eq!(
        control.to_json_string(),
        "{\"message\":\"\\u0001\\u007f\",\"status\":\"timeout\"}"
    );
}

#[test]
fn parse_failure_collapses_to_unknown_error() {
    let failure = Json::from_str("{ not json").expect_err("malformed text must fail to parse");
    let err = WebDriverError::from_parse_error(failure);
    assert_eq!(err.status, ErrorStatus::UnknownError);
    assert!(!err.message.is_empty());
    assert_eq!(err.status_code(), "unknown error");
    assert_eq!(err.http_status(), 500);
}

#[test]
fn no_such_element_scenario() {
    let err = WebDriverError::new(ErrorStatus::NoSuchElement, "no such element: #foo");
    assert_eq!(err.status_code(), "no such element");
    assert_eq!(err.http_status(), 404);
    let (status, message) = decode_fields(&err.to_json_string());
    assert_eq!(status, "no such element");
    assert_eq!(message, "no such element: #foo");
}

#[test]
fn script_timeout_scenario() {
    let err = WebDriverError::new(ErrorStatus::ScriptTimeout, "");
    assert_eq!(err.http_status(), 408);
    let (status, message) = decode_fields(&err.to_json_string());
    assert_eq!(status, "script timeout");
    assert_eq!(message, "");
}
