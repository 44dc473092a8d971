//! Tests for the classification of response bodies as errors.

use shapir::Error;

#[test]
fn error_parse_error_json() {
    let data: serde_json::Value = serde_json::from_str(
        "{\"code\":\"BadRequest\",\"message\":{\"lang\":\"en-US\",\"value\":\"Invalid Argument Items.Folder\"},\"reason\":\"BadRequest\"}",
    )
    .unwrap();
    let error = Error::from_json(data);
    assert!(error.is_err());
}

#[test]
fn error_parse_success_json() {
    let data: serde_json::Value = serde_json::from_str("{\"Id\":\"some-file-id\"}").unwrap();
    let error = Error::from_json(data);
    assert!(error.is_ok());
}

#[test]
fn mod_parse_error_json() {
    let data: serde_json::Value = serde_json::from_str(
        "{\"code\":\"BadRequest\",\"message\":{\"lang\":\"en-US\",\"value\":\"Invalid Argument Items.Folder\"},\"reason\":\"BadRequest\"}",
    )
    .unwrap();
    let error = Error::from_json(data);
    assert!(error.is_err());
}

#[test]
fn mod_parse_success_json() {
    let data: serde_json::Value = serde_json::from_str("{\"Id\":\"some-file-id\"}").unwrap();
    let error = Error::from_json(data);
    assert!(error.is_ok());
}

#[test]
fn service_error_carries_code_and_message() {
    let data: serde_json::Value = serde_json::from_str(
        "{\"code\":\"NotFound\",\"message\":{\"lang\":\"en-US\",\"value\":\"Item not found\"}}",
    )
    .unwrap();
    match Error::from_json(data) {
        Err(Error::Service(e)) => {
            assert_eq!(e.code().clone().unwrap(), "NotFound");
            assert_eq!(e.message(), "Item not found");
        },
        _ => panic!("expected a service error"),
    }
}
