//! Tests for item kinds and share kinds.

use shapir::api::items::Kind as ItemKind;
use shapir::api::shares::Kind as ShareKind;

#[test]
fn test_is_folder() {
    let kind = ItemKind::Folder;
    assert!(kind.is_folder());
}

#[test]
fn test_is_file() {
    let kind = ItemKind::File;
    assert!(kind.is_file());
}

#[test]
fn share_kind_send() {
    let share_kind = ShareKind::Send;
    assert_eq!(share_kind.is_send(), true);
    assert_eq!(share_kind.is_request(), false);
}

#[test]
fn share_kind_send_to_json() {
    let share_kind = ShareKind::Send;
    let value = share_kind.to_json();
    assert!(value.is_string());

    if let Some(s) = value.as_str() {
        assert_eq!(s, "Send");
    } else {
        panic!("Cannot get contained value");
    }
}

#[test]
fn share_kind_request() {
    let share_kind = ShareKind::Request;
    assert_eq!(share_kind.is_send(), false);
    assert_eq!(share_kind.is_request(), true);
}

#[test]
fn share_kind_request_to_json() {
    let share_kind = ShareKind::Request;
    let value = share_kind.to_json();
    assert!(value.is_string());

    if let Some(s) = value.as_str() {
        assert_eq!(s, "Request");
    } else {
        panic!("Cannot get contained value");
    }
}

#[test]
fn share_kind_from_json_send() {
    let value = serde_json::Value::String("Send".to_string());
    assert!(ShareKind::from_json(value).unwrap().is_send());
}

#[test]
fn share_kind_from_json_unknown_is_error() {
    let value = serde_json::Value::String("Neither".to_string());
    assert!(matches!(
        ShareKind::from_json(value),
        Err(shapir::Error::Json(_))
    ));
}
