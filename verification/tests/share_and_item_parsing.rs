//! Tests for reading items and shares from JSON, and for rendering share
//! configurations.

use shapir::api::items::Item;
use shapir::api::shares::{AccessRight, Share, ShareConfig};
use shapir::api::users::UserId;
use shapir::api::items::Path;
use shapir::api::MultiOption;
use shapir::dates::SimpleDate;
use shapir::Error;

fn item_json() -> String {
    "{\"odata.type\":\"ShareFile.Api.Models.File\",\"Id\":\"fi123\",\"url\":\"https://api.example/fi123\",\"Name\":\"report\",\"FileName\":\"report.pdf\",\"Description\":\"the report\",\"FileSizeBytes\":2048,\"CreationDate\":\"2024-01-02T03:04:05Z\"}".to_string()
}

#[test]
fn item_from_single_value() {
    let value: serde_json::Value = serde_json::from_str(&item_json()).unwrap();
    match Item::from_value(value, false).unwrap() {
        MultiOption::One(item) => {
            assert!(item.kind.is_file());
            assert_eq!(item.id, "fi123");
            assert_eq!(item.name, "report");
            assert_eq!(item.filename, "report.pdf");
            assert_eq!(item.size, 2048);
            assert_eq!(item.creation_date, 1704164645);
            assert!(item.meta.is_none());
        },
        _ => panic!("expected one item"),
    }
}

#[test]
fn item_from_value_keeps_meta_when_asked() {
    let value: serde_json::Value = serde_json::from_str(&item_json()).unwrap();
    match Item::from_value(value, true).unwrap() {
        MultiOption::One(item) => {
            let meta = item.meta.expect("meta must be kept");
            assert_eq!(meta.get("Id").unwrap().as_str().unwrap(), "fi123");
        },
        _ => panic!("expected one item"),
    }
}

#[test]
fn item_list_from_counted_value() {
    let text = format!(
        "{{\"odata.count\":2,\"value\":[{},{}]}}",
        item_json(),
        item_json()
    );
    let value: serde_json::Value = serde_json::from_str(&text).unwrap();
    match Item::from_value(value, false).unwrap() {
        MultiOption::Many(items) => {
            assert_eq!(items.len(), 2);
            assert_eq!(items[0].id, "fi123");
        },
        _ => panic!("expected many items"),
    }
}

#[test]
fn item_with_missing_field_is_error() {
    let value: serde_json::Value =
        serde_json::from_str("{\"odata.type\":\"ShareFile.Api.Models.File\",\"Id\":\"x\"}")
            .unwrap();
    assert!(matches!(Item::from_value(value, false), Err(Error::Json(_))));
}

#[test]
fn item_path_points_to_id() {
    let value: serde_json::Value = serde_json::from_str(&item_json()).unwrap();
    match Item::from_value(value, false).unwrap() {
        MultiOption::One(item) => {
            let path = item.path();
            assert!(path.is_id());
            assert_eq!(path.id(), "fi123");
        },
        _ => panic!("expected one item"),
    }
}

fn share_json() -> String {
    "{\"ShareType\":\"Send\",\"ShareAccessRight\":{\"AccessRightType\":\"FullControl\"},\"Id\":\"sh1\",\"AliasID\":\"al1\",\"CreationDate\":\"2024-01-02T03:04:05Z\",\"ExpirationDate\":\"2024-02-02T03:04:05Z\",\"TrackUntilDate\":\"2024-03-02T03:04:05Z\",\"MaxDownloads\":-1,\"TotalDownloads\":4,\"SentMessageTitle\":\"files for you\",\"Signature\":\"sig\",\"Title\":\"my share\",\"Uri\":\"https://share.example/sh1\",\"IsConsumed\":true,\"IsRead\":false,\"RequireLogin\":true,\"RequireUserInfo\":false,\"HasSentMessage\":true}".to_string()
}

#[test]
fn share_from_full_json() {
    let value: serde_json::Value = serde_json::from_str(&share_json()).unwrap();
    let share = Share::from_json(value).unwrap();
    assert!(share.kind.is_send());
    assert!(share.access_right.is_full_control());
    assert_eq!(share.id, "sh1");
    assert_eq!(share.alias_id, "al1");
    assert_eq!(share.creation_date, 1704164645);
    assert_eq!(share.max_downloads, -1);
    assert_eq!(share.total_downloads, 4);
    assert_eq!(share.title, "my share");
    assert_eq!(share.is_archived, false);
    assert_eq!(share.is_view_only, false);
    assert_eq!(share.uses_stream_ids, false);
    assert_eq!(share.is_consumed, true);
    assert_eq!(share.require_login, true);
}

#[test]
fn share_without_required_field_is_error() {
    let value: serde_json::Value = serde_json::from_str("{\"ShareType\":\"Send\"}").unwrap();
    assert!(Share::from_json(value).is_err());
}

#[test]
fn access_right_always_reads_full_control() {
    let value = serde_json::Value::Null;
    assert!(AccessRight::from_json(value).unwrap().is_full_control());
}

#[test]
fn send_config_validation() {
    let config = ShareConfig::send();
    assert!(config.is_send());
    assert!(config.validate().is_ok());

    let config = ShareConfig::send().parent(Path::Home);
    assert!(matches!(config.validate(), Err(Error::Other(_))));

    let config = ShareConfig::send()
        .parent(Path::Id("p".to_string()))
        .items(vec![Path::Id("a".to_string()), Path::Id("b".to_string())]);
    assert!(config.validate().is_ok());

    let config = ShareConfig::send().items(vec![Path::Id("a".to_string()), Path::Top]);
    assert!(config.validate().is_err());
}

#[test]
fn request_config_requires_parent() {
    let config = ShareConfig::request();
    assert!(config.is_request());
    assert!(config.validate().is_err());
    let config = ShareConfig::request().parent(Path::Id("p".to_string()));
    assert!(config.validate().is_ok());
}

#[test]
fn config_renders_expected_json() {
    let config = ShareConfig::send()
        .title("my files".to_string())
        .parent(Path::Id("p1".to_string()))
        .items(vec![Path::Id("a".to_string())])
        .recipients(vec![
            UserId::from_id("u1".to_string()),
            UserId::from_email("who@example.com".to_string()),
        ])
        .expiration_date(SimpleDate::new(2024, 7, 5))
        .require_login(true)
        .max_downloads(0);
    let value = config.to_json();

    assert_eq!(value.get("UsesStreamIDs").unwrap().as_bool().unwrap(), false);
    assert_eq!(value.get("ShareType").unwrap().as_str().unwrap(), "Send");
    assert_eq!(value.get("Title").unwrap().as_str().unwrap(), "my files");
    assert_eq!(value.get("RequireLogin").unwrap().as_bool().unwrap(), true);
    assert_eq!(value.get("RequireUserInfo").unwrap().as_bool().unwrap(), false);
    assert_eq!(value.get("MaxDownloads").unwrap().as_i64().unwrap(), -1);
    assert_eq!(
        value.get("ExpirationDate").unwrap().as_str().unwrap(),
        "2024-07-05"
    );
    let recipients = value.get("Recipients").unwrap().as_array().unwrap();
    assert_eq!(recipients.len(), 2);
    assert_eq!(
        recipients[0].get("User").unwrap().get("Id").unwrap().as_str().unwrap(),
        "u1"
    );
    assert_eq!(
        recipients[1].get("User").unwrap().get("Email").unwrap().as_str().unwrap(),
        "who@example.com"
    );
    assert_eq!(
        value.get("Parent").unwrap().get("Id").unwrap().as_str().unwrap(),
        "p1"
    );
    let items = value.get("Items").unwrap().as_array().unwrap();
    assert_eq!(items[0].get("Id").unwrap().as_str().unwrap(), "a");
}

#[test]
fn item_with_invalid_date_is_error() {
    let text = item_json().replace("2024-01-02T03:04:05Z", "not a date");
    let value: serde_json::Value = serde_json::from_str(&text).unwrap();
    assert!(matches!(Item::from_value(value, false), Err(Error::Json(_))));
}
