//! Tests for request URIs, transfer specifications, text rendering and the
//! OAuth pieces.

use shapir::api::items::content::{
    chunk_uri_from_spec, download_request_uri, download_url_from_spec, upload_request_uri,
};
use shapir::api::items::requests::{
    mkdir_body, mkdir_uri, remove_bulk_body, remove_bulk_uri, remove_uri, share_create_uri,
};
use shapir::api::items::Path;
use shapir::connection::auth::{
    api_endpoint, api_url, body_or_error, oauth_form_body, oauth_request, oauth_token_url,
    AuthData,
};
use shapir::connection::{ConnectionBuilder, ConnectionSettings};
use shapir::dates::{date_to_string, SimpleDate};
use shapir::text::{to_hex_lower, u64_to_string};
use shapir::Error;

#[test]
fn bool_to_string_renders_both_values() {
    assert_eq!(shapir::bool_to_string(true), "true");
    assert_eq!(shapir::bool_to_string(false), "false");
}

#[test]
fn u64_to_string_renders_decimal() {
    assert_eq!(u64_to_string(0), "0");
    assert_eq!(u64_to_string(7), "7");
    assert_eq!(u64_to_string(16384), "16384");
    assert_eq!(u64_to_string(18446744073709551615), "18446744073709551615");
}

#[test]
fn hex_rendering_is_lowercase() {
    assert_eq!(to_hex_lower(&[]), "");
    assert_eq!(to_hex_lower(&[0x00, 0x0f, 0xab, 0xff]), "000fabff");
}

#[test]
fn date_renders_padded() {
    assert_eq!(date_to_string(&SimpleDate::new(2024, 7, 5)), "2024-07-05");
    assert_eq!(date_to_string(&SimpleDate::new(980, 11, 30)), "0980-11-30");
}

#[test]
fn download_uri_disables_redirects() {
    let uri = download_request_uri(&Path::Id("abc".to_string()));
    assert_eq!(uri, "Items(abc)/Download?redirect=false");
}

#[test]
fn upload_uri_carries_all_parameters() {
    let uri = upload_request_uri(&Path::Id("abc".to_string()), "file.txt", 123, false, true);
    assert_eq!(
        uri,
        "Items(abc)/Upload?method=streamed&raw=true&responseFormat=json&unzip=false&overwrite=true&fileName=file.txt&fileSize=123"
    );
}

#[test]
fn mkdir_request_parts() {
    let uri = mkdir_uri(&Path::Id("p1".to_string()), true);
    assert_eq!(uri, "Items(p1)/Folder?overwrite=true&passthrough=false");
    let body = mkdir_body("new folder".to_string(), Some("docs".to_string()));
    assert_eq!(body.get("Name").unwrap().as_str().unwrap(), "new folder");
    assert_eq!(body.get("Description").unwrap().as_str().unwrap(), "docs");
    let bare = mkdir_body("n".to_string(), None);
    assert!(bare.get("Description").is_none());
}

#[test]
fn remove_request_parts() {
    let uri = remove_uri(&Path::Id("x9".to_string()), true, false);
    assert_eq!(uri, "Items(x9)?singleversion=true&forceSync=false");
    let bulk = remove_bulk_uri(&Path::Id("p1".to_string()), false, true);
    assert_eq!(bulk, "Items(p1)/BulkDelete?deletePermanently=false&forceSync=true");
}

#[test]
fn remove_bulk_body_keeps_only_ids() {
    let items = vec![
        Path::Id("a".to_string()),
        Path::Home,
        Path::Id("b".to_string()),
        Path::Absolute("/x".to_string()),
    ];
    let body = remove_bulk_body(&items);
    let arr = body.as_array().unwrap();
    assert_eq!(arr.len(), 2);
    assert_eq!(arr[0].as_str().unwrap(), "a");
    assert_eq!(arr[1].as_str().unwrap(), "b");
}

#[test]
fn share_create_uri_carries_notify() {
    assert_eq!(share_create_uri(true), "Shares?notify=true");
    assert_eq!(share_create_uri(false), "Shares?notify=false");
}

#[test]
fn download_spec_extraction() {
    let spec: serde_json::Value =
        serde_json::from_str("{\"DownloadUrl\":\"https://dl.example/f\"}").unwrap();
    assert_eq!(download_url_from_spec(&spec).unwrap(), "https://dl.example/f");
    let missing: serde_json::Value = serde_json::from_str("{\"Other\":1}").unwrap();
    match download_url_from_spec(&missing) {
        Err(Error::SpecMissing(field)) => assert_eq!(field, "DownloadUrl"),
        _ => panic!("expected a missing-field error"),
    }
}

#[test]
fn upload_spec_extraction() {
    let spec: serde_json::Value =
        serde_json::from_str("{\"ChunkUri\":\"https://up.example/x?id=1\"}").unwrap();
    assert_eq!(chunk_uri_from_spec(&spec).unwrap(), "https://up.example/x?id=1");
    let missing: serde_json::Value = serde_json::from_str("{}").unwrap();
    match chunk_uri_from_spec(&missing) {
        Err(Error::SpecMissing(field)) => assert_eq!(field, "ChunkUri"),
        _ => panic!("expected a missing-field error"),
    }
}

#[test]
fn oauth_urls_and_body() {
    assert_eq!(
        oauth_token_url("acme"),
        "https://acme.sharefile.com/oauth/token"
    );
    assert_eq!(api_endpoint("acme"), "https://acme.sf-api.com/sf/v3/");
    assert_eq!(
        api_url("https://acme.sf-api.com/sf/v3/", "Items(home)?"),
        "https://acme.sf-api.com/sf/v3/Items(home)?"
    );

    let body = oauth_form_body("id", "SECRET-REDACTED", "user@example.com", "p w");
    let mut ser = form_urlencoded::Serializer::new(String::new());
    ser.append_pair("grant_type", "password");
    ser.append_pair("client_id", "id");
    ser.append_pair("client_secret", "SECRET-REDACTED");
    ser.append_pair("username", "user@example.com");
    ser.append_pair("password", "p w");
    assert_eq!(body, ser.finish());
}

#[test]
fn oauth_request_needs_every_setting() {
    let builder = ConnectionBuilder::new()
        .subdomain("acme".to_string())
        .username("u".to_string())
        .password("p".to_string())
        .client_id("c".to_string());
    assert!(matches!(
        oauth_request(&builder.settings),
        Err(Error::SpecMissing(_))
    ));
    let builder = builder.client_secret("s".to_string());
    let (url, body) = oauth_request(&builder.settings).unwrap();
    assert_eq!(url, "https://acme.sharefile.com/oauth/token");
    assert!(body.contains("grant_type=password"));
}

#[test]
fn settings_default_is_empty() {
    let settings = ConnectionSettings::default();
    assert!(settings.subdomain.is_none());
    assert!(settings.username.is_none());
    assert!(settings.password.is_none());
    assert!(settings.client_id.is_none());
    assert!(settings.client_secret.is_none());
    assert!(settings.read_timeout.is_none());
    assert!(settings.write_timeout.is_none());
}

#[test]
fn builder_timeouts_are_kept() {
    let builder = ConnectionBuilder::new()
        .read_timeout(std::time::Duration::from_secs(5))
        .write_timeout(std::time::Duration::from_secs(7));
    assert_eq!(
        builder.settings.read_timeout,
        Some(std::time::Duration::from_secs(5))
    );
    assert_eq!(
        builder.settings.write_timeout,
        Some(std::time::Duration::from_secs(7))
    );
}

#[test]
fn auth_data_parsing() {
    let value: serde_json::Value = serde_json::from_str(
        "{\"subdomain\":\"acme\",\"token_type\":\"bearer\",\"access_token\":\"SECRET-REDACTED\",\"refresh_token\":\"SECRET-REDACTED\"}",
    )
    .unwrap();
    let auth = AuthData::parse_value(value).unwrap();
    assert_eq!(auth.subdomain, "acme");
    assert_eq!(auth.token_type, "bearer");

    let err_value: serde_json::Value =
        serde_json::from_str("{\"error\":\"invalid_grant\"}").unwrap();
    match AuthData::parse_value(err_value) {
        Err(Error::Service(e)) => assert_eq!(e.message(), "invalid_grant"),
        _ => panic!("expected a service error"),
    }

    let partial: serde_json::Value = serde_json::from_str("{\"subdomain\":\"acme\"}").unwrap();
    assert!(matches!(
        AuthData::parse_value(partial),
        Err(Error::SpecMissing(_))
    ));
}

#[test]
fn response_classification_by_status() {
    assert_eq!(body_or_error(200, "ok".to_string()).unwrap(), "ok");
    assert_eq!(body_or_error(404, "missing".to_string()).unwrap(), "missing");
    assert!(matches!(
        body_or_error(500, "boom".to_string()),
        Err(Error::RemoteRejected(500))
    ));
}
