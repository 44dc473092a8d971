//! Tests for item paths.

use shapir::api::items::Path;

#[test]
fn path_get_valid_id() {
    let path = Path::Id(String::from("123"));
    assert_eq!(path.id(), String::from("123"));
}

#[test]
fn path_get_invalid_id() {
    let path = Path::Home;
    assert_eq!(path.id(), String::new());
}

#[test]
fn path_home() {
    let path = Path::Home;
    assert!(path.is_home());
}

#[test]
fn path_favorites() {
    let path = Path::Favorites;
    assert!(path.is_favorites());
}

#[test]
fn path_allshared() {
    let path = Path::AllShared;
    assert!(path.is_allshared());
}

#[test]
fn path_connectors() {
    let path = Path::Connectors;
    assert!(path.is_connectors());
}

#[test]
fn path_box() {
    let path = Path::Box;
    assert!(path.is_box());
}

#[test]
fn path_top() {
    let path = Path::Top;
    assert!(path.is_top());
}

#[test]
fn path_id() {
    let path = Path::Id("id".to_owned());
    assert!(path.is_id());
}

#[test]
fn path_absolute() {
    let path = Path::Absolute("path".to_owned());
    assert!(path.is_absolute());
}

#[test]
fn path_relative() {
    let path = Path::Relative("this".to_owned(), "that".to_owned());
    assert!(path.is_relative());
}

#[test]
fn path_parent() {
    let path = Path::Parent("up".to_owned());
    assert!(path.is_parent());
}

#[test]
fn parse_valid_path() {
    let data: serde_json::Value =
        serde_json::from_str("{\"Id\":\"fi111111-2222-3333-4444-555555555555\"}").unwrap();
    let path = Path::from_json(data).unwrap();
    assert!(path.is_id());
}

#[test]
#[should_panic]
fn parse_invalid_path() {
    let data: serde_json::Value = serde_json::from_str("{\"code\":\"error\"}").unwrap();
    let _ = Path::from_json(data).unwrap();
}

#[test]
fn parse_path_id() {
    let data: serde_json::Value =
        serde_json::from_str("{\"Id\":\"fi111111-2222-3333-4444-555555555555\"}").unwrap();
    match Path::from_json(data).unwrap() {
        Path::Id(id) => assert_eq!(id, "fi111111-2222-3333-4444-555555555555"),
        _ => panic!("Parsed Path must be Id"),
    };
}

#[test]
fn entity_uri_for_home() {
    let uri = Path::Home.entity_and_parameters(None, None);
    assert_eq!(uri, "Items(home)?");
}

#[test]
fn entity_uri_for_id_with_segment() {
    let uri = Path::Id("abc".to_owned()).entity_and_parameters(Some("/Download"), None);
    assert_eq!(uri, "Items(abc)/Download?");
}

#[test]
fn path_to_json_id() {
    let value = Path::Id("abc".to_owned()).to_json();
    assert_eq!(value.get("Id").unwrap().as_str().unwrap(), "abc");
}

#[test]
fn path_to_json_other_is_null() {
    let value = Path::Top.to_json();
    assert!(value.is_null());
}
