//! Tests for user identities.

use shapir::api::users::UserId;
use std::cmp::Ordering;

#[test]
fn user_id_from_id() {
    let user = UserId::from_id(String::from("ID!"));
    assert_eq!(user.is_id(), true);
    assert_eq!(user.id(), String::from("ID!"));
    assert_eq!(user.is_email(), false);
    assert_eq!(user.email(), String::new());
}

#[test]
fn user_by_id_to_json() {
    let user = UserId::from_id(String::from("ID!"));
    let value = user.to_json();
    assert!(value.is_object());

    if let Some(object) = value.as_object() {
        match object.get("Id") {
            Some(id) => {
                assert!(id.is_string());
                if let Some(s) = id.as_str() {
                    assert_eq!(s, "ID!");
                } else {
                    panic!("Cannot get contained value");
                }
            },
            None => panic!("Must contain Id property"),
        }
    } else {
        panic!("Cannot get contained object");
    }
}

#[test]
fn user_id_from_email() {
    let user = UserId::from_email(String::from("email@address.com"));
    assert_eq!(user.is_id(), false);
    assert_eq!(user.id(), String::new());
    assert_eq!(user.is_email(), true);
    assert_eq!(user.email(), String::from("email@address.com"));
}

#[test]
fn user_by_email_to_json() {
    let user = UserId::from_email(String::from("email@address.com"));
    let value = user.to_json();
    assert!(value.is_object());

    if let Some(object) = value.as_object() {
        match object.get("Email") {
            Some(email) => {
                assert!(email.is_string());
                if let Some(s) = email.as_str() {
                    assert_eq!(s, "email@address.com");
                } else {
                    panic!("Cannot get contained value");
                }
            },
            None => panic!("Must contain Id property"),
        }
    } else {
        panic!("Cannot get contained object");
    }
}

#[test]
fn user_id_from_mailbox() {
    let user = UserId::from_mailbox(email::Mailbox::new("someone@example.com".to_string()));
    assert!(user.is_email());
    assert_eq!(user.email(), String::from("someone@example.com"));
}

#[test]
fn user_id_ordering() {
    let a = UserId::from_id("abc".to_string());
    let b = UserId::from_id("abd".to_string());
    assert_eq!(a.partial_cmp(&b), Some(Ordering::Less));
    assert_eq!(b.partial_cmp(&a), Some(Ordering::Greater));
    assert_eq!(a.partial_cmp(&a.clone()), Some(Ordering::Equal));

    let upper = UserId::from_email("ABC@Example.COM".to_string());
    let lower = UserId::from_email("abc@example.com".to_string());
    assert_eq!(upper.partial_cmp(&lower), Some(Ordering::Equal));

    let id = UserId::from_id("x".to_string());
    let mail = UserId::from_email("x@example.com".to_string());
    assert_eq!(id.partial_cmp(&mail), None);
}
