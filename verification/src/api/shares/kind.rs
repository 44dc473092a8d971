//! Share kind: a share either sends files to users or requests files from
//! them.

use vstd::prelude::*;
use crate::error::{ApiResult, Error};
use crate::json::{json_rep, value_as_str, value_string, JsonRep};

verus! {

/// Share kind.
#[derive(Debug, Clone, PartialEq, Eq, PartialOrd, Ord)]
pub enum Kind {
    /// `Send` shares send files and folders to the specified users.
    Send,
    /// `Request` shares let users upload files to a chosen location.
    Request,
}

/// The JSON string a share kind renders to.
pub open spec fn kind_json_of(k: Kind) -> JsonRep {
    match k {
        Kind::Send => JsonRep::Str("Send"@),
        Kind::Request => JsonRep::Str("Request"@),
    }
}

impl Kind {
    /// Read a share kind from a JSON value: the string `"Send"` or
    /// `"Request"`; anything else is malformed.
    pub fn from_json(value: serde_json::Value) -> (r: ApiResult<Kind>)
        ensures
            json_rep(value) == JsonRep::Str("Send"@) ==> r == Ok::<Kind, Error>(Kind::Send),
            json_rep(value) == JsonRep::Str("Request"@) ==> r == Ok::<Kind, Error>(Kind::Request),
            (match json_rep(value) {
                JsonRep::Str(s) => s != "Send"@ && s != "Request"@,
                _ => true,
            }) ==> (r matches Err(e) && e is Json),
    {
        proof {
            reveal_strlit("Send");
            reveal_strlit("Request");
        }
        match value_as_str(&value) {
            Some(s) => {
                if s == String::from_str("Send") {
                    assert("Send"@.len() == 4);
                    assert("Request"@.len() == 7);
                    Ok(Kind::Send)
                } else if s == String::from_str("Request") {
                    Ok(Kind::Request)
                } else {
                    Err(Error::Json(String::from_str("share kind is not Send or Request")))
                }
            },
            None => Err(Error::Json(String::from_str("share kind is not a JSON string"))),
        }
    }

    /// Whether the kind is `Send`.
    pub fn is_send(&self) -> (r: bool)
        ensures
            r == (self matches Kind::Send),
    {
        match self {
            Kind::Send => true,
            _ => false,
        }
    }

    /// Whether the kind is `Request`.
    pub fn is_request(&self) -> (r: bool)
        ensures
            r == (self matches Kind::Request),
    {
        match self {
            Kind::Request => true,
            _ => false,
        }
    }

    /// Render the kind as its JSON string.
    pub fn to_json(&self) -> (r: serde_json::Value)
        ensures
            json_rep(r) == kind_json_of(*self),
    {
        match self {
            Kind::Send => value_string(String::from_str("Send")),
            Kind::Request => value_string(String::from_str("Request")),
        }
    }
}

} // verus!
