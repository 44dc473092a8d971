//! Authentication: the OAuth token request a connection sends, the
//! authentication data it reads back, and the classification of API
//! responses.

use vstd::prelude::*;
use crate::connection::settings::ConnectionSettings;
use crate::error::{ApiResult, Error, ServiceError};
use crate::json::{get_string_field, json_rep, obj_has_field, obj_str_field, JsonRep};
use crate::odata::parameters::utf8_pairs;
use crate::urlenc::{enc_pairs, encode_pairs};

verus! {

/// The authentication data a successful token response carries.
#[derive(Debug, Clone)]
pub struct AuthData {
    /// Account subdomain.
    pub subdomain: String,
    /// Token type.
    pub token_type: String,
    /// Access token sent with every API request.
    pub access_token: String,
    /// Refresh token.
    pub refresh_token: String,
}

/// The plain content of authentication data.
pub struct AuthModel {
    /// Account subdomain.
    pub subdomain: Seq<char>,
    /// Token type.
    pub token_type: Seq<char>,
    /// Access token.
    pub access_token: Seq<char>,
    /// Refresh token.
    pub refresh_token: Seq<char>,
}

/// The authentication data a token response describes: nothing when the
/// response reports an error or lacks a field.
pub open spec fn auth_of(rep: JsonRep) -> Option<AuthModel> {
    if obj_has_field(rep, "error"@) {
        None
    } else {
        match obj_str_field(rep, "subdomain"@) {
            Some(subdomain) => match obj_str_field(rep, "token_type"@) {
                Some(token_type) => match obj_str_field(rep, "access_token"@) {
                    Some(access_token) => match obj_str_field(rep, "refresh_token"@) {
                        Some(refresh_token) => Some(
                            AuthModel { subdomain, token_type, access_token, refresh_token },
                        ),
                        None => None,
                    },
                    None => None,
                },
                None => None,
            },
            None => None,
        }
    }
}

impl AuthData {
    /// The plain content of this authentication data.
    pub open spec fn model(&self) -> AuthModel {
        AuthModel {
            subdomain: self.subdomain@,
            token_type: self.token_type@,
            access_token: self.access_token@,
            refresh_token: self.refresh_token@,
        }
    }

    /// Read authentication data from a token response: a response with an
    /// `error` field reports a service error, and one lacking any token
    /// field is malformed.
    pub fn parse_value(value: serde_json::Value) -> (r: ApiResult<AuthData>)
        ensures
            match auth_of(json_rep(value)) {
                Some(m) => r matches Ok(auth) && auth.model() == m,
                None => r is Err,
            },
            obj_has_field(json_rep(value), "error"@) ==> (r matches Err(e) && (e is Service
                || e is Json)),
    {
        if crate::json::has_field(&value, "error") {
            return match get_string_field(&value, "error") {
                Some(msg) => Err(Error::Service(ServiceError { code: None, message: msg })),
                None => Err(Error::Json(String::from_str("authentication error is malformed"))),
            };
        }
        let subdomain = match get_string_field(&value, "subdomain") {
            Some(v) => v,
            None => {
                return Err(Error::SpecMissing(String::from_str("subdomain")));
            },
        };
        let token_type = match get_string_field(&value, "token_type") {
            Some(v) => v,
            None => {
                return Err(Error::SpecMissing(String::from_str("token_type")));
            },
        };
        let access_token = match get_string_field(&value, "access_token") {
            Some(v) => v,
            None => {
                return Err(Error::SpecMissing(String::from_str("access_token")));
            },
        };
        let refresh_token = match get_string_field(&value, "refresh_token") {
            Some(v) => v,
            None => {
                return Err(Error::SpecMissing(String::from_str("refresh_token")));
            },
        };
        Ok(AuthData { subdomain, token_type, access_token, refresh_token })
    }
}

/// The URL a token request goes to, for an account subdomain.
pub fn oauth_token_url(subdomain: &str) -> (r: String)
    ensures
        r@ == "https://"@ + subdomain@ + ".sharefile.com/oauth/token"@,
{
    let mut out = String::from_str("https://");
    out.append(subdomain);
    out.append(".sharefile.com/oauth/token");
    assert(out@ =~= "https://"@ + subdomain@ + ".sharefile.com/oauth/token"@);
    out
}

/// The form body a password-grant token request carries.
pub fn oauth_form_body(client_id: &str, client_secret: &str, username: &str, password: &str) -> (
    r: String)
    ensures
        r@ == enc_pairs(
            utf8_pairs(
                seq![
                    ("grant_type"@, "password"@),
                    ("client_id"@, client_id@),
                    ("client_secret"@, client_secret@),
                    ("username"@, username@),
                    ("password"@, password@),
                ],
            ),
        ),
{
    let mut pairs: Vec<(String, String)> = Vec::new();
    pairs.push((String::from_str("grant_type"), String::from_str("password")));
    pairs.push((String::from_str("client_id"), client_id.to_owned()));
    pairs.push((String::from_str("client_secret"), client_secret.to_owned()));
    pairs.push((String::from_str("username"), username.to_owned()));
    pairs.push((String::from_str("password"), password.to_owned()));
    let r = encode_pairs(&pairs);
    proof {
        assert(crate::urlenc::pairs_bytes(pairs@) =~= utf8_pairs(
            seq![
                ("grant_type"@, "password"@),
                ("client_id"@, client_id@),
                ("client_secret"@, client_secret@),
                ("username"@, username@),
                ("password"@, password@),
            ],
        ));
    }
    r
}

/// The API endpoint all entity URIs are appended to, for an account
/// subdomain.
pub fn api_endpoint(subdomain: &str) -> (r: String)
    ensures
        r@ == "https://"@ + subdomain@ + ".sf-api.com/sf/v3/"@,
{
    let mut out = String::from_str("https://");
    out.append(subdomain);
    out.append(".sf-api.com/sf/v3/");
    assert(out@ =~= "https://"@ + subdomain@ + ".sf-api.com/sf/v3/"@);
    out
}

/// The full URL of an API call: the endpoint followed by the entity URI.
pub fn api_url(endpoint: &str, uri: &str) -> (r: String)
    ensures
        r@ == endpoint@ + uri@,
{
    let mut out = endpoint.to_owned();
    out.append(uri);
    out
}

/// What a token request needs from the settings: the token URL and the
/// form body, or the first required setting that is missing.
pub fn oauth_request(settings: &ConnectionSettings) -> (r: ApiResult<(String, String)>)
    ensures
        (settings.subdomain is Some && settings.username is Some && settings.password is Some
            && settings.client_id is Some && settings.client_secret is Some) <==> r is Ok,
        r matches Ok(parts) ==> parts.0@ == "https://"@ + settings.subdomain->0@
            + ".sharefile.com/oauth/token"@,
        r matches Ok(parts) ==> parts.1@ == enc_pairs(
            utf8_pairs(
                seq![
                    ("grant_type"@, "password"@),
                    ("client_id"@, settings.client_id->0@),
                    ("client_secret"@, settings.client_secret->0@),
                    ("username"@, settings.username->0@),
                    ("password"@, settings.password->0@),
                ],
            ),
        ),
        r is Err ==> (r matches Err(e) && e is SpecMissing),
{
    let subdomain = match &settings.subdomain {
        Some(v) => v,
        None => {
            return Err(Error::SpecMissing(String::from_str("subdomain")));
        },
    };
    let username = match &settings.username {
        Some(v) => v,
        None => {
            return Err(Error::SpecMissing(String::from_str("username")));
        },
    };
    let password = match &settings.password {
        Some(v) => v,
        None => {
            return Err(Error::SpecMissing(String::from_str("password")));
        },
    };
    let client_id = match &settings.client_id {
        Some(v) => v,
        None => {
            return Err(Error::SpecMissing(String::from_str("client_id")));
        },
    };
    let client_secret = match &settings.client_secret {
        Some(v) => v,
        None => {
            return Err(Error::SpecMissing(String::from_str("client_secret")));
        },
    };
    let url = oauth_token_url(subdomain.as_str());
    let body = oauth_form_body(
        client_id.as_str(),
        client_secret.as_str(),
        username.as_str(),
        password.as_str(),
    );
    Ok((url, body))
}

/// Classify an API response by its status code: a server error (5xx) is
/// rejected with that status, anything else passes the body through.
pub fn body_or_error(status: u16, body: String) -> (r: ApiResult<String>)
    ensures
        500 <= status < 600 ==> r == Err::<String, Error>(Error::RemoteRejected(status)),
        !(500 <= status < 600) ==> r == Ok::<String, Error>(body),
{
    if 500 <= status && status < 600 {
        Err(Error::RemoteRejected(status))
    } else {
        Ok(body)
    }
}

} // verus!
