//! Share details, read from the JSON the Shares entity returns.

use vstd::prelude::*;
use crate::api::shares::access_right::AccessRight;
use crate::api::shares::kind::Kind;
use crate::dates::{parse_utc_instant, utc_instant_of};
use crate::error::{ApiResult, Error};
use crate::json::{
    get_bool_field, get_i64_field, get_string_field, has_field, json_rep, obj_bool_field,
    obj_has_field, obj_i64_field, obj_str_field, value_is_object, JsonRep,
};

verus! {

/// Share details.
#[derive(Debug)]
pub struct Share {
    /// Share kind: send or request.
    pub kind: Kind,
    /// Access right for the share.
    pub access_right: AccessRight,
    /// ID of the share.
    pub id: String,
    /// Alias ID of the share.
    pub alias_id: String,
    /// Instant the share was created, as a Unix timestamp.
    pub creation_date: i64,
    /// Instant the share expires, as a Unix timestamp.
    pub expiration_date: i64,
    /// User activity is tracked up to this instant, as a Unix timestamp.
    pub track_until_date: i64,
    /// Maximum number of downloads each user can perform.
    pub max_downloads: i64,
    /// Total number of times the share has been downloaded.
    pub total_downloads: i64,
    /// Subject of the share's e-mail message.
    pub sent_message_title: String,
    /// Signature for the share data.
    pub signature: String,
    /// Share title.
    pub title: String,
    /// URI to access the share through the web portal.
    pub uri: String,
    /// Whether the share has been archived.
    pub is_archived: bool,
    /// Whether the share has been downloaded.
    pub is_consumed: bool,
    /// Whether the share has been viewed by an authenticated recipient.
    pub is_read: bool,
    /// Whether the share is view-only.
    pub is_view_only: bool,
    /// Whether only authenticated users can download from the share.
    pub require_login: bool,
    /// Whether users must provide their information to download.
    pub require_user_info: bool,
    /// Whether e-mail messages were sent for the share.
    pub has_sent_message: bool,
    /// Whether items are identified by stream IDs.
    pub uses_stream_ids: bool,
}

/// The plain content of a share, as read from its JSON.
pub struct ShareModel {
    /// Share kind.
    pub kind: Kind,
    /// Access right.
    pub access_right: AccessRight,
    /// ID of the share.
    pub id: Seq<char>,
    /// Alias ID.
    pub alias_id: Seq<char>,
    /// Creation instant.
    pub creation_date: int,
    /// Expiration instant.
    pub expiration_date: int,
    /// Tracking horizon.
    pub track_until_date: int,
    /// Maximum downloads per user.
    pub max_downloads: int,
    /// Total downloads so far.
    pub total_downloads: int,
    /// Message subject.
    pub sent_message_title: Seq<char>,
    /// Signature.
    pub signature: Seq<char>,
    /// Title.
    pub title: Seq<char>,
    /// Web portal URI.
    pub uri: Seq<char>,
    /// Archived flag.
    pub is_archived: bool,
    /// Consumed flag.
    pub is_consumed: bool,
    /// Read flag.
    pub is_read: bool,
    /// View-only flag.
    pub is_view_only: bool,
    /// Login-required flag.
    pub require_login: bool,
    /// User-info-required flag.
    pub require_user_info: bool,
    /// Message-sent flag.
    pub has_sent_message: bool,
    /// Stream-ID flag.
    pub uses_stream_ids: bool,
}

/// The kind a share's `ShareType` field names, when it names one.
pub open spec fn share_kind_of(rep: JsonRep) -> Option<Kind> {
    match obj_str_field(rep, "ShareType"@) {
        Some(t) => if t == "Send"@ {
            Some(Kind::Send)
        } else if t == "Request"@ {
            Some(Kind::Request)
        } else {
            None
        },
        None => None,
    }
}

/// A boolean field that defaults to false when absent, and is malformed
/// when present but not a boolean.
pub open spec fn opt_bool_field(rep: JsonRep, key: Seq<char>) -> Option<bool> {
    if obj_has_field(rep, key) {
        obj_bool_field(rep, key)
    } else {
        Some(false)
    }
}

/// A date field holding a string that parses as an instant.
pub open spec fn date_field_of(rep: JsonRep, key: Seq<char>) -> Option<int> {
    match obj_str_field(rep, key) {
        Some(s) => match utc_instant_of(s) {
            Some(ts) => Some(ts as int),
            None => None,
        },
        None => None,
    }
}

/// The share a JSON object describes: every required field present and
/// well-formed — or nothing. The flags `IsArchived`, `IsViewOnly` and
/// `UsesStreamIDs` may be absent and then read as false; every other field
/// is required. Any value carried by `ShareAccessRight` reads as full
/// control, but the field must be present.
pub open spec fn share_of(rep: JsonRep) -> Option<ShareModel> {
    if !(rep is Obj) {
        None
    } else {
        match share_kind_of(rep) {
            Some(kind) => if !obj_has_field(rep, "ShareAccessRight"@) {
                None
            } else {
                match obj_str_field(rep, "Id"@) {
                    Some(id) => match obj_str_field(rep, "AliasID"@) {
                        Some(alias_id) => match date_field_of(rep, "CreationDate"@) {
                            Some(creation_date) => match date_field_of(rep, "ExpirationDate"@) {
                                Some(expiration_date) => match date_field_of(
                                    rep,
                                    "TrackUntilDate"@,
                                ) {
                                    Some(track_until_date) => match obj_i64_field(
                                        rep,
                                        "MaxDownloads"@,
                                    ) {
                                        Some(max_downloads) => match obj_i64_field(
                                            rep,
                                            "TotalDownloads"@,
                                        ) {
                                            Some(total_downloads) => match obj_str_field(
                                                rep,
                                                "SentMessageTitle"@,
                                            ) {
                                                Some(sent_message_title) => match obj_str_field(
                                                    rep,
                                                    "Signature"@,
                                                ) {
                                                    Some(signature) => match obj_str_field(
                                                        rep,
                                                        "Title"@,
                                                    ) {
                                                        Some(title) => match obj_str_field(
                                                            rep,
                                                            "Uri"@,
                                                        ) {
                                                            Some(uri) => match opt_bool_field(
                                                                rep,
                                                                "IsArchived"@,
                                                            ) {
                                                                Some(is_archived) => match obj_bool_field(
                                                                    rep,
                                                                    "IsConsumed"@,
                                                                ) {
                                                                    Some(is_consumed) => match obj_bool_field(
                                                                        rep,
                                                                        "IsRead"@,
                                                                    ) {
                                                                        Some(is_read) => match opt_bool_field(
                                                                            rep,
                                                                            "IsViewOnly"@,
                                                                        ) {
                                                                            Some(is_view_only) => match obj_bool_field(
                                                                                rep,
                                                                                "RequireLogin"@,
                                                                            ) {
                                                                                Some(require_login) => match obj_bool_field(
                                                                                    rep,
                                                                                    "RequireUserInfo"@,
                                                                                ) {
                                                                                    Some(
                                                                                        require_user_info,
                                                                                    ) => match obj_bool_field(
                                                                                        rep,
                                                                                        "HasSentMessage"@,
                                                                                    ) {
                                                                                        Some(
                                                                                            has_sent_message,
                                                                                        ) => match opt_bool_field(
                                                                                            rep,
                                                                                            "UsesStreamIDs"@,
                                                                                        ) {
                                                                                            Some(
                                                                                                uses_stream_ids,
                                                                                            ) => Some(
                                                                                                ShareModel {
                                                                                                    kind,
                                                                                                    access_right:
                                                                                                        AccessRight::FullControl,
                                                                                                    id,
                                                                                                    alias_id,
                                                                                                    creation_date,
                                                                                                    expiration_date,
                                                                                                    track_until_date,
                                                                                                    max_downloads,
                                                                                                    total_downloads,
                                                                                                    sent_message_title,
                                                                                                    signature,
                                                                                                    title,
                                                                                                    uri,
                                                                                                    is_archived,
                                                                                                    is_consumed,
                                                                                                    is_read,
                                                                                                    is_view_only,
                                                                                                    require_login,
                                                                                                    require_user_info,
                                                                                                    has_sent_message,
                                                                                                    uses_stream_ids,
                                                                                                },
                                                                                            ),
                                                                                            None => None,
                                                                                        },
                                                                                        None => None,
                                                                                    },
                                                                                    None => None,
                                                                                },
                                                                                None => None,
                                                                            },
                                                                            None => None,
                                                                        },
                                                                        None => None,
                                                                    },
                                                                    None => None,
                                                                },
                                                                None => None,
                                                            },
                                                            None => None,
                                                        },
                                                        None => None,
                                                    },
                                                    None => None,
                                                },
                                                None => None,
                                            },
                                            None => None,
                                        },
                                        None => None,
                                    },
                                    None => None,
                                },
                                None => None,
                            },
                            None => None,
                        },
                        None => None,
                    },
                    None => None,
                }
            },
            None => None,
        }
    }
}

impl Share {
    /// The plain content of this share.
    pub open spec fn model(&self) -> ShareModel {
        ShareModel {
            kind: self.kind,
            access_right: self.access_right,
            id: self.id@,
            alias_id: self.alias_id@,
            creation_date: self.creation_date as int,
            expiration_date: self.expiration_date as int,
            track_until_date: self.track_until_date as int,
            max_downloads: self.max_downloads as int,
            total_downloads: self.total_downloads as int,
            sent_message_title: self.sent_message_title@,
            signature: self.signature@,
            title: self.title@,
            uri: self.uri@,
            is_archived: self.is_archived,
            is_consumed: self.is_consumed,
            is_read: self.is_read,
            is_view_only: self.is_view_only,
            require_login: self.require_login,
            require_user_info: self.require_user_info,
            has_sent_message: self.has_sent_message,
            uses_stream_ids: self.uses_stream_ids,
        }
    }

    /// Read a share from its JSON object.
    #[verifier::rlimit(60)]
    pub fn from_json(value: serde_json::Value) -> (r: ApiResult<Share>)
        ensures
            match share_of(json_rep(value)) {
                Some(m) => r matches Ok(share) && share.model() == m,
                None => r is Err,
            },
    {
        proof {
            reveal_strlit("Send");
            reveal_strlit("Request");
        }
        if !value_is_object(&value) {
            return Err(Error::Json(String::from_str("share is not a JSON object")));
        }
        let kind = match get_string_field(&value, "ShareType") {
            Some(t) => {
                if t == String::from_str("Send") {
                    proof {
                        assert("Send"@.len() == 4);
                        assert("Request"@.len() == 7);
                    }
                    Kind::Send
                } else if t == String::from_str("Request") {
                    Kind::Request
                } else {
                    return Err(Error::Json(String::from_str("unknown share kind")));
                }
            },
            None => {
                return Err(Error::Json(String::from_str("share kind is missing")));
            },
        };
        if !has_field(&value, "ShareAccessRight") {
            return Err(Error::Json(String::from_str("share access right is missing")));
        }
        let id = match get_string_field(&value, "Id") {
            Some(v) => v,
            None => {
                return Err(Error::Json(String::from_str("share ID is missing")));
            },
        };
        let alias_id = match get_string_field(&value, "AliasID") {
            Some(v) => v,
            None => {
                return Err(Error::Json(String::from_str("share alias ID is missing")));
            },
        };
        let creation_date = match Share::date_field(&value, "CreationDate") {
            Some(v) => v,
            None => {
                return Err(Error::Json(String::from_str("share creation date is invalid")));
            },
        };
        let expiration_date = match Share::date_field(&value, "ExpirationDate") {
            Some(v) => v,
            None => {
                return Err(Error::Json(String::from_str("share expiration date is invalid")));
            },
        };
        let track_until_date = match Share::date_field(&value, "TrackUntilDate") {
            Some(v) => v,
            None => {
                return Err(Error::Json(String::from_str("share tracking date is invalid")));
            },
        };
        let max_downloads = match get_i64_field(&value, "MaxDownloads") {
            Some(v) => v,
            None => {
                return Err(Error::Json(String::from_str("share maximum downloads is missing")));
            },
        };
        let total_downloads = match get_i64_field(&value, "TotalDownloads") {
            Some(v) => v,
            None => {
                return Err(Error::Json(String::from_str("share total downloads is missing")));
            },
        };
        let sent_message_title = match get_string_field(&value, "SentMessageTitle") {
            Some(v) => v,
            None => {
                return Err(Error::Json(String::from_str("share message title is missing")));
            },
        };
        let signature = match get_string_field(&value, "Signature") {
            Some(v) => v,
            None => {
                return Err(Error::Json(String::from_str("share signature is missing")));
            },
        };
        let title = match get_string_field(&value, "Title") {
            Some(v) => v,
            None => {
                return Err(Error::Json(String::from_str("share title is missing")));
            },
        };
        let uri = match get_string_field(&value, "Uri") {
            Some(v) => v,
            None => {
                return Err(Error::Json(String::from_str("share URI is missing")));
            },
        };
        let is_archived = match Share::flag_field(&value, "IsArchived") {
            Some(v) => v,
            None => {
                return Err(Error::Json(String::from_str("share archived flag is malformed")));
            },
        };
        let is_consumed = match get_bool_field(&value, "IsConsumed") {
            Some(v) => v,
            None => {
                return Err(Error::Json(String::from_str("share consumed flag is missing")));
            },
        };
        let is_read = match get_bool_field(&value, "IsRead") {
            Some(v) => v,
            None => {
                return Err(Error::Json(String::from_str("share read flag is missing")));
            },
        };
        let is_view_only = match Share::flag_field(&value, "IsViewOnly") {
            Some(v) => v,
            None => {
                return Err(Error::Json(String::from_str("share view-only flag is malformed")));
            },
        };
        let require_login = match get_bool_field(&value, "RequireLogin") {
            Some(v) => v,
            None => {
                return Err(Error::Json(String::from_str("share login flag is missing")));
            },
        };
        let require_user_info = match get_bool_field(&value, "RequireUserInfo") {
            Some(v) => v,
            None => {
                return Err(Error::Json(String::from_str("share user-info flag is missing")));
            },
        };
        let has_sent_message = match get_bool_field(&value, "HasSentMessage") {
            Some(v) => v,
            None => {
                return Err(Error::Json(String::from_str("share message flag is missing")));
            },
        };
        let uses_stream_ids = match Share::flag_field(&value, "UsesStreamIDs") {
            Some(v) => v,
            None => {
                return Err(Error::Json(String::from_str("share stream-ID flag is malformed")));
            },
        };
        Ok(
            Share {
                kind,
                access_right: AccessRight::FullControl,
                id,
                alias_id,
                creation_date,
                expiration_date,
                track_until_date,
                max_downloads,
                total_downloads,
                sent_message_title,
                signature,
                title,
                uri,
                is_archived,
                is_consumed,
                is_read,
                is_view_only,
                require_login,
                require_user_info,
                has_sent_message,
                uses_stream_ids,
            },
        )
    }

    /// Read a date field: a string that parses as an instant.
    fn date_field(value: &serde_json::Value, key: &str) -> (r: Option<i64>)
        ensures
            match date_field_of(json_rep(*value), key@) {
                Some(ts) => r matches Some(v) && v as int == ts,
                None => r is None,
            },
    {
        match get_string_field(value, key) {
            Some(s) => parse_utc_instant(s.as_str()),
            None => None,
        }
    }

    /// Read a flag that defaults to false when absent.
    fn flag_field(value: &serde_json::Value, key: &str) -> (r: Option<bool>)
        ensures
            r == opt_bool_field(json_rep(*value), key@),
    {
        if has_field(value, key) {
            get_bool_field(value, key)
        } else {
            Some(false)
        }
    }
}

} // verus!
