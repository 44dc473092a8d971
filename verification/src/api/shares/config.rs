//! Share configuration: what a new share is built from, its validation
//! rules, and the JSON body its creation request carries.

use vstd::prelude::*;
use crate::api::items::path::{path_json_of, Path};
use crate::api::shares::kind::{kind_json_of, Kind};
use crate::api::users::user_id::{user_json_of, UserId};
use crate::dates::{date_str_of, date_to_string, SimpleDate};
use crate::error::{ApiResult, Error};
use crate::json::{
    empty_obj, json_rep, map_insert, map_new, value_array, value_bool, value_i64, value_object,
    value_string, JsonRep,
};

verus! {

/// Share configuration.
#[derive(Debug, Clone)]
pub struct ShareConfig {
    /// Share kind.
    pub kind: Kind,
    /// Share title.
    pub title: Option<String>,
    /// Folder that contains the shared files, or that uploads go to.
    pub parent: Option<Path>,
    /// Shared items, for `Send` shares only.
    pub items: Option<Vec<Path>>,
    /// Users that have access to the share.
    pub recipients: Option<Vec<UserId>>,
    /// Day the share expires.
    pub expiration_date: Option<SimpleDate>,
    /// Whether only authenticated users can download.
    pub require_login: Option<bool>,
    /// Whether users must provide their information to download.
    pub require_user_info: Option<bool>,
    /// Maximum number of downloads each user can perform.
    pub max_downloads: Option<i32>,
}

/// Whether a configuration is fit to send: a `Send` share's parent and
/// items, when given, must be resolved to IDs; a `Request` share requires
/// a parent resolved to an ID.
pub open spec fn valid_config(c: ShareConfig) -> bool {
    if c.kind is Send {
        &&& (match c.parent {
            Some(p) => p is Id,
            None => true,
        })
        &&& (match c.items {
            Some(items) => forall|k: int| 0 <= k < items@.len() ==> (#[trigger] items@[k]) is Id,
            None => true,
        })
    } else {
        match c.parent {
            Some(p) => p is Id,
            None => false,
        }
    }
}

/// The maximum-downloads number a configuration sends: the configured
/// value when positive, and `-1` (unlimited) otherwise.
pub open spec fn max_downloads_norm(o: Option<i32>) -> int {
    match o {
        Some(n) => if n <= 0 {
            -1
        } else {
            n as int
        },
        None => -1,
    }
}

/// The JSON entry a recipient renders to: the user wrapped in an object
/// under `User`.
pub open spec fn user_entry_rep(u: UserId) -> JsonRep {
    JsonRep::Obj(empty_obj().insert("User"@, user_json_of(u)))
}

/// The JSON body a configuration renders to.
pub open spec fn config_json_of(c: ShareConfig) -> JsonRep {
    let m0 = empty_obj().insert("UsesStreamIDs"@, JsonRep::Bool(false));
    let m1 = m0.insert("ShareType"@, kind_json_of(c.kind));
    let m2 = match c.title {
        Some(t) => m1.insert("Title"@, JsonRep::Str(t@)),
        None => m1,
    };
    let m3 = m2.insert(
        "RequireLogin"@,
        JsonRep::Bool(
            match c.require_login {
                Some(b) => b,
                None => false,
            },
        ),
    );
    let m4 = m3.insert(
        "RequireUserInfo"@,
        JsonRep::Bool(
            match c.require_user_info {
                Some(b) => b,
                None => false,
            },
        ),
    );
    let m5 = m4.insert("MaxDownloads"@, JsonRep::Int(max_downloads_norm(c.max_downloads)));
    let m6 = match c.expiration_date {
        Some(d) => m5.insert("ExpirationDate"@, JsonRep::Str(date_str_of(d))),
        None => m5,
    };
    let m7 = match c.recipients {
        Some(rs) => m6.insert(
            "Recipients"@,
            JsonRep::Arr(rs@.map_values(|u: UserId| user_entry_rep(u))),
        ),
        None => m6,
    };
    let m8 = match c.parent {
        Some(p) => m7.insert("Parent"@, path_json_of(p)),
        None => m7,
    };
    let m9 = match c.items {
        Some(ps) => m8.insert("Items"@, JsonRep::Arr(ps@.map_values(|p: Path| path_json_of(p)))),
        None => m8,
    };
    JsonRep::Obj(m9)
}

impl ShareConfig {
    /// Create a new `Send` share configuration.
    pub fn send() -> (r: ShareConfig)
        ensures
            r.kind == Kind::Send,
            r.title.is_none(),
            r.parent.is_none(),
            r.items.is_none(),
            r.recipients.is_none(),
            r.expiration_date.is_none(),
            r.require_login.is_none(),
            r.require_user_info.is_none(),
            r.max_downloads.is_none(),
    {
        ShareConfig {
            kind: Kind::Send,
            title: None,
            parent: None,
            items: None,
            recipients: None,
            expiration_date: None,
            require_login: None,
            require_user_info: None,
            max_downloads: None,
        }
    }

    /// Create a new `Request` share configuration.
    pub fn request() -> (r: ShareConfig)
        ensures
            r.kind == Kind::Request,
            r.title.is_none(),
            r.parent.is_none(),
            r.items.is_none(),
            r.recipients.is_none(),
            r.expiration_date.is_none(),
            r.require_login.is_none(),
            r.require_user_info.is_none(),
            r.max_downloads.is_none(),
    {
        ShareConfig {
            kind: Kind::Request,
            title: None,
            parent: None,
            items: None,
            recipients: None,
            expiration_date: None,
            require_login: None,
            require_user_info: None,
            max_downloads: None,
        }
    }

    /// Whether the share is of kind `Send`.
    pub fn is_send(&self) -> (r: bool)
        ensures
            r == (self.kind matches Kind::Send),
    {
        self.kind.is_send()
    }

    /// Whether the share is of kind `Request`.
    pub fn is_request(&self) -> (r: bool)
        ensures
            r == (self.kind matches Kind::Request),
    {
        self.kind.is_request()
    }

    /// Set the title.
    pub fn title(self, title: String) -> (r: Self)
        ensures
            r == (ShareConfig { title: Some(title), ..self }),
    {
        ShareConfig { title: Some(title), ..self }
    }

    /// Set the parent.
    pub fn parent(self, parent: Path) -> (r: Self)
        ensures
            r == (ShareConfig { parent: Some(parent), ..self }),
    {
        ShareConfig { parent: Some(parent), ..self }
    }

    /// Set the shared items.
    pub fn items(self, items: Vec<Path>) -> (r: Self)
        ensures
            r == (ShareConfig { items: Some(items), ..self }),
    {
        ShareConfig { items: Some(items), ..self }
    }

    /// Set the recipients.
    pub fn recipients(self, recipients: Vec<UserId>) -> (r: Self)
        ensures
            r == (ShareConfig { recipients: Some(recipients), ..self }),
    {
        ShareConfig { recipients: Some(recipients), ..self }
    }

    /// Set the expiration day.
    pub fn expiration_date(self, expiration_date: SimpleDate) -> (r: Self)
        ensures
            r == (ShareConfig { expiration_date: Some(expiration_date), ..self }),
    {
        ShareConfig { expiration_date: Some(expiration_date), ..self }
    }

    /// Set whether downloads require login.
    pub fn require_login(self, require_login: bool) -> (r: Self)
        ensures
            r == (ShareConfig { require_login: Some(require_login), ..self }),
    {
        ShareConfig { require_login: Some(require_login), ..self }
    }

    /// Set whether downloads require user information.
    pub fn require_user_info(self, require_user_info: bool) -> (r: Self)
        ensures
            r == (ShareConfig { require_user_info: Some(require_user_info), ..self }),
    {
        ShareConfig { require_user_info: Some(require_user_info), ..self }
    }

    /// Set the maximum number of downloads per user.
    pub fn max_downloads(self, max_downloads: i32) -> (r: Self)
        ensures
            r == (ShareConfig { max_downloads: Some(max_downloads), ..self }),
    {
        ShareConfig { max_downloads: Some(max_downloads), ..self }
    }

    /// Validate the configuration: succeeds exactly when every path it
    /// names is resolved as the share kind requires.
    pub fn validate(&self) -> (r: ApiResult<()>)
        ensures
            r is Ok <==> valid_config(*self),
            r is Err ==> (r matches Err(e) && e is Other),
    {
        let mut errors = String::new();
        let mut ok = true;
        if self.is_send() {
            if let Some(parent) = &self.parent {
                if !parent.is_id() {
                    errors.append("Share Parent item must be resolved to Id first.\n");
                    ok = false;
                }
            }
            if let Some(items) = &self.items {
                let mut all_ids = true;
                let mut i: usize = 0;
                while i < items.len()
                    invariant
                        i <= items@.len(),
                        all_ids == (forall|k: int| 0 <= k < i ==> (#[trigger] items@[k]) is Id),
                    decreases items@.len() - i,
                {
                    if !items[i].is_id() {
                        all_ids = false;
                    }
                    i = i + 1;
                }
                if !all_ids {
                    errors.append("All Share Items must be resolved to Id first.\n");
                    ok = false;
                }
            }
        } else {
            match &self.parent {
                Some(parent) => {
                    if !parent.is_id() {
                        errors.append("Share Parent item must be resolved to Id first.\n");
                        ok = false;
                    }
                },
                None => {
                    errors.append("Request Share requires Parent.\n");
                    ok = false;
                },
            }
        }
        if ok {
            Ok(())
        } else {
            Err(Error::Other(errors))
        }
    }

    /// Render the configuration as the JSON body of a share-creation
    /// request.
    #[verifier::rlimit(100)]
    pub fn to_json(&self) -> (r: serde_json::Value)
        ensures
            json_rep(r) == config_json_of(*self),
    {
        let mut object = map_new();
        map_insert(&mut object, String::from_str("UsesStreamIDs"), value_bool(false));
        map_insert(&mut object, String::from_str("ShareType"), self.kind.to_json());
        if let Some(title) = &self.title {
            map_insert(&mut object, String::from_str("Title"), value_string(title.clone()));
        }
        let require_login = match &self.require_login {
            Some(b) => *b,
            None => false,
        };
        map_insert(&mut object, String::from_str("RequireLogin"), value_bool(require_login));
        let require_user_info = match &self.require_user_info {
            Some(b) => *b,
            None => false,
        };
        map_insert(
            &mut object,
            String::from_str("RequireUserInfo"),
            value_bool(require_user_info),
        );
        let max_downloads: i64 = match &self.max_downloads {
            Some(n) => if *n <= 0 {
                -1
            } else {
                *n as i64
            },
            None => -1,
        };
        map_insert(&mut object, String::from_str("MaxDownloads"), value_i64(max_downloads));
        if let Some(date) = &self.expiration_date {
            map_insert(
                &mut object,
                String::from_str("ExpirationDate"),
                value_string(date_to_string(date)),
            );
        }
        if let Some(recipients) = &self.recipients {
            let mut list: Vec<serde_json::Value> = Vec::new();
            let mut i: usize = 0;
            while i < recipients.len()
                invariant
                    i <= recipients@.len(),
                    list@.len() == i,
                    forall|j: int|
                        0 <= j < i ==> json_rep(#[trigger] list@[j]) == user_entry_rep(
                            recipients@[j],
                        ),
                decreases recipients@.len() - i,
            {
                let mut user_object = map_new();
                map_insert(&mut user_object, String::from_str("User"), recipients[i].to_json());
                let entry = value_object(user_object);
                proof {
                    assert(json_rep(entry) == user_entry_rep(recipients@[i as int]));
                }
                list.push(entry);
                i = i + 1;
            }
            proof {
                assert(list@.map_values(|x: serde_json::Value| json_rep(x)) =~= recipients@.map_values(
                    |u: UserId| user_entry_rep(u),
                ));
            }
            map_insert(&mut object, String::from_str("Recipients"), value_array(list));
        }
        if let Some(parent) = &self.parent {
            map_insert(&mut object, String::from_str("Parent"), parent.to_json());
        }
        if let Some(items) = &self.items {
            let mut list: Vec<serde_json::Value> = Vec::new();
            let mut i: usize = 0;
            while i < items.len()
                invariant
                    i <= items@.len(),
                    list@.len() == i,
                    forall|j: int|
                        0 <= j < i ==> json_rep(#[trigger] list@[j]) == path_json_of(items@[j]),
                decreases items@.len() - i,
            {
                list.push(items[i].to_json());
                i = i + 1;
            }
            proof {
                assert(list@.map_values(|x: serde_json::Value| json_rep(x)) =~= items@.map_values(
                    |p: Path| path_json_of(p),
                ));
            }
            map_insert(&mut object, String::from_str("Items"), value_array(list));
        }
        let r = value_object(object);
        assert(json_rep(r) == config_json_of(*self));
        r
    }
}

} // verus!
