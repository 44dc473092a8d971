//! Connection settings.

use vstd::prelude::*;

verus! {

/// Connection settings. The subdomain, username, password, client ID and
/// client secret are all required before a connection can be opened.
#[derive(Debug, Clone)]
pub struct ConnectionSettings {
    /// Read timeout.
    pub read_timeout: Option<core::time::Duration>,
    /// Write timeout.
    pub write_timeout: Option<core::time::Duration>,
    /// Subdomain (required).
    pub subdomain: Option<String>,
    /// Username (required).
    pub username: Option<String>,
    /// Password (required).
    pub password: Option<String>,
    /// Client ID (required).
    pub client_id: Option<String>,
    /// Client secret (required).
    pub client_secret: Option<String>,
}

impl Default for ConnectionSettings {
    /// Settings with nothing configured.
    fn default() -> (r: ConnectionSettings)
        ensures
            r.read_timeout.is_none(),
            r.write_timeout.is_none(),
            r.subdomain.is_none(),
            r.username.is_none(),
            r.password.is_none(),
            r.client_id.is_none(),
            r.client_secret.is_none(),
    {
        ConnectionSettings {
            read_timeout: None,
            write_timeout: None,
            subdomain: None,
            username: None,
            password: None,
            client_id: None,
            client_secret: None,
        }
    }
}

} // verus!
