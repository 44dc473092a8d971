//! Connection configuration builder.

use vstd::prelude::*;
use crate::connection::settings::ConnectionSettings;

verus! {

/// Connection configuration builder.
#[derive(Debug, Clone)]
pub struct ConnectionBuilder {
    /// The settings collected so far.
    pub settings: ConnectionSettings,
}

impl ConnectionBuilder {
    /// Create a builder with nothing configured.
    pub fn new() -> (r: Self)
        ensures
            r.settings.read_timeout.is_none(),
            r.settings.write_timeout.is_none(),
            r.settings.subdomain.is_none(),
            r.settings.username.is_none(),
            r.settings.password.is_none(),
            r.settings.client_id.is_none(),
            r.settings.client_secret.is_none(),
    {
        ConnectionBuilder { settings: ConnectionSettings::default() }
    }

    /// Set the read timeout.
    pub fn read_timeout(self, timeout: core::time::Duration) -> (r: Self)
        ensures
            r.settings == (ConnectionSettings { read_timeout: Some(timeout), ..self.settings }),
    {
        ConnectionBuilder {
            settings: ConnectionSettings { read_timeout: Some(timeout), ..self.settings },
        }
    }

    /// Set the write timeout.
    pub fn write_timeout(self, timeout: core::time::Duration) -> (r: Self)
        ensures
            r.settings == (ConnectionSettings { write_timeout: Some(timeout), ..self.settings }),
    {
        ConnectionBuilder {
            settings: ConnectionSettings { write_timeout: Some(timeout), ..self.settings },
        }
    }

    /// Set the subdomain.
    pub fn subdomain(self, subdomain: String) -> (r: Self)
        ensures
            r.settings == (ConnectionSettings { subdomain: Some(subdomain), ..self.settings }),
    {
        ConnectionBuilder {
            settings: ConnectionSettings { subdomain: Some(subdomain), ..self.settings },
        }
    }

    /// Set the username.
    pub fn username(self, username: String) -> (r: Self)
        ensures
            r.settings == (ConnectionSettings { username: Some(username), ..self.settings }),
    {
        ConnectionBuilder {
            settings: ConnectionSettings { username: Some(username), ..self.settings },
        }
    }

    /// Set the password.
    pub fn password(self, password: String) -> (r: Self)
        ensures
            r.settings == (ConnectionSettings { password: Some(password), ..self.settings }),
    {
        ConnectionBuilder {
            settings: ConnectionSettings { password: Some(password), ..self.settings },
        }
    }

    /// Set the client ID.
    pub fn client_id(self, client_id: String) -> (r: Self)
        ensures
            r.settings == (ConnectionSettings { client_id: Some(client_id), ..self.settings }),
    {
        ConnectionBuilder {
            settings: ConnectionSettings { client_id: Some(client_id), ..self.settings },
        }
    }

    /// Set the client secret.
    pub fn client_secret(self, client_secret: String) -> (r: Self)
        ensures
            r.settings == (ConnectionSettings {
                client_secret: Some(client_secret),
                ..self.settings
            }),
    {
        ConnectionBuilder {
            settings: ConnectionSettings { client_secret: Some(client_secret), ..self.settings },
        }
    }
}

} // verus!
